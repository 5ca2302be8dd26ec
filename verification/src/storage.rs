//! Storage of an account: a map from slot keys to values, kept as a list of
//! slots in which no key occurs twice.
use crate::primitives::U256;
use vstd::prelude::*;

verus! {

/// Whether some slot of the list has the key.
pub open spec fn holds_key<T>(slots: Seq<(U256, T)>, key: U256) -> bool {
    exists|i: int| 0 <= i < slots.len() && (#[trigger] slots[i]).0 == key
}

/// A place in the list at which the key stands, if there is one.
pub open spec fn position<T>(slots: Seq<(U256, T)>, key: U256) -> int {
    choose|i: int| 0 <= i < slots.len() && (#[trigger] slots[i]).0 == key
}

/// The map that a list of slots stands for.
pub open spec fn slots_map<T>(slots: Seq<(U256, T)>) -> Map<U256, T> {
    Map::new(|key: U256| holds_key(slots, key), |key: U256| slots[position(slots, key)].1)
}

/// No key occurs twice in the list.
pub open spec fn distinct_keys<T>(slots: Seq<(U256, T)>) -> bool {
    forall|i: int, j: int|
        0 <= i < j < slots.len() ==> (#[trigger] slots[i]).0 != (#[trigger] slots[j]).0
}

/// In a list without a repeated key, the map gives each slot's key the
/// slot's value.
pub proof fn lemma_slot_lookup<T>(slots: Seq<(U256, T)>, i: int)
    requires
        distinct_keys(slots),
        0 <= i < slots.len(),
    ensures
        slots_map(slots).contains_key(slots[i].0),
        slots_map(slots)[slots[i].0] == slots[i].1,
{
    let key = slots[i].0;
    let found = position(slots, key);
    assert(0 <= found < slots.len() && slots[found].0 == key);
    if found < i {
        assert(slots[found].0 != slots[i].0);
    } else if i < found {
        assert(slots[i].0 != slots[found].0);
    }
}

/// A list with one more slot, whose key the list did not hold, stands for
/// the map with that key more.
pub proof fn lemma_slot_added<T>(slots: Seq<(U256, T)>, key: U256, value: T)
    requires
        distinct_keys(slots),
        !holds_key(slots, key),
    ensures
        distinct_keys(slots.push((key, value))),
        slots_map(slots.push((key, value))) == slots_map(slots).insert(key, value),
{
    let longer = slots.push((key, value));
    assert(distinct_keys(longer)) by {
        assert forall|a: int, b: int| 0 <= a < b < longer.len() implies (#[trigger] longer[a]).0
            != (#[trigger] longer[b]).0 by {
            if b < slots.len() {
                assert(slots[a].0 != slots[b].0);
            } else {
                assert(slots[a].0 != key);
            }
        }
    }
    assert forall|k: U256| holds_key(longer, k) <==> (k == key || holds_key(slots, k)) by {
        if holds_key(longer, k) {
            let p = position(longer, k);
            if p < slots.len() {
                assert(slots[p].0 == k);
            }
        }
        if holds_key(slots, k) {
            assert(longer[position(slots, k)].0 == k);
        }
        if k == key {
            assert(longer[longer.len() - 1].0 == k);
        }
    }
    assert forall|k: U256| holds_key(longer, k) implies slots_map(longer)[k] == (if k == key {
        value
    } else {
        slots_map(slots)[k]
    }) by {
        if k == key {
            lemma_slot_lookup(longer, longer.len() - 1);
        } else {
            let p = position(slots, k);
            lemma_slot_lookup(slots, p);
            lemma_slot_lookup(longer, p);
        }
    }
    assert(slots_map(longer) =~= slots_map(slots).insert(key, value));
}

/// A list in which one slot holds another value stands for the map in which
/// the slot's key holds that value.
pub proof fn lemma_slot_replaced<T>(slots: Seq<(U256, T)>, i: int, value: T)
    requires
        distinct_keys(slots),
        0 <= i < slots.len(),
    ensures
        distinct_keys(slots.update(i, (slots[i].0, value))),
        slots_map(slots.update(i, (slots[i].0, value))) == slots_map(slots).insert(
            slots[i].0,
            value,
        ),
{
    let key = slots[i].0;
    let changed = slots.update(i, (key, value));
    lemma_slot_lookup(slots, i);
    assert(distinct_keys(changed)) by {
        assert forall|a: int, b: int| 0 <= a < b < changed.len() implies (#[trigger] changed[a]).0
            != (#[trigger] changed[b]).0 by {
            assert(slots[a].0 != slots[b].0);
        }
    }
    assert forall|k: U256| holds_key(changed, k) <==> holds_key(slots, k) by {
        if holds_key(changed, k) {
            assert(slots[position(changed, k)].0 == k);
        }
        if holds_key(slots, k) {
            assert(changed[position(slots, k)].0 == k);
        }
    }
    assert forall|k: U256| holds_key(changed, k) implies slots_map(changed)[k] == (if k == key {
        value
    } else {
        slots_map(slots)[k]
    }) by {
        let p = position(slots, k);
        lemma_slot_lookup(slots, p);
        lemma_slot_lookup(changed, p);
    }
    assert(slots_map(changed) =~= slots_map(slots).insert(key, value));
}

/// What the first `n + 1` slots of a list stand for, from what the first
/// `n` stand for.
pub proof fn lemma_slots_step<T>(slots: Seq<(U256, T)>, n: int)
    requires
        distinct_keys(slots),
        0 <= n < slots.len(),
    ensures
        distinct_keys(slots.take(n)),
        distinct_keys(slots.take(n + 1)),
        !slots_map(slots.take(n)).contains_key(slots[n].0),
        slots_map(slots.take(n + 1)) == slots_map(slots.take(n)).insert(slots[n].0, slots[n].1),
{
    let shorter = slots.take(n);
    assert(distinct_keys(shorter)) by {
        assert forall|a: int, b: int| 0 <= a < b < shorter.len() implies (#[trigger] shorter[a]).0
            != (#[trigger] shorter[b]).0 by {
            assert(slots[a].0 != slots[b].0);
        }
    }
    assert(!holds_key(shorter, slots[n].0)) by {
        if holds_key(shorter, slots[n].0) {
            let p = position(shorter, slots[n].0);
            assert(slots[p].0 != slots[n].0);
        }
    }
    assert(slots.take(n + 1) =~= shorter.push(slots[n]));
    lemma_slot_added(shorter, slots[n].0, slots[n].1);
}

/// A list without a repeated key has as many slots as its map has keys.
pub proof fn lemma_slots_count<T>(slots: Seq<(U256, T)>)
    requires
        distinct_keys(slots),
    ensures
        slots_map(slots).dom().finite(),
        slots_map(slots).dom().len() == slots.len(),
    decreases slots.len(),
{
    if slots.len() == 0 {
        assert(slots_map(slots).dom() =~= Set::<U256>::empty());
    } else {
        let n = slots.len() - 1;
        lemma_slots_step(slots, n);
        lemma_slots_count(slots.take(n));
        assert(slots.take(n + 1) =~= slots);
        assert(slots_map(slots).dom() =~= slots_map(slots.take(n)).dom().insert(slots[n].0));
    }
}

/// The storage of an account: what each slot key holds.
#[derive(Debug)]
pub struct Storage<T> {
    slots: Vec<(U256, T)>,
}

impl<T> View for Storage<T> {
    type V = Map<U256, T>;

    open spec fn view(&self) -> Map<U256, T> {
        slots_map(self.slots())
    }
}

impl<T> Storage<T> {
    #[verifier::type_invariant]
    spec fn keys_occur_once(self) -> bool {
        distinct_keys(self.slots@)
    }

    /// The slots in the order in which they are kept.
    pub closed spec fn slots(&self) -> Seq<(U256, T)> {
        self.slots@
    }
}

impl<T: Copy> Storage<T> {
    /// Storage without a slot.
    pub fn new() -> (storage: Self)
        ensures
            storage@ == Map::<U256, T>::empty(),
            storage.slots().len() == 0,
    {
        let storage = Storage { slots: Vec::new() };
        assert(storage@ =~= Map::<U256, T>::empty());
        storage
    }

    /// The number of slots.
    pub fn len(&self) -> (count: usize)
        ensures
            count == self.slots().len(),
            count == self@.dom().len(),
            self@.dom().finite(),
            distinct_keys(self.slots()),
    {
        proof {
            use_type_invariant(self);
            lemma_slots_count(self.slots@);
        }
        self.slots.len()
    }

    /// The slot at a place of the list.
    pub fn slot_at(&self, i: usize) -> (slot: (U256, T))
        requires
            i < self.slots().len(),
        ensures
            slot == self.slots()[i as int],
            self@.contains_key(slot.0),
            self@[slot.0] == slot.1,
    {
        proof {
            use_type_invariant(self);
            lemma_slot_lookup(self.slots@, i as int);
        }
        self.slots[i]
    }

    /// What the key holds, if it holds anything.
    pub fn get(&self, key: &U256) -> (value: Option<T>)
        ensures
            value == if self@.contains_key(*key) {
                Some(self@[*key])
            } else {
                None
            },
    {
        proof {
            use_type_invariant(self);
        }
        let mut i: usize = 0;
        while i < self.slots.len()
            invariant
                i <= self.slots@.len(),
                distinct_keys(self.slots@),
                forall|j: int| 0 <= j < i ==> (#[trigger] self.slots@[j]).0 != *key,
            decreases self.slots@.len() - i,
        {
            if self.slots[i].0 == *key {
                proof {
                    lemma_slot_lookup(self.slots@, i as int);
                }
                return Some(self.slots[i].1);
            }
            i += 1;
        }
        None
    }

    /// Lets the key hold the value, and returns what it held before.
    pub fn insert(&mut self, key: U256, value: T) -> (previous: Option<T>)
        ensures
            final(self)@ == old(self)@.insert(key, value),
            previous == if old(self)@.contains_key(key) {
                Some(old(self)@[key])
            } else {
                None
            },
    {
        proof {
            use_type_invariant(&*self);
        }
        let mut slots: Vec<(U256, T)> = Vec::new();
        core::mem::swap(&mut slots, &mut self.slots);
        let ghost before = slots@;
        let mut i: usize = 0;
        while i < slots.len()
            invariant
                i <= slots@.len(),
                slots@ == before,
                before == old(self).slots(),
                distinct_keys(before),
                forall|j: int| 0 <= j < i ==> (#[trigger] before[j]).0 != key,
            decreases slots@.len() - i,
        {
            if slots[i].0 == key {
                let held = slots[i].1;
                slots[i] = (key, value);
                proof {
                    lemma_slot_lookup(before, i as int);
                    lemma_slot_replaced(before, i as int, value);
                    assert(slots@ =~= before.update(i as int, (key, value)));
                }
                self.slots = slots;
                return Some(held);
            }
            i += 1;
        }
        slots.push((key, value));
        proof {
            lemma_slot_added(before, key, value);
        }
        self.slots = slots;
        None
    }
}

impl<T: Copy> Clone for Storage<T> {
    fn clone(&self) -> (copy: Self)
        ensures
            copy.slots() == self.slots(),
            copy@ == self@,
    {
        proof {
            use_type_invariant(self);
        }
        let mut slots: Vec<(U256, T)> = Vec::new();
        let mut i: usize = 0;
        while i < self.slots.len()
            invariant
                i <= self.slots@.len(),
                slots@ == self.slots@.take(i as int),
            decreases self.slots@.len() - i,
        {
            slots.push(self.slots[i]);
            assert(slots@ =~= self.slots@.take(i + 1));
            i += 1;
        }
        assert(slots@ =~= self.slots@);
        Storage { slots }
    }
}

/// A storage slot of a transition: what it held before, and what it holds
/// now.
#[derive(Clone, Copy, Debug, PartialEq, Eq, Structural)]
pub struct StorageSlot {
    pub previous_or_original_value: U256,
    pub present_value: U256,
}

impl StorageSlot {
    /// A slot that holds what it held before.
    pub fn new(original: U256) -> (slot: StorageSlot)
        ensures
            slot == (StorageSlot { previous_or_original_value: original, present_value: original }),
    {
        StorageSlot { previous_or_original_value: original, present_value: original }
    }

    /// A slot with a previous and a present value.
    pub fn new_changed(previous_or_original_value: U256, present_value: U256) -> (slot:
        StorageSlot)
        ensures
            slot == (StorageSlot { previous_or_original_value, present_value }),
    {
        StorageSlot { previous_or_original_value, present_value }
    }

    /// Whether the present value differs from the previous one.
    pub open spec fn spec_is_changed(&self) -> bool {
        self.previous_or_original_value != self.present_value
    }

    /// Whether the present value differs from the previous one.
    #[verifier::when_used_as_spec(spec_is_changed)]
    pub fn is_changed(&self) -> (changed: bool)
        ensures
            changed == self.spec_is_changed(),
    {
        self.previous_or_original_value != self.present_value
    }
}

/// A storage slot as an execution leaves it: the value that it had when the
/// execution began, and the value that it has now.
#[derive(Clone, Copy, Debug, PartialEq, Eq, Structural)]
pub struct EvmStorageSlot {
    pub original_value: U256,
    pub present_value: U256,
}

impl EvmStorageSlot {
    /// A slot that the execution left as it was.
    pub fn new(original: U256) -> (slot: EvmStorageSlot)
        ensures
            slot == (EvmStorageSlot { original_value: original, present_value: original }),
            !slot.spec_is_changed(),
    {
        EvmStorageSlot { original_value: original, present_value: original }
    }

    /// A slot with an original and a present value.
    pub fn new_changed(original_value: U256, present_value: U256) -> (slot: EvmStorageSlot)
        ensures
            slot == (EvmStorageSlot { original_value, present_value }),
    {
        EvmStorageSlot { original_value, present_value }
    }

    /// Whether the present value differs from the original one.
    pub open spec fn spec_is_changed(&self) -> bool {
        self.original_value != self.present_value
    }

    /// Whether the present value differs from the original one.
    #[verifier::when_used_as_spec(spec_is_changed)]
    pub fn is_changed(&self) -> (changed: bool)
        ensures
            changed == self.spec_is_changed(),
    {
        self.original_value != self.present_value
    }

    /// The slot as a transition records it.
    pub open spec fn spec_to_slot(&self) -> StorageSlot {
        StorageSlot {
            previous_or_original_value: self.original_value,
            present_value: self.present_value,
        }
    }

    /// The slot as a transition records it.
    #[verifier::when_used_as_spec(spec_to_slot)]
    pub fn to_slot(&self) -> (slot: StorageSlot)
        ensures
            slot == self.spec_to_slot(),
    {
        StorageSlot {
            previous_or_original_value: self.original_value,
            present_value: self.present_value,
        }
    }
}

/// What each slot of an account holds.
pub type PlainStorage = Storage<U256>;

/// The slots that a transition changed, each with its previous value.
pub type StorageWithOriginalValues = Storage<StorageSlot>;

/// The slots that an execution read or wrote.
pub type EvmStorage = Storage<EvmStorageSlot>;

/// Of the slots of an execution, those whose value changed.
pub open spec fn changed_slots(storage: Map<U256, EvmStorageSlot>) -> Map<U256, StorageSlot> {
    Map::new(
        |key: U256| storage.contains_key(key) && storage[key].spec_is_changed(),
        |key: U256| storage[key].spec_to_slot(),
    )
}

/// The present value of each slot.
pub open spec fn present_values(changes: Map<U256, StorageSlot>) -> Map<U256, U256> {
    Map::new(|key: U256| changes.contains_key(key), |key: U256| changes[key].present_value)
}

/// The storage after the changes: a changed slot holds its present value,
/// every other slot what it held.
pub open spec fn with_changes(plain: Map<U256, U256>, changes: Map<U256, StorageSlot>) -> Map<
    U256,
    U256,
> {
    plain.union_prefer_right(present_values(changes))
}

/// Keeps the slots that the execution changed, each with its original value.
pub fn changed_storage(storage: &EvmStorage) -> (changes: StorageWithOriginalValues)
    ensures
        changes@ == changed_slots(storage@),
{
    let count = storage.len();
    let mut changes: StorageWithOriginalValues = Storage::new();
    let mut i: usize = 0;
    assert(storage.slots().take(0) =~= Seq::<(U256, EvmStorageSlot)>::empty());
    assert(changes@ =~= changed_slots(slots_map(storage.slots().take(0))));
    while i < count
        invariant
            i <= count,
            count == storage.slots().len(),
            distinct_keys(storage.slots()),
            changes@ == changed_slots(slots_map(storage.slots().take(i as int))),
        decreases count - i,
    {
        let (key, slot) = storage.slot_at(i);
        proof {
            lemma_slots_step(storage.slots(), i as int);
        }
        if slot.is_changed() {
            changes.insert(key, slot.to_slot());
        }
        assert(changes@ =~= changed_slots(slots_map(storage.slots().take(i + 1))));
        i += 1;
    }
    assert(storage.slots().take(count as int) =~= storage.slots());
    changes
}

/// Lets each changed slot hold its present value.
pub fn apply_changes(plain: &mut PlainStorage, changes: &StorageWithOriginalValues)
    ensures
        final(plain)@ == with_changes(old(plain)@, changes@),
{
    let count = changes.len();
    let mut i: usize = 0;
    assert(changes.slots().take(0) =~= Seq::<(U256, StorageSlot)>::empty());
    assert(plain@ =~= with_changes(old(plain)@, slots_map(changes.slots().take(0))));
    while i < count
        invariant
            i <= count,
            count == changes.slots().len(),
            distinct_keys(changes.slots()),
            plain@ == with_changes(old(plain)@, slots_map(changes.slots().take(i as int))),
        decreases count - i,
    {
        let (key, slot) = changes.slot_at(i);
        proof {
            lemma_slots_step(changes.slots(), i as int);
        }
        plain.insert(key, slot.present_value);
        assert(plain@ =~= with_changes(old(plain)@, slots_map(changes.slots().take(i + 1))));
        i += 1;
    }
    assert(changes.slots().take(count as int) =~= changes.slots());
}

/// The storage that holds the present value of each changed slot.
pub fn present_storage(changes: &StorageWithOriginalValues) -> (plain: PlainStorage)
    ensures
        plain@ == present_values(changes@),
{
    let mut plain: PlainStorage = Storage::new();
    apply_changes(&mut plain, changes);
    assert(plain@ =~= present_values(changes@));
    plain
}

} // verus!
