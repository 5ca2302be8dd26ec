//! The cache of accounts and contract code, and the step that takes the
//! outcome of an execution batch into it.
use crate::account::{
    option_view, Account, AccountInfo, AccountInfoView, AccountView, PlainAccount,
    PlainAccountView,
};
use crate::account_status::AccountStatus;
use crate::cache_account::{CacheAccount, CacheAccountView};
use crate::maps::{
    account_entries, add_contract_if_absent, contract_entries, copy_account_map,
    copy_contract_map, find_account, find_contract, has_account, list_accounts, new_account_map,
    new_contract_map, put_account, take_account, AccountMap, ContractMap,
};
use crate::primitives::{Address, Bytecode, B256, U256};
use crate::storage::{changed_slots, changed_storage, PlainStorage, Storage};
use crate::transition_account::{TransitionAccount, TransitionAccountView};
use vstd::prelude::*;

verus! {

/// The outcome of an execution batch: what the execution made of each
/// account that it came by, in the order in which the accounts are taken
/// into the cache.
pub type EvmState = Vec<(Address, Account)>;

/// The accounts of a map as plain values.
pub open spec fn account_views(entries: Map<Address, CacheAccount>) -> Map<
    Address,
    CacheAccountView,
> {
    Map::new(|address: Address| entries.contains_key(address), |address: Address| entries[address]@)
}

/// The contract code of a map as plain values.
pub open spec fn contract_views(entries: Map<B256, Bytecode>) -> Map<B256, Seq<u8>> {
    Map::new(|hash: B256| entries.contains_key(hash), |hash: B256| entries[hash]@)
}

/// A batch as plain values.
pub open spec fn batch_view(batch: Seq<(Address, Account)>) -> Seq<(Address, AccountView)> {
    Seq::new(batch.len(), |i: int| (batch[i].0, batch[i].1@))
}

/// A list of records as plain values.
pub open spec fn records_view(records: Seq<(Address, TransitionAccount)>) -> Seq<
    (Address, TransitionAccountView),
> {
    Seq::new(records.len(), |i: int| (records[i].0, records[i].1@))
}

/// The entry of an account after the cache took in what an execution made of
/// the account. What is not touched stays as it is. Of the rest, what was
/// destroyed is destroyed, whatever else holds of it; what was created is
/// created; what is empty is cleared or kept empty, as `state_clear` says;
/// and all else is changed.
pub open spec fn entry_after(
    entry: CacheAccountView,
    account: AccountView,
    state_clear: bool,
) -> CacheAccountView {
    if !account.touched {
        entry
    } else if account.selfdestructed {
        entry.after_selfdestruct()
    } else if account.created {
        entry.after_creation(account.info, changed_slots(account.storage))
    } else if account.info.is_empty() {
        if state_clear {
            entry.after_touch_empty()
        } else {
            entry.after_touch_create(changed_slots(account.storage))
        }
    } else {
        entry.after_change(account.info, changed_slots(account.storage))
    }
}

/// The record of that step, if it has one.
pub open spec fn transition_of(
    entry: CacheAccountView,
    account: AccountView,
    state_clear: bool,
) -> Option<TransitionAccountView> {
    if !account.touched {
        None
    } else if account.selfdestructed {
        entry.selfdestruct_record()
    } else if account.created {
        Some(entry.creation_record(account.info, changed_slots(account.storage)))
    } else if account.info.is_empty() {
        if state_clear {
            entry.touch_empty_record()
        } else {
            entry.touch_create_record(changed_slots(account.storage))
        }
    } else {
        Some(entry.change_record(account.info, changed_slots(account.storage)))
    }
}

/// Whether the step takes the account's code into the contract code: the
/// account was created and not destroyed, and its code is at hand.
pub open spec fn brings_code(account: AccountView) -> bool {
    account.touched && !account.selfdestructed && account.created && account.info.code is Some
}

/// The contract code after code was put under a hash: where something stood
/// under the hash already, it stays, and the code is dropped.
pub open spec fn with_contract(contracts: Map<B256, Seq<u8>>, hash: B256, code: Seq<u8>) -> Map<
    B256,
    Seq<u8>,
> {
    if contracts.contains_key(hash) {
        contracts
    } else {
        contracts.insert(hash, code)
    }
}

/// The contract code after the step: the code of a created account is put
/// under its hash.
pub open spec fn contracts_after(contracts: Map<B256, Seq<u8>>, account: AccountView) -> Map<
    B256,
    Seq<u8>,
> {
    if brings_code(account) {
        with_contract(contracts, account.info.code_hash, account.info.code->0)
    } else {
        contracts
    }
}

/// The entry of an address at which no account was found.
pub open spec fn absent_entry() -> CacheAccountView {
    CacheAccountView { account: None, status: AccountStatus::LoadedNotExisting }
}

/// The entry of an account as it was loaded: an account that is not empty
/// is held as it is, an empty one as the empty account.
pub open spec fn loaded_entry(info: AccountInfoView, storage: Map<U256, U256>) -> CacheAccountView {
    if !info.is_empty() {
        CacheAccountView {
            account: Some(PlainAccountView { info, storage }),
            status: AccountStatus::Loaded,
        }
    } else {
        CacheAccountView {
            account: Some(PlainAccountView { info: AccountInfoView::empty(), storage }),
            status: AccountStatus::LoadedEmptyEIP161,
        }
    }
}

/// A [`CacheState`] as plain values.
pub struct CacheStateView {
    pub accounts: Map<Address, CacheAccountView>,
    pub contracts: Map<B256, Seq<u8>>,
    pub has_state_clear: bool,
}

impl CacheStateView {
    /// The cache after it took in what an execution made of one account.
    pub open spec fn apply_account(self, address: Address, account: AccountView) -> CacheStateView {
        if !account.touched {
            self
        } else {
            CacheStateView {
                accounts: self.accounts.insert(
                    address,
                    entry_after(self.accounts[address], account, self.has_state_clear),
                ),
                contracts: contracts_after(self.contracts, account),
                has_state_clear: self.has_state_clear,
            }
        }
    }

    /// The record of that step, if it has one.
    pub open spec fn account_record(self, address: Address, account: AccountView) -> Option<
        TransitionAccountView,
    > {
        transition_of(self.accounts[address], account, self.has_state_clear)
    }

    /// The cache after it took in a batch, account by account.
    pub open spec fn apply_batch(self, batch: Seq<(Address, AccountView)>) -> CacheStateView
        decreases batch.len(),
    {
        if batch.len() == 0 {
            self
        } else {
            self.apply_batch(batch.drop_last()).apply_account(batch.last().0, batch.last().1)
        }
    }

    /// The records of a batch: for each account of the batch whose step has
    /// a record, the address and the record, in the order of the batch.
    pub open spec fn batch_records(self, batch: Seq<(Address, AccountView)>) -> Seq<
        (Address, TransitionAccountView),
    >
        decreases batch.len(),
    {
        if batch.len() == 0 {
            Seq::empty()
        } else {
            let front = self.batch_records(batch.drop_last());
            let before = self.apply_batch(batch.drop_last());
            match before.account_record(batch.last().0, batch.last().1) {
                Some(record) => front.push((batch.last().0, record)),
                None => front,
            }
        }
    }

    /// Every touched account of the batch has an entry in the cache.
    pub open spec fn covers(self, batch: Seq<(Address, AccountView)>) -> bool {
        forall|i: int|
            0 <= i < batch.len() && (#[trigger] batch[i]).1.touched
                ==> self.accounts.contains_key(batch[i].0)
    }
}

/// A batch adds no address to the cache and takes none away, where every
/// touched account of it has an entry.
pub proof fn lemma_batch_keeps_addresses(state: CacheStateView, batch: Seq<(Address, AccountView)>)
    requires
        state.covers(batch),
    ensures
        state.apply_batch(batch).accounts.dom() == state.accounts.dom(),
        state.apply_batch(batch).has_state_clear == state.has_state_clear,
    decreases batch.len(),
{
    if batch.len() > 0 {
        let front = batch.drop_last();
        assert(state.covers(front)) by {
            assert forall|i: int| 0 <= i < front.len() && (#[trigger] front[i]).1.touched
            implies state.accounts.contains_key(front[i].0) by {
                assert(front[i] == batch[i]);
            }
        }
        lemma_batch_keeps_addresses(state, front);
        let before = state.apply_batch(front);
        let last = batch[batch.len() - 1];
        if last.1.touched {
            assert(before.accounts.contains_key(last.0));
            assert(before.apply_account(last.0, last.1).accounts.dom() =~= before.accounts.dom());
        }
    }
}

/// The accounts and the contract code that were loaded, and what the
/// batches that were applied made of them.
#[derive(Debug)]
pub struct CacheState {
    /// The cached accounts.
    accounts: AccountMap,
    /// The code of the contracts that were created.
    contracts: ContractMap,
    /// Whether empty accounts are cleared when they are touched.
    has_state_clear: bool,
}

impl View for CacheState {
    type V = CacheStateView;

    closed spec fn view(&self) -> CacheStateView {
        CacheStateView {
            accounts: account_views(account_entries(self.accounts)),
            contracts: contract_views(contract_entries(self.contracts)),
            has_state_clear: self.has_state_clear,
        }
    }
}

impl Clone for CacheState {
    fn clone(&self) -> (copy: Self)
        ensures
            copy@ == self@,
    {
        let copy = CacheState {
            accounts: copy_account_map(&self.accounts),
            contracts: copy_contract_map(&self.contracts),
            has_state_clear: self.has_state_clear,
        };
        assert(copy@.accounts =~= self@.accounts);
        assert(copy@.contracts =~= self@.contracts);
        copy
    }
}

impl Default for CacheState {
    fn default() -> (state: Self)
        ensures
            state@ == (CacheStateView {
                accounts: Map::empty(),
                contracts: Map::empty(),
                has_state_clear: true,
            }),
    {
        Self::new(true)
    }
}

impl CacheState {
    /// A cache without an account and without contract code.
    pub fn new(has_state_clear: bool) -> (state: Self)
        ensures
            state@ == (CacheStateView {
                accounts: Map::empty(),
                contracts: Map::empty(),
                has_state_clear,
            }),
    {
        let state = CacheState {
            accounts: new_account_map(),
            contracts: new_contract_map(),
            has_state_clear,
        };
        assert(state@.accounts =~= Map::empty());
        assert(state@.contracts =~= Map::empty());
        state
    }

    /// Says whether empty accounts are cleared when they are touched.
    pub fn set_state_clear_flag(&mut self, has_state_clear: bool)
        ensures
            final(self)@ == (CacheStateView { has_state_clear, ..old(self)@ }),
    {
        self.has_state_clear = has_state_clear;
    }

    /// Whether empty accounts are cleared when they are touched.
    pub fn has_state_clear(&self) -> (flag: bool)
        ensures
            flag == self@.has_state_clear,
    {
        self.has_state_clear
    }

    /// Whether the cache has an entry for the address.
    pub fn contains_account(&self, address: &Address) -> (held: bool)
        ensures
            held == self@.accounts.contains_key(*address),
    {
        has_account(&self.accounts, address)
    }

    /// A copy of the entry of the address, if the cache has one.
    pub fn account(&self, address: &Address) -> (entry: Option<CacheAccount>)
        ensures
            option_view(entry) == if self@.accounts.contains_key(*address) {
                Some(self@.accounts[*address])
            } else {
                None
            },
    {
        find_account(&self.accounts, address)
    }

    /// A copy of the contract code under the hash, if the cache has it.
    pub fn contract(&self, hash: &B256) -> (code: Option<Bytecode>)
        ensures
            option_view(code) == if self@.contracts.contains_key(*hash) {
                Some(self@.contracts[*hash])
            } else {
                None
            },
    {
        find_contract(&self.contracts, hash)
    }

    /// Puts contract code under its hash, unless code stands under the hash
    /// already: then the cache stays as it is.
    pub fn insert_contract_if_absent(&mut self, code_hash: B256, code: Bytecode)
        ensures
            final(self)@ == (CacheStateView {
                contracts: with_contract(old(self)@.contracts, code_hash, code@),
                ..old(self)@
            }),
    {
        add_contract_if_absent(&mut self.contracts, code_hash, code);
        assert(self@.contracts =~= with_contract(old(self)@.contracts, code_hash, code@));
    }

    /// The accounts that exist, each with its address: every address whose
    /// entry holds an account comes once, in no stated order.
    pub fn trie_account(&self) -> (listed: Vec<(Address, PlainAccount)>)
        ensures
            forall|i: int|
                0 <= i < listed@.len() ==> self@.accounts.contains_key((#[trigger] listed@[i]).0)
                    && self@.accounts[listed@[i].0].account == Some(listed@[i].1@),
            forall|i: int, j: int|
                0 <= i < j < listed@.len()
                    ==> (#[trigger] listed@[i]).0 != (#[trigger] listed@[j]).0,
            forall|address: Address|
                self@.accounts.contains_key(address)
                    && (#[trigger] self@.accounts[address]).account is Some
                    ==> exists|i: int|
                    0 <= i < listed@.len() && (#[trigger] listed@[i]).0 == address,
    {
        let entries = list_accounts(&self.accounts);
        let mut listed: Vec<(Address, PlainAccount)> = Vec::new();
        let ghost mut origin: Seq<int> = Seq::empty();
        let mut i: usize = 0;
        while i < entries.len()
            invariant
                i <= entries@.len(),
                origin.len() == listed@.len(),
                forall|k: int|
                    0 <= k < origin.len() ==> 0 <= (#[trigger] origin[k]) < i
                        && listed@[k].0 == entries@[origin[k]].0
                        && entries@[origin[k]].1@.account == Some(listed@[k].1@),
                forall|k: int, l: int|
                    0 <= k < l < origin.len() ==> (#[trigger] origin[k]) < (#[trigger] origin[l]),
                forall|j: int|
                    0 <= j < i && (#[trigger] entries@[j]).1@.account is Some
                        ==> exists|k: int| 0 <= k < origin.len() && (#[trigger] origin[k]) == j,
            decreases entries@.len() - i,
        {
            match entries[i].1.account() {
                Some(account) => {
                    listed.push((entries[i].0, account.clone()));
                    proof {
                        let ghost before = origin;
                        origin = origin.push(i as int);
                        assert forall|j: int|
                            0 <= j < i + 1 && (#[trigger] entries@[j]).1@.account is Some
                        implies exists|k: int|
                            0 <= k < origin.len() && (#[trigger] origin[k]) == j by {
                            if j < i {
                                let k = choose|k: int|
                                    0 <= k < before.len() && (#[trigger] before[k]) == j;
                                assert(origin[k] == j);
                            } else {
                                assert(origin[origin.len() - 1] == j);
                            }
                        }
                    }
                },
                None => {},
            }
            i += 1;
        }
        proof {
            assert forall|i: int| 0 <= i < listed@.len() implies self@.accounts.contains_key(
                (#[trigger] listed@[i]).0,
            ) && self@.accounts[listed@[i].0].account == Some(listed@[i].1@) by {
                let found = entries@[origin[i]];
                assert(account_entries(self.accounts).contains_key(found.0));
            }
            assert forall|a: int, b: int| 0 <= a < b < listed@.len() implies (
            #[trigger] listed@[a]).0 != (#[trigger] listed@[b]).0 by {
                assert(origin[a] < origin[b]);
                assert(entries@[origin[a]].0 != entries@[origin[b]].0);
            }
            assert forall|address: Address|
                self@.accounts.contains_key(address)
                    && (#[trigger] self@.accounts[address]).account is Some
            implies exists|i: int|
                0 <= i < listed@.len() && (#[trigger] listed@[i]).0 == address by {
                assert(account_entries(self.accounts).contains_key(address));
                let j = choose|j: int|
                    0 <= j < entries@.len() && (#[trigger] entries@[j]).0 == address;
                assert(entries@[j].1@.account is Some);
                let k = choose|k: int| 0 <= k < origin.len() && (#[trigger] origin[k]) == j;
                assert(listed@[k].0 == address);
            }
        }
        listed
    }

    /// Takes in an address at which no account was found.
    pub fn insert_not_existing(&mut self, address: Address)
        ensures
            final(self)@ == (CacheStateView {
                accounts: old(self)@.accounts.insert(address, absent_entry()),
                ..old(self)@
            }),
    {
        put_account(&mut self.accounts, address, CacheAccount::new_loaded_not_existing());
        assert(self@.accounts =~= old(self)@.accounts.insert(address, absent_entry()));
    }

    /// Takes in an account as it was loaded, without storage. An empty
    /// account is taken in as the empty account.
    pub fn insert_account(&mut self, address: Address, info: AccountInfo)
        ensures
            final(self)@ == (CacheStateView {
                accounts: old(self)@.accounts.insert(address, loaded_entry(info@, Map::empty())),
                ..old(self)@
            }),
    {
        let account = if !info.is_empty() {
            CacheAccount::new_loaded(info, Storage::new())
        } else {
            CacheAccount::new_loaded_empty_eip161(Storage::new())
        };
        put_account(&mut self.accounts, address, account);
        assert(self@.accounts =~= old(self)@.accounts.insert(
            address,
            loaded_entry(info@, Map::empty()),
        ));
    }

    /// Takes in an account as it was loaded, with what is known of its
    /// storage. An empty account is taken in as the empty account, with that
    /// storage.
    pub fn insert_account_with_storage(
        &mut self,
        address: Address,
        info: AccountInfo,
        storage: PlainStorage,
    )
        ensures
            final(self)@ == (CacheStateView {
                accounts: old(self)@.accounts.insert(address, loaded_entry(info@, storage@)),
                ..old(self)@
            }),
    {
        let account = if !info.is_empty() {
            CacheAccount::new_loaded(info, storage)
        } else {
            CacheAccount::new_loaded_empty_eip161(storage)
        };
        put_account(&mut self.accounts, address, account);
        assert(self@.accounts =~= old(self)@.accounts.insert(
            address,
            loaded_entry(info@, storage@),
        ));
    }

    /// Takes in what an execution made of one account, and returns the
    /// record of what that did to the account, if it did anything that can
    /// be observed. An account that is not touched leaves the cache as it
    /// is. A touched account must have an entry.
    pub fn apply_account_state(&mut self, address: Address, account: Account) -> (record: Option<
        TransitionAccount,
    >)
        requires
            account@.touched ==> old(self)@.accounts.contains_key(address),
        ensures
            final(self)@ == old(self)@.apply_account(address, account@),
            option_view(record) == old(self)@.account_record(address, account@),
            !account@.touched ==> record is None && final(self)@ == old(self)@,
            account@.touched && account@.selfdestructed
                ==> final(self)@.contracts == old(self)@.contracts,
            account@.touched && account@.selfdestructed
                ==> (record matches Some(destroyed) ==> destroyed@.is_removal()),
    {
        if !account.is_touched() {
            return None;
        }
        let mut this_account = take_account(&mut self.accounts, &address).expect(
            "All accounts should be present inside cache",
        );
        let record = if account.is_selfdestructed() {
            this_account.selfdestruct()
        } else {
            let is_created = account.is_created();
            let is_empty = account.is_empty();
            let changed = changed_storage(&account.storage);
            if is_created {
                match &account.info.code {
                    Some(code) => {
                        add_contract_if_absent(
                            &mut self.contracts,
                            account.info.code_hash,
                            code.clone(),
                        );
                    },
                    None => {},
                }
                Some(this_account.newly_created(account.info, changed))
            } else if is_empty {
                if self.has_state_clear {
                    this_account.touch_empty_eip161()
                } else {
                    this_account.touch_create_pre_eip161(changed)
                }
            } else {
                Some(this_account.change(account.info, changed))
            }
        };
        put_account(&mut self.accounts, address, this_account);
        proof {
            let after = old(self)@.apply_account(address, account@);
            assert(self@.accounts =~= after.accounts);
            assert(self@.contracts =~= after.contracts);
        }
        record
    }

    /// Takes in the outcome of an execution batch, account by account in
    /// the order of the batch, and returns the records of what that did: for
    /// each account to which it did something that can be observed, the
    /// address and the record, in the order of the batch. Every touched
    /// account of the batch must have an entry.
    pub fn apply_evm_state(&mut self, evm_state: EvmState) -> (transitions: Vec<
        (Address, TransitionAccount),
    >)
        requires
            old(self)@.covers(batch_view(evm_state@)),
        ensures
            final(self)@ == old(self)@.apply_batch(batch_view(evm_state@)),
            records_view(transitions@) == old(self)@.batch_records(batch_view(evm_state@)),
    {
        let ghost batch = batch_view(evm_state@);
        let mut transitions: Vec<(Address, TransitionAccount)> = Vec::with_capacity(
            evm_state.len(),
        );
        assert(batch.take(0) =~= Seq::empty());
        assert(records_view(transitions@) =~= Seq::empty());
        for pair in it: evm_state
            invariant
                it.seq() == evm_state@,
                batch == batch_view(evm_state@),
                old(self)@.covers(batch),
                self@ == old(self)@.apply_batch(batch.take(it.index() as int)),
                records_view(transitions@) == old(self)@.batch_records(
                    batch.take(it.index() as int),
                ),
        {
            let ghost done = it.index() as int;
            let (address, account) = pair;
            proof {
                let front = batch.take(done);
                assert(batch[done] == (address, account@));
                assert(batch.take(done + 1).drop_last() =~= front);
                assert(batch.take(done + 1).last() == batch[done]);
                assert(old(self)@.covers(front)) by {
                    assert forall|i: int| 0 <= i < front.len() && (#[trigger] front[i]).1.touched
                    implies old(self)@.accounts.contains_key(front[i].0) by {
                        assert(front[i] == batch[i]);
                    }
                }
                lemma_batch_keeps_addresses(old(self)@, front);
            }
            let ghost before = records_view(transitions@);
            match self.apply_account_state(address, account) {
                Some(transition) => {
                    transitions.push((address, transition));
                    assert(records_view(transitions@) =~= before.push((address, transition@)));
                },
                None => {},
            }
        }
        assert(batch.take(batch.len() as int) =~= batch);
        transitions
    }

    /// The first touched account of the batch that has no entry in the
    /// cache, by its place in the batch; `None` where every touched account
    /// has one, so that the batch can be applied.
    pub fn missing_account(&self, evm_state: &EvmState) -> (missing: Option<usize>)
        ensures
            missing is None <==> self@.covers(batch_view(evm_state@)),
            missing matches Some(place) ==> place < evm_state@.len()
                && evm_state@[place as int].1@.touched
                && !self@.accounts.contains_key(evm_state@[place as int].0)
                && self@.covers(batch_view(evm_state@).take(place as int)),
    {
        let ghost batch = batch_view(evm_state@);
        let mut i: usize = 0;
        while i < evm_state.len()
            invariant
                i <= evm_state@.len(),
                batch == batch_view(evm_state@),
                self@.covers(batch.take(i as int)),
            decreases evm_state@.len() - i,
        {
            let touched = evm_state[i].1.is_touched();
            if touched && !self.contains_account(&evm_state[i].0) {
                assert(batch[i as int].1.touched);
                return Some(i);
            }
            assert(self@.covers(batch.take(i + 1))) by {
                let longer = batch.take(i + 1);
                assert forall|j: int| 0 <= j < longer.len() && (#[trigger] longer[j]).1.touched
                implies self@.accounts.contains_key(longer[j].0) by {
                    if j < i {
                        assert(batch.take(i as int)[j] == longer[j]);
                    }
                }
            }
            i += 1;
        }
        assert(batch.take(batch.len() as int) =~= batch);
        None
    }
}

} // verus!
