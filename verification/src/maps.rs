//! The two concurrent maps of the cache: accounts by address, and contract
//! code by code hash. Both are `dashmap::DashMap`s that hash with
//! [`SuffixHasher`](crate::hasher::SuffixHasher). What Verus knows of them
//! is what the functions of this file state, which was read off the maps'
//! source and is not proved.
//!
//! A key is hashed as `derive(Hash)` writes it: the length of its byte array
//! as a `usize`, then the bytes. The hasher asks for eight bytes at least in
//! each write, so the maps are for machines on which a `usize` has eight
//! bytes: what is stated here holds there.
use crate::cache_account::CacheAccount;
use crate::hasher::BuildSuffixHasher;
use crate::primitives::{Address, Bytecode, B256};
use dashmap::DashMap;
use vstd::prelude::*;

verus! {

/// `dashmap::DashMap`, a hash map that can be changed through a shared
/// reference. Nothing is said of what is in it but through
/// [`account_entries`] and [`contract_entries`].
#[verifier::external_type_specification]
#[verifier::external_body]
#[verifier::reject_recursive_types(K)]
#[verifier::reject_recursive_types(V)]
#[verifier::reject_recursive_types(S)]
pub struct ExDashMap<K, V, S>(DashMap<K, V, S>);

/// The map from addresses to cached accounts.
pub type AccountMap = DashMap<Address, CacheAccount, BuildSuffixHasher>;

/// The map from code hashes to contract code.
pub type ContractMap = DashMap<B256, Bytecode, BuildSuffixHasher>;

/// The entries of a map of accounts.
pub uninterp spec fn account_entries(map: AccountMap) -> Map<Address, CacheAccount>;

/// The entries of a map of contract code.
pub uninterp spec fn contract_entries(map: ContractMap) -> Map<B256, Bytecode>;

/// `DashMap::default`, which makes a map with a default hasher: the map has
/// no entry.
#[verifier::external_body]
pub(crate) fn new_account_map() -> (map: AccountMap)
    ensures
        account_entries(map) == (Map::<Address, CacheAccount>::empty()),
{
    DashMap::default()
}

/// `DashMap::default`, which makes a map with a default hasher: the map has
/// no entry.
#[verifier::external_body]
pub(crate) fn new_contract_map() -> (map: ContractMap)
    ensures
        contract_entries(map) == (Map::<B256, Bytecode>::empty()),
{
    DashMap::default()
}

/// `DashMap::clone`: a map with the same keys, each of which holds a copy of
/// what it holds in this one.
#[verifier::external_body]
pub(crate) fn copy_account_map(map: &AccountMap) -> (copy: AccountMap)
    ensures
        account_entries(copy).dom() == account_entries(*map).dom(),
        forall|address: Address| #[trigger]
            account_entries(*map).contains_key(address) ==> account_entries(copy)[address]@
                == account_entries(*map)[address]@,
{
    map.clone()
}

/// `DashMap::clone`: a map with the same keys, each of which holds a copy of
/// what it holds in this one.
#[verifier::external_body]
pub(crate) fn copy_contract_map(map: &ContractMap) -> (copy: ContractMap)
    ensures
        contract_entries(copy).dom() == contract_entries(*map).dom(),
        forall|hash: B256| #[trigger]
            contract_entries(*map).contains_key(hash) ==> contract_entries(copy)[hash]@
                == contract_entries(*map)[hash]@,
{
    map.clone()
}

/// `DashMap::insert`: the key holds the value afterwards, whatever it held,
/// and every other key what it held. Returns what the key held before.
#[verifier::external_body]
pub(crate) fn put_account(map: &mut AccountMap, address: Address, entry: CacheAccount) -> (previous:
    Option<CacheAccount>)
    ensures
        account_entries(*final(map)) == account_entries(*old(map)).insert(address, entry),
        previous == if account_entries(*old(map)).contains_key(address) {
            Some(account_entries(*old(map))[address])
        } else {
            None
        },
{
    map.insert(address, entry)
}

/// `DashMap::remove`: the key holds nothing afterwards, and every other key
/// what it held. Returns what the key held before.
#[verifier::external_body]
pub(crate) fn take_account(map: &mut AccountMap, address: &Address) -> (entry: Option<CacheAccount>)
    ensures
        account_entries(*final(map)) == account_entries(*old(map)).remove(*address),
        entry == if account_entries(*old(map)).contains_key(*address) {
            Some(account_entries(*old(map))[*address])
        } else {
            None
        },
{
    map.remove(address).map(|(_, entry)| entry)
}

/// `DashMap::contains_key`: whether the key holds anything.
#[verifier::external_body]
pub(crate) fn has_account(map: &AccountMap, address: &Address) -> (held: bool)
    ensures
        held == account_entries(*map).contains_key(*address),
{
    map.contains_key(address)
}

/// `DashMap::get`: a copy of what the key holds, if it holds anything.
#[verifier::external_body]
pub(crate) fn find_account(map: &AccountMap, address: &Address) -> (entry: Option<CacheAccount>)
    ensures
        (entry is Some) == account_entries(*map).contains_key(*address),
        entry matches Some(found) ==> found@ == account_entries(*map)[*address]@,
{
    map.get(address).map(|found| found.value().clone())
}

/// `DashMap::iter`: every entry of the map once, in no stated order, each
/// with a copy of what the key holds.
#[verifier::external_body]
pub(crate) fn list_accounts(map: &AccountMap) -> (listed: Vec<(Address, CacheAccount)>)
    ensures
        forall|i: int|
            0 <= i < listed@.len() ==> account_entries(*map).contains_key((#[trigger] listed@[i]).0)
                && listed@[i].1@ == account_entries(*map)[listed@[i].0]@,
        forall|i: int, j: int|
            0 <= i < j < listed@.len() ==> (#[trigger] listed@[i]).0 != (#[trigger] listed@[j]).0,
        forall|address: Address| #[trigger]
            account_entries(*map).contains_key(address) ==> exists|i: int|
                0 <= i < listed@.len() && (#[trigger] listed@[i]).0 == address,
{
    map.iter().map(|found| (*found.key(), found.value().clone())).collect()
}

/// `DashMap::entry` and `Entry::or_insert_with`: a key that holds nothing
/// holds the value afterwards; a key that holds something keeps it.
#[verifier::external_body]
pub(crate) fn add_contract_if_absent(map: &mut ContractMap, hash: B256, code: Bytecode)
    ensures
        contract_entries(*final(map)) == if contract_entries(*old(map)).contains_key(hash) {
            contract_entries(*old(map))
        } else {
            contract_entries(*old(map)).insert(hash, code)
        },
{
    map.entry(hash).or_insert_with(|| code);
}

/// `DashMap::get`: a copy of what the key holds, if it holds anything.
#[verifier::external_body]
pub(crate) fn find_contract(map: &ContractMap, hash: &B256) -> (code: Option<Bytecode>)
    ensures
        (code is Some) == contract_entries(*map).contains_key(*hash),
        code matches Some(found) ==> found@ == contract_entries(*map)[*hash]@,
{
    map.get(hash).map(|found| found.value().clone())
}

} // verus!
