use state_cache::account::{Account, AccountInfo};
use state_cache::account_status::AccountStatus;
use state_cache::cache::{CacheState, EvmState};
use state_cache::primitives::{Address, Bytecode, B256, U256};
use state_cache::storage::{EvmStorage, EvmStorageSlot, PlainStorage, Storage, StorageSlot};

fn word(n: u64) -> U256 {
    U256::from_u64(n)
}

fn address(n: u8) -> Address {
    let mut bytes = [0u8; 20];
    bytes[19] = n;
    bytes[0] = 0xa0;
    Address { bytes }
}

fn balance(n: u64) -> AccountInfo {
    AccountInfo::from_balance(word(n))
}

fn code_hash(n: u8) -> B256 {
    B256 { bytes: [n; 32] }
}

fn contract(hash: u8, code: Vec<u8>) -> AccountInfo {
    AccountInfo::new(word(0), 1, code_hash(hash), Bytecode::new(code))
}

fn touched(info: AccountInfo, storage: EvmStorage) -> Account {
    let mut account = Account::new(info, storage);
    account.mark_touch();
    account
}

fn created(info: AccountInfo) -> Account {
    let mut account = touched(info, Storage::new());
    account.mark_created();
    account
}

fn one_change(key: u64, original: u64, present: u64) -> EvmStorage {
    let mut storage: EvmStorage = Storage::new();
    storage.insert(word(key), EvmStorageSlot::new_changed(word(original), word(present)));
    storage
}

#[test]
fn new_cache_is_empty() {
    let state = CacheState::new(false);
    assert!(!state.has_state_clear());
    assert!(!state.contains_account(&address(1)));
    assert!(state.account(&address(1)).is_none());
    assert!(state.contract(&code_hash(1)).is_none());
    assert!(state.trie_account().is_empty());
}

#[test]
fn default_cache_clears_empty_accounts() {
    let state = CacheState::default();
    assert!(state.has_state_clear());
    assert!(state.trie_account().is_empty());
}

#[test]
fn state_clear_flag_can_be_set() {
    let mut state = CacheState::new(true);
    state.insert_account(address(1), balance(1));
    state.set_state_clear_flag(false);
    assert!(!state.has_state_clear());
    assert!(state.contains_account(&address(1)));
    state.set_state_clear_flag(true);
    assert!(state.has_state_clear());
}

#[test]
fn insert_not_existing_marks_the_address() {
    let mut state = CacheState::new(true);
    state.insert_not_existing(address(1));
    assert!(state.contains_account(&address(1)));
    assert!(!state.contains_account(&address(2)));
    let entry = state.account(&address(1)).unwrap();
    assert_eq!(entry.status(), AccountStatus::LoadedNotExisting);
    assert!(!entry.is_some());
    assert!(state.trie_account().is_empty());
}

#[test]
fn insert_account_marks_it_loaded() {
    let mut state = CacheState::new(true);
    state.insert_account(address(1), balance(10));
    let entry = state.account(&address(1)).unwrap();
    assert_eq!(entry.status(), AccountStatus::Loaded);
    assert_eq!(entry.account_info(), Some(balance(10)));
    assert_eq!(entry.storage_slot(word(0)), None);
}

#[test]
fn insert_of_an_empty_account_marks_it_loaded_empty() {
    let mut state = CacheState::new(true);
    state.insert_account(address(1), balance(0));
    let entry = state.account(&address(1)).unwrap();
    assert_eq!(entry.status(), AccountStatus::LoadedEmptyEIP161);
    assert_eq!(entry.account_info(), Some(AccountInfo::default()));
}

#[test]
fn insert_account_with_storage_keeps_the_storage() {
    let mut storage: PlainStorage = Storage::new();
    storage.insert(word(1), word(2));
    let mut state = CacheState::new(true);
    state.insert_account_with_storage(address(1), balance(10), storage.clone());
    state.insert_account_with_storage(address(2), balance(0), storage);
    let entry = state.account(&address(1)).unwrap();
    assert_eq!(entry.status(), AccountStatus::Loaded);
    assert_eq!(entry.storage_slot(word(1)), Some(word(2)));
    let entry = state.account(&address(2)).unwrap();
    assert_eq!(entry.status(), AccountStatus::LoadedEmptyEIP161);
    assert_eq!(entry.storage_slot(word(1)), Some(word(2)));
}

#[test]
fn insert_again_replaces_the_entry() {
    let mut state = CacheState::new(true);
    state.insert_account(address(1), balance(10));
    state.insert_not_existing(address(1));
    let entry = state.account(&address(1)).unwrap();
    assert_eq!(entry.status(), AccountStatus::LoadedNotExisting);
    assert!(state.trie_account().is_empty());
}

#[test]
fn trie_account_lists_existing_accounts_once() {
    let mut state = CacheState::new(true);
    state.insert_account(address(1), balance(10));
    state.insert_not_existing(address(2));
    state.insert_account(address(3), balance(30));
    state.insert_account(address(4), balance(0));
    let mut listed = state.trie_account();
    listed.sort_by_key(|(address, _)| address.bytes);
    assert_eq!(listed.len(), 3);
    assert_eq!(listed[0].0, address(1));
    assert_eq!(listed[0].1.info, balance(10));
    assert_eq!(listed[1].0, address(3));
    assert_eq!(listed[1].1.info, balance(30));
    assert_eq!(listed[2].0, address(4));
    assert_eq!(listed[2].1.info, AccountInfo::default());
    assert_eq!(state.trie_account().len(), 3);
}

#[test]
fn clone_of_cache_is_apart() {
    let mut state = CacheState::new(false);
    state.insert_account(address(1), balance(10));
    let mut batch: EvmState = Vec::new();
    batch.push((address(1), created(contract(7, vec![1, 2, 3]))));
    state.apply_evm_state(batch);
    let copy = state.clone();
    state.insert_not_existing(address(1));
    state.insert_account(address(2), balance(1));
    assert!(!copy.has_state_clear());
    assert!(!copy.contains_account(&address(2)));
    assert_eq!(copy.account(&address(1)).unwrap().status(), AccountStatus::InMemoryChange);
    assert_eq!(copy.contract(&code_hash(7)), Some(Bytecode::new(vec![1, 2, 3])));
}

#[test]
fn untouched_account_is_skipped() {
    let mut state = CacheState::new(true);
    state.insert_account(address(1), balance(10));
    let mut account = Account::new(contract(7, vec![1]), one_change(0, 0, 1));
    account.mark_created();
    account.mark_selfdestruct();
    let record = state.apply_account_state(address(1), account);
    assert!(record.is_none());
    let entry = state.account(&address(1)).unwrap();
    assert_eq!(entry.status(), AccountStatus::Loaded);
    assert_eq!(entry.account_info(), Some(balance(10)));
    assert_eq!(entry.storage_slot(word(0)), None);
    assert!(state.contract(&code_hash(7)).is_none());
}

#[test]
fn untouched_account_needs_no_entry() {
    let mut state = CacheState::new(true);
    let mut batch: EvmState = Vec::new();
    batch.push((address(9), Account::new(balance(5), Storage::new())));
    assert_eq!(state.missing_account(&batch), None);
    let records = state.apply_evm_state(batch);
    assert!(records.is_empty());
    assert!(!state.contains_account(&address(9)));
}

#[test]
fn selfdestruct_takes_precedence_over_creation_and_emptiness() {
    for clearing in [true, false] {
        for is_created in [true, false] {
            for info in [balance(0), balance(3)] {
                let mut state = CacheState::new(clearing);
                state.insert_account(address(1), balance(10));
                let mut account = touched(info, one_change(0, 0, 1));
                if is_created {
                    account.mark_created();
                }
                account.mark_selfdestruct();
                let record = state.apply_account_state(address(1), account).unwrap();
                assert_eq!(record.status, AccountStatus::Destroyed);
                assert_eq!(record.info, None);
                assert_eq!(record.previous_info, Some(balance(10)));
                assert!(record.storage_was_destroyed);
                assert_eq!(record.storage.len(), 0);
                assert!(record.is_removal());
                let entry = state.account(&address(1)).unwrap();
                assert_eq!(entry.status(), AccountStatus::Destroyed);
                assert!(!entry.is_some());
            }
        }
    }
}

#[test]
fn same_code_hash_is_registered_once() {
    let mut state = CacheState::new(true);
    state.insert_not_existing(address(1));
    state.insert_not_existing(address(2));
    state.insert_not_existing(address(3));
    let mut batch: EvmState = Vec::new();
    batch.push((address(1), created(contract(7, vec![1, 2, 3]))));
    batch.push((address(2), created(contract(7, vec![9, 9]))));
    let records = state.apply_evm_state(batch);
    assert_eq!(records.len(), 2);
    assert_eq!(state.contract(&code_hash(7)), Some(Bytecode::new(vec![1, 2, 3])));
    let mut batch: EvmState = Vec::new();
    batch.push((address(3), created(contract(7, vec![4]))));
    state.apply_evm_state(batch);
    assert_eq!(state.contract(&code_hash(7)), Some(Bytecode::new(vec![1, 2, 3])));
    assert!(state.contract(&code_hash(8)).is_none());
}

#[test]
fn created_account_without_code_at_hand_registers_nothing() {
    let mut state = CacheState::new(true);
    state.insert_not_existing(address(1));
    let mut info = contract(7, vec![]);
    info.code = None;
    let record = state.apply_account_state(address(1), created(info)).unwrap();
    assert_eq!(record.status, AccountStatus::InMemoryChange);
    assert!(state.contract(&code_hash(7)).is_none());
}

#[test]
fn creation_is_recorded_even_if_nothing_differs() {
    let mut state = CacheState::new(true);
    state.insert_account(address(1), contract(7, vec![1]));
    let record = state.apply_account_state(address(1), created(contract(7, vec![1]))).unwrap();
    assert_eq!(record.previous_status, AccountStatus::Loaded);
    assert_eq!(record.status, AccountStatus::InMemoryChange);
    assert_eq!(record.info, record.previous_info);
    assert_eq!(state.contract(&code_hash(7)), Some(Bytecode::new(vec![1])));
}

#[test]
fn clearing_twice_leaves_one_record() {
    let mut state = CacheState::new(true);
    state.insert_account(address(1), balance(0));
    let first = state.apply_account_state(address(1), touched(balance(0), Storage::new()));
    assert!(first.unwrap().is_removal());
    let second = state.apply_account_state(address(1), touched(balance(0), Storage::new()));
    assert!(second.is_none());
    let third = state.apply_account_state(address(1), touched(balance(0), Storage::new()));
    assert!(third.is_none());
    assert_eq!(state.account(&address(1)).unwrap().status(), AccountStatus::Destroyed);
}

#[test]
fn clearing_of_an_absent_account_leaves_no_record() {
    let mut state = CacheState::new(true);
    state.insert_not_existing(address(1));
    let record = state.apply_account_state(address(1), touched(balance(0), Storage::new()));
    assert!(record.is_none());
    assert_eq!(state.account(&address(1)).unwrap().status(), AccountStatus::LoadedNotExisting);
}

#[test]
fn legacy_policy_keeps_a_newly_empty_account() {
    let mut state = CacheState::new(false);
    state.insert_not_existing(address(1));
    let record =
        state.apply_account_state(address(1), touched(balance(0), one_change(3, 0, 4))).unwrap();
    assert!(record.keeps_account());
    assert!(!record.is_removal());
    assert_eq!(record.info, Some(AccountInfo::default()));
    assert_eq!(record.previous_info, None);
    assert_eq!(record.status, AccountStatus::InMemoryChange);
    assert_eq!(record.previous_status, AccountStatus::LoadedNotExisting);
    assert!(!record.storage_was_destroyed);
    assert_eq!(
        record.storage.get(&word(3)),
        Some(StorageSlot { previous_or_original_value: word(0), present_value: word(4) })
    );
    let entry = state.account(&address(1)).unwrap();
    assert!(entry.is_some());
    assert_eq!(entry.account_info(), Some(AccountInfo::default()));
    assert_eq!(entry.storage_slot(word(3)), Some(word(4)));
    assert_eq!(state.trie_account().len(), 1);
}

#[test]
fn legacy_policy_leaves_a_known_empty_account_alone() {
    let mut state = CacheState::new(false);
    state.insert_account(address(1), balance(0));
    let record = state.apply_account_state(address(1), touched(balance(0), Storage::new()));
    assert!(record.is_none());
    let entry = state.account(&address(1)).unwrap();
    assert_eq!(entry.status(), AccountStatus::LoadedEmptyEIP161);
    assert!(entry.is_some());
}

#[test]
fn records_follow_the_order_of_the_batch() {
    let mut state = CacheState::new(true);
    for n in 1..=5 {
        state.insert_account(address(n), balance(100));
    }
    let mut batch: EvmState = Vec::new();
    batch.push((address(4), touched(balance(4), Storage::new())));
    batch.push((address(2), Account::new(balance(2), Storage::new())));
    batch.push((address(5), touched(balance(5), Storage::new())));
    batch.push((address(1), touched(balance(1), Storage::new())));
    batch.push((address(3), Account::new(balance(3), Storage::new())));
    let records = state.apply_evm_state(batch);
    let order: Vec<Address> = records.iter().map(|(address, _)| *address).collect();
    assert_eq!(order, vec![address(4), address(5), address(1)]);
    assert_eq!(records[0].1.info, Some(balance(4)));
    assert_eq!(records[1].1.info, Some(balance(5)));
    assert_eq!(records[2].1.info, Some(balance(1)));
    assert_eq!(state.account(&address(2)).unwrap().account_info(), Some(balance(100)));
}

#[test]
fn an_address_twice_in_a_batch_is_taken_in_twice() {
    let mut state = CacheState::new(true);
    state.insert_account(address(1), balance(100));
    let mut batch: EvmState = Vec::new();
    batch.push((address(1), touched(balance(4), Storage::new())));
    batch.push((address(1), touched(balance(5), Storage::new())));
    let records = state.apply_evm_state(batch);
    assert_eq!(records.len(), 2);
    assert_eq!(records[1].1.previous_info, Some(balance(4)));
    assert_eq!(records[1].1.info, Some(balance(5)));
}

#[test]
fn empty_batch_leaves_no_record() {
    let mut state = CacheState::new(true);
    state.insert_account(address(1), balance(100));
    let records = state.apply_evm_state(Vec::new());
    assert!(records.is_empty());
    assert_eq!(state.account(&address(1)).unwrap().status(), AccountStatus::Loaded);
}

#[test]
fn balance_and_slot_change_of_loaded_account() {
    let x = address(1);
    let mut state = CacheState::new(true);
    state.insert_account(x, balance(10));
    let mut batch: EvmState = Vec::new();
    batch.push((x, touched(balance(5), one_change(0, 0, 1))));
    let records = state.apply_evm_state(batch);
    assert_eq!(records.len(), 1);
    assert_eq!(records[0].0, x);
    let record = &records[0].1;
    assert_eq!(record.previous_info, Some(balance(10)));
    assert_eq!(record.info, Some(balance(5)));
    assert_eq!(record.previous_status, AccountStatus::Loaded);
    assert_eq!(record.storage.len(), 1);
    assert_eq!(
        record.storage.get(&word(0)),
        Some(StorageSlot { previous_or_original_value: word(0), present_value: word(1) })
    );
    assert!(!record.storage_was_destroyed);
    let entry = state.account(&x).unwrap();
    assert_eq!(entry.account_info(), Some(balance(5)));
    assert_eq!(entry.storage_slot(word(0)), Some(word(1)));
}

#[test]
fn touched_address_without_entry_is_found_missing() {
    let y = address(2);
    let mut state = CacheState::new(true);
    state.insert_account(address(1), balance(10));
    let mut batch: EvmState = Vec::new();
    batch.push((address(1), touched(balance(5), Storage::new())));
    batch.push((y, touched(balance(5), Storage::new())));
    batch.push((address(3), touched(balance(5), Storage::new())));
    assert!(!state.contains_account(&y));
    assert_eq!(state.missing_account(&batch), Some(1));
    state.insert_not_existing(y);
    assert_eq!(state.missing_account(&batch), Some(2));
    state.insert_not_existing(address(3));
    assert_eq!(state.missing_account(&batch), None);
    assert_eq!(state.apply_evm_state(batch).len(), 3);
}

#[test]
fn created_and_destroyed_in_one_batch_is_destroyed() {
    let z = address(3);
    let mut state = CacheState::new(true);
    state.insert_not_existing(address(1));
    state.insert_account(z, balance(10));
    let mut batch: EvmState = Vec::new();
    batch.push((address(1), created(contract(7, vec![1, 2, 3]))));
    state.apply_evm_state(batch);
    let mut both = created(contract(7, vec![1, 2, 3]));
    both.mark_selfdestruct();
    let mut batch: EvmState = Vec::new();
    batch.push((z, both));
    let records = state.apply_evm_state(batch);
    assert_eq!(records.len(), 1);
    assert_eq!(records[0].0, z);
    assert!(records[0].1.is_removal());
    assert_eq!(records[0].1.status, AccountStatus::Destroyed);
    assert_eq!(state.account(&z).unwrap().status(), AccountStatus::Destroyed);
    assert_eq!(state.contract(&code_hash(7)), Some(Bytecode::new(vec![1, 2, 3])));
}

#[test]
fn empty_account_is_cleared_once() {
    let w = address(4);
    let mut state = CacheState::new(true);
    state.insert_account(w, balance(0));
    let mut batch: EvmState = Vec::new();
    batch.push((w, touched(balance(0), Storage::new())));
    let records = state.apply_evm_state(batch);
    assert_eq!(records.len(), 1);
    assert_eq!(records[0].0, w);
    assert!(records[0].1.is_removal());
    assert_eq!(records[0].1.previous_status, AccountStatus::LoadedEmptyEIP161);
    assert!(state.trie_account().is_empty());
    let mut batch: EvmState = Vec::new();
    batch.push((w, touched(balance(0), Storage::new())));
    let records = state.apply_evm_state(batch);
    assert!(records.is_empty());
    assert!(state.contains_account(&w));
}

#[test]
fn loaded_account_with_nonce_that_turns_empty_is_cleared_once() {
    let w = address(4);
    let mut info = balance(0);
    info.nonce = 1;
    let mut state = CacheState::new(true);
    state.insert_account(w, info);
    assert_eq!(state.account(&w).unwrap().status(), AccountStatus::Loaded);
    let first = state.apply_account_state(w, touched(balance(0), Storage::new()));
    assert!(first.unwrap().is_removal());
    let second = state.apply_account_state(w, touched(balance(0), Storage::new()));
    assert!(second.is_none());
}

#[test]
fn unchanged_slots_are_not_recorded() {
    let mut storage: EvmStorage = Storage::new();
    storage.insert(word(1), EvmStorageSlot::new(word(10)));
    storage.insert(word(2), EvmStorageSlot::new_changed(word(20), word(21)));
    let mut state = CacheState::new(true);
    state.insert_account(address(1), contract(7, vec![1]));
    let mut info = contract(7, vec![1]);
    info.balance = word(1);
    let record = state.apply_account_state(address(1), touched(info, storage)).unwrap();
    assert_eq!(record.status, AccountStatus::Changed);
    assert_eq!(record.storage.len(), 1);
    assert_eq!(record.storage.get(&word(1)), None);
    let entry = state.account(&address(1)).unwrap();
    assert_eq!(entry.storage_slot(word(1)), None);
    assert_eq!(entry.storage_slot(word(2)), Some(word(21)));
}

#[test]
fn contract_code_is_put_under_a_hash_once() {
    let mut state = CacheState::new(true);
    state.insert_account(address(1), balance(1));
    state.insert_contract_if_absent(code_hash(7), Bytecode::new(vec![1, 2, 3]));
    assert_eq!(state.contract(&code_hash(7)), Some(Bytecode::new(vec![1, 2, 3])));
    state.insert_contract_if_absent(code_hash(7), Bytecode::new(vec![4]));
    assert_eq!(state.contract(&code_hash(7)), Some(Bytecode::new(vec![1, 2, 3])));
    state.insert_contract_if_absent(code_hash(8), Bytecode::new(vec![4]));
    assert_eq!(state.contract(&code_hash(8)), Some(Bytecode::new(vec![4])));
    assert_eq!(state.contract(&code_hash(7)), Some(Bytecode::new(vec![1, 2, 3])));
    assert!(state.contract(&code_hash(9)).is_none());
    assert!(state.contains_account(&address(1)));
    assert!(state.has_state_clear());
}
