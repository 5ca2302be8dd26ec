//! Accounts: what is known of an account, and what an execution made of it.
use crate::primitives::{keccak_empty_hash, Bytecode, B256, U256};
use crate::storage::{EvmStorage, EvmStorageSlot, PlainStorage};
use vstd::prelude::*;

verus! {

/// The view of an optional value.
pub open spec fn option_view<T: View>(value: Option<T>) -> Option<T::V> {
    match value {
        Some(inner) => Some(inner@),
        None => None,
    }
}

/// Balance, nonce and code of an account.
#[derive(Debug, PartialEq, Eq)]
pub struct AccountInfo {
    pub balance: U256,
    pub nonce: u64,
    pub code_hash: B256,
    /// The code itself, where it is at hand.
    pub code: Option<Bytecode>,
}

/// An [`AccountInfo`] as plain values.
pub struct AccountInfoView {
    pub balance: U256,
    pub nonce: u64,
    pub code_hash: B256,
    pub code: Option<Seq<u8>>,
}

impl AccountInfoView {
    /// An account is empty when it has no balance, no nonce and no code: its
    /// code hash is that of the empty code, or zero.
    pub open spec fn is_empty(self) -> bool {
        &&& self.code_hash.spec_is_keccak_empty() || self.code_hash.spec_is_zero()
        &&& self.balance.spec_is_zero()
        &&& self.nonce == 0
    }

    /// Whether the account has neither code nor nonce.
    pub open spec fn has_no_code_and_nonce(self) -> bool {
        self.code_hash.spec_is_keccak_empty() && self.nonce == 0
    }

    /// What is known of an account of which nothing is known: no balance, no
    /// nonce, and the empty code.
    pub open spec fn empty() -> AccountInfoView {
        AccountInfoView {
            balance: U256 { hi: 0, lo: 0 },
            nonce: 0,
            code_hash: keccak_empty_hash(),
            code: Some(Seq::empty()),
        }
    }
}

impl View for AccountInfo {
    type V = AccountInfoView;

    open spec fn view(&self) -> AccountInfoView {
        AccountInfoView {
            balance: self.balance,
            nonce: self.nonce,
            code_hash: self.code_hash,
            code: option_view(self.code),
        }
    }
}

impl Clone for AccountInfo {
    fn clone(&self) -> (copy: Self)
        ensures
            copy@ == self@,
    {
        let code = match &self.code {
            Some(code) => Some(code.clone()),
            None => None,
        };
        AccountInfo { balance: self.balance, nonce: self.nonce, code_hash: self.code_hash, code }
    }
}

impl Default for AccountInfo {
    fn default() -> (info: Self)
        ensures
            info@ == AccountInfoView::empty(),
            info@.is_empty(),
    {
        let code_hash = B256::keccak_empty();
        AccountInfo { balance: U256::zero(), nonce: 0, code_hash, code: Some(Bytecode::empty()) }
    }
}

impl AccountInfo {
    /// An account with the given balance, nonce and code.
    pub fn new(balance: U256, nonce: u64, code_hash: B256, code: Bytecode) -> (info: Self)
        ensures
            info@ == (AccountInfoView { balance, nonce, code_hash, code: Some(code@) }),
    {
        AccountInfo { balance, nonce, code_hash, code: Some(code) }
    }

    /// An account with the given balance, without nonce or code.
    pub fn from_balance(balance: U256) -> (info: Self)
        ensures
            info@ == (AccountInfoView { balance, ..AccountInfoView::empty() }),
    {
        let mut info = AccountInfo::default();
        info.balance = balance;
        info
    }

    /// Whether the account is empty.
    pub fn is_empty(&self) -> (empty: bool)
        ensures
            empty == self@.is_empty(),
    {
        let code_empty = self.code_hash.is_keccak_empty() || self.code_hash.is_zero();
        code_empty && self.balance.is_zero() && self.nonce == 0
    }

    /// Whether the account has neither code nor nonce.
    pub fn has_no_code_and_nonce(&self) -> (bare: bool)
        ensures
            bare == self@.has_no_code_and_nonce(),
    {
        self.code_hash.is_keccak_empty() && self.nonce == 0
    }
}

/// What an execution made of one account: its balance, nonce and code after
/// the execution, the storage slots that the execution read or wrote, and
/// what happened to the account.
#[derive(Debug)]
pub struct Account {
    pub info: AccountInfo,
    pub storage: EvmStorage,
    /// The execution had an effect on the account that can be observed.
    pub touched: bool,
    /// The execution created the account.
    pub created: bool,
    /// The execution destroyed the account.
    pub selfdestructed: bool,
}

/// An [`Account`] as plain values.
pub struct AccountView {
    pub info: AccountInfoView,
    pub storage: Map<U256, EvmStorageSlot>,
    pub touched: bool,
    pub created: bool,
    pub selfdestructed: bool,
}

impl View for Account {
    type V = AccountView;

    open spec fn view(&self) -> AccountView {
        AccountView {
            info: self.info@,
            storage: self.storage@,
            touched: self.touched,
            created: self.created,
            selfdestructed: self.selfdestructed,
        }
    }
}

impl Account {
    /// An account that the execution has read and no more: not touched, not
    /// created, not destroyed.
    pub fn new(info: AccountInfo, storage: EvmStorage) -> (account: Self)
        ensures
            account@ == (AccountView {
                info: info@,
                storage: storage@,
                touched: false,
                created: false,
                selfdestructed: false,
            }),
    {
        Account { info, storage, touched: false, created: false, selfdestructed: false }
    }

    /// Marks the account as touched.
    pub fn mark_touch(&mut self)
        ensures
            final(self)@ == (AccountView { touched: true, ..old(self)@ }),
    {
        self.touched = true;
    }

    /// Marks the account as created.
    pub fn mark_created(&mut self)
        ensures
            final(self)@ == (AccountView { created: true, ..old(self)@ }),
    {
        self.created = true;
    }

    /// Marks the account as destroyed.
    pub fn mark_selfdestruct(&mut self)
        ensures
            final(self)@ == (AccountView { selfdestructed: true, ..old(self)@ }),
    {
        self.selfdestructed = true;
    }

    /// Whether the execution had an effect on the account that can be
    /// observed.
    pub fn is_touched(&self) -> (touched: bool)
        ensures
            touched == self@.touched,
    {
        self.touched
    }

    /// Whether the execution created the account.
    pub fn is_created(&self) -> (created: bool)
        ensures
            created == self@.created,
    {
        self.created
    }

    /// Whether the execution destroyed the account.
    pub fn is_selfdestructed(&self) -> (selfdestructed: bool)
        ensures
            selfdestructed == self@.selfdestructed,
    {
        self.selfdestructed
    }

    /// Whether the account is empty after the execution.
    pub fn is_empty(&self) -> (empty: bool)
        ensures
            empty == self@.info.is_empty(),
    {
        self.info.is_empty()
    }
}

/// Balance, nonce, code and storage of an account that exists.
#[derive(Debug)]
pub struct PlainAccount {
    pub info: AccountInfo,
    pub storage: PlainStorage,
}

/// A [`PlainAccount`] as plain values.
pub struct PlainAccountView {
    pub info: AccountInfoView,
    pub storage: Map<U256, U256>,
}

impl View for PlainAccount {
    type V = PlainAccountView;

    open spec fn view(&self) -> PlainAccountView {
        PlainAccountView { info: self.info@, storage: self.storage@ }
    }
}

impl Clone for PlainAccount {
    fn clone(&self) -> (copy: Self)
        ensures
            copy@ == self@,
    {
        PlainAccount { info: self.info.clone(), storage: self.storage.clone() }
    }
}

impl PlainAccount {
    /// An empty account with the given storage.
    pub fn new_empty_with_storage(storage: PlainStorage) -> (account: Self)
        ensures
            account@ == (PlainAccountView { info: AccountInfoView::empty(), storage: storage@ }),
    {
        PlainAccount { info: AccountInfo::default(), storage }
    }
}

} // verus!
