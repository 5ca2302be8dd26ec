//! The record of what a batch did to one account.
use crate::account::{option_view, AccountInfo, AccountInfoView};
use crate::account_status::AccountStatus;
use crate::primitives::U256;
use crate::storage::{StorageSlot, StorageWithOriginalValues};
use vstd::prelude::*;

verus! {

/// What an account was before a batch and what it is after it. Whoever
/// builds the changes to write from these records takes a record as "apply
/// this", and the lack of one as "nothing changed here".
#[derive(Debug)]
pub struct TransitionAccount {
    /// Balance, nonce and code after the batch; `None` where the account is
    /// gone.
    pub info: Option<AccountInfo>,
    /// The stage after the batch.
    pub status: AccountStatus,
    /// Balance, nonce and code before the batch; `None` where there was no
    /// account.
    pub previous_info: Option<AccountInfo>,
    /// The stage before the batch.
    pub previous_status: AccountStatus,
    /// The slots that changed, each with its previous and its present value.
    pub storage: StorageWithOriginalValues,
    /// Whether all storage that the account had before is gone.
    pub storage_was_destroyed: bool,
}

/// A [`TransitionAccount`] as plain values.
pub struct TransitionAccountView {
    pub info: Option<AccountInfoView>,
    pub status: AccountStatus,
    pub previous_info: Option<AccountInfoView>,
    pub previous_status: AccountStatus,
    pub storage: Map<U256, StorageSlot>,
    pub storage_was_destroyed: bool,
}

impl View for TransitionAccount {
    type V = TransitionAccountView;

    open spec fn view(&self) -> TransitionAccountView {
        TransitionAccountView {
            info: option_view(self.info),
            status: self.status,
            previous_info: option_view(self.previous_info),
            previous_status: self.previous_status,
            storage: self.storage@,
            storage_was_destroyed: self.storage_was_destroyed,
        }
    }
}

impl TransitionAccountView {
    /// The record says that the account is gone: no balance, nonce or code
    /// is left, the stage is one of destruction, and the storage is gone.
    pub open spec fn is_removal(self) -> bool {
        &&& self.info is None
        &&& self.status == AccountStatus::Destroyed || self.status == AccountStatus::DestroyedAgain
        &&& self.storage_was_destroyed
        &&& self.storage == Map::<U256, StorageSlot>::empty()
    }

    /// The record says that the account is there after the batch.
    pub open spec fn keeps_account(self) -> bool {
        &&& self.info is Some
        &&& self.status.spec_has_account()
        &&& !self.storage_was_destroyed
    }
}

impl TransitionAccount {
    /// Whether the record says that the account is gone.
    pub fn is_removal(&self) -> (removal: bool)
        ensures
            removal == self@.is_removal(),
    {
        let none_left = self.info.is_none();
        let destroyed = self.status == AccountStatus::Destroyed || self.status
            == AccountStatus::DestroyedAgain;
        let count = self.storage.len();
        proof {
            if count == 0 {
                assert(self.storage@.dom() =~= Set::<U256>::empty());
                assert(self.storage@ =~= Map::<U256, StorageSlot>::empty());
            } else {
                assert(self.storage@.dom().len() != 0);
            }
        }
        none_left && destroyed && self.storage_was_destroyed && count == 0
    }

    /// Whether the record says that the account is there after the batch.
    pub fn keeps_account(&self) -> (kept: bool)
        ensures
            kept == self@.keeps_account(),
    {
        self.info.is_some() && self.status.has_account() && !self.storage_was_destroyed
    }
}

} // verus!
