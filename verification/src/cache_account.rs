//! A cached account and the steps of its life.
use crate::account::{
    option_view, AccountInfo, AccountInfoView, PlainAccount, PlainAccountView,
};
use crate::account_status::AccountStatus;
use crate::primitives::U256;
use crate::storage::{
    apply_changes, present_storage, present_values, with_changes, PlainStorage, Storage,
    StorageSlot, StorageWithOriginalValues,
};
use crate::transition_account::{TransitionAccount, TransitionAccountView};
use vstd::prelude::*;

verus! {

/// What the cache holds for one address: the stage of the account's life
/// and, in the stages in which the account exists, its balance, nonce, code
/// and storage.
#[derive(Debug)]
pub enum CacheAccount {
    LoadedNotExisting,
    Loaded(PlainAccount),
    LoadedEmptyEIP161(PlainAccount),
    InMemoryChange(PlainAccount),
    Changed(PlainAccount),
    Destroyed,
    DestroyedChanged(PlainAccount),
    DestroyedAgain,
}

/// A [`CacheAccount`] as plain values.
pub struct CacheAccountView {
    pub account: Option<PlainAccountView>,
    pub status: AccountStatus,
}

impl View for CacheAccount {
    type V = CacheAccountView;

    open spec fn view(&self) -> CacheAccountView {
        match *self {
            CacheAccount::LoadedNotExisting => CacheAccountView {
                account: None,
                status: AccountStatus::LoadedNotExisting,
            },
            CacheAccount::Loaded(account) => CacheAccountView {
                account: Some(account@),
                status: AccountStatus::Loaded,
            },
            CacheAccount::LoadedEmptyEIP161(account) => CacheAccountView {
                account: Some(account@),
                status: AccountStatus::LoadedEmptyEIP161,
            },
            CacheAccount::InMemoryChange(account) => CacheAccountView {
                account: Some(account@),
                status: AccountStatus::InMemoryChange,
            },
            CacheAccount::Changed(account) => CacheAccountView {
                account: Some(account@),
                status: AccountStatus::Changed,
            },
            CacheAccount::Destroyed => CacheAccountView {
                account: None,
                status: AccountStatus::Destroyed,
            },
            CacheAccount::DestroyedChanged(account) => CacheAccountView {
                account: Some(account@),
                status: AccountStatus::DestroyedChanged,
            },
            CacheAccount::DestroyedAgain => CacheAccountView {
                account: None,
                status: AccountStatus::DestroyedAgain,
            },
        }
    }
}

impl CacheAccountView {
    /// The account is held exactly in the stages in which it exists.
    pub open spec fn consistent(self) -> bool {
        self.account is Some <==> self.status.spec_has_account()
    }

    /// Balance, nonce and code, where the account exists.
    pub open spec fn info(self) -> Option<AccountInfoView> {
        match self.account {
            Some(account) => Some(account.info),
            None => None,
        }
    }

    /// The storage, where the account exists; else none.
    pub open spec fn storage(self) -> Map<U256, U256> {
        match self.account {
            Some(account) => account.storage,
            None => Map::empty(),
        }
    }

    /// The entry after the account was destroyed.
    pub open spec fn after_selfdestruct(self) -> CacheAccountView {
        CacheAccountView { account: None, status: self.status.spec_on_selfdestructed() }
    }

    /// The record of a destruction: none where there was no account to
    /// destroy.
    pub open spec fn selfdestruct_record(self) -> Option<TransitionAccountView> {
        if self.status == AccountStatus::LoadedNotExisting {
            None
        } else {
            Some(
                TransitionAccountView {
                    info: None,
                    status: self.status.spec_on_selfdestructed(),
                    previous_info: self.info(),
                    previous_status: self.status,
                    storage: Map::empty(),
                    storage_was_destroyed: true,
                },
            )
        }
    }

    /// The entry after the account was created with the given balance,
    /// nonce and code and the given changed slots.
    pub open spec fn after_creation(
        self,
        info: AccountInfoView,
        changes: Map<U256, StorageSlot>,
    ) -> CacheAccountView {
        CacheAccountView {
            account: Some(PlainAccountView { info, storage: present_values(changes) }),
            status: self.status.spec_on_created(),
        }
    }

    /// The record of a creation.
    pub open spec fn creation_record(
        self,
        info: AccountInfoView,
        changes: Map<U256, StorageSlot>,
    ) -> TransitionAccountView {
        TransitionAccountView {
            info: Some(info),
            status: self.status.spec_on_created(),
            previous_info: self.info(),
            previous_status: self.status,
            storage: changes,
            storage_was_destroyed: false,
        }
    }

    /// The entry after the account was touched and found empty, where empty
    /// accounts are cleared.
    pub open spec fn after_touch_empty(self) -> CacheAccountView {
        CacheAccountView { account: None, status: self.status.spec_on_touched_empty_post_eip161() }
    }

    /// The record of a touch that clears the account: none where nothing
    /// stood at the address already.
    pub open spec fn touch_empty_record(self) -> Option<TransitionAccountView> {
        if self.status.spec_is_gone() {
            None
        } else {
            Some(
                TransitionAccountView {
                    info: None,
                    status: self.status.spec_on_touched_empty_post_eip161(),
                    previous_info: self.info(),
                    previous_status: self.status,
                    storage: Map::empty(),
                    storage_was_destroyed: true,
                },
            )
        }
    }

    /// Whether the account exists and is empty.
    pub open spec fn holds_empty_account(self) -> bool {
        match self.account {
            Some(account) => account.info.is_empty(),
            None => false,
        }
    }

    /// Whether the entry holds an empty account of which the cache made a
    /// record already, or which was loaded so.
    pub open spec fn is_known_empty(self) -> bool {
        self.status == AccountStatus::LoadedEmptyEIP161 || (self.status
            == AccountStatus::DestroyedChanged && self.holds_empty_account())
    }

    /// The stage after the account was touched and found empty, where empty
    /// accounts are kept; `None` where nothing changes.
    pub open spec fn touch_create_status(self) -> Option<AccountStatus> {
        self.status.spec_on_touched_created_pre_eip161(self.holds_empty_account())
    }

    /// The entry after the account was touched and found empty, where empty
    /// accounts are kept.
    pub open spec fn after_touch_create(self, changes: Map<U256, StorageSlot>) -> CacheAccountView {
        match self.touch_create_status() {
            None => self,
            Some(status) => CacheAccountView {
                account: Some(
                    PlainAccountView {
                        info: AccountInfoView::empty(),
                        storage: present_values(changes),
                    },
                ),
                status,
            },
        }
    }

    /// The record of a touch that keeps the empty account: none where the
    /// account was empty already.
    pub open spec fn touch_create_record(self, changes: Map<U256, StorageSlot>) -> Option<
        TransitionAccountView,
    > {
        match self.touch_create_status() {
            None => None,
            Some(status) => Some(
                TransitionAccountView {
                    info: Some(AccountInfoView::empty()),
                    status,
                    previous_info: self.info(),
                    previous_status: self.status,
                    storage: changes,
                    storage_was_destroyed: false,
                },
            ),
        }
    }

    /// Whether the account exists without nonce and code.
    pub open spec fn holds_bare_account(self) -> bool {
        match self.account {
            Some(account) => account.info.has_no_code_and_nonce(),
            None => false,
        }
    }

    /// The entry after the account was changed to the given balance, nonce
    /// and code, with the given changed slots.
    pub open spec fn after_change(
        self,
        info: AccountInfoView,
        changes: Map<U256, StorageSlot>,
    ) -> CacheAccountView {
        CacheAccountView {
            account: Some(
                PlainAccountView { info, storage: with_changes(self.storage(), changes) },
            ),
            status: self.status.spec_on_changed(self.holds_bare_account()),
        }
    }

    /// The record of a change.
    pub open spec fn change_record(
        self,
        info: AccountInfoView,
        changes: Map<U256, StorageSlot>,
    ) -> TransitionAccountView {
        TransitionAccountView {
            info: Some(info),
            status: self.status.spec_on_changed(self.holds_bare_account()),
            previous_info: self.info(),
            previous_status: self.status,
            storage: changes,
            storage_was_destroyed: false,
        }
    }
}

impl Clone for CacheAccount {
    fn clone(&self) -> (copy: Self)
        ensures
            copy@ == self@,
    {
        match self {
            CacheAccount::LoadedNotExisting => CacheAccount::LoadedNotExisting,
            CacheAccount::Loaded(account) => CacheAccount::Loaded(account.clone()),
            CacheAccount::LoadedEmptyEIP161(account) => CacheAccount::LoadedEmptyEIP161(
                account.clone(),
            ),
            CacheAccount::InMemoryChange(account) => CacheAccount::InMemoryChange(account.clone()),
            CacheAccount::Changed(account) => CacheAccount::Changed(account.clone()),
            CacheAccount::Destroyed => CacheAccount::Destroyed,
            CacheAccount::DestroyedChanged(account) => CacheAccount::DestroyedChanged(
                account.clone(),
            ),
            CacheAccount::DestroyedAgain => CacheAccount::DestroyedAgain,
        }
    }
}

impl CacheAccount {
    /// The entry of an address at which no account was found.
    pub fn new_loaded_not_existing() -> (entry: Self)
        ensures
            entry@ == (CacheAccountView {
                account: None,
                status: AccountStatus::LoadedNotExisting,
            }),
    {
        CacheAccount::LoadedNotExisting
    }

    /// The entry of an account as it was loaded.
    pub fn new_loaded(info: AccountInfo, storage: PlainStorage) -> (entry: Self)
        ensures
            entry@ == (CacheAccountView {
                account: Some(PlainAccountView { info: info@, storage: storage@ }),
                status: AccountStatus::Loaded,
            }),
    {
        CacheAccount::Loaded(PlainAccount { info, storage })
    }

    /// The entry of an account that was loaded and found empty.
    pub fn new_loaded_empty_eip161(storage: PlainStorage) -> (entry: Self)
        ensures
            entry@ == (CacheAccountView {
                account: Some(
                    PlainAccountView { info: AccountInfoView::empty(), storage: storage@ },
                ),
                status: AccountStatus::LoadedEmptyEIP161,
            }),
    {
        CacheAccount::LoadedEmptyEIP161(PlainAccount::new_empty_with_storage(storage))
    }

    /// The entry of an account that was created since the cache was filled.
    pub fn new_newly_created(info: AccountInfo, storage: PlainStorage) -> (entry: Self)
        ensures
            entry@ == (CacheAccountView {
                account: Some(PlainAccountView { info: info@, storage: storage@ }),
                status: AccountStatus::InMemoryChange,
            }),
    {
        CacheAccount::InMemoryChange(PlainAccount { info, storage })
    }

    /// The entry of an account that was destroyed.
    pub fn new_destroyed() -> (entry: Self)
        ensures
            entry@ == (CacheAccountView { account: None, status: AccountStatus::Destroyed }),
    {
        CacheAccount::Destroyed
    }

    /// The entry of an account that was changed since it was loaded.
    pub fn new_changed(info: AccountInfo, storage: PlainStorage) -> (entry: Self)
        ensures
            entry@ == (CacheAccountView {
                account: Some(PlainAccountView { info: info@, storage: storage@ }),
                status: AccountStatus::Changed,
            }),
    {
        CacheAccount::Changed(PlainAccount { info, storage })
    }

    /// The stage of the account's life.
    pub fn status(&self) -> (status: AccountStatus)
        ensures
            status == self@.status,
    {
        match self {
            CacheAccount::LoadedNotExisting => AccountStatus::LoadedNotExisting,
            CacheAccount::Loaded(_) => AccountStatus::Loaded,
            CacheAccount::LoadedEmptyEIP161(_) => AccountStatus::LoadedEmptyEIP161,
            CacheAccount::InMemoryChange(_) => AccountStatus::InMemoryChange,
            CacheAccount::Changed(_) => AccountStatus::Changed,
            CacheAccount::Destroyed => AccountStatus::Destroyed,
            CacheAccount::DestroyedChanged(_) => AccountStatus::DestroyedChanged,
            CacheAccount::DestroyedAgain => AccountStatus::DestroyedAgain,
        }
    }

    /// The account, where it exists.
    pub fn account(&self) -> (account: Option<&PlainAccount>)
        ensures
            match account {
                Some(held) => self@.account == Some(held@),
                None => self@.account is None,
            },
    {
        match self {
            CacheAccount::Loaded(account)
            | CacheAccount::LoadedEmptyEIP161(account)
            | CacheAccount::InMemoryChange(account)
            | CacheAccount::Changed(account)
            | CacheAccount::DestroyedChanged(account) => Some(account),
            CacheAccount::LoadedNotExisting
            | CacheAccount::Destroyed
            | CacheAccount::DestroyedAgain => None,
        }
    }

    /// Whether the account exists.
    pub fn is_some(&self) -> (exists: bool)
        ensures
            exists == (self@.account is Some),
            exists == self@.status.spec_has_account(),
    {
        self.account().is_some()
    }

    /// Balance, nonce and code of the account, where it exists.
    pub fn account_info(&self) -> (info: Option<AccountInfo>)
        ensures
            option_view(info) == self@.info(),
    {
        match self.account() {
            Some(account) => Some(account.info.clone()),
            None => None,
        }
    }

    /// What a storage slot of the account holds, as far as the cache knows.
    pub fn storage_slot(&self, slot: U256) -> (value: Option<U256>)
        ensures
            value == if self@.storage().contains_key(slot) {
                Some(self@.storage()[slot])
            } else {
                None
            },
    {
        match self.account() {
            Some(account) => account.storage.get(&slot),
            None => None,
        }
    }

    /// The account, where it exists, and the stage.
    pub fn into_components(self) -> (parts: (Option<PlainAccount>, AccountStatus))
        ensures
            option_view(parts.0) == self@.account,
            parts.1 == self@.status,
    {
        match self {
            CacheAccount::LoadedNotExisting => (None, AccountStatus::LoadedNotExisting),
            CacheAccount::Loaded(account) => (Some(account), AccountStatus::Loaded),
            CacheAccount::LoadedEmptyEIP161(account) => (
                Some(account),
                AccountStatus::LoadedEmptyEIP161,
            ),
            CacheAccount::InMemoryChange(account) => (Some(account), AccountStatus::InMemoryChange),
            CacheAccount::Changed(account) => (Some(account), AccountStatus::Changed),
            CacheAccount::Destroyed => (None, AccountStatus::Destroyed),
            CacheAccount::DestroyedChanged(account) => (
                Some(account),
                AccountStatus::DestroyedChanged,
            ),
            CacheAccount::DestroyedAgain => (None, AccountStatus::DestroyedAgain),
        }
    }

    /// The entry of an account that exists, in the given stage.
    fn with_account(status: AccountStatus, account: PlainAccount) -> (entry: Self)
        requires
            status.spec_has_account(),
        ensures
            entry@ == (CacheAccountView { account: Some(account@), status }),
    {
        match status {
            AccountStatus::LoadedEmptyEIP161 => CacheAccount::LoadedEmptyEIP161(account),
            AccountStatus::InMemoryChange => CacheAccount::InMemoryChange(account),
            AccountStatus::Changed => CacheAccount::Changed(account),
            AccountStatus::DestroyedChanged => CacheAccount::DestroyedChanged(account),
            _ => CacheAccount::Loaded(account),
        }
    }

    /// The entry of an address at which nothing stands, in the given stage.
    fn without_account(status: AccountStatus) -> (entry: Self)
        requires
            status.spec_is_gone(),
        ensures
            entry@ == (CacheAccountView { account: None, status }),
    {
        match status {
            AccountStatus::Destroyed => CacheAccount::Destroyed,
            AccountStatus::DestroyedAgain => CacheAccount::DestroyedAgain,
            _ => CacheAccount::LoadedNotExisting,
        }
    }

    /// Takes the entry apart and leaves a placeholder in its place.
    fn take_components(&mut self) -> (parts: (Option<PlainAccount>, AccountStatus))
        ensures
            option_view(parts.0) == old(self)@.account,
            parts.1 == old(self)@.status,
    {
        let mut entry = CacheAccount::LoadedNotExisting;
        core::mem::swap(self, &mut entry);
        entry.into_components()
    }

    /// Destroys the account. Returns the record of the destruction, or
    /// `None` where there was no account to destroy.
    pub fn selfdestruct(&mut self) -> (record: Option<TransitionAccount>)
        ensures
            final(self)@ == old(self)@.after_selfdestruct(),
            option_view(record) == old(self)@.selfdestruct_record(),
    {
        let (account, previous_status) = self.take_components();
        let previous_info = match account {
            Some(account) => Some(account.info),
            None => None,
        };
        let status = previous_status.on_selfdestructed();
        *self = CacheAccount::without_account(status);
        if previous_status == AccountStatus::LoadedNotExisting {
            None
        } else {
            Some(
                TransitionAccount {
                    info: None,
                    status,
                    previous_info,
                    previous_status,
                    storage: Storage::new(),
                    storage_was_destroyed: true,
                },
            )
        }
    }

    /// Creates the account anew with the given balance, nonce and code; of
    /// its storage nothing is left but the present values of the given
    /// slots. Returns the record of the creation.
    pub fn newly_created(
        &mut self,
        new_info: AccountInfo,
        new_storage: StorageWithOriginalValues,
    ) -> (record: TransitionAccount)
        ensures
            final(self)@ == old(self)@.after_creation(new_info@, new_storage@),
            record@ == old(self)@.creation_record(new_info@, new_storage@),
    {
        let (account, previous_status) = self.take_components();
        let previous_info = match account {
            Some(account) => Some(account.info),
            None => None,
        };
        let storage = present_storage(&new_storage);
        let status = previous_status.on_created();
        let record = TransitionAccount {
            info: Some(new_info.clone()),
            status,
            previous_info,
            previous_status,
            storage: new_storage,
            storage_was_destroyed: false,
        };
        *self = CacheAccount::with_account(status, PlainAccount { info: new_info, storage });
        record
    }

    /// Touches the account, which is empty, where empty accounts are
    /// cleared: the account is gone. Returns the record of that, or `None`
    /// where nothing stood at the address already.
    pub fn touch_empty_eip161(&mut self) -> (record: Option<TransitionAccount>)
        ensures
            final(self)@ == old(self)@.after_touch_empty(),
            option_view(record) == old(self)@.touch_empty_record(),
    {
        let (account, previous_status) = self.take_components();
        let previous_info = match account {
            Some(account) => Some(account.info),
            None => None,
        };
        let status = previous_status.on_touched_empty_post_eip161();
        *self = CacheAccount::without_account(status);
        if previous_status.is_gone() {
            None
        } else {
            Some(
                TransitionAccount {
                    info: None,
                    status,
                    previous_info,
                    previous_status,
                    storage: Storage::new(),
                    storage_was_destroyed: true,
                },
            )
        }
    }

    /// Touches the account, which is empty, where empty accounts are kept:
    /// the account is there, empty, with the present values of the given
    /// slots. Returns the record of that, or `None` where the account was
    /// empty already; the entry is then as it was.
    pub fn touch_create_pre_eip161(&mut self, storage: StorageWithOriginalValues) -> (record:
        Option<TransitionAccount>)
        ensures
            final(self)@ == old(self)@.after_touch_create(storage@),
            option_view(record) == old(self)@.touch_create_record(storage@),
    {
        let had_no_info = match self.account() {
            Some(account) => account.info.is_empty(),
            None => false,
        };
        match self.status().on_touched_created_pre_eip161(had_no_info) {
            None => None,
            Some(status) => {
                let (account, previous_status) = self.take_components();
                let previous_info = match account {
                    Some(account) => Some(account.info),
                    None => None,
                };
                let plain_storage = present_storage(&storage);
                *self = CacheAccount::with_account(
                    status,
                    PlainAccount::new_empty_with_storage(plain_storage),
                );
                Some(
                    TransitionAccount {
                        info: Some(AccountInfo::default()),
                        status,
                        previous_info,
                        previous_status,
                        storage,
                        storage_was_destroyed: false,
                    },
                )
            },
        }
    }

    /// Changes the account to the given balance, nonce and code, and lets
    /// each of the given slots hold its present value. Returns the record of
    /// the change.
    pub fn change(&mut self, new: AccountInfo, storage: StorageWithOriginalValues) -> (record:
        TransitionAccount)
        ensures
            final(self)@ == old(self)@.after_change(new@, storage@),
            record@ == old(self)@.change_record(new@, storage@),
    {
        let (account, previous_status) = self.take_components();
        let (previous_info, mut this_storage) = match account {
            Some(account) => (Some(account.info), account.storage),
            None => (None, Storage::new()),
        };
        let had_no_nonce_and_code = match &previous_info {
            Some(info) => info.has_no_code_and_nonce(),
            None => false,
        };
        apply_changes(&mut this_storage, &storage);
        let status = previous_status.on_changed(had_no_nonce_and_code);
        let record = TransitionAccount {
            info: Some(new.clone()),
            status,
            previous_info,
            previous_status,
            storage,
            storage_was_destroyed: false,
        };
        *self = CacheAccount::with_account(
            status,
            PlainAccount { info: new, storage: this_storage },
        );
        record
    }
}

} // verus!
