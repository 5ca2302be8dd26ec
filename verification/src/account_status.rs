//! The stages in the life of a cached account.
use vstd::prelude::*;

verus! {

/// What the cache knows of an account's life: whether it was found when it
/// was loaded, and whether it was changed, created or destroyed since.
#[derive(Clone, Copy, Debug, PartialEq, Eq, Structural)]
pub enum AccountStatus {
    /// Loaded, and found not to exist.
    LoadedNotExisting,
    /// Loaded, and not changed since.
    Loaded,
    /// Loaded and found empty, which under state clearing is as good as not
    /// to exist.
    LoadedEmptyEIP161,
    /// Created or changed since it was loaded, with all of its storage known.
    InMemoryChange,
    /// Changed since it was loaded.
    Changed,
    /// Destroyed.
    Destroyed,
    /// Destroyed, and created or changed again since.
    DestroyedChanged,
    /// Destroyed more than once.
    DestroyedAgain,
}

impl AccountStatus {
    /// Whether an account in this stage exists, so that the cache holds its
    /// balance, nonce, code and storage.
    pub open spec fn spec_has_account(self) -> bool {
        match self {
            AccountStatus::Loaded
            | AccountStatus::LoadedEmptyEIP161
            | AccountStatus::InMemoryChange
            | AccountStatus::Changed
            | AccountStatus::DestroyedChanged => true,
            AccountStatus::LoadedNotExisting
            | AccountStatus::Destroyed
            | AccountStatus::DestroyedAgain => false,
        }
    }

    /// Whether an account in this stage exists.
    #[verifier::when_used_as_spec(spec_has_account)]
    pub fn has_account(self) -> (exists: bool)
        ensures
            exists == self.spec_has_account(),
    {
        match self {
            AccountStatus::Loaded
            | AccountStatus::LoadedEmptyEIP161
            | AccountStatus::InMemoryChange
            | AccountStatus::Changed
            | AccountStatus::DestroyedChanged => true,
            AccountStatus::LoadedNotExisting
            | AccountStatus::Destroyed
            | AccountStatus::DestroyedAgain => false,
        }
    }

    /// Whether the account was destroyed since it was loaded.
    pub open spec fn spec_was_destroyed(self) -> bool {
        match self {
            AccountStatus::Destroyed
            | AccountStatus::DestroyedChanged
            | AccountStatus::DestroyedAgain => true,
            _ => false,
        }
    }

    /// Whether the account was destroyed since it was loaded.
    #[verifier::when_used_as_spec(spec_was_destroyed)]
    pub fn was_destroyed(self) -> (destroyed: bool)
        ensures
            destroyed == self.spec_was_destroyed(),
    {
        match self {
            AccountStatus::Destroyed
            | AccountStatus::DestroyedChanged
            | AccountStatus::DestroyedAgain => true,
            _ => false,
        }
    }

    /// Whether the account is as it was loaded.
    pub open spec fn spec_is_not_modified(self) -> bool {
        match self {
            AccountStatus::LoadedNotExisting
            | AccountStatus::Loaded
            | AccountStatus::LoadedEmptyEIP161 => true,
            _ => false,
        }
    }

    /// Whether the account is as it was loaded.
    #[verifier::when_used_as_spec(spec_is_not_modified)]
    pub fn is_not_modified(self) -> (untouched: bool)
        ensures
            untouched == self.spec_is_not_modified(),
    {
        match self {
            AccountStatus::LoadedNotExisting
            | AccountStatus::Loaded
            | AccountStatus::LoadedEmptyEIP161 => true,
            _ => false,
        }
    }

    /// Whether nothing stands where the account was: it was never there, or
    /// it was destroyed and not created again.
    pub open spec fn spec_is_gone(self) -> bool {
        match self {
            AccountStatus::LoadedNotExisting
            | AccountStatus::Destroyed
            | AccountStatus::DestroyedAgain => true,
            _ => false,
        }
    }

    /// Whether nothing stands where the account was.
    #[verifier::when_used_as_spec(spec_is_gone)]
    pub fn is_gone(self) -> (gone: bool)
        ensures
            gone == self.spec_is_gone(),
    {
        match self {
            AccountStatus::LoadedNotExisting
            | AccountStatus::Destroyed
            | AccountStatus::DestroyedAgain => true,
            _ => false,
        }
    }

    /// The stage after the account was created.
    pub open spec fn spec_on_created(self) -> AccountStatus {
        match self {
            AccountStatus::DestroyedAgain
            | AccountStatus::Destroyed
            | AccountStatus::DestroyedChanged => AccountStatus::DestroyedChanged,
            AccountStatus::LoadedEmptyEIP161
            | AccountStatus::LoadedNotExisting
            | AccountStatus::Loaded
            | AccountStatus::Changed
            | AccountStatus::InMemoryChange => AccountStatus::InMemoryChange,
        }
    }

    /// The stage after the account was created.
    #[verifier::when_used_as_spec(spec_on_created)]
    pub fn on_created(self) -> (next: AccountStatus)
        ensures
            next == self.spec_on_created(),
    {
        match self {
            AccountStatus::DestroyedAgain
            | AccountStatus::Destroyed
            | AccountStatus::DestroyedChanged => AccountStatus::DestroyedChanged,
            AccountStatus::LoadedEmptyEIP161
            | AccountStatus::LoadedNotExisting
            | AccountStatus::Loaded
            | AccountStatus::Changed
            | AccountStatus::InMemoryChange => AccountStatus::InMemoryChange,
        }
    }

    /// The stage after the account was touched and found empty, where empty
    /// accounts are cleared.
    pub open spec fn spec_on_touched_empty_post_eip161(self) -> AccountStatus {
        match self {
            AccountStatus::LoadedNotExisting => AccountStatus::LoadedNotExisting,
            AccountStatus::DestroyedAgain
            | AccountStatus::DestroyedChanged => AccountStatus::DestroyedAgain,
            AccountStatus::InMemoryChange
            | AccountStatus::Destroyed
            | AccountStatus::LoadedEmptyEIP161
            | AccountStatus::Loaded
            | AccountStatus::Changed => AccountStatus::Destroyed,
        }
    }

    /// The stage after the account was touched and found empty, where empty
    /// accounts are cleared.
    #[verifier::when_used_as_spec(spec_on_touched_empty_post_eip161)]
    pub fn on_touched_empty_post_eip161(self) -> (next: AccountStatus)
        ensures
            next == self.spec_on_touched_empty_post_eip161(),
    {
        match self {
            AccountStatus::LoadedNotExisting => AccountStatus::LoadedNotExisting,
            AccountStatus::DestroyedAgain
            | AccountStatus::DestroyedChanged => AccountStatus::DestroyedAgain,
            AccountStatus::InMemoryChange
            | AccountStatus::Destroyed
            | AccountStatus::LoadedEmptyEIP161
            | AccountStatus::Loaded
            | AccountStatus::Changed => AccountStatus::Destroyed,
        }
    }

    /// The stage after the account was touched and found empty, where empty
    /// accounts are kept; `None` where the account was empty already, so
    /// that nothing changes. `had_no_info` says whether the account existed
    /// and was empty before.
    pub open spec fn spec_on_touched_created_pre_eip161(self, had_no_info: bool) -> Option<
        AccountStatus,
    > {
        match self {
            AccountStatus::LoadedEmptyEIP161 => None,
            AccountStatus::DestroyedChanged => if had_no_info {
                None
            } else {
                Some(AccountStatus::DestroyedChanged)
            },
            AccountStatus::Destroyed
            | AccountStatus::DestroyedAgain => Some(AccountStatus::DestroyedChanged),
            AccountStatus::InMemoryChange
            | AccountStatus::LoadedNotExisting => Some(AccountStatus::InMemoryChange),
            AccountStatus::Loaded | AccountStatus::Changed => Some(AccountStatus::Changed),
        }
    }

    /// The stage after the account was touched and found empty, where empty
    /// accounts are kept.
    #[verifier::when_used_as_spec(spec_on_touched_created_pre_eip161)]
    pub fn on_touched_created_pre_eip161(self, had_no_info: bool) -> (next: Option<AccountStatus>)
        ensures
            next == self.spec_on_touched_created_pre_eip161(had_no_info),
    {
        match self {
            AccountStatus::LoadedEmptyEIP161 => None,
            AccountStatus::DestroyedChanged => if had_no_info {
                None
            } else {
                Some(AccountStatus::DestroyedChanged)
            },
            AccountStatus::Destroyed
            | AccountStatus::DestroyedAgain => Some(AccountStatus::DestroyedChanged),
            AccountStatus::InMemoryChange
            | AccountStatus::LoadedNotExisting => Some(AccountStatus::InMemoryChange),
            AccountStatus::Loaded | AccountStatus::Changed => Some(AccountStatus::Changed),
        }
    }

    /// The stage after the account was changed. `had_no_nonce_and_code` says
    /// whether the account existed without nonce and code before: all the
    /// storage of such an account is known.
    pub open spec fn spec_on_changed(self, had_no_nonce_and_code: bool) -> AccountStatus {
        match self {
            AccountStatus::LoadedNotExisting
            | AccountStatus::LoadedEmptyEIP161
            | AccountStatus::InMemoryChange => AccountStatus::InMemoryChange,
            AccountStatus::Loaded => if had_no_nonce_and_code {
                AccountStatus::InMemoryChange
            } else {
                AccountStatus::Changed
            },
            AccountStatus::Changed => AccountStatus::Changed,
            AccountStatus::DestroyedChanged
            | AccountStatus::Destroyed
            | AccountStatus::DestroyedAgain => AccountStatus::DestroyedChanged,
        }
    }

    /// The stage after the account was changed.
    #[verifier::when_used_as_spec(spec_on_changed)]
    pub fn on_changed(self, had_no_nonce_and_code: bool) -> (next: AccountStatus)
        ensures
            next == self.spec_on_changed(had_no_nonce_and_code),
    {
        match self {
            AccountStatus::LoadedNotExisting
            | AccountStatus::LoadedEmptyEIP161
            | AccountStatus::InMemoryChange => AccountStatus::InMemoryChange,
            AccountStatus::Loaded => if had_no_nonce_and_code {
                AccountStatus::InMemoryChange
            } else {
                AccountStatus::Changed
            },
            AccountStatus::Changed => AccountStatus::Changed,
            AccountStatus::DestroyedChanged
            | AccountStatus::Destroyed
            | AccountStatus::DestroyedAgain => AccountStatus::DestroyedChanged,
        }
    }

    /// The stage after the account was destroyed.
    pub open spec fn spec_on_selfdestructed(self) -> AccountStatus {
        match self {
            AccountStatus::LoadedNotExisting => AccountStatus::LoadedNotExisting,
            AccountStatus::DestroyedChanged
            | AccountStatus::DestroyedAgain
            | AccountStatus::Destroyed => AccountStatus::DestroyedAgain,
            AccountStatus::Loaded
            | AccountStatus::LoadedEmptyEIP161
            | AccountStatus::InMemoryChange
            | AccountStatus::Changed => AccountStatus::Destroyed,
        }
    }

    /// The stage after the account was destroyed.
    #[verifier::when_used_as_spec(spec_on_selfdestructed)]
    pub fn on_selfdestructed(self) -> (next: AccountStatus)
        ensures
            next == self.spec_on_selfdestructed(),
    {
        match self {
            AccountStatus::LoadedNotExisting => AccountStatus::LoadedNotExisting,
            AccountStatus::DestroyedChanged
            | AccountStatus::DestroyedAgain
            | AccountStatus::Destroyed => AccountStatus::DestroyedAgain,
            AccountStatus::Loaded
            | AccountStatus::LoadedEmptyEIP161
            | AccountStatus::InMemoryChange
            | AccountStatus::Changed => AccountStatus::Destroyed,
        }
    }
}

} // verus!
