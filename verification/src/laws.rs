//! What holds of every cache, every entry and every batch.
use crate::account::{AccountInfoView, AccountView};
use crate::account_status::AccountStatus;
use crate::cache::{
    brings_code, contracts_after, entry_after, transition_of, with_contract, CacheStateView,
};
use crate::cache_account::{CacheAccount, CacheAccountView};
use crate::primitives::{Address, B256};
use crate::transition_account::TransitionAccountView;
use vstd::prelude::*;

verus! {

/// An entry holds the account exactly in the stages in which the account
/// exists.
pub proof fn lemma_entry_consistent(entry: CacheAccount)
    ensures
        entry@.consistent(),
{
}

/// Every stage that follows a destruction or a touch that clears the account
/// is one in which nothing stands where the account was; every stage that
/// follows a creation or a change is one in which the account exists.
pub proof fn lemma_next_stage_presence(status: AccountStatus, flag: bool)
    ensures
        status.spec_on_selfdestructed().spec_is_gone(),
        status.spec_on_touched_empty_post_eip161().spec_is_gone(),
        status.spec_on_created().spec_has_account(),
        status.spec_on_changed(flag).spec_has_account(),
        status.spec_on_touched_created_pre_eip161(flag) matches Some(next)
            ==> next.spec_has_account(),
        status.spec_is_gone() == !status.spec_has_account(),
{
}

/// Every step leaves the account in the entry exactly where the stage says
/// that the account exists.
pub proof fn lemma_step_keeps_consistent(
    entry: CacheAccountView,
    account: AccountView,
    state_clear: bool,
)
    requires
        entry.consistent(),
    ensures
        entry_after(entry, account, state_clear).consistent(),
{
}

/// An account that is not touched leaves no record, and leaves the cache as
/// it is: the entry, every other entry, and the contract code.
pub proof fn lemma_untouched_is_skipped(
    state: CacheStateView,
    address: Address,
    account: AccountView,
)
    requires
        !account.touched,
    ensures
        state.account_record(address, account) is None,
        state.apply_account(address, account) == state,
        forall|entry: CacheAccountView, state_clear: bool|
            #[trigger] entry_after(entry, account, state_clear) == entry,
{
}

/// A touched account that was destroyed leaves the entry without an account
/// and in a stage of destruction, whether or not it was created too, and
/// whether or not it is empty. Its record, if it has one, says that the
/// account is gone. The one entry without a record is that of an address at
/// which no account was found. The contract code stays as it is.
pub proof fn lemma_selfdestruct_takes_precedence(
    entry: CacheAccountView,
    account: AccountView,
    state_clear: bool,
    contracts: Map<B256, Seq<u8>>,
)
    requires
        account.touched,
        account.selfdestructed,
    ensures
        entry_after(entry, account, state_clear).account is None,
        entry_after(entry, account, state_clear).status.spec_is_gone(),
        transition_of(entry, account, state_clear) matches Some(record) ==> record.is_removal(),
        transition_of(entry, account, state_clear) is None
            <==> entry.status == AccountStatus::LoadedNotExisting,
        contracts_after(contracts, account) == contracts,
{
}

/// The step of an account that was created and not destroyed always has a
/// record, and the record says that the account is there.
pub proof fn lemma_creation_is_recorded(
    entry: CacheAccountView,
    account: AccountView,
    state_clear: bool,
)
    requires
        account.touched,
        !account.selfdestructed,
        account.created,
    ensures
        transition_of(entry, account, state_clear) matches Some(record)
            && record.keeps_account()
            && record.info == Some(account.info),
        entry_after(entry, account, state_clear).account is Some,
{
}

/// Where empty accounts are cleared, an empty account that is touched is
/// gone afterwards, and its record, if it has one, says so. It has none
/// where nothing stood at the address already. Touched a second time, it
/// leaves no record, and the entry stays as the first touch left it.
pub proof fn lemma_clearing_twice_is_clearing_once(entry: CacheAccountView, account: AccountView)
    requires
        account.touched,
        !account.selfdestructed,
        !account.created,
        account.info.is_empty(),
    ensures
        transition_of(entry, account, true) matches Some(record) ==> record.is_removal(),
        transition_of(entry, account, true) is None <==> entry.status.spec_is_gone(),
        transition_of(entry_after(entry, account, true), account, true) is None,
        entry_after(entry_after(entry, account, true), account, true)
            == entry_after(entry, account, true),
{
}

/// Where empty accounts are kept, an empty account that is touched is there
/// afterwards. Unless the cache knew it as empty already, the step has a
/// record, which says that the account is there, empty.
pub proof fn lemma_legacy_keeps_empty_account(entry: CacheAccountView, account: AccountView)
    requires
        entry.consistent(),
        account.touched,
        !account.selfdestructed,
        !account.created,
        account.info.is_empty(),
    ensures
        entry_after(entry, account, false).account is Some,
        transition_of(entry, account, false) is Some <==> !entry.is_known_empty(),
        transition_of(entry, account, false) matches Some(record)
            ==> record.keeps_account() && record.info == Some(AccountInfoView::empty()),
{
}

/// The step of a touched account that is neither destroyed nor created nor
/// empty always has a record, which holds the account's balance, nonce and
/// code as they are and as they were.
pub proof fn lemma_change_is_recorded(
    entry: CacheAccountView,
    account: AccountView,
    state_clear: bool,
)
    requires
        account.touched,
        !account.selfdestructed,
        !account.created,
        !account.info.is_empty(),
    ensures
        transition_of(entry, account, state_clear) matches Some(record)
            && record.keeps_account()
            && record.info == Some(account.info)
            && record.previous_info == entry.info(),
        entry_after(entry, account, state_clear).account is Some,
{
}

/// Contract code is put under a hash once: what is put there first stays,
/// whatever is put there later, and nothing else is taken away or changed.
pub proof fn lemma_first_contract_code_stays(
    contracts: Map<B256, Seq<u8>>,
    hash: B256,
    first: Seq<u8>,
    second: Seq<u8>,
)
    ensures
        with_contract(with_contract(contracts, hash, first), hash, second)
            == with_contract(contracts, hash, first),
        with_contract(contracts, hash, first).dom() == contracts.dom().insert(hash),
        with_contract(contracts, hash, first)[hash] == if contracts.contains_key(hash) {
            contracts[hash]
        } else {
            first
        },
        forall|other: B256|
            #[trigger] contracts.contains_key(other)
                ==> with_contract(contracts, hash, first)[other] == contracts[other],
{
    assert(with_contract(contracts, hash, first).dom() =~= contracts.dom().insert(hash));
}

/// Of two created accounts with one code hash, the second leaves the
/// contract code as the first left it: the hash has one entry, which holds
/// what stood there before the first, or else the code of the first.
pub proof fn lemma_contract_code_is_kept_once(
    contracts: Map<B256, Seq<u8>>,
    first: AccountView,
    second: AccountView,
)
    requires
        brings_code(first),
        first.info.code_hash == second.info.code_hash,
    ensures
        contracts_after(contracts_after(contracts, first), second)
            == contracts_after(contracts, first),
        contracts_after(contracts, first).dom() == contracts.dom().insert(first.info.code_hash),
        contracts_after(contracts, first)[first.info.code_hash] == if contracts.contains_key(
            first.info.code_hash,
        ) {
            contracts[first.info.code_hash]
        } else {
            first.info.code->0
        },
{
    lemma_first_contract_code_stays(
        contracts,
        first.info.code_hash,
        first.info.code->0,
        second.info.code->0,
    );
}

/// No step takes contract code away or changes it.
pub proof fn lemma_contract_code_stays(contracts: Map<B256, Seq<u8>>, account: AccountView)
    ensures
        forall|hash: B256|
            #[trigger] contracts.contains_key(hash)
                ==> contracts_after(contracts, account).contains_key(hash)
                && contracts_after(contracts, account)[hash] == contracts[hash],
{
}

/// No batch takes contract code away or changes it.
pub proof fn lemma_batch_keeps_contracts(state: CacheStateView, batch: Seq<(Address, AccountView)>)
    ensures
        forall|hash: B256|
            #[trigger] state.contracts.contains_key(hash)
                ==> state.apply_batch(batch).contracts.contains_key(hash)
                && state.apply_batch(batch).contracts[hash] == state.contracts[hash],
    decreases batch.len(),
{
    if batch.len() > 0 {
        lemma_batch_keeps_contracts(state, batch.drop_last());
        let before = state.apply_batch(batch.drop_last());
        lemma_contract_code_stays(before.contracts, batch.last().1);
    }
}

/// The record of the step of the account at a place of the batch, if the
/// step has one.
pub open spec fn step_record(
    state: CacheStateView,
    batch: Seq<(Address, AccountView)>,
    place: int,
) -> Option<TransitionAccountView> {
    state.apply_batch(batch.take(place)).account_record(batch[place].0, batch[place].1)
}

/// The records of a batch follow the order of the batch. `places` gives for
/// each record the place in the batch of the account that it belongs to:
/// the places rise, each record has the address of its account and is the
/// record of that account's step, and every account whose step has a record
/// has a place.
pub proof fn lemma_records_follow_batch_order(
    state: CacheStateView,
    batch: Seq<(Address, AccountView)>,
) -> (places: Seq<int>)
    ensures
        places.len() == state.batch_records(batch).len(),
        forall|k: int| 0 <= k < places.len() ==> 0 <= #[trigger] places[k] < batch.len(),
        forall|k: int, l: int|
            0 <= k < l < places.len() ==> (#[trigger] places[k]) < (#[trigger] places[l]),
        forall|k: int|
            0 <= k < places.len() ==> (#[trigger] state.batch_records(batch)[k]).0
                == batch[places[k]].0,
        forall|k: int|
            0 <= k < places.len() ==> step_record(state, batch, places[k]) == Some(
                (#[trigger] state.batch_records(batch)[k]).1,
            ),
        forall|i: int|
            0 <= i < batch.len() && (#[trigger] step_record(state, batch, i)) is Some
                ==> places.contains(i),
    decreases batch.len(),
{
    if batch.len() == 0 {
        Seq::empty()
    } else {
        let front = batch.drop_last();
        let last = batch.len() - 1;
        let earlier = lemma_records_follow_batch_order(state, front);
        let records = state.batch_records(batch);
        assert(batch.take(last) =~= front);
        assert forall|i: int| 0 <= i < front.len() implies #[trigger] batch.take(i) == front.take(
            i,
        ) by {
            assert(batch.take(i) =~= front.take(i));
        }
        let places = if step_record(state, batch, last) is Some {
            earlier.push(last)
        } else {
            earlier
        };
        assert forall|k: int| 0 <= k < places.len() implies (#[trigger] records[k]).0
            == batch[places[k]].0 && step_record(state, batch, places[k]) == Some(records[k].1) by {
            if k < earlier.len() {
                assert(records[k] == state.batch_records(front)[k]);
                assert(batch.take(earlier[k]) == front.take(earlier[k]));
                assert(batch[earlier[k]] == front[earlier[k]]);
                assert(step_record(state, front, earlier[k]) == Some(records[k].1));
            }
        }
        assert forall|i: int|
            0 <= i < batch.len() && (#[trigger] step_record(state, batch, i)) is Some
        implies places.contains(i) by {
            if i < last {
                assert(batch.take(i) == front.take(i));
                assert(batch[i] == front[i]);
                assert(step_record(state, front, i) is Some);
                let k = choose|k: int| 0 <= k < earlier.len() && earlier[k] == i;
                assert(places[k] == i);
            } else {
                assert(places[places.len() - 1] == i);
            }
        }
        places
    }
}

/// A rising list of places below `bound` has at most `bound` places.
proof fn lemma_rising_places_are_few(places: Seq<int>, bound: int)
    requires
        0 <= bound,
        forall|k: int| 0 <= k < places.len() ==> 0 <= #[trigger] places[k] < bound,
        forall|k: int, l: int|
            0 <= k < l < places.len() ==> (#[trigger] places[k]) < (#[trigger] places[l]),
    ensures
        places.len() <= bound,
    decreases places.len(),
{
    if places.len() > 0 {
        let front = places.drop_last();
        let top = places[places.len() - 1];
        assert(0 <= top < bound);
        assert forall|k: int| 0 <= k < front.len() implies 0 <= #[trigger] front[k] < top by {
            assert(places[k] < places[places.len() - 1]);
        }
        assert forall|k: int, l: int| 0 <= k < l < front.len() implies (#[trigger] front[k]) < (
        #[trigger] front[l]) by {
            assert(places[k] < places[l]);
        }
        lemma_rising_places_are_few(front, top);
    }
}

/// Where no address occurs twice in a batch, no address has more than one
/// record, and there are no more records than accounts.
pub proof fn lemma_one_record_for_each_address(
    state: CacheStateView,
    batch: Seq<(Address, AccountView)>,
)
    requires
        forall|i: int, j: int|
            0 <= i < j < batch.len() ==> (#[trigger] batch[i]).0 != (#[trigger] batch[j]).0,
    ensures
        forall|k: int, l: int|
            0 <= k < l < state.batch_records(batch).len() ==> (#[trigger] state.batch_records(
                batch,
            )[k]).0 != (#[trigger] state.batch_records(batch)[l]).0,
        state.batch_records(batch).len() <= batch.len(),
{
    let places = lemma_records_follow_batch_order(state, batch);
    let records = state.batch_records(batch);
    assert forall|k: int, l: int| 0 <= k < l < records.len() implies (#[trigger] records[k]).0 != (
    #[trigger] records[l]).0 by {
        assert(places[k] < places[l]);
        assert(batch[places[k]].0 != batch[places[l]].0);
    }
    lemma_rising_places_are_few(places, batch.len() as int);
}

} // verus!
