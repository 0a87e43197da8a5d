//! Properties of the listing lifecycle that relate several operations, stated
//! over the spec functions that the operations' contracts use.
use vstd::prelude::*;

use crate::account::AccountId;
use crate::listing::ListingView;
use crate::market::{
    buy_outcome, cancel_outcome, create_outcome, delisted, offered_by, reported_owner_is,
    selected, MarketPlaceError, MAX_LISTINGS,
};

verus! {

/// Whether an entry of a listing query is an active listing.
pub open spec fn listed_entry(e: (u8, ListingView)) -> bool {
    e.1.listed
}

/// A listing request by the asset's reported owner, with the marketplace
/// approved, succeeds while ids remain, and the id it returns is above every
/// id issued before it (every id that the full listing shows); the request
/// that follows it gets a greater id still.
pub proof fn lemma_create_issues_fresh_id(
    s: Seq<ListingView>,
    l: ListingView,
    caller: Seq<u8>,
    owner: Option<AccountId>,
    approved: bool,
)
    requires
        s.len() < MAX_LISTINGS,
        reported_owner_is(owner, caller),
        approved,
    ensures
        create_outcome(s.len(), reported_owner_is(owner, caller), approved) == Ok::<
            u8,
            MarketPlaceError,
        >(s.len() as u8),
        forall|i: int|
            0 <= i < selected(s, false, s.len()).len() ==> (#[trigger] selected(
                s,
                false,
                s.len(),
            )[i]).0 < s.len() as u8,
        ({
            let t = s.push(offered_by(l, caller));
            t.len() < MAX_LISTINGS ==> create_outcome(t.len(), true, true) == Ok::<
                u8,
                MarketPlaceError,
            >(t.len() as u8) && t.len() as u8 > s.len() as u8
        }),
{
    lemma_selected_shape(s, false, s.len());
}

/// A listing request fails with `NotOwner` when the reported owner is not the
/// caller, and with `NotApproved` when it is but the marketplace holds no
/// allowance.
pub proof fn lemma_create_refusals(issued: nat, owner: Option<AccountId>, caller: Seq<u8>)
    ensures
        !reported_owner_is(owner, caller) ==> create_outcome(
            issued,
            reported_owner_is(owner, caller),
            true,
        ) == Err::<u8, _>(MarketPlaceError::NotOwner) && create_outcome(
            issued,
            reported_owner_is(owner, caller),
            false,
        ) == Err::<u8, _>(MarketPlaceError::NotOwner),
        reported_owner_is(owner, caller) ==> create_outcome(
            issued,
            reported_owner_is(owner, caller),
            false,
        ) == Err::<u8, _>(MarketPlaceError::NotApproved),
{
}

/// After a purchase the listing is inactive, and a second purchase of it
/// fails with `NoSuchListing`, whatever the second buyer's allowance.
pub proof fn lemma_buy_not_repeatable(s: Seq<ListingView>, id: u8, first: u128, second: u128)
    requires
        buy_outcome(s, id, first) is Ok,
    ensures
        !delisted(s, id)[id as int].listed,
        delisted(s, id).len() == s.len(),
        buy_outcome(delisted(s, id), id, second) == Err::<(), _>(MarketPlaceError::NoSuchListing),
{
}

/// The seller and the marketplace may withdraw an issued listing; any other
/// caller is refused with `NotAuthorized`.
pub proof fn lemma_cancel_authority(
    s: Seq<ListingView>,
    account: Seq<u8>,
    id: u8,
    caller: Seq<u8>,
)
    requires
        id < s.len(),
    ensures
        cancel_outcome(s, account, id, s[id as int].seller) is Ok,
        cancel_outcome(s, account, id, account) is Ok,
        caller != s[id as int].seller && caller != account ==> cancel_outcome(
            s,
            account,
            id,
            caller,
        ) == Err::<(), _>(MarketPlaceError::NotAuthorized),
{
}

/// Withdrawing a listing twice succeeds both times, and the second leaves the
/// table as the first did.
pub proof fn lemma_cancel_idempotent(
    s: Seq<ListingView>,
    account: Seq<u8>,
    id: u8,
    caller: Seq<u8>,
)
    requires
        cancel_outcome(s, account, id, caller) is Ok,
    ensures
        cancel_outcome(delisted(s, id), account, id, caller) is Ok,
        delisted(delisted(s, id), id) == delisted(s, id),
{
    assert(delisted(delisted(s, id), id) =~= delisted(s, id));
}

proof fn lemma_selected_shape(s: Seq<ListingView>, only_listed: bool, n: nat)
    requires
        n <= s.len(),
        n <= MAX_LISTINGS,
    ensures
        forall|i: int|
            0 <= i < selected(s, only_listed, n).len() ==> {
                let e = #[trigger] selected(s, only_listed, n)[i];
                &&& e.0 < n
                &&& e.1 == s[e.0 as int]
            },
        forall|i: int, j: int|
            0 <= i < j < selected(s, only_listed, n).len() ==> (#[trigger] selected(
                s,
                only_listed,
                n,
            )[i]).0 < (#[trigger] selected(s, only_listed, n)[j]).0,
    decreases n,
{
    if n > 0 {
        let m = (n - 1) as nat;
        lemma_selected_shape(s, only_listed, m);
        let prev = selected(s, only_listed, m);
        let e = ((m as u8), s[m as int]);
        assert(e.0 == m);
        if s[m as int].listed || !only_listed {
            let cur = prev.push(e);
            assert(selected(s, only_listed, n) == cur);
            assert forall|i: int| 0 <= i < prev.len() implies #[trigger] cur[i] == prev[i] by {}
            assert(cur[prev.len() as int] == e);
        }
    }
}

proof fn lemma_active_is_filter(s: Seq<ListingView>, n: nat)
    requires
        n <= s.len(),
    ensures
        selected(s, true, n) == selected(s, false, n).filter(
            |e: (u8, ListingView)| listed_entry(e),
        ),
    decreases n,
{
    reveal(Seq::filter);
    if n > 0 {
        lemma_active_is_filter(s, (n - 1) as nat);
        let all = selected(s, false, (n - 1) as nat);
        let e = (((n - 1) as nat) as u8, s[n - 1]);
        assert(all.push(e).drop_last() =~= all);
    }
}

/// The active listings are exactly the entries of the full listing that are
/// active, in the same order; both list ids in strictly ascending order, each
/// with the listing stored under it.
pub proof fn lemma_active_listings(s: Seq<ListingView>)
    requires
        s.len() <= MAX_LISTINGS,
    ensures
        selected(s, true, s.len()) == selected(s, false, s.len()).filter(
            |e: (u8, ListingView)| listed_entry(e),
        ),
        forall|only_listed: bool, i: int, j: int|
            0 <= i < j < selected(s, only_listed, s.len()).len() ==> (#[trigger] selected(
                s,
                only_listed,
                s.len(),
            )[i]).0 < (#[trigger] selected(s, only_listed, s.len())[j]).0,
        forall|only_listed: bool, i: int|
            0 <= i < selected(s, only_listed, s.len()).len() ==> (#[trigger] selected(
                s,
                only_listed,
                s.len(),
            )[i]).1 == s[selected(s, only_listed, s.len())[i].0 as int],
{
    lemma_active_is_filter(s, s.len());
    lemma_selected_shape(s, true, s.len());
    lemma_selected_shape(s, false, s.len());
    assert forall|only_listed: bool, i: int, j: int|
        0 <= i < j < selected(s, only_listed, s.len()).len() implies (#[trigger] selected(
        s,
        only_listed,
        s.len(),
    )[i]).0 < (#[trigger] selected(s, only_listed, s.len())[j]).0 by {
        lemma_selected_shape(s, only_listed, s.len());
    }
    assert forall|only_listed: bool, i: int|
        0 <= i < selected(s, only_listed, s.len()).len() implies (#[trigger] selected(
        s,
        only_listed,
        s.len(),
    )[i]).1 == s[selected(s, only_listed, s.len())[i].0 as int] by {
        lemma_selected_shape(s, only_listed, s.len());
    }
}

} // verus!
