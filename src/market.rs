use vstd::prelude::*;

use crate::account::{AccountId, TokenId, TokenIdView};
use crate::listing::{Listing, ListingView};

verus! {

/// How many listings the table can ever hold: one for each `u8` id.
pub const MAX_LISTINGS: usize = 256;

/// Why an operation on the marketplace was refused.
#[derive(Debug, Clone, Copy, PartialEq, Eq, Structural)]
pub enum MarketPlaceError {
    /// The caller does not own the asset it tries to list.
    NotOwner,
    /// The marketplace holds no transfer allowance for the asset.
    NotApproved,
    /// No active listing has that id.
    NoSuchListing,
    /// The buyer's allowance to the marketplace is below the price.
    InsufficientFunds,
    /// The caller is neither the seller nor the marketplace.
    NotAuthorized,
    /// An asset registry refused a transfer.
    CollaboratorFailure,
    /// Every listing id has been issued.
    IdsExhausted,
}

/// The view of a [`Purchase`].
pub struct PurchaseView {
    pub token_address: Seq<u8>,
    pub buyer: Seq<u8>,
    pub seller: Seq<u8>,
    pub price: u128,
    pub contract_address: Seq<u8>,
    pub token_id: TokenIdView,
}

/// The two transfers that make up a purchase: `price` units of the fungible
/// asset of `token_address` from `buyer` to `seller`, and the asset
/// `token_id` of the registry `contract_address` from `seller` to `buyer`,
/// both made by the marketplace on the owners' behalf.
#[derive(Debug, PartialEq, Eq)]
pub struct Purchase {
    pub token_address: AccountId,
    pub buyer: AccountId,
    pub seller: AccountId,
    pub price: u128,
    pub contract_address: AccountId,
    pub token_id: TokenId,
}

impl View for Purchase {
    type V = PurchaseView;

    open spec fn view(&self) -> PurchaseView {
        PurchaseView {
            token_address: self.token_address@,
            buyer: self.buyer@,
            seller: self.seller@,
            price: self.price,
            contract_address: self.contract_address@,
            token_id: self.token_id@,
        }
    }
}

/// Whether the owner that the non-fungible registry reported is `caller`.
pub open spec fn reported_owner_is(owner: Option<AccountId>, caller: Seq<u8>) -> bool {
    match owner {
        Some(o) => o@ == caller,
        None => false,
    }
}

/// The record that a listing request stores: made by `seller`, and active.
pub open spec fn offered_by(l: ListingView, seller: Seq<u8>) -> ListingView {
    ListingView { seller: seller, listed: true, ..l }
}

/// What `create_listing` returns when `issued` ids have been handed out.
pub open spec fn create_outcome(issued: nat, caller_owns: bool, approved: bool) -> Result<
    u8,
    MarketPlaceError,
> {
    if !caller_owns {
        Err(MarketPlaceError::NotOwner)
    } else if !approved {
        Err(MarketPlaceError::NotApproved)
    } else if issued >= MAX_LISTINGS {
        Err(MarketPlaceError::IdsExhausted)
    } else {
        Ok(issued as u8)
    }
}

/// Whether listing `id` is issued and still active.
pub open spec fn is_active(s: Seq<ListingView>, id: u8) -> bool {
    id < s.len() && s[id as int].listed
}

/// What a purchase of listing `id` comes to, before any transfer, when the
/// buyer has allowed the marketplace to spend `allowance`.
pub open spec fn buy_outcome(s: Seq<ListingView>, id: u8, allowance: u128) -> Result<
    (),
    MarketPlaceError,
> {
    if !is_active(s, id) {
        Err(MarketPlaceError::NoSuchListing)
    } else if allowance < s[id as int].price {
        Err(MarketPlaceError::InsufficientFunds)
    } else {
        Ok(())
    }
}

/// What `cancel` of listing `id` by `caller` returns; `account` is the
/// marketplace's own identity.
pub open spec fn cancel_outcome(
    s: Seq<ListingView>,
    account: Seq<u8>,
    id: u8,
    caller: Seq<u8>,
) -> Result<(), MarketPlaceError> {
    if id >= s.len() {
        Err(MarketPlaceError::NoSuchListing)
    } else if caller != s[id as int].seller && caller != account {
        Err(MarketPlaceError::NotAuthorized)
    } else {
        Ok(())
    }
}

/// The table with listing `id` no longer active.
pub open spec fn delisted(s: Seq<ListingView>, id: u8) -> Seq<ListingView> {
    s.update(id as int, s[id as int].with_listed(false))
}

/// The transfers that buying `l` makes for `buyer`.
pub open spec fn purchase_of(l: ListingView, buyer: Seq<u8>) -> PurchaseView {
    PurchaseView {
        token_address: l.token_address,
        buyer: buyer,
        seller: l.seller,
        price: l.price,
        contract_address: l.contract_address,
        token_id: l.token_id,
    }
}

/// The entries `(id, listing)` for the ids below `n`, in ascending order,
/// leaving out inactive listings when `only_listed` holds.
pub open spec fn selected(s: Seq<ListingView>, only_listed: bool, n: nat) -> Seq<
    (u8, ListingView),
>
    decreases n,
{
    if n == 0 {
        Seq::empty()
    } else {
        let prev = selected(s, only_listed, (n - 1) as nat);
        let l = s[n - 1];
        if l.listed || !only_listed {
            prev.push((((n - 1) as nat) as u8, l))
        } else {
            prev
        }
    }
}

/// The view of a list of entries.
pub open spec fn entries_view(v: Seq<(u8, Listing)>) -> Seq<(u8, ListingView)> {
    v.map_values(|e: (u8, Listing)| (e.0, e.1@))
}

/// The listing registry: every listing ever made, indexed by its id, and the
/// marketplace's own identity.
pub struct Contract {
    account: AccountId,
    listings: Vec<Listing>,
}

impl View for Contract {
    type V = Seq<ListingView>;

    closed spec fn view(&self) -> Seq<ListingView> {
        self.listings@.map_values(|l: Listing| l@)
    }
}

impl Contract {
    /// The marketplace's own identity.
    pub closed spec fn account(&self) -> Seq<u8> {
        self.account@
    }

    /// The table never holds more listings than there are ids.
    pub open spec fn wf(&self) -> bool {
        self@.len() <= MAX_LISTINGS
    }

    /// An empty marketplace whose own identity is `account`.
    pub fn new(account: AccountId) -> (r: Contract)
        ensures
            r@ == Seq::<ListingView>::empty(),
            r.account() == account@,
            r.wf(),
    {
        let r = Contract { account, listings: Vec::new() };
        assert(r@ =~= Seq::<ListingView>::empty());
        r
    }

    /// A marketplace restored from the table it had stored, in id order;
    /// refused when the table holds more listings than there are ids.
    pub fn from_listings(account: AccountId, listings: Vec<Listing>) -> (r: Option<Contract>)
        ensures
            r is Some <==> listings@.len() <= MAX_LISTINGS,
            r matches Some(c) ==> c@ == listings@.map_values(|l: Listing| l@) && c.account()
                == account@ && c.wf(),
    {
        if listings.len() > MAX_LISTINGS {
            return None;
        }
        Some(Contract { account, listings })
    }

    /// How many ids have been issued: the next id to hand out.
    pub fn next_id(&self) -> (r: usize)
        ensures
            r == self@.len(),
    {
        self.listings.len()
    }

    /// Lists an asset for sale. `owner` is what the non-fungible registry
    /// reports as the asset's owner, and `approved` whether it reports a
    /// transfer allowance from `caller` to the marketplace for the asset.
    /// The stored listing names `caller` as seller and is active; its id is
    /// returned.
    pub fn create_listing(
        &mut self,
        listing: Listing,
        caller: &AccountId,
        owner: Option<AccountId>,
        approved: bool,
    ) -> (r: Result<u8, MarketPlaceError>)
        requires
            old(self).wf(),
        ensures
            r == create_outcome(
                old(self)@.len(),
                reported_owner_is(owner, caller@),
                approved,
            ),
            r is Ok ==> final(self)@ == old(self)@.push(offered_by(listing@, caller@)),
            r is Err ==> final(self)@ == old(self)@,
            final(self).account() == old(self).account(),
            final(self).wf(),
    {
        let owns = match &owner {
            Some(o) => o.same_as(caller),
            None => false,
        };
        if !owns {
            return Err(MarketPlaceError::NotOwner);
        }
        if !approved {
            return Err(MarketPlaceError::NotApproved);
        }
        if self.listings.len() >= MAX_LISTINGS {
            return Err(MarketPlaceError::IdsExhausted);
        }
        let id = self.listings.len() as u8;
        let stored = Listing {
            contract_address: listing.contract_address,
            token_id: listing.token_id,
            price: listing.price,
            seller: *caller,
            token_address: listing.token_address,
            listed: true,
        };
        self.listings.push(stored);
        assert(self@ =~= old(self)@.push(offered_by(listing@, caller@)));
        Ok(id)
    }

    /// Checks a purchase of listing `listing_id` by `caller`, whose allowance
    /// to the marketplace in the listing's fungible registry is `allowance`,
    /// and returns the transfers it takes. Nothing changes.
    pub fn prepare_buy(&self, listing_id: u8, caller: &AccountId, allowance: u128) -> (r: Result<
        Purchase,
        MarketPlaceError,
    >)
        requires
            self.wf(),
        ensures
            match r {
                Ok(p) => buy_outcome(self@, listing_id, allowance) is Ok && p@ == purchase_of(
                    self@[listing_id as int],
                    caller@,
                ),
                Err(e) => buy_outcome(self@, listing_id, allowance) == Err::<(), _>(e),
            },
    {
        let i = listing_id as usize;
        if i >= self.listings.len() || !self.listings[i].listed {
            return Err(MarketPlaceError::NoSuchListing);
        }
        let l = &self.listings[i];
        if allowance < l.price {
            return Err(MarketPlaceError::InsufficientFunds);
        }
        Ok(
            Purchase {
                token_address: l.token_address,
                buyer: *caller,
                seller: l.seller,
                price: l.price,
                contract_address: l.contract_address,
                token_id: l.token_id.clone(),
            },
        )
    }

    /// Completes a purchase of listing `listing_id`. `allowance` is the
    /// buyer's allowance to the marketplace, and `settled` whether both
    /// transfers of [`Contract::prepare_buy`] went through. On success the
    /// listing is no longer active; on any failure nothing changes.
    pub fn buy(&mut self, listing_id: u8, allowance: u128, settled: bool) -> (r: Result<
        (),
        MarketPlaceError,
    >)
        requires
            old(self).wf(),
        ensures
            !is_active(old(self)@, listing_id) ==> r == Err::<(), _>(
                MarketPlaceError::NoSuchListing,
            ),
            is_active(old(self)@, listing_id) && allowance < old(self)@[listing_id as int].price
                ==> r == Err::<(), _>(MarketPlaceError::InsufficientFunds),
            buy_outcome(old(self)@, listing_id, allowance) is Err ==> r == buy_outcome(
                old(self)@,
                listing_id,
                allowance,
            ),
            buy_outcome(old(self)@, listing_id, allowance) is Ok && !settled ==> r == Err::<(), _>(
                MarketPlaceError::CollaboratorFailure,
            ),
            buy_outcome(old(self)@, listing_id, allowance) is Ok && settled ==> r is Ok,
            r is Ok ==> final(self)@ == delisted(old(self)@, listing_id),
            r is Err ==> final(self)@ == old(self)@,
            final(self).account() == old(self).account(),
            final(self).wf(),
    {
        let i = listing_id as usize;
        if i >= self.listings.len() || !self.listings[i].listed {
            return Err(MarketPlaceError::NoSuchListing);
        }
        if allowance < self.listings[i].price {
            return Err(MarketPlaceError::InsufficientFunds);
        }
        if !settled {
            return Err(MarketPlaceError::CollaboratorFailure);
        }
        let account = self.account;
        self.cancel(listing_id, &account)
    }

    /// Withdraws listing `listing_id`. Only its seller and the marketplace
    /// itself may do so; withdrawing an inactive listing succeeds again.
    pub fn cancel(&mut self, listing_id: u8, caller: &AccountId) -> (r: Result<(), MarketPlaceError>)
        requires
            old(self).wf(),
        ensures
            r == cancel_outcome(old(self)@, old(self).account(), listing_id, caller@),
            r is Ok ==> final(self)@ == delisted(old(self)@, listing_id),
            r is Err ==> final(self)@ == old(self)@,
            final(self).account() == old(self).account(),
            final(self).wf(),
    {
        let i = listing_id as usize;
        if i >= self.listings.len() {
            return Err(MarketPlaceError::NoSuchListing);
        }
        if !caller.same_as(&self.listings[i].seller) && !caller.same_as(&self.account) {
            return Err(MarketPlaceError::NotAuthorized);
        }
        let mut l = self.listings[i].clone();
        l.listed = false;
        self.listings.set(i, l);
        assert(self@ =~= delisted(old(self)@, listing_id));
        Ok(())
    }

    /// The listings in ascending id order, each with its id; only the active
    /// ones when `only_listed` holds.
    pub fn check_listings(&self, only_listed: bool) -> (r: Vec<(u8, Listing)>)
        requires
            self.wf(),
        ensures
            entries_view(r@) == selected(self@, only_listed, self@.len()),
    {
        let mut result: Vec<(u8, Listing)> = Vec::new();
        let n = self.listings.len();
        let mut i: usize = 0;
        while i < n
            invariant
                n == self@.len(),
                n <= MAX_LISTINGS,
                0 <= i <= n,
                entries_view(result@) == selected(self@, only_listed, i as nat),
            decreases n - i,
        {
            let l = &self.listings[i];
            if l.listed || !only_listed {
                let entry = (i as u8, l.clone());
                let ghost before = result@;
                result.push(entry);
                assert(entries_view(result@) =~= entries_view(before).push(
                    (i as u8, self@[i as int]),
                ));
            }
            i = i + 1;
        }
        result
    }
}

} // verus!
