use vstd::prelude::*;

use crate::account::{AccountId, TokenId, TokenIdView};

verus! {

/// The view of a [`Listing`], over the views of its identities.
pub struct ListingView {
    pub contract_address: Seq<u8>,
    pub token_id: TokenIdView,
    pub price: u128,
    pub seller: Seq<u8>,
    pub token_address: Seq<u8>,
    pub listed: bool,
}

/// An offer to sell one non-fungible asset at a fixed price.
///
/// `contract_address` is the registry that holds the asset, `token_id` the
/// asset within it, and `token_address` the fungible registry in which
/// `price` is paid. `listed` stays true while the offer is active.
#[derive(Debug, PartialEq, Eq)]
pub struct Listing {
    pub contract_address: AccountId,
    pub token_id: TokenId,
    pub price: u128,
    pub seller: AccountId,
    pub token_address: AccountId,
    pub listed: bool,
}

impl View for Listing {
    type V = ListingView;

    open spec fn view(&self) -> ListingView {
        ListingView {
            contract_address: self.contract_address@,
            token_id: self.token_id@,
            price: self.price,
            seller: self.seller@,
            token_address: self.token_address@,
            listed: self.listed,
        }
    }
}

impl ListingView {
    /// The same offer with its `listed` flag set to `flag`.
    pub open spec fn with_listed(self, flag: bool) -> ListingView {
        ListingView { listed: flag, ..self }
    }
}

impl Listing {
    pub fn new(
        contract_address: AccountId,
        token_id: TokenId,
        price: u128,
        seller: AccountId,
        token_address: AccountId,
    ) -> (r: Listing)
        ensures
            r.contract_address@ == contract_address@,
            r.token_id@ == token_id@,
            r.price == price,
            r.seller@ == seller@,
            r.token_address@ == token_address@,
            r.listed,
    {
        Listing { contract_address, token_id, price, seller, token_address, listed: true }
    }
}

impl Clone for Listing {
    fn clone(&self) -> (r: Listing)
        ensures
            r@ == self@,
    {
        Listing {
            contract_address: self.contract_address,
            token_id: self.token_id.clone(),
            price: self.price,
            seller: self.seller,
            token_address: self.token_address,
            listed: self.listed,
        }
    }
}

} // verus!
