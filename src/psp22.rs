use vstd::prelude::*;

use crate::account::AccountId;

verus! {

/// A fungible asset registry as it stands once deployed: its whole supply
/// minted to the account that deployed it.
pub struct Psp22 {
    minter: AccountId,
    total_supply: u128,
}

impl Psp22 {
    /// The amount that the registry records for `owner`.
    pub closed spec fn balance(&self, owner: Seq<u8>) -> u128 {
        if owner == self.minter@ {
            self.total_supply
        } else {
            0
        }
    }

    /// The amount in existence.
    pub closed spec fn supply(&self) -> u128 {
        self.total_supply
    }

    /// Deploys the registry on behalf of `caller`, who receives all of
    /// `total_supply`.
    pub fn new(caller: AccountId, total_supply: u128) -> (r: Psp22)
        ensures
            r.supply() == total_supply,
            r.balance(caller@) == total_supply,
            forall|other: Seq<u8>| other != caller@ ==> #[trigger] r.balance(other) == 0,
    {
        Psp22 { minter: caller, total_supply }
    }

    pub fn total_supply(&self) -> (r: u128)
        ensures
            r == self.supply(),
    {
        self.total_supply
    }

    pub fn balance_of(&self, owner: &AccountId) -> (r: u128)
        ensures
            r == self.balance(owner@),
    {
        if owner.same_as(&self.minter) {
            self.total_supply
        } else {
            0
        }
    }
}

} // verus!
