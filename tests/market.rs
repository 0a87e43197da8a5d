use std::collections::HashMap;

use marketplace::account::{AccountId, TokenId};
use marketplace::listing::Listing;
use marketplace::market::{Contract, MarketPlaceError, Purchase, MAX_LISTINGS};
use marketplace::psp22::Psp22;

fn acct(b: u8) -> AccountId {
    AccountId::from_bytes([b; 32])
}

const MARKET: u8 = 9;
const SELLER: u8 = 1;
const BUYER: u8 = 2;
const STRANGER: u8 = 4;
const NFT: u8 = 5;
const TOKEN: u8 = 6;

fn offer(token: u8, price: u128) -> Listing {
    Listing::new(acct(NFT), TokenId::U8(token), price, acct(SELLER), acct(TOKEN))
}

fn market_with_one_listing(price: u128) -> Contract {
    let mut m = Contract::new(acct(MARKET));
    let id = m.create_listing(offer(1, price), &acct(SELLER), Some(acct(SELLER)), true);
    assert_eq!(id, Ok(0));
    m
}

/// The two registries, as far as a purchase touches them.
struct Registries {
    owners: HashMap<(u8, u8), AccountId>,
    balances: HashMap<u8, u128>,
}

impl Registries {
    fn settle(&mut self, p: &Purchase) -> bool {
        let from = p.buyer.bytes[0];
        let to = p.seller.bytes[0];
        let have = *self.balances.get(&from).unwrap_or(&0);
        if have < p.price {
            return false;
        }
        self.balances.insert(from, have - p.price);
        *self.balances.entry(to).or_insert(0) += p.price;
        let token = match p.token_id {
            TokenId::U8(t) => t,
            _ => return false,
        };
        self.owners.insert((p.contract_address.bytes[0], token), p.buyer);
        true
    }
}

#[test]
fn create_listing_returns_increasing_ids() {
    let mut m = Contract::new(acct(MARKET));
    let mut last: Option<u8> = None;
    for t in 0..5u8 {
        let id = m.create_listing(offer(t, 10), &acct(SELLER), Some(acct(SELLER)), true).unwrap();
        if let Some(prev) = last {
            assert!(id > prev);
        }
        last = Some(id);
    }
    assert_eq!(last, Some(4));
    assert_eq!(m.next_id(), 5);
}

#[test]
fn create_listing_records_caller_as_active_seller() {
    let mut m = Contract::new(acct(MARKET));
    let mut l = offer(3, 42);
    l.seller = acct(STRANGER);
    l.listed = false;
    assert_eq!(m.create_listing(l, &acct(SELLER), Some(acct(SELLER)), true), Ok(0));
    let all = m.check_listings(false);
    assert_eq!(all.len(), 1);
    assert_eq!(all[0].1.seller, acct(SELLER));
    assert!(all[0].1.listed);
    assert_eq!(all[0].1.price, 42);
    assert_eq!(all[0].1.token_id, TokenId::U8(3));
}

#[test]
fn create_listing_not_owner() {
    let mut m = Contract::new(acct(MARKET));
    let r = m.create_listing(offer(1, 10), &acct(BUYER), Some(acct(SELLER)), true);
    assert_eq!(r, Err(MarketPlaceError::NotOwner));
    let r = m.create_listing(offer(1, 10), &acct(SELLER), None, true);
    assert_eq!(r, Err(MarketPlaceError::NotOwner));
    let r = m.create_listing(offer(1, 10), &acct(BUYER), Some(acct(SELLER)), false);
    assert_eq!(r, Err(MarketPlaceError::NotOwner));
    assert_eq!(m.next_id(), 0);
}

#[test]
fn create_listing_not_approved() {
    let mut m = Contract::new(acct(MARKET));
    let r = m.create_listing(offer(1, 10), &acct(SELLER), Some(acct(SELLER)), false);
    assert_eq!(r, Err(MarketPlaceError::NotApproved));
    assert!(m.check_listings(false).is_empty());
}

#[test]
fn create_listing_fails_once_ids_are_exhausted() {
    let mut m = Contract::new(acct(MARKET));
    for i in 0..MAX_LISTINGS {
        let id = m.create_listing(offer(1, 1), &acct(SELLER), Some(acct(SELLER)), true);
        assert_eq!(id, Ok(i as u8));
    }
    let r = m.create_listing(offer(1, 1), &acct(SELLER), Some(acct(SELLER)), true);
    assert_eq!(r, Err(MarketPlaceError::IdsExhausted));
    assert_eq!(m.next_id(), 256);
    assert_eq!(m.check_listings(false)[0].1.token_id, TokenId::U8(1));
}

#[test]
fn buy_unknown_id_fails() {
    let mut m = market_with_one_listing(100);
    assert_eq!(m.prepare_buy(1, &acct(BUYER), 1000), Err(MarketPlaceError::NoSuchListing));
    assert_eq!(m.buy(1, 1000, true), Err(MarketPlaceError::NoSuchListing));
    assert_eq!(m.buy(255, 1000, true), Err(MarketPlaceError::NoSuchListing));
    assert!(m.check_listings(false)[0].1.listed);
}

#[test]
fn buy_inactive_listing_fails() {
    let mut m = market_with_one_listing(100);
    assert_eq!(m.cancel(0, &acct(SELLER)), Ok(()));
    assert_eq!(m.prepare_buy(0, &acct(BUYER), 1000), Err(MarketPlaceError::NoSuchListing));
    assert_eq!(m.buy(0, 1000, true), Err(MarketPlaceError::NoSuchListing));
}

#[test]
fn buy_with_short_allowance_fails() {
    let mut m = market_with_one_listing(100);
    assert_eq!(m.prepare_buy(0, &acct(BUYER), 99), Err(MarketPlaceError::InsufficientFunds));
    assert_eq!(m.buy(0, 99, true), Err(MarketPlaceError::InsufficientFunds));
    assert!(m.check_listings(false)[0].1.listed);
    assert!(m.prepare_buy(0, &acct(BUYER), 100).is_ok());
}

#[test]
fn buy_with_failed_transfer_changes_nothing() {
    let mut m = market_with_one_listing(100);
    assert_eq!(m.buy(0, 100, false), Err(MarketPlaceError::CollaboratorFailure));
    assert_eq!(m.check_listings(true).len(), 1);
}

#[test]
fn prepare_buy_names_both_transfers() {
    let m = market_with_one_listing(100);
    let p = m.prepare_buy(0, &acct(BUYER), 150).unwrap();
    assert_eq!(
        p,
        Purchase {
            token_address: acct(TOKEN),
            buyer: acct(BUYER),
            seller: acct(SELLER),
            price: 100,
            contract_address: acct(NFT),
            token_id: TokenId::U8(1),
        }
    );
}

#[test]
fn buy_is_not_repeatable() {
    let mut m = market_with_one_listing(100);
    assert_eq!(m.buy(0, 100, true), Ok(()));
    assert!(!m.check_listings(false)[0].1.listed);
    assert_eq!(m.buy(0, 1000, true), Err(MarketPlaceError::NoSuchListing));
}

#[test]
fn cancel_by_seller_and_marketplace() {
    let mut m = market_with_one_listing(100);
    assert_eq!(m.cancel(0, &acct(SELLER)), Ok(()));
    assert!(!m.check_listings(false)[0].1.listed);
    let mut m = market_with_one_listing(100);
    assert_eq!(m.cancel(0, &acct(MARKET)), Ok(()));
    assert!(m.check_listings(true).is_empty());
}

#[test]
fn cancel_by_stranger_or_unknown_id_fails() {
    let mut m = market_with_one_listing(100);
    assert_eq!(m.cancel(0, &acct(BUYER)), Err(MarketPlaceError::NotAuthorized));
    assert_eq!(m.cancel(7, &acct(SELLER)), Err(MarketPlaceError::NoSuchListing));
}

#[test]
fn cancel_twice_is_idempotent() {
    let mut m = market_with_one_listing(100);
    assert_eq!(m.cancel(0, &acct(SELLER)), Ok(()));
    let after_first = m.check_listings(false);
    assert_eq!(m.cancel(0, &acct(SELLER)), Ok(()));
    assert_eq!(m.check_listings(false), after_first);
}

#[test]
fn active_listings_are_the_listed_subset_in_order() {
    let mut m = Contract::new(acct(MARKET));
    for t in 0..6u8 {
        m.create_listing(offer(t, 10 + t as u128), &acct(SELLER), Some(acct(SELLER)), true)
            .unwrap();
    }
    m.cancel(1, &acct(SELLER)).unwrap();
    m.buy(4, 100, true).unwrap();
    let all = m.check_listings(false);
    let active = m.check_listings(true);
    let ids: Vec<u8> = all.iter().map(|e| e.0).collect();
    assert_eq!(ids, vec![0, 1, 2, 3, 4, 5]);
    let active_ids: Vec<u8> = active.iter().map(|e| e.0).collect();
    assert_eq!(active_ids, vec![0, 2, 3, 5]);
    let expected: Vec<(u8, Listing)> = all.into_iter().filter(|e| e.1.listed).collect();
    assert_eq!(active, expected);
}

#[test]
fn end_to_end_purchase() {
    let mut regs = Registries { owners: HashMap::new(), balances: HashMap::new() };
    regs.owners.insert((NFT, 1), acct(SELLER));
    regs.balances.insert(BUYER, 100);
    let mut m = Contract::new(acct(MARKET));
    let owner = regs.owners.get(&(NFT, 1)).copied();
    let id = m.create_listing(offer(1, 100), &acct(SELLER), owner, true);
    assert_eq!(id, Ok(0));
    let allowance: u128 = 100;
    let p = m.prepare_buy(0, &acct(BUYER), allowance).unwrap();
    let settled = regs.settle(&p);
    assert!(settled);
    assert_eq!(m.buy(0, allowance, settled), Ok(()));
    assert_eq!(regs.owners.get(&(NFT, 1)), Some(&acct(BUYER)));
    assert_eq!(regs.balances.get(&SELLER), Some(&100));
    assert_eq!(regs.balances.get(&BUYER), Some(&0));
    assert!(m.check_listings(true).iter().all(|e| e.0 != 0));
}

#[test]
fn end_to_end_cancel_by_third_party() {
    let mut m = market_with_one_listing(100);
    let before = m.check_listings(false);
    assert_eq!(m.cancel(0, &acct(STRANGER)), Err(MarketPlaceError::NotAuthorized));
    assert_eq!(m.check_listings(false), before);
    assert!(m.check_listings(false)[0].1.listed);
}

#[test]
fn psp22_new_mints_supply_to_deployer() {
    let t = Psp22::new(acct(SELLER), 1_000_000);
    assert_eq!(t.total_supply(), 1_000_000);
    assert_eq!(t.balance_of(&acct(SELLER)), 1_000_000);
    assert_eq!(t.balance_of(&acct(BUYER)), 0);
}

#[test]
fn account_equality_compares_every_byte() {
    let mut b = [7u8; 32];
    let a = AccountId::from_bytes(b);
    b[31] = 8;
    let c = AccountId::from_bytes(b);
    assert!(a != c);
    assert!(a.same_as(&AccountId::from_bytes([7u8; 32])));
}

#[test]
fn restore_from_stored_table() {
    let mut stored = vec![offer(1, 10), offer(2, 20)];
    stored[1].listed = false;
    let mut m = Contract::from_listings(acct(MARKET), stored).unwrap();
    assert_eq!(m.next_id(), 2);
    assert_eq!(m.check_listings(true).len(), 1);
    assert_eq!(m.cancel(0, &acct(MARKET)), Ok(()));
    let too_many: Vec<Listing> = (0..257).map(|_| offer(1, 1)).collect();
    assert!(Contract::from_listings(acct(MARKET), too_many).is_none());
}
