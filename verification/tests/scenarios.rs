//! Whole purchases and withdrawals, played against a funds oracle that keeps
//! balances in memory.

use prosoccer_nft::{
    BuyEvent, BuyStep, FundsReport, MarketError, NFTListing, ProsoccerCollection, ProsoccerContract,
};
use soroban_sdk::testutils::{Address as _, EnvTestConfig};
use soroban_sdk::{Address, Env, String, Symbol};

fn test_env() -> Env {
    Env::new_with_config(EnvTestConfig { capture_snapshot_at_drop: false })
}

fn new_ledger(env: &Env) -> ProsoccerCollection {
    ProsoccerContract::init(
        Address::generate(env),
        Symbol::new(env, "ProSoccer"),
        Symbol::new(env, "PSC"),
    )
}

/// A funds oracle over a list of balances. It records every transfer it made.
struct Bank {
    balances: Vec<(Address, i64)>,
    transfers: Vec<(Address, Address, i64)>,
    transfers_fail: bool,
}

impl Bank {
    fn new(balances: Vec<(Address, i64)>) -> Bank {
        Bank { balances, transfers: Vec::new(), transfers_fail: false }
    }

    fn balance(&self, principal: &Address) -> i64 {
        self.balances.iter().find(|(p, _)| p == principal).map(|(_, b)| *b).unwrap_or(0)
    }

    fn set(&mut self, principal: &Address, balance: i64) {
        match self.balances.iter_mut().find(|(p, _)| p == principal) {
            Some(entry) => entry.1 = balance,
            None => self.balances.push((principal.clone(), balance)),
        }
    }

    fn has_balance(&self, principal: &Address, amount: i64) -> bool {
        self.balance(principal) >= amount
    }

    fn transfer(&mut self, from: &Address, to: &Address, amount: i64) -> bool {
        if self.transfers_fail || self.balance(from) < amount {
            return false;
        }
        let from_balance = self.balance(from) - amount;
        self.set(from, from_balance);
        let to_balance = self.balance(to) + amount;
        self.set(to, to_balance);
        self.transfers.push((from.clone(), to.clone(), amount));
        true
    }
}

/// Runs a purchase to its end, asking the bank whatever the engine asks for.
fn purchase(
    ledger: &mut ProsoccerCollection,
    bank: &mut Bank,
    buyer: &Address,
    token_id: i64,
) -> Result<BuyEvent, MarketError> {
    let mut funds = FundsReport::NotAsked;
    loop {
        match ProsoccerContract::buy(ledger, buyer.clone(), token_id, true, funds)? {
            BuyStep::CheckBalance { principal, amount } => {
                funds = FundsReport::Balance(bank.has_balance(&principal, amount));
            }
            BuyStep::Transfer { from, to, amount } => {
                funds = FundsReport::Transfer(bank.transfer(&from, &to, amount));
            }
            BuyStep::Sold(event) => return Ok(event),
        }
    }
}

#[test]
fn mint_then_buy_then_buy_again() {
    let env = test_env();
    let contract = Address::generate(&env);
    let alice = Address::generate(&env);
    let bob = Address::generate(&env);
    let mut ledger = new_ledger(&env);
    let mut bank = Bank::new(vec![(bob.clone(), 150)]);

    let minted = ProsoccerContract::mint(
        &mut ledger,
        String::from_str(&env, "ipfs://a"),
        100,
        alice.clone(),
        &contract,
        true,
    )
    .unwrap();
    assert_eq!(minted.token_id, 1);
    assert_eq!(
        ledger.listing(1),
        Some(&NFTListing {
            token_id: 1,
            price: 100,
            seller: alice.clone(),
            token_uri: String::from_str(&env, "ipfs://a"),
        })
    );

    let sold = purchase(&mut ledger, &mut bank, &bob, 1);
    assert_eq!(
        sold,
        Ok(BuyEvent { token_id: 1, buyer: bob.clone(), seller: alice.clone(), price: 100 })
    );
    assert_eq!(bank.transfers, vec![(bob.clone(), alice.clone(), 100)]);
    assert_eq!(bank.balance(&bob), 50);
    assert_eq!(bank.balance(&alice), 100);
    assert_eq!(ledger.listing(1), None);

    let again = purchase(&mut ledger, &mut bank, &bob, 1);
    assert_eq!(again, Err(MarketError::NotFound));
    assert_eq!(bank.transfers.len(), 1);
    assert_eq!(bank.balance(&bob), 50);
}

#[test]
fn delist_by_a_stranger_is_forbidden() {
    let env = test_env();
    let contract = Address::generate(&env);
    let alice = Address::generate(&env);
    let carol = Address::generate(&env);
    let mut ledger = new_ledger(&env);

    let minted = ProsoccerContract::mint(
        &mut ledger,
        String::from_str(&env, "ipfs://a"),
        100,
        alice.clone(),
        &contract,
        true,
    )
    .unwrap();
    assert_eq!(minted.token_id, 1);

    let refused = ProsoccerContract::delist(&mut ledger, carol.clone(), 1, true);
    assert_eq!(refused, Err(MarketError::Forbidden));

    let listing = ledger.listing(1).expect("the listing is still there");
    assert_eq!(listing.seller, alice);
    assert_eq!(listing.token_id, 1);
    assert_eq!(listing.price, 100);
    assert_eq!(listing.token_uri, String::from_str(&env, "ipfs://a"));
}

#[test]
fn buyer_without_funds_leaves_the_listing() {
    let env = test_env();
    let contract = Address::generate(&env);
    let alice = Address::generate(&env);
    let bob = Address::generate(&env);
    let mut ledger = new_ledger(&env);
    let mut bank = Bank::new(vec![(bob.clone(), 99)]);

    ProsoccerContract::mint(&mut ledger, String::from_str(&env, "ipfs://a"), 100, alice.clone(), &contract, true)
        .unwrap();
    let before = ledger.listing(1).cloned();

    let result = purchase(&mut ledger, &mut bank, &bob, 1);
    assert_eq!(result, Err(MarketError::InsufficientFunds));
    assert_eq!(ledger.listing(1).cloned(), before);
    assert!(before.is_some());
    assert!(bank.transfers.is_empty());
    assert_eq!(bank.balance(&bob), 99);
    assert_eq!(bank.balance(&alice), 0);
    assert_eq!(ledger.token_id(), 1);
}

#[test]
fn failed_transfer_leaves_the_listing() {
    let env = test_env();
    let contract = Address::generate(&env);
    let alice = Address::generate(&env);
    let bob = Address::generate(&env);
    let mut ledger = new_ledger(&env);
    let mut bank = Bank::new(vec![(bob.clone(), 150)]);
    bank.transfers_fail = true;

    ProsoccerContract::mint(&mut ledger, String::from_str(&env, "ipfs://a"), 100, alice.clone(), &contract, true)
        .unwrap();
    let before = ledger.listing(1).cloned();

    let result = purchase(&mut ledger, &mut bank, &bob, 1);
    assert_eq!(result, Err(MarketError::TransferFailure));
    assert_eq!(ledger.listing(1).cloned(), before);
    assert!(before.is_some());
    assert!(bank.transfers.is_empty());
    assert_eq!(bank.balance(&bob), 150);

    // The same purchase goes through once the oracle transfers.
    bank.transfers_fail = false;
    let sold = purchase(&mut ledger, &mut bank, &bob, 1);
    assert_eq!(sold, Ok(BuyEvent { token_id: 1, buyer: bob.clone(), seller: alice.clone(), price: 100 }));
    assert_eq!(ledger.listing(1), None);
}

#[test]
fn exact_balance_buys() {
    let env = test_env();
    let contract = Address::generate(&env);
    let alice = Address::generate(&env);
    let bob = Address::generate(&env);
    let mut ledger = new_ledger(&env);
    let mut bank = Bank::new(vec![(bob.clone(), 100)]);

    ProsoccerContract::mint(&mut ledger, String::from_str(&env, "ipfs://a"), 100, alice.clone(), &contract, true)
        .unwrap();
    let sold = purchase(&mut ledger, &mut bank, &bob, 1).unwrap();
    assert_eq!(sold.price, 100);
    assert_eq!(bank.balance(&bob), 0);
    assert_eq!(bank.balance(&alice), 100);
}

#[test]
fn seller_may_buy_back_and_delist_is_then_not_found() {
    let env = test_env();
    let contract = Address::generate(&env);
    let alice = Address::generate(&env);
    let mut ledger = new_ledger(&env);
    let mut bank = Bank::new(vec![(alice.clone(), 10)]);

    ProsoccerContract::mint(&mut ledger, String::from_str(&env, "ipfs://b"), 10, alice.clone(), &contract, true)
        .unwrap();
    let sold = purchase(&mut ledger, &mut bank, &alice, 1).unwrap();
    assert_eq!(sold, BuyEvent { token_id: 1, buyer: alice.clone(), seller: alice.clone(), price: 10 });
    assert_eq!(
        ProsoccerContract::delist(&mut ledger, alice.clone(), 1, true),
        Err(MarketError::NotFound)
    );
}
