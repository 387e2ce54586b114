//! What the ledger announces after each successful transition.
//!
//! Events are for observers outside the ledger. Nothing in the ledger depends
//! on whether an event was delivered.

use vstd::prelude::*;
use soroban_sdk::Address;

verus! {

/// A token was minted and listed.
#[derive(Debug, PartialEq, Eq)]
pub struct MintEvent {
    pub token_id: i64,
    pub minter: Address,
    pub price: i64,
    pub token_uri: soroban_sdk::String,
}

/// A listed token was paid for and its listing removed.
#[derive(Debug, PartialEq, Eq)]
pub struct BuyEvent {
    pub token_id: i64,
    pub buyer: Address,
    pub seller: Address,
    pub price: i64,
}

/// A listing was withdrawn by its seller.
#[derive(Debug, PartialEq, Eq)]
pub struct DelistEvent {
    pub token_id: i64,
    pub seller: Address,
}

impl Clone for MintEvent {
    fn clone(&self) -> (copy: Self)
        ensures
            copy == *self,
    {
        MintEvent {
            token_id: self.token_id,
            minter: self.minter.clone(),
            price: self.price,
            token_uri: self.token_uri.clone(),
        }
    }
}

impl Clone for BuyEvent {
    fn clone(&self) -> (copy: Self)
        ensures
            copy == *self,
    {
        BuyEvent {
            token_id: self.token_id,
            buyer: self.buyer.clone(),
            seller: self.seller.clone(),
            price: self.price,
        }
    }
}

impl Clone for DelistEvent {
    fn clone(&self) -> (copy: Self)
        ensures
            copy == *self,
    {
        DelistEvent { token_id: self.token_id, seller: self.seller.clone() }
    }
}

} // verus!
