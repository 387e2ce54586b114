//! The record of a token that is for sale.

use vstd::prelude::*;
use soroban_sdk::Address;

verus! {

/// A token currently offered for sale. A listing is created by a mint, never
/// changed, and destroyed by a delist or a purchase.
#[derive(Debug, PartialEq, Eq)]
pub struct NFTListing {
    /// The token's identity; equal to the key under which the listing is stored.
    pub token_id: i64,
    /// The asking price, in the smallest currency unit.
    pub price: i64,
    /// The principal that offers the token: the only one that may delist it,
    /// and the one that receives the proceeds of a sale.
    pub seller: Address,
    /// A reference to the token's content.
    pub token_uri: soroban_sdk::String,
}

impl Clone for NFTListing {
    fn clone(&self) -> (copy: Self)
        ensures
            copy == *self,
    {
        NFTListing {
            token_id: self.token_id,
            price: self.price,
            seller: self.seller.clone(),
            token_uri: self.token_uri.clone(),
        }
    }
}

} // verus!
