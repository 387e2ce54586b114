//! The ways in which a call on the ledger fails.

use vstd::prelude::*;

verus! {

/// Why a call was refused. Every failure is final for the call that met it:
/// the ledger is left exactly as it was.
#[derive(Clone, Copy, Debug, PartialEq, Eq, Structural)]
pub enum MarketError {
    /// The principal that the call acts for did not furnish authorization.
    AuthorizationFailure,
    /// The token has no current listing.
    NotFound,
    /// The caller is not the seller recorded in the listing.
    Forbidden,
    /// The funds oracle reported that the buyer's balance is below the price.
    InsufficientFunds,
    /// The funds oracle reported that the transfer did not complete.
    TransferFailure,
}

impl MarketError {
    /// The text of [`MarketError::message`], as a sequence of characters.
    pub open spec fn message_text(self) -> Seq<char> {
        match self {
            MarketError::AuthorizationFailure => "Authorization was not furnished."@,
            MarketError::NotFound => "Token ID not found in listings."@,
            MarketError::Forbidden => "Only the seller can delist this token."@,
            MarketError::InsufficientFunds => "Buyer does not have enough balance."@,
            MarketError::TransferFailure => "Failed to transfer funds."@,
        }
    }

    /// A sentence for the caller, one per kind of failure.
    pub fn message(&self) -> (text: &'static str)
        ensures
            text@ == self.message_text(),
    {
        match self {
            MarketError::AuthorizationFailure => "Authorization was not furnished.",
            MarketError::NotFound => "Token ID not found in listings.",
            MarketError::Forbidden => "Only the seller can delist this token.",
            MarketError::InsufficientFunds => "Buyer does not have enough balance.",
            MarketError::TransferFailure => "Failed to transfer funds.",
        }
    }
}

} // verus!
