//! A marketplace ledger for non-fungible tokens on Soroban: tokens are minted
//! into a listing, and a listing ends when its seller withdraws it or a buyer
//! pays for it.
//!
//! The ledger is a value, [`ProsoccerCollection`], and [`ProsoccerContract`]
//! holds the transitions on it. Nothing here touches storage, signatures,
//! funds or events: the caller keeps the ledger between calls, tells each
//! transition whether the acting principal furnished authorization and what
//! the funds oracle answered, and publishes the event that a transition
//! returns.
//!
//! - [`contract`]: mint, delist and buy, with the functions that say what
//!   each returns and how it changes the ledger.
//! - [`collection`]: the ledger's state and its invariant.
//! - [`store`]: the listing store, a map from token id to listing.
//! - [`listing`], [`events`], [`error`]: the records that go in and out.
//! - [`laws`]: what holds of every sequence of calls.
//! - [`host`]: the Soroban SDK types and calls that the ledger relies on
//!   without proof.

pub mod collection;
pub mod contract;
pub mod error;
pub mod events;
pub mod host;
pub mod laws;
pub mod listing;
pub mod store;

pub use collection::{CollectionInfo, LedgerView, ProsoccerCollection};
pub use contract::{BuyStep, FundsReport, ProsoccerContract};
pub use error::MarketError;
pub use events::{BuyEvent, DelistEvent, MintEvent};
pub use listing::NFTListing;
pub use store::ListingStore;
