//! The lifecycle engine: mint, delist and buy as transitions of the ledger.
//!
//! Each operation takes the ledger, decides, and either changes the ledger and
//! returns what happened, or fails and leaves the ledger exactly as it was.
//! What only the host can do stays with the caller, who tells the engine how
//! it went: whether a principal furnished authorization, and what the funds
//! oracle answered.

use vstd::prelude::*;
use soroban_sdk::{Address, Symbol};
use crate::collection::{LedgerView, ProsoccerCollection};
use crate::error::MarketError;
use crate::events::{BuyEvent, DelistEvent, MintEvent};
use crate::host::same_address;
use crate::listing::NFTListing;

verus! {

/// The marketplace contract: a namespace for the ledger's operations.
pub struct ProsoccerContract;

/// What the funds oracle has answered so far in a purchase.
#[derive(Clone, Copy, Debug, PartialEq, Eq)]
pub enum FundsReport {
    /// The oracle was not asked yet.
    NotAsked,
    /// The oracle's answer to whether the buyer holds at least the price.
    Balance(bool),
    /// The oracle's answer to whether it moved the price from the buyer to the
    /// seller.
    Transfer(bool),
}

/// How far a purchase has come: what to ask of the funds oracle next, or the
/// completed sale.
#[derive(Debug, PartialEq, Eq)]
pub enum BuyStep {
    /// Ask the oracle whether `principal` holds at least `amount`.
    CheckBalance { principal: Address, amount: i64 },
    /// Ask the oracle to move `amount` from `from` to `to`.
    Transfer { from: Address, to: Address, amount: i64 },
    /// The price was paid and the listing is gone.
    Sold(BuyEvent),
}

/// Whether a mint by `minter` needs the minter's authorization: it does,
/// unless the minter is the contract itself.
pub open spec fn mint_needs_auth(minter: Address, contract: Address) -> bool {
    minter != contract
}

/// The listing that the next mint on `pre` creates.
pub open spec fn minted_listing(
    pre: LedgerView,
    token_uri: soroban_sdk::String,
    initial_price: i64,
    minter: Address,
) -> NFTListing {
    NFTListing { token_id: (pre.token_id + 1) as i64, price: initial_price, seller: minter, token_uri }
}

/// What a mint returns.
pub open spec fn mint_outcome(
    pre: LedgerView,
    token_uri: soroban_sdk::String,
    initial_price: i64,
    minter: Address,
    contract: Address,
    authorized: bool,
) -> Result<MintEvent, MarketError> {
    if mint_needs_auth(minter, contract) && !authorized {
        Err(MarketError::AuthorizationFailure)
    } else {
        Ok(MintEvent { token_id: (pre.token_id + 1) as i64, minter, price: initial_price, token_uri })
    }
}

/// The ledger after a mint.
pub open spec fn mint_effect(
    pre: LedgerView,
    token_uri: soroban_sdk::String,
    initial_price: i64,
    minter: Address,
    contract: Address,
    authorized: bool,
) -> LedgerView {
    if mint_needs_auth(minter, contract) && !authorized {
        pre
    } else {
        pre.issue().list(minted_listing(pre, token_uri, initial_price, minter))
    }
}

/// What a delist returns.
pub open spec fn delist_outcome(
    pre: LedgerView,
    seller: Address,
    token_id: i64,
    authorized: bool,
) -> Result<DelistEvent, MarketError> {
    if !authorized {
        Err(MarketError::AuthorizationFailure)
    } else if !pre.is_listed(token_id) {
        Err(MarketError::NotFound)
    } else if pre.listings[token_id].seller != seller {
        Err(MarketError::Forbidden)
    } else {
        Ok(DelistEvent { token_id, seller })
    }
}

/// The ledger after a delist.
pub open spec fn delist_effect(pre: LedgerView, seller: Address, token_id: i64, authorized: bool) -> LedgerView {
    if delist_outcome(pre, seller, token_id, authorized) is Ok {
        pre.unlist(token_id)
    } else {
        pre
    }
}

/// What one step of a purchase returns.
pub open spec fn buy_outcome(
    pre: LedgerView,
    buyer: Address,
    token_id: i64,
    authorized: bool,
    funds: FundsReport,
) -> Result<BuyStep, MarketError> {
    if !authorized {
        Err(MarketError::AuthorizationFailure)
    } else if !pre.is_listed(token_id) {
        Err(MarketError::NotFound)
    } else {
        let listing = pre.listings[token_id];
        match funds {
            FundsReport::NotAsked => Ok(BuyStep::CheckBalance { principal: buyer, amount: listing.price }),
            FundsReport::Balance(false) => Err(MarketError::InsufficientFunds),
            FundsReport::Balance(true) => Ok(
                BuyStep::Transfer { from: buyer, to: listing.seller, amount: listing.price },
            ),
            FundsReport::Transfer(false) => Err(MarketError::TransferFailure),
            FundsReport::Transfer(true) => Ok(
                BuyStep::Sold(BuyEvent { token_id, buyer, seller: listing.seller, price: listing.price }),
            ),
        }
    }
}

/// The ledger after one step of a purchase: without the listing once the sale
/// is complete, unchanged before that and on every failure.
pub open spec fn buy_effect(
    pre: LedgerView,
    buyer: Address,
    token_id: i64,
    authorized: bool,
    funds: FundsReport,
) -> LedgerView {
    if buy_outcome(pre, buyer, token_id, authorized, funds) matches Ok(BuyStep::Sold(_)) {
        pre.unlist(token_id)
    } else {
        pre
    }
}

/// How a whole purchase ends when the oracle answers `has_balance` to the
/// balance check and `transferred` to the transfer: the steps of
/// [`buy_outcome`] one after the other, each oracle answer handed to the next
/// step, as far as the steps go.
pub open spec fn purchase_outcome(
    pre: LedgerView,
    buyer: Address,
    token_id: i64,
    authorized: bool,
    has_balance: bool,
    transferred: bool,
) -> Result<BuyEvent, MarketError> {
    match buy_outcome(pre, buyer, token_id, authorized, FundsReport::NotAsked) {
        Err(error) => Err(error),
        Ok(_) => match buy_outcome(pre, buyer, token_id, authorized, FundsReport::Balance(has_balance)) {
            Err(error) => Err(error),
            Ok(_) => match buy_outcome(pre, buyer, token_id, authorized, FundsReport::Transfer(transferred)) {
                Err(error) => Err(error),
                Ok(step) => Ok(step->Sold_0),
            },
        },
    }
}

impl ProsoccerContract {
    /// Sets up the ledger of a new collection: nothing issued, nothing listed.
    pub fn init(initial_owner: Address, name: Symbol, symbol: Symbol) -> (state: ProsoccerCollection)
        ensures
            state.wf(),
            state@ == LedgerView::initial(initial_owner, name, symbol),
    {
        ProsoccerCollection::new(initial_owner, name, symbol)
    }

    /// Whether `minter` has to furnish authorization before it mints: every
    /// minter but the contract itself.
    pub fn mint_requires_auth(minter: &Address, contract: &Address) -> (required: bool)
        ensures
            required == mint_needs_auth(*minter, *contract),
    {
        !same_address(minter, contract)
    }

    /// Mints a token and lists it at `initial_price` with `minter` as seller.
    ///
    /// `contract` is the contract's own address and `authorized` says whether
    /// `minter` furnished authorization for this call. The mint is refused
    /// with [`MarketError::AuthorizationFailure`] when authorization was
    /// needed and not furnished; a refused mint issues no id. Otherwise the
    /// token gets the next id, and the event carries it.
    pub fn mint(
        state: &mut ProsoccerCollection,
        token_uri: soroban_sdk::String,
        initial_price: i64,
        minter: Address,
        contract: &Address,
        authorized: bool,
    ) -> (result: Result<MintEvent, MarketError>)
        requires
            old(state).wf(),
            old(state)@.token_id < i64::MAX,
        ensures
            final(state).wf(),
            result == mint_outcome(old(state)@, token_uri, initial_price, minter, *contract, authorized),
            final(state)@ == mint_effect(old(state)@, token_uri, initial_price, minter, *contract, authorized),
    {
        if !same_address(&minter, contract) && !authorized {
            return Err(MarketError::AuthorizationFailure);
        }
        let token_id = state.next_id();
        let listing = NFTListing {
            token_id,
            price: initial_price,
            seller: minter.clone(),
            token_uri: token_uri.clone(),
        };
        state.list(listing);
        Ok(MintEvent { token_id, minter, price: initial_price, token_uri })
    }

    /// Withdraws the listing of `token_id` on behalf of `seller`.
    ///
    /// `authorized` says whether `seller` furnished authorization for this
    /// call. Only the seller recorded in the listing may withdraw it.
    pub fn delist(
        state: &mut ProsoccerCollection,
        seller: Address,
        token_id: i64,
        authorized: bool,
    ) -> (result: Result<DelistEvent, MarketError>)
        requires
            old(state).wf(),
        ensures
            final(state).wf(),
            result == delist_outcome(old(state)@, seller, token_id, authorized),
            final(state)@ == delist_effect(old(state)@, seller, token_id, authorized),
    {
        if !authorized {
            return Err(MarketError::AuthorizationFailure);
        }
        let is_seller = match state.listing(token_id) {
            Some(listing) => same_address(&listing.seller, &seller),
            None => {
                return Err(MarketError::NotFound);
            },
        };
        if !is_seller {
            return Err(MarketError::Forbidden);
        }
        state.unlist(token_id);
        Ok(DelistEvent { token_id, seller })
    }

    /// Takes a purchase of `token_id` by `buyer` one step further.
    ///
    /// A purchase goes through the funds oracle twice, and the oracle is the
    /// caller's to ask. The caller starts with [`FundsReport::NotAsked`], does
    /// what the returned [`BuyStep`] asks for, and calls again with the
    /// oracle's answer, until the step is [`BuyStep::Sold`] or the call fails.
    /// The listing is removed in the step that reports the sale, and in no
    /// other: a purchase that fails at any point leaves the ledger as it was.
    ///
    /// `authorized` says whether `buyer` furnished authorization for this
    /// call.
    pub fn buy(
        state: &mut ProsoccerCollection,
        buyer: Address,
        token_id: i64,
        authorized: bool,
        funds: FundsReport,
    ) -> (result: Result<BuyStep, MarketError>)
        requires
            old(state).wf(),
        ensures
            final(state).wf(),
            result == buy_outcome(old(state)@, buyer, token_id, authorized, funds),
            final(state)@ == buy_effect(old(state)@, buyer, token_id, authorized, funds),
    {
        if !authorized {
            return Err(MarketError::AuthorizationFailure);
        }
        let (seller, price) = match state.listing(token_id) {
            Some(listing) => (listing.seller.clone(), listing.price),
            None => {
                return Err(MarketError::NotFound);
            },
        };
        match funds {
            FundsReport::NotAsked => Ok(BuyStep::CheckBalance { principal: buyer, amount: price }),
            FundsReport::Balance(false) => Err(MarketError::InsufficientFunds),
            FundsReport::Balance(true) => Ok(BuyStep::Transfer { from: buyer, to: seller, amount: price }),
            FundsReport::Transfer(false) => Err(MarketError::TransferFailure),
            FundsReport::Transfer(true) => {
                state.unlist(token_id);
                Ok(BuyStep::Sold(BuyEvent { token_id, buyer, seller, price }))
            },
        }
    }
}

} // verus!
