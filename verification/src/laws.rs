//! What holds of the ledger whatever is asked of it.
//!
//! The laws are stated over the ledger as a mathematical value and over the
//! functions that the operations' contracts use, so each of them holds of
//! every run of the executable code.

use vstd::prelude::*;
use soroban_sdk::Address;
use crate::collection::{restorable, LedgerView};
use crate::contract::{
    buy_effect, buy_outcome, delist_effect, delist_outcome, mint_effect, mint_needs_auth, mint_outcome,
    minted_listing, purchase_outcome, BuyStep, FundsReport,
};
use crate::error::MarketError;
use crate::events::{BuyEvent, DelistEvent};
use crate::listing::NFTListing;
use crate::store::{distinct_ids, has_id, listings_of};

verus! {

/// One call on the ledger, together with what the host reported for it.
pub enum Call {
    Mint {
        token_uri: soroban_sdk::String,
        initial_price: i64,
        minter: Address,
        contract: Address,
        authorized: bool,
    },
    Delist { seller: Address, token_id: i64, authorized: bool },
    Buy { buyer: Address, token_id: i64, authorized: bool, funds: FundsReport },
}

impl Call {
    /// The ledger after the call.
    pub open spec fn effect(self, pre: LedgerView) -> LedgerView {
        match self {
            Call::Mint { token_uri, initial_price, minter, contract, authorized } => mint_effect(
                pre,
                token_uri,
                initial_price,
                minter,
                contract,
                authorized,
            ),
            Call::Delist { seller, token_id, authorized } => delist_effect(pre, seller, token_id, authorized),
            Call::Buy { buyer, token_id, authorized, funds } => buy_effect(pre, buyer, token_id, authorized, funds),
        }
    }

    /// Whether the call failed.
    pub open spec fn failed(self, pre: LedgerView) -> bool {
        match self {
            Call::Mint { token_uri, initial_price, minter, contract, authorized } => mint_outcome(
                pre,
                token_uri,
                initial_price,
                minter,
                contract,
                authorized,
            ) is Err,
            Call::Delist { seller, token_id, authorized } => delist_outcome(pre, seller, token_id, authorized) is Err,
            Call::Buy { buyer, token_id, authorized, funds } => buy_outcome(
                pre,
                buyer,
                token_id,
                authorized,
                funds,
            ) is Err,
        }
    }

    /// The ids that the call issued: the new token's id for a mint that
    /// succeeded, none for any other call.
    pub open spec fn issued(self, pre: LedgerView) -> Seq<i64> {
        match self {
            Call::Mint { token_uri, initial_price, minter, contract, authorized } => match mint_outcome(
                pre,
                token_uri,
                initial_price,
                minter,
                contract,
                authorized,
            ) {
                Ok(event) => seq![event.token_id],
                Err(_) => seq![],
            },
            _ => seq![],
        }
    }
}

/// The ledger after a sequence of calls, made one after the other.
pub open spec fn run(pre: LedgerView, calls: Seq<Call>) -> LedgerView
    decreases calls.len(),
{
    if calls.len() == 0 {
        pre
    } else {
        calls.last().effect(run(pre, calls.drop_last()))
    }
}

/// The ids issued in a sequence of calls, in the order of issue.
pub open spec fn issued_ids(pre: LedgerView, calls: Seq<Call>) -> Seq<i64>
    decreases calls.len(),
{
    if calls.len() == 0 {
        seq![]
    } else {
        issued_ids(pre, calls.drop_last()) + calls.last().issued(run(pre, calls.drop_last()))
    }
}

/// Every call keeps the ledger well formed, leaves what the collection was
/// initialised with alone, and raises the counter by the number of ids it
/// issued; a call that fails changes nothing at all.
pub proof fn law_calls_preserve_ledger(pre: LedgerView, call: Call)
    requires
        pre.wf(),
        pre.token_id < i64::MAX,
    ensures
        call.effect(pre).wf(),
        call.effect(pre).info == pre.info,
        call.effect(pre).token_id == pre.token_id + call.issued(pre).len(),
        call.failed(pre) ==> call.effect(pre) == pre,
{
}

/// Uniqueness of token ids. In every sequence of calls, each mint that
/// succeeds issues the id after the last one issued: the ids come out
/// strictly increasing, all of them above the counter that the sequence
/// started from, and the counter ends at the last of them. No id is issued
/// twice, whatever happened to the listings in between.
pub proof fn law_token_ids_are_unique(pre: LedgerView, calls: Seq<Call>)
    requires
        pre.wf(),
        pre.token_id + calls.len() <= i64::MAX,
    ensures
        run(pre, calls).wf(),
        run(pre, calls).token_id == pre.token_id + issued_ids(pre, calls).len(),
        issued_ids(pre, calls).len() <= calls.len(),
        forall|i: int|
            0 <= i < issued_ids(pre, calls).len() ==> #[trigger] issued_ids(pre, calls)[i] == pre.token_id + 1 + i,
        forall|i: int, j: int|
            0 <= i < j < issued_ids(pre, calls).len() ==> issued_ids(pre, calls)[i] < issued_ids(pre, calls)[j],
    decreases calls.len(),
{
    if calls.len() > 0 {
        let earlier = calls.drop_last();
        law_token_ids_are_unique(pre, earlier);
        law_calls_preserve_ledger(run(pre, earlier), calls.last());
    }
}

/// Presence after mint. A mint that succeeds lists the new token: its id was
/// not listed before, and afterwards the store holds, under that id, the
/// listing with the price, the minter as seller and the content reference
/// that were given. Every other listing is as it was.
pub proof fn law_mint_lists_the_token(
    pre: LedgerView,
    token_uri: soroban_sdk::String,
    initial_price: i64,
    minter: Address,
    contract: Address,
    authorized: bool,
)
    requires
        pre.wf(),
        pre.token_id < i64::MAX,
        mint_outcome(pre, token_uri, initial_price, minter, contract, authorized) is Ok,
    ensures
        ({
            let event = mint_outcome(pre, token_uri, initial_price, minter, contract, authorized).unwrap();
            let post = mint_effect(pre, token_uri, initial_price, minter, contract, authorized);
            &&& event.token_id == pre.token_id + 1
            &&& !pre.is_listed(event.token_id)
            &&& post.is_listed(event.token_id)
            &&& post.listings[event.token_id] == minted_listing(pre, token_uri, initial_price, minter)
            &&& post.listings[event.token_id].token_id == event.token_id
            &&& post.listings[event.token_id].price == initial_price
            &&& post.listings[event.token_id].seller == minter
            &&& post.listings[event.token_id].token_uri == token_uri
            &&& forall|other: i64|
                other != event.token_id ==> post.is_listed(other) == pre.is_listed(other) && post.listings[other]
                    == pre.listings[other]
        }),
{
}

/// A mint is refused exactly when the minter is not the contract itself and
/// did not furnish authorization; a refused mint issues no id and lists
/// nothing.
pub proof fn law_mint_needs_authorization(
    pre: LedgerView,
    token_uri: soroban_sdk::String,
    initial_price: i64,
    minter: Address,
    contract: Address,
    authorized: bool,
)
    ensures
        mint_outcome(pre, token_uri, initial_price, minter, contract, authorized) is Err <==> minter != contract
            && !authorized,
        mint_outcome(pre, token_uri, initial_price, minter, contract, authorized) is Err ==> {
            &&& mint_outcome(pre, token_uri, initial_price, minter, contract, authorized) == Err::<
                crate::events::MintEvent,
                MarketError,
            >(MarketError::AuthorizationFailure)
            &&& mint_effect(pre, token_uri, initial_price, minter, contract, authorized) == pre
        },
{
}

/// Absence after delist. A delist that succeeds was asked for by the
/// recorded seller, removes the listing of that token and touches no other.
pub proof fn law_delist_removes_the_listing(pre: LedgerView, seller: Address, token_id: i64, authorized: bool)
    requires
        delist_outcome(pre, seller, token_id, authorized) is Ok,
    ensures
        ({
            let post = delist_effect(pre, seller, token_id, authorized);
            &&& authorized
            &&& pre.is_listed(token_id)
            &&& pre.listings[token_id].seller == seller
            &&& delist_outcome(pre, seller, token_id, authorized) == Ok::<DelistEvent, MarketError>(
                DelistEvent { token_id, seller },
            )
            &&& !post.is_listed(token_id)
            &&& post.token_id == pre.token_id
            &&& forall|other: i64|
                other != token_id ==> post.is_listed(other) == pre.is_listed(other) && post.listings[other]
                    == pre.listings[other]
        }),
{
}

/// Absence after buy. The step of a purchase that reports the sale removes
/// the listing of that token and touches no other; the event names the
/// buyer, and the seller and the price that the listing recorded.
pub proof fn law_sale_removes_the_listing(
    pre: LedgerView,
    buyer: Address,
    token_id: i64,
    authorized: bool,
    funds: FundsReport,
)
    requires
        buy_outcome(pre, buyer, token_id, authorized, funds) matches Ok(BuyStep::Sold(_)),
    ensures
        ({
            let post = buy_effect(pre, buyer, token_id, authorized, funds);
            let listing = pre.listings[token_id];
            &&& authorized
            &&& funds == FundsReport::Transfer(true)
            &&& pre.is_listed(token_id)
            &&& buy_outcome(pre, buyer, token_id, authorized, funds) == Ok::<BuyStep, MarketError>(
                BuyStep::Sold(BuyEvent { token_id, buyer, seller: listing.seller, price: listing.price }),
            )
            &&& !post.is_listed(token_id)
            &&& post.token_id == pre.token_id
            &&& forall|other: i64|
                other != token_id ==> post.is_listed(other) == pre.is_listed(other) && post.listings[other]
                    == pre.listings[other]
        }),
{
}

/// No call on one token touches the listing of another: whatever a delist or
/// a step of a purchase of `token_id` does, and whether it succeeds or
/// fails, every other token is listed afterwards exactly as it was before.
pub proof fn law_other_listings_are_unaffected(
    pre: LedgerView,
    principal: Address,
    token_id: i64,
    authorized: bool,
    funds: FundsReport,
    other: i64,
)
    requires
        other != token_id,
    ensures
        delist_effect(pre, principal, token_id, authorized).is_listed(other) == pre.is_listed(other),
        delist_effect(pre, principal, token_id, authorized).listings[other] == pre.listings[other],
        buy_effect(pre, principal, token_id, authorized, funds).is_listed(other) == pre.is_listed(other),
        buy_effect(pre, principal, token_id, authorized, funds).listings[other] == pre.listings[other],
{
}

/// Authorization enforcement. A delist of a listed token by a principal
/// other than the recorded seller fails and leaves the ledger, and with it
/// the listing, unchanged. The failure is `Forbidden` for a principal that
/// furnished authorization, and `AuthorizationFailure` for one that did not.
pub proof fn law_only_the_seller_delists(pre: LedgerView, seller: Address, token_id: i64, authorized: bool)
    requires
        pre.is_listed(token_id),
        pre.listings[token_id].seller != seller,
    ensures
        delist_outcome(pre, seller, token_id, authorized) == Err::<DelistEvent, MarketError>(
            if authorized {
                MarketError::Forbidden
            } else {
                MarketError::AuthorizationFailure
            },
        ),
        delist_effect(pre, seller, token_id, authorized) == pre,
        delist_effect(pre, seller, token_id, authorized).is_listed(token_id),
        delist_effect(pre, seller, token_id, authorized).listings[token_id] == pre.listings[token_id],
{
}

/// Atomicity of buy. When the funds oracle reports that the balance is too
/// low or that the transfer failed, the purchase of a listed token fails, no
/// sale is reported, and the ledger is unchanged: the listing is still
/// there. With authorization furnished, the failure is `InsufficientFunds`
/// for the balance and `TransferFailure` for the transfer.
pub proof fn law_buy_is_atomic(pre: LedgerView, buyer: Address, token_id: i64, authorized: bool, funds: FundsReport)
    requires
        pre.is_listed(token_id),
        funds == FundsReport::Balance(false) || funds == FundsReport::Transfer(false),
    ensures
        buy_outcome(pre, buyer, token_id, authorized, funds) is Err,
        authorized && funds == FundsReport::Balance(false) ==> buy_outcome(pre, buyer, token_id, authorized, funds)
            == Err::<BuyStep, MarketError>(MarketError::InsufficientFunds),
        authorized && funds == FundsReport::Transfer(false) ==> buy_outcome(pre, buyer, token_id, authorized, funds)
            == Err::<BuyStep, MarketError>(MarketError::TransferFailure),
        buy_effect(pre, buyer, token_id, authorized, funds) == pre,
        buy_effect(pre, buyer, token_id, authorized, funds).is_listed(token_id),
{
}

/// The listing goes with the payment and only with it. A step of a purchase
/// changes the ledger exactly when it reports the sale, and it reports the
/// sale exactly when the buyer is authorized, the token is listed and the
/// oracle has reported the transfer as done.
pub proof fn law_listing_goes_with_payment(
    pre: LedgerView,
    buyer: Address,
    token_id: i64,
    authorized: bool,
    funds: FundsReport,
)
    ensures
        buy_outcome(pre, buyer, token_id, authorized, funds) matches Ok(BuyStep::Sold(_)) <==> authorized
            && pre.is_listed(token_id) && funds == FundsReport::Transfer(true),
        !(buy_outcome(pre, buyer, token_id, authorized, funds) matches Ok(BuyStep::Sold(_))) ==> buy_effect(
            pre,
            buyer,
            token_id,
            authorized,
            funds,
        ) == pre,
{
}

/// A purchase that was told to transfer completes once the transfer is
/// done: on the same ledger, the step after a successful transfer reports the
/// sale, to the seller and at the price that the transfer was asked for.
pub proof fn law_paid_purchase_completes(pre: LedgerView, buyer: Address, token_id: i64, authorized: bool)
    requires
        buy_outcome(pre, buyer, token_id, authorized, FundsReport::Balance(true)) is Ok,
    ensures
        ({
            let asked = buy_outcome(pre, buyer, token_id, authorized, FundsReport::Balance(true)).unwrap();
            let done = buy_outcome(pre, buyer, token_id, authorized, FundsReport::Transfer(true));
            &&& asked matches BuyStep::Transfer { from, to, amount }
            &&& from == buyer
            &&& done == Ok::<BuyStep, MarketError>(
                BuyStep::Sold(BuyEvent { token_id, buyer, seller: to, price: amount }),
            )
        }),
{
}

/// A purchase as a whole. Run step by step, with each answer of the oracle
/// handed to the next step, a purchase ends in exactly one of five ways, and
/// the first that applies decides: the buyer did not furnish authorization;
/// the token is not listed; the oracle denies the balance; the oracle fails
/// the transfer; or the sale, to the recorded seller at the recorded price.
/// The ledger changes in the last case only, and there it loses the listing.
pub proof fn law_purchase_ends_one_way(
    pre: LedgerView,
    buyer: Address,
    token_id: i64,
    authorized: bool,
    has_balance: bool,
    transferred: bool,
)
    ensures
        purchase_outcome(pre, buyer, token_id, authorized, has_balance, transferred) == (if !authorized {
            Err::<BuyEvent, MarketError>(MarketError::AuthorizationFailure)
        } else if !pre.is_listed(token_id) {
            Err(MarketError::NotFound)
        } else if !has_balance {
            Err(MarketError::InsufficientFunds)
        } else if !transferred {
            Err(MarketError::TransferFailure)
        } else {
            Ok(
                BuyEvent {
                    token_id,
                    buyer,
                    seller: pre.listings[token_id].seller,
                    price: pre.listings[token_id].price,
                },
            )
        }),
        purchase_outcome(pre, buyer, token_id, authorized, has_balance, transferred) is Ok ==> buy_effect(
            pre,
            buyer,
            token_id,
            authorized,
            FundsReport::Transfer(transferred),
        ) == pre.unlist(token_id),
        purchase_outcome(pre, buyer, token_id, authorized, has_balance, transferred) is Err ==> {
            &&& buy_effect(pre, buyer, token_id, authorized, FundsReport::NotAsked) == pre
            &&& buy_effect(pre, buyer, token_id, authorized, FundsReport::Balance(has_balance)) == pre
            &&& (has_balance ==> buy_effect(pre, buyer, token_id, authorized, FundsReport::Transfer(transferred))
                == pre)
        },
{
}

/// Absence is final. A delist or a purchase of a token that has no listing
/// fails and changes nothing, whatever the oracle has reported. The failure
/// is `NotFound` for a principal that furnished authorization, and
/// `AuthorizationFailure` for one that did not.
pub proof fn law_absent_token_is_not_found(
    pre: LedgerView,
    principal: Address,
    token_id: i64,
    authorized: bool,
    funds: FundsReport,
)
    requires
        !pre.is_listed(token_id),
    ensures
        delist_outcome(pre, principal, token_id, authorized) == Err::<DelistEvent, MarketError>(
            if authorized {
                MarketError::NotFound
            } else {
                MarketError::AuthorizationFailure
            },
        ),
        buy_outcome(pre, principal, token_id, authorized, funds) == Err::<BuyStep, MarketError>(
            if authorized {
                MarketError::NotFound
            } else {
                MarketError::AuthorizationFailure
            },
        ),
        delist_effect(pre, principal, token_id, authorized) == pre,
        buy_effect(pre, principal, token_id, authorized, funds) == pre,
{
}

/// What a ledger hands out for keeping, it takes back: the counter and any
/// sequence of entries that stands for the listings of a well-formed ledger
/// are restorable.
pub proof fn law_kept_ledger_is_restorable(ledger: LedgerView, entries: Seq<NFTListing>)
    requires
        ledger.wf(),
        distinct_ids(entries),
        listings_of(entries) == ledger.listings,
    ensures
        restorable(ledger.token_id as i64, entries),
{
    assert forall|i: int| 0 <= i < entries.len() implies 1 <= (#[trigger] entries[i]).token_id
        <= ledger.token_id by {
        assert(has_id(entries, entries[i].token_id));
        assert(ledger.listings.dom().contains(entries[i].token_id));
    }
}

} // verus!
