//! The boundary with the Soroban SDK.
//!
//! The ledger carries three kinds of SDK value: the `Address` of a principal,
//! the `String` that references a token's content, and the `Symbol`s that name
//! the collection. All three are handles to objects kept by the host, so Verus
//! sees them as opaque values. In specifications, two such values are equal
//! when they denote the same host object contents: the same account or
//! contract, the same bytes.
//!
//! Everything in this file is assumed, not proved.

use vstd::prelude::*;

verus! {

/// `soroban_sdk::Address`, the identity of an account or a contract.
/// Declared opaque: nothing is assumed about its fields.
#[verifier::external_type_specification]
#[verifier::external_body]
pub struct ExAddress(soroban_sdk::Address);

/// `soroban_sdk::String`, a byte string kept by the host.
/// Declared opaque: nothing is assumed about its fields.
#[verifier::external_type_specification]
#[verifier::external_body]
pub struct ExString(soroban_sdk::String);

/// `soroban_sdk::Symbol`, a short identifier.
/// Declared opaque: nothing is assumed about its fields.
#[verifier::external_type_specification]
#[verifier::external_body]
pub struct ExSymbol(soroban_sdk::Symbol);

/// `<soroban_sdk::Address as Clone>::clone`, which the SDK derives: the clone
/// holds the same host handle, so it denotes the same account or contract as
/// the value it was made from.
pub assume_specification [<soroban_sdk::Address as Clone>::clone](
    address: &soroban_sdk::Address,
) -> (copy: soroban_sdk::Address)
    ensures
        copy == *address,
;

/// `<soroban_sdk::String as Clone>::clone`, which the SDK derives: the clone
/// holds the same host handle, so it denotes the same bytes as the value it
/// was made from.
pub assume_specification [<soroban_sdk::String as Clone>::clone](
    text: &soroban_sdk::String,
) -> (copy: soroban_sdk::String)
    ensures
        copy == *text,
;

/// `<soroban_sdk::Address as PartialEq>::eq`, which the SDK defines as
/// `cmp(..) == Equal`: two addresses of one host are compared by the host,
/// object by value; two addresses of different hosts are compared in their
/// XDR form. Either way the answer is `true` exactly when both denote the
/// same account or contract.
///
/// Within one host the comparison is a host call. Like every host call it is
/// metered, and the host ends the whole invocation when the budget is spent.
#[verifier::external_body]
pub(crate) fn same_address(a: &soroban_sdk::Address, b: &soroban_sdk::Address) -> (same: bool)
    ensures
        same == (*a == *b),
{
    a == b
}

} // verus!
