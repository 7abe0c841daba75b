//! Error values returned by the sale's operations.

use vstd::prelude::*;

verus! {

/// A failure reported by an asset- or native-transfer collaborator.
#[derive(PartialEq, Eq, Debug)]
pub enum TransferError {
    /// The debited account does not hold the requested amount.
    InsufficientBalance,
    /// Any other failure of the collaborator, with its reason.
    Custom(String),
}

/// An error returned to the caller of a sale operation.
#[derive(PartialEq, Eq, Debug)]
pub enum AZTokenSaleError {
    /// The caller is not authorised for the operation.
    Unauthorised,
    /// A business rule was violated; the text names the rule.
    UnprocessableEntity(String),
    /// The asset-transfer collaborator reported a failure.
    PSP22Error(TransferError),
}

/// Holds when `e` is an `UnprocessableEntity` carrying exactly `msg`.
pub open spec fn is_unprocessable(e: AZTokenSaleError, msg: Seq<char>) -> bool {
    match e {
        AZTokenSaleError::UnprocessableEntity(m) => m@ == msg,
        _ => false,
    }
}

/// Reason reported when a purchase payment is zero or off the ratio grid.
pub open spec fn msg_in_unit_multiple() -> Seq<char> {
    "In amount must be in multiples of in_unit"@
}

/// Reason reported when a deposit amount is zero or off the ratio grid.
pub open spec fn msg_out_unit_multiple() -> Seq<char> {
    "Amount must be in multiples of out_unit"@
}

/// Reason reported when the sale's custody holds no inventory.
pub open spec fn msg_sold_out() -> Seq<char> {
    "Sold out"@
}

/// Reason reported when a native-value transfer fails.
pub open spec fn msg_insufficient_azero() -> Seq<char> {
    "Insufficient AZERO balance"@
}

} // verus!
