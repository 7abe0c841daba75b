//! Core value types: account identities and amounts.

use vstd::prelude::*;

verus! {

/// Amounts of native value and of the asset being sold.
pub type Balance = u128;

/// An opaque, comparable account identity, as handed out by the host
/// execution environment.
#[derive(Clone, Copy, PartialEq, Eq, Structural, Debug, Hash)]
pub struct AccountId {
    pub id: u128,
}

} // verus!
