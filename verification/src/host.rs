//! The host environment seen by the sale: the asset-transfer and
//! native-value-transfer collaborators, abstracted as a capability trait.
//!
//! The sale's logic is verified against the debit/credit contracts stated
//! here, for every implementation that satisfies them. A transfer is never
//! promised to succeed — each call is a boundary crossing that may fail —
//! but whichever way it goes, the contract pins down the ledger effect.

use vstd::prelude::*;

use crate::errors::TransferError;
use crate::types::AccountId;
use crate::types::Balance;

verus! {

/// A view of an asset ledger: balance of an account in a token.
pub type TokenLedgerView = spec_fn(AccountId, AccountId) -> Balance;

/// A view of the native-value ledger: balance of an account.
pub type NativeLedgerView = spec_fn(AccountId) -> Balance;

/// The capabilities the sale needs from its host: the identity under which
/// it holds custody, a fungible-asset ledger, and a native-value ledger.
pub trait SaleHost: Sized {
    /// The account that holds the sale's custody: the contract's own identity.
    spec fn contract_account(&self) -> AccountId;

    /// The asset ledger: `self.token_balances()(token, account)` is how much
    /// of `token` the `account` holds.
    spec fn token_balances(&self) -> TokenLedgerView;

    /// The native-value ledger.
    spec fn native_balances(&self) -> NativeLedgerView;

    /// Returns the identity under which the sale holds custody.
    fn account_id(&self) -> (r: AccountId)
        ensures
            r == self.contract_account(),
    ;

    /// `balanceOf` of the asset collaborator.
    fn balance_of(&self, token: AccountId, account: AccountId) -> (r: Balance)
        ensures
            r == self.token_balances()(token, account),
    ;

    /// `transfer` of the asset collaborator: pays `amount` of `token` out of
    /// the sale's custody to `to`. On failure nothing moves.
    fn transfer(&mut self, token: AccountId, to: AccountId, amount: Balance) -> (r: Result<
        (),
        TransferError,
    >)
        ensures
            match r {
                Ok(()) => token_moved(
                    old(self).token_balances(),
                    final(self).token_balances(),
                    token,
                    old(self).contract_account(),
                    to,
                    amount,
                ) && natives_unchanged(old(self).native_balances(), final(self).native_balances())
                    && final(self).contract_account() == old(self).contract_account(),
                Err(_) => tokens_unchanged(old(self).token_balances(), final(self).token_balances())
                    && natives_unchanged(old(self).native_balances(), final(self).native_balances())
                    && final(self).contract_account() == old(self).contract_account(),
            },
    ;

    /// `transferFrom` of the asset collaborator: pulls `amount` of `token`
    /// from `from` to `to`. On failure nothing moves.
    fn transfer_from(
        &mut self,
        token: AccountId,
        from: AccountId,
        to: AccountId,
        amount: Balance,
    ) -> (r: Result<(), TransferError>)
        ensures
            match r {
                Ok(()) => token_moved(
                    old(self).token_balances(),
                    final(self).token_balances(),
                    token,
                    from,
                    to,
                    amount,
                ) && natives_unchanged(old(self).native_balances(), final(self).native_balances())
                    && final(self).contract_account() == old(self).contract_account(),
                Err(_) => tokens_unchanged(old(self).token_balances(), final(self).token_balances())
                    && natives_unchanged(old(self).native_balances(), final(self).native_balances())
                    && final(self).contract_account() == old(self).contract_account(),
            },
    ;

    /// Native-value transfer out of the sale's custody to `to`. On failure
    /// nothing moves.
    fn transfer_native(&mut self, to: AccountId, amount: Balance) -> (r: Result<
        (),
        TransferError,
    >)
        ensures
            match r {
                Ok(()) => native_moved(
                    old(self).native_balances(),
                    final(self).native_balances(),
                    old(self).contract_account(),
                    to,
                    amount,
                ) && tokens_unchanged(old(self).token_balances(), final(self).token_balances())
                    && final(self).contract_account() == old(self).contract_account(),
                Err(_) => tokens_unchanged(old(self).token_balances(), final(self).token_balances())
                    && natives_unchanged(old(self).native_balances(), final(self).native_balances())
                    && final(self).contract_account() == old(self).contract_account(),
            },
    ;
}

/// No asset balance differs between the two ledger views.
pub open spec fn tokens_unchanged(pre: TokenLedgerView, post: TokenLedgerView) -> bool {
    forall|t: AccountId, a: AccountId| (#[trigger] post(t, a)) == pre(t, a)
}

/// No native-value balance differs between the two ledger views.
pub open spec fn natives_unchanged(pre: NativeLedgerView, post: NativeLedgerView) -> bool {
    forall|a: AccountId| (#[trigger] post(a)) == pre(a)
}

/// Neither ledger nor the custody identity changed across the call.
pub open spec fn host_unchanged<H: SaleHost>(pre: H, post: H) -> bool {
    &&& post.contract_account() == pre.contract_account()
    &&& tokens_unchanged(pre.token_balances(), post.token_balances())
    &&& natives_unchanged(pre.native_balances(), post.native_balances())
}

/// Exactly `amount` of `token` moved from `from` to `to`, and nothing else
/// changed in the asset ledger: `from` could cover the debit, and every
/// balance reads as before plus the credit minus the debit (which cancel
/// when `from == to`).
pub open spec fn token_moved(
    pre: TokenLedgerView,
    post: TokenLedgerView,
    token: AccountId,
    from: AccountId,
    to: AccountId,
    amount: Balance,
) -> bool {
    &&& pre(token, from) >= amount
    &&& forall|t: AccountId, a: AccountId|
        (#[trigger] post(t, a)) as int == pre(t, a) as int + (
        if t == token && a == to {
            amount as int
        } else {
            0
        }) - (
        if t == token && a == from {
            amount as int
        } else {
            0
        })
}

/// Exactly `amount` of native value moved from `from` to `to`, and nothing
/// else changed in the native ledger.
pub open spec fn native_moved(
    pre: NativeLedgerView,
    post: NativeLedgerView,
    from: AccountId,
    to: AccountId,
    amount: Balance,
) -> bool {
    &&& pre(from) >= amount
    &&& forall|a: AccountId|
        (#[trigger] post(a)) as int == pre(a) as int + (
        if a == to {
            amount as int
        } else {
            0
        }) - (
        if a == from {
            amount as int
        } else {
            0
        })
}

} // verus!
