//! A verified in-memory host: the test double the sale's contracts are
//! exercised against. It keeps both ledgers as association lists, models
//! the standard debit/credit semantics of the collaborators, and offers
//! switches that make the next transfers fail so every failure path of
//! the sale can be driven.
//!
//! The double tracks balances only; it does not model spending
//! allowances, which the host contracts leave open — they never promise
//! that a transfer succeeds.

use vstd::prelude::*;

use crate::errors::TransferError;
use crate::host::NativeLedgerView;
use crate::host::SaleHost;
use crate::host::TokenLedgerView;
use crate::types::AccountId;
use crate::types::Balance;

verus! {

/// Balance of `account` in `token` under an association list of
/// `(token, holder, balance)` entries: the first matching entry wins,
/// and absent accounts hold zero.
pub open spec fn token_lookup(
    s: Seq<(AccountId, AccountId, Balance)>,
    token: AccountId,
    account: AccountId,
) -> Balance
    decreases s.len(),
{
    if s.len() == 0 {
        0
    } else if s[0].0 == token && s[0].1 == account {
        s[0].2
    } else {
        token_lookup(s.drop_first(), token, account)
    }
}

/// Balance of `account` under an association list of `(account, balance)`
/// entries: the first matching entry wins, and absent accounts hold zero.
pub open spec fn native_lookup(s: Seq<(AccountId, Balance)>, account: AccountId) -> Balance
    decreases s.len(),
{
    if s.len() == 0 {
        0
    } else if s[0].0 == account {
        s[0].1
    } else {
        native_lookup(s.drop_first(), account)
    }
}

/// An in-memory model of the host environment: the sale's own identity,
/// the asset and native ledgers, and switches forcing transfers to fail.
pub struct InMemoryHost {
    pub contract: AccountId,
    pub tokens: Vec<(AccountId, AccountId, Balance)>,
    pub native: Vec<(AccountId, Balance)>,
    pub fail_token_transfers: bool,
    pub fail_native_transfers: bool,
}

impl InMemoryHost {
    /// A host with empty ledgers whose custody is held by `contract`.
    pub fn new(contract: AccountId) -> (r: Self)
        ensures
            r.contract == contract,
            r.tokens@.len() == 0,
            r.native@.len() == 0,
            !r.fail_token_transfers,
            !r.fail_native_transfers,
    {
        InMemoryHost {
            contract,
            tokens: Vec::new(),
            native: Vec::new(),
            fail_token_transfers: false,
            fail_native_transfers: false,
        }
    }

    /// Reads the asset ledger.
    pub fn token_balance_of(&self, token: AccountId, account: AccountId) -> (r: Balance)
        ensures
            r == token_lookup(self.tokens@, token, account),
    {
        let n = self.tokens.len();
        let mut i: usize = 0;
        proof {
            assert(self.tokens@.subrange(0, n as int) =~= self.tokens@);
        }
        while i < n
            invariant
                i <= n,
                n == self.tokens@.len(),
                token_lookup(self.tokens@, token, account) == token_lookup(
                    self.tokens@.subrange(i as int, n as int),
                    token,
                    account,
                ),
            decreases n - i,
        {
            let e = self.tokens[i];
            if e.0 == token && e.1 == account {
                assert(self.tokens@.subrange(i as int, n as int)[0] == e);
                return e.2;
            }
            proof {
                assert(self.tokens@.subrange(i as int, n as int).drop_first()
                    =~= self.tokens@.subrange(i as int + 1, n as int));
            }
            i = i + 1;
        }
        0
    }

    /// Reads the native ledger.
    pub fn native_balance_of(&self, account: AccountId) -> (r: Balance)
        ensures
            r == native_lookup(self.native@, account),
    {
        let n = self.native.len();
        let mut i: usize = 0;
        proof {
            assert(self.native@.subrange(0, n as int) =~= self.native@);
        }
        while i < n
            invariant
                i <= n,
                n == self.native@.len(),
                native_lookup(self.native@, account) == native_lookup(
                    self.native@.subrange(i as int, n as int),
                    account,
                ),
            decreases n - i,
        {
            let e = self.native[i];
            if e.0 == account {
                assert(self.native@.subrange(i as int, n as int)[0] == e);
                return e.1;
            }
            proof {
                assert(self.native@.subrange(i as int, n as int).drop_first()
                    =~= self.native@.subrange(i as int + 1, n as int));
            }
            i = i + 1;
        }
        0
    }

    /// Writes `value` as the balance of `account` in `token`, shadowing
    /// any earlier entry; everything else is untouched.
    pub fn set_token_balance(&mut self, token: AccountId, account: AccountId, value: Balance)
        ensures
            forall|t: AccountId, a: AccountId|
                token_lookup(final(self).tokens@, t, a) == (
                if t == token && a == account {
                    value
                } else {
                    token_lookup(old(self).tokens@, t, a)
                }),
            final(self).native == old(self).native,
            final(self).contract == old(self).contract,
            final(self).fail_token_transfers == old(self).fail_token_transfers,
            final(self).fail_native_transfers == old(self).fail_native_transfers,
    {
        self.tokens.insert(0, (token, account, value));
        proof {
            let s0 = old(self).tokens@;
            let s1 = self.tokens@;
            assert(s1.drop_first() =~= s0);
            assert forall|t: AccountId, a: AccountId|
                token_lookup(s1, t, a) == (
                if t == token && a == account {
                    value
                } else {
                    token_lookup(s0, t, a)
                }) by {
                assert(s1[0] == (token, account, value));
            }
        }
    }

    /// Writes `value` as the native balance of `account`, shadowing any
    /// earlier entry; everything else is untouched.
    pub fn set_native_balance(&mut self, account: AccountId, value: Balance)
        ensures
            forall|a: AccountId|
                native_lookup(final(self).native@, a) == (
                if a == account {
                    value
                } else {
                    native_lookup(old(self).native@, a)
                }),
            final(self).tokens == old(self).tokens,
            final(self).contract == old(self).contract,
            final(self).fail_token_transfers == old(self).fail_token_transfers,
            final(self).fail_native_transfers == old(self).fail_native_transfers,
    {
        self.native.insert(0, (account, value));
        proof {
            let s0 = old(self).native@;
            let s1 = self.native@;
            assert(s1.drop_first() =~= s0);
            assert forall|a: AccountId|
                native_lookup(s1, a) == (
                if a == account {
                    value
                } else {
                    native_lookup(s0, a)
                }) by {
                assert(s1[0] == (account, value));
            }
        }
    }
}

impl SaleHost for InMemoryHost {
    open spec fn contract_account(&self) -> AccountId {
        self.contract
    }

    open spec fn token_balances(&self) -> TokenLedgerView {
        |t: AccountId, a: AccountId| token_lookup(self.tokens@, t, a)
    }

    open spec fn native_balances(&self) -> NativeLedgerView {
        |a: AccountId| native_lookup(self.native@, a)
    }

    fn account_id(&self) -> (r: AccountId) {
        self.contract
    }

    fn balance_of(&self, token: AccountId, account: AccountId) -> (r: Balance) {
        self.token_balance_of(token, account)
    }

    fn transfer(&mut self, token: AccountId, to: AccountId, amount: Balance) -> (r: Result<
        (),
        TransferError,
    >) {
        if self.fail_token_transfers {
            return Err(TransferError::Custom("transfer refused".to_owned()));
        }
        let contract = self.contract;
        let from_balance = self.token_balance_of(token, contract);
        if from_balance < amount {
            return Err(TransferError::InsufficientBalance);
        }
        if to == contract {
            return Ok(());
        }
        let to_balance = self.token_balance_of(token, to);
        match to_balance.checked_add(amount) {
            None => Err(TransferError::Custom("balance overflow".to_owned())),
            Some(credited) => {
                self.set_token_balance(token, contract, from_balance - amount);
                self.set_token_balance(token, to, credited);
                Ok(())
            },
        }
    }

    fn transfer_from(
        &mut self,
        token: AccountId,
        from: AccountId,
        to: AccountId,
        amount: Balance,
    ) -> (r: Result<(), TransferError>) {
        if self.fail_token_transfers {
            return Err(TransferError::Custom("transfer refused".to_owned()));
        }
        let from_balance = self.token_balance_of(token, from);
        if from_balance < amount {
            return Err(TransferError::InsufficientBalance);
        }
        if to == from {
            return Ok(());
        }
        let to_balance = self.token_balance_of(token, to);
        match to_balance.checked_add(amount) {
            None => Err(TransferError::Custom("balance overflow".to_owned())),
            Some(credited) => {
                self.set_token_balance(token, from, from_balance - amount);
                self.set_token_balance(token, to, credited);
                Ok(())
            },
        }
    }

    fn transfer_native(&mut self, to: AccountId, amount: Balance) -> (r: Result<
        (),
        TransferError,
    >) {
        if self.fail_native_transfers {
            return Err(TransferError::Custom("transfer refused".to_owned()));
        }
        let contract = self.contract;
        let from_balance = self.native_balance_of(contract);
        if from_balance < amount {
            return Err(TransferError::InsufficientBalance);
        }
        if to == contract {
            return Ok(());
        }
        let to_balance = self.native_balance_of(to);
        match to_balance.checked_add(amount) {
            None => Err(TransferError::Custom("balance overflow".to_owned())),
            Some(credited) => {
                self.set_native_balance(contract, from_balance - amount);
                self.set_native_balance(to, credited);
                Ok(())
            },
        }
    }
}

} // verus!
