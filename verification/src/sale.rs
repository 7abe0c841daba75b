//! The sale itself: its configuration, the administrator's inventory
//! deposit, and the purchase-settlement engine.

use vstd::prelude::*;

use crate::errors::is_unprocessable;
use crate::errors::msg_in_unit_multiple;
use crate::errors::msg_insufficient_azero;
use crate::errors::msg_out_unit_multiple;
use crate::errors::msg_sold_out;
use crate::errors::AZTokenSaleError;
use crate::host::host_unchanged;
use crate::host::native_moved;
use crate::host::natives_unchanged;
use crate::host::token_moved;
use crate::host::tokens_unchanged;
use crate::host::SaleHost;
use crate::settlement::lemma_settled_from_ratio;
use crate::settlement::lemma_settlement_bounds;
use crate::settlement::out_amount;
use crate::settlement::refund_amount;
use crate::settlement::settled_in_amount;
use crate::settlement::valid_in_amount;
use crate::settlement::valid_units;
use crate::types::AccountId;
use crate::types::Balance;
use crate::wide::u256_mul_div;

verus! {

/// A read-only snapshot of the sale's configuration.
#[derive(Clone, Copy, Debug, PartialEq, Eq, Structural)]
pub struct Config {
    pub admin: AccountId,
    pub out_token: AccountId,
    pub in_unit: Balance,
    pub out_unit: Balance,
}

/// A deployed token sale: the administrator who supplies inventory and
/// receives the proceeds, the asset being sold, and the exchange ratio
/// (`in_unit` native units buy `out_unit` asset units). Immutable after
/// construction; the inventory itself lives in the host's asset ledger as
/// the sale's custody balance.
#[derive(Clone, Copy, Debug)]
pub struct AZTokenSale {
    pub admin: AccountId,
    pub out_token: AccountId,
    pub in_unit: Balance,
    pub out_unit: Balance,
}

/// The ledger effects of a purchase: `refund` native units paid back to
/// the buyer, `delivered` asset units paid out of custody to the buyer,
/// and `proceeds` native units forwarded to the administrator, all funded
/// by the sale's custody (the indicator terms cancel where identities
/// coincide).
pub open spec fn purchase_effects<H: SaleHost>(
    pre: H,
    post: H,
    out_token: AccountId,
    caller: AccountId,
    admin: AccountId,
    refund: int,
    delivered: int,
    proceeds: int,
) -> bool {
    let c = pre.contract_account();
    &&& post.contract_account() == c
    &&& forall|a: AccountId|
        (#[trigger] post.native_balances()(a)) as int == pre.native_balances()(a) as int + (
        if a == caller {
            refund
        } else {
            0
        }) + (
        if a == admin {
            proceeds
        } else {
            0
        }) - (
        if a == c {
            refund + proceeds
        } else {
            0
        })
    &&& forall|t: AccountId, a: AccountId|
        (#[trigger] post.token_balances()(t, a)) as int == pre.token_balances()(t, a) as int + (
        if t == out_token && a == caller {
            delivered
        } else {
            0
        }) - (
        if t == out_token && a == c {
            delivered
        } else {
            0
        })
}

impl AZTokenSale {
    /// A well-formed sale: the exchange ratio's units are positive.
    pub open spec fn wf(&self) -> bool {
        valid_units(self.in_unit as int, self.out_unit as int)
    }

    /// The snapshot `config` returns.
    pub open spec fn spec_config(&self) -> Config {
        Config {
            admin: self.admin,
            out_token: self.out_token,
            in_unit: self.in_unit,
            out_unit: self.out_unit,
        }
    }

    /// Creates a sale selling `out_token` at `in_unit` native units per
    /// `out_unit` asset units, administered by `admin`.
    pub fn new(admin: AccountId, out_token: AccountId, in_unit: Balance, out_unit: Balance) -> (r:
        Self)
        requires
            valid_units(in_unit as int, out_unit as int),
        ensures
            r == (AZTokenSale { admin, out_token, in_unit, out_unit }),
            r.wf(),
    {
        AZTokenSale { admin, out_token, in_unit, out_unit }
    }

    /// Returns a snapshot of all configuration fields; pure, cannot fail.
    pub fn config(&self) -> (r: Config)
        ensures
            r == self.spec_config(),
    {
        Config {
            admin: self.admin,
            out_token: self.out_token,
            in_unit: self.in_unit,
            out_unit: self.out_unit,
        }
    }

    /// Law (idempotent read): what `config` returns is a function of the
    /// sale alone, so any two reads without an intervening mutation return
    /// identical values.
    pub proof fn lemma_config_idempotent(self, first: Config, second: Config)
        requires
            first == self.spec_config(),
            second == self.spec_config(),
        ensures
            first == second,
    {
    }

    /// Admits only the expected identity: `Ok` exactly when `received`
    /// equals `allowed`, `Unauthorised` otherwise.
    pub fn authorise(allowed: AccountId, received: AccountId) -> (r: Result<(), AZTokenSaleError>)
        ensures
            r is Ok <==> allowed == received,
            allowed != received ==> (r matches Err(e) && e == AZTokenSaleError::Unauthorised),
    {
        if allowed != received {
            return Err(AZTokenSaleError::Unauthorised);
        }
        Ok(())
    }

    /// Sends `amount` native units out of the sale's custody to `address`,
    /// reporting a failure of the native-transfer collaborator as an
    /// `UnprocessableEntity` with the insufficient-balance reason; on
    /// failure nothing has moved.
    pub fn transfer_azero<H: SaleHost>(
        &self,
        host: &mut H,
        address: AccountId,
        amount: Balance,
    ) -> (r: Result<(), AZTokenSaleError>)
        ensures
            match r {
                Ok(()) => native_moved(
                    old(host).native_balances(),
                    final(host).native_balances(),
                    old(host).contract_account(),
                    address,
                    amount,
                ) && tokens_unchanged(old(host).token_balances(), final(host).token_balances())
                    && final(host).contract_account() == old(host).contract_account(),
                Err(e) => is_unprocessable(e, msg_insufficient_azero()) && host_unchanged(
                    *old(host),
                    *final(host),
                ),
            },
    {
        if host.transfer_native(address, amount).is_err() {
            return Err(
                AZTokenSaleError::UnprocessableEntity("Insufficient AZERO balance".to_owned()),
            );
        }
        Ok(())
    }

    /// Pulls `amount` of `token` from `from` into the sale's custody via
    /// the asset collaborator's `transferFrom`, propagating its failure;
    /// on failure nothing has moved.
    fn acquire_psp22<H: SaleHost>(
        &self,
        host: &mut H,
        token: AccountId,
        from: AccountId,
        amount: Balance,
    ) -> (r: Result<(), AZTokenSaleError>)
        ensures
            match r {
                Ok(()) => token_moved(
                    old(host).token_balances(),
                    final(host).token_balances(),
                    token,
                    from,
                    old(host).contract_account(),
                    amount,
                ) && natives_unchanged(old(host).native_balances(), final(host).native_balances())
                    && final(host).contract_account() == old(host).contract_account(),
                Err(e) => (e matches AZTokenSaleError::PSP22Error(_)) && host_unchanged(
                    *old(host),
                    *final(host),
                ),
            },
    {
        let contract_address = host.account_id();
        match host.transfer_from(token, from, contract_address, amount) {
            Ok(()) => Ok(()),
            Err(e) => Err(AZTokenSaleError::PSP22Error(e)),
        }
    }

    /// The inventory deposit: the administrator moves `amount` asset units
    /// from their own balance into the sale's custody. Fails with
    /// `Unauthorised` for any other caller, and with an
    /// `UnprocessableEntity` when the amount is zero or not an exact
    /// multiple of `out_unit`; on any failure nothing has moved.
    pub fn add_amount_for_sale<H: SaleHost>(
        &self,
        host: &mut H,
        caller: AccountId,
        amount: Balance,
    ) -> (r: Result<(), AZTokenSaleError>)
        requires
            self.wf(),
        ensures
            caller != self.admin ==> (r matches Err(e) && e == AZTokenSaleError::Unauthorised),
            (caller == self.admin && !(0 < amount && amount as int % (self.out_unit as int) == 0))
                ==> (r matches Err(e) && is_unprocessable(e, msg_out_unit_multiple())),
            match r {
                Ok(()) => caller == self.admin && 0 < amount && amount as int % (
                self.out_unit as int) == 0 && token_moved(
                    old(host).token_balances(),
                    final(host).token_balances(),
                    self.out_token,
                    caller,
                    old(host).contract_account(),
                    amount,
                ) && natives_unchanged(old(host).native_balances(), final(host).native_balances())
                    && final(host).contract_account() == old(host).contract_account(),
                Err(e) => host_unchanged(*old(host), *final(host)) && match e {
                    AZTokenSaleError::Unauthorised => caller != self.admin,
                    AZTokenSaleError::UnprocessableEntity(m) => m@ == msg_out_unit_multiple()
                        && caller == self.admin && !(0 < amount && amount as int % (
                    self.out_unit as int) == 0),
                    AZTokenSaleError::PSP22Error(_) => caller == self.admin && 0 < amount
                        && amount as int % (self.out_unit as int) == 0,
                },
            },
    {
        Self::authorise(self.admin, caller)?;
        // validate the amount lies on the ratio grid
        if amount == 0 || amount % self.out_unit > 0 {
            return Err(
                AZTokenSaleError::UnprocessableEntity(
                    "Amount must be in multiples of out_unit".to_owned(),
                ),
            );
        }
        self.acquire_psp22(host, self.out_token, caller, amount)?;
        Ok(())
    }

    /// The purchase: settles `in_amount` native units (already credited to
    /// the sale by the host when the call carries value) against the
    /// custody balance, refunds whatever cannot be used, delivers the
    /// asset to the buyer, and forwards the settled proceeds to the
    /// administrator. Returns the settled native amount and the delivered
    /// asset amount.
    ///
    /// On a validation failure or a failed refund nothing has moved; when
    /// a later transfer fails, the transfers already completed stand, as
    /// the host cannot roll them back, and the error says which state was
    /// reached.
    pub fn buy<H: SaleHost>(&self, host: &mut H, caller: AccountId, in_amount: Balance) -> (r:
        Result<(Balance, Balance), AZTokenSaleError>)
        requires
            self.wf(),
        ensures
            ({
                let p = in_amount as int;
                let iu = self.in_unit as int;
                let ou = self.out_unit as int;
                let cb = old(host).token_balances()(
                    self.out_token,
                    old(host).contract_account(),
                ) as int;
                let settled = settled_in_amount(p, cb, iu, ou);
                let refund = refund_amount(p, cb, iu, ou);
                let delivered = out_amount(p, cb, iu, ou);
                match r {
                    Ok(amounts) => {
                        &&& valid_in_amount(p, iu)
                        &&& 0 < cb
                        &&& amounts.0 as int == settled
                        &&& amounts.1 as int == delivered
                        &&& purchase_effects(
                            *old(host),
                            *final(host),
                            self.out_token,
                            caller,
                            self.admin,
                            refund,
                            delivered,
                            settled,
                        )
                    },
                    Err(e) => match e {
                        AZTokenSaleError::Unauthorised => false,
                        AZTokenSaleError::UnprocessableEntity(m) => {
                            ||| (m@ == msg_in_unit_multiple() && !valid_in_amount(p, iu)
                                && host_unchanged(*old(host), *final(host)))
                            ||| (m@ == msg_sold_out() && valid_in_amount(p, iu) && cb == 0
                                && host_unchanged(*old(host), *final(host)))
                            ||| (m@ == msg_insufficient_azero() && valid_in_amount(p, iu) && 0 < cb
                                && ((0 < refund && host_unchanged(*old(host), *final(host)))
                                || purchase_effects(
                                *old(host),
                                *final(host),
                                self.out_token,
                                caller,
                                self.admin,
                                refund,
                                delivered,
                                0,
                            )))
                        },
                        AZTokenSaleError::PSP22Error(_) => valid_in_amount(p, iu) && 0 < cb
                            && purchase_effects(
                            *old(host),
                            *final(host),
                            self.out_token,
                            caller,
                            self.admin,
                            refund,
                            0,
                            0,
                        ),
                    },
                }
            }),
            !valid_in_amount(in_amount as int, self.in_unit as int) ==> (r matches Err(e)
                && is_unprocessable(e, msg_in_unit_multiple())),
            (valid_in_amount(in_amount as int, self.in_unit as int) && old(host).token_balances()(
                self.out_token,
                old(host).contract_account(),
            ) == 0) ==> (r matches Err(e) && is_unprocessable(e, msg_sold_out())),
    {
        // validate the payment lies on the ratio grid
        if in_amount == 0 || in_amount % self.in_unit > 0 {
            return Err(
                AZTokenSaleError::UnprocessableEntity(
                    "In amount must be in multiples of in_unit".to_owned(),
                ),
            );
        }
        // validate custody holds inventory
        let contract_address = host.account_id();
        let contract_balance = host.balance_of(self.out_token, contract_address);
        if contract_balance == 0 {
            return Err(AZTokenSaleError::UnprocessableEntity("Sold out".to_owned()));
        }
        let ghost p: int = in_amount as int;
        let ghost iu: int = self.in_unit as int;
        let ghost ou: int = self.out_unit as int;
        let ghost cb: int = contract_balance as int;
        proof {
            lemma_settlement_bounds(p, cb, iu, ou);
        }
        // the exact multiple the payment asks for; where the desired
        // amount exceeds the native width the order can only fill
        // partially, and the scaled settlement is computed from the ratio
        let units: u128 = in_amount / self.in_unit;
        let max_in_amount: u128 = match units.checked_mul(self.out_unit) {
            Some(desired) => {
                if contract_balance >= desired {
                    in_amount
                } else {
                    u256_mul_div(in_amount, contract_balance, desired)
                }
            },
            None => {
                proof {
                    lemma_settled_from_ratio(p, cb, iu, ou);
                }
                u256_mul_div(self.in_unit, contract_balance, self.out_unit)
            },
        };
        assert(max_in_amount as int == settled_in_amount(p, cb, iu, ou));
        // refund whatever the inventory cannot absorb
        if in_amount > max_in_amount {
            let refund: Balance = in_amount - max_in_amount;
            if let Err(e) = self.transfer_azero(host, caller, refund) {
                return Err(e);
            }
        }
        // deliver the asset to the buyer
        let payout: u128 = u256_mul_div(max_in_amount, self.out_unit, self.in_unit);
        assert(payout as int == out_amount(p, cb, iu, ou));
        match host.transfer(self.out_token, caller, payout) {
            Ok(()) => {},
            Err(e) => {
                return Err(AZTokenSaleError::PSP22Error(e));
            },
        }
        // forward the settled proceeds to the administrator
        if let Err(e) = self.transfer_azero(host, self.admin, max_in_amount) {
            return Err(e);
        }
        Ok((max_in_amount, payout))
    }
}

} // verus!
