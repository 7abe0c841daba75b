//! The purchase-settlement arithmetic: what a payment buys, how an order
//! is scaled down to the available inventory, and what is refunded — as
//! mathematical functions of the payment, the custody balance and the
//! exchange ratio — together with the laws the sale guarantees about them.

use vstd::prelude::*;

use vstd::arithmetic::div_mod::lemma_div_is_ordered;
use vstd::arithmetic::div_mod::lemma_div_multiples_vanish;
use vstd::arithmetic::div_mod::lemma_div_multiples_vanish_quotient;
use vstd::arithmetic::div_mod::lemma_div_pos_is_pos;
use vstd::arithmetic::div_mod::lemma_fundamental_div_mod;
use vstd::arithmetic::div_mod::lemma_mod_division_less_than_divisor;

verus! {

/// A well-formed exchange ratio: both units are positive.
pub open spec fn valid_units(in_unit: int, out_unit: int) -> bool {
    0 < in_unit && 0 < out_unit
}

/// A payment the sale accepts for settlement: positive and an exact
/// multiple of `in_unit`.
pub open spec fn valid_in_amount(paid: int, in_unit: int) -> bool {
    0 < paid && paid % in_unit == 0
}

/// The asset amount a payment of `paid` asks for at the configured ratio.
pub open spec fn desired_out_amount(paid: int, in_unit: int, out_unit: int) -> int {
    paid * out_unit / in_unit
}

/// The native amount actually settled: the full payment when custody can
/// fill the order, else the payment scaled down proportionally to the
/// available inventory, truncating.
pub open spec fn settled_in_amount(paid: int, custody: int, in_unit: int, out_unit: int) -> int {
    let desired = desired_out_amount(paid, in_unit, out_unit);
    if custody >= desired {
        paid
    } else {
        paid * custody / desired
    }
}

/// The native amount refunded to the buyer.
pub open spec fn refund_amount(paid: int, custody: int, in_unit: int, out_unit: int) -> int {
    paid - settled_in_amount(paid, custody, in_unit, out_unit)
}

/// The asset amount delivered: re-derived from the settled native amount,
/// truncating.
pub open spec fn out_amount(paid: int, custody: int, in_unit: int, out_unit: int) -> int {
    settled_in_amount(paid, custody, in_unit, out_unit) * out_unit / in_unit
}

/// The bounds the settlement engine rests on, for any accepted payment:
/// the desired amount is the exact multiple `(paid / in_unit) * out_unit`
/// and is positive; the settled amount lies between zero and the payment;
/// and the delivered asset amount lies between zero and the custody
/// balance.
pub proof fn lemma_settlement_bounds(paid: int, custody: int, in_unit: int, out_unit: int)
    requires
        valid_units(in_unit, out_unit),
        valid_in_amount(paid, in_unit),
        0 <= custody,
    ensures
        desired_out_amount(paid, in_unit, out_unit) == (paid / in_unit) * out_unit,
        out_unit <= desired_out_amount(paid, in_unit, out_unit),
        0 <= settled_in_amount(paid, custody, in_unit, out_unit) <= paid,
        custody >= desired_out_amount(paid, in_unit, out_unit) ==> settled_in_amount(
            paid,
            custody,
            in_unit,
            out_unit,
        ) == paid,
        0 <= out_amount(paid, custody, in_unit, out_unit) <= custody,
        custody >= desired_out_amount(paid, in_unit, out_unit) ==> out_amount(
            paid,
            custody,
            in_unit,
            out_unit,
        ) == desired_out_amount(paid, in_unit, out_unit),
{
    let k = paid / in_unit;
    let d = desired_out_amount(paid, in_unit, out_unit);
    lemma_fundamental_div_mod(paid, in_unit);
    assert(paid == in_unit * k);
    assert(1 <= k) by (nonlinear_arith)
        requires
            0 < paid,
            0 < in_unit,
            paid == in_unit * k,
    ;
    assert(paid * out_unit == in_unit * (k * out_unit)) by (nonlinear_arith)
        requires
            paid == in_unit * k,
    ;
    lemma_div_multiples_vanish(k * out_unit, in_unit);
    assert(d == k * out_unit);
    assert(out_unit <= d) by (nonlinear_arith)
        requires
            1 <= k,
            0 < out_unit,
            d == k * out_unit,
    ;
    if custody >= d {
        assert(settled_in_amount(paid, custody, in_unit, out_unit) == paid);
        assert(out_amount(paid, custody, in_unit, out_unit) == d);
    } else {
        let s = paid * custody / d;
        assert(0 <= paid * custody) by (nonlinear_arith)
            requires
                0 <= paid,
                0 <= custody,
        ;
        lemma_div_pos_is_pos(paid * custody, d);
        assert(paid * custody <= d * paid) by (nonlinear_arith)
            requires
                custody < d,
                0 < paid,
        ;
        lemma_div_is_ordered(paid * custody, d * paid, d);
        lemma_div_multiples_vanish(paid, d);
        assert(s <= paid);
        // The delivered amount fits the custody balance: from
        // `d * s <= paid * custody`, cancel the common factor `k` to get
        // `out_unit * s <= in_unit * custody`, then divide by `in_unit`.
        lemma_fundamental_div_mod(paid * custody, d);
        lemma_mod_division_less_than_divisor(paid * custody, d);
        assert(d * s <= paid * custody);
        assert(s * out_unit <= in_unit * custody) by (nonlinear_arith)
            requires
                1 <= k,
                d == k * out_unit,
                paid == in_unit * k,
                d * s <= paid * custody,
        ;
        lemma_div_is_ordered(s * out_unit, in_unit * custody, in_unit);
        lemma_div_multiples_vanish(custody, in_unit);
        assert(s * out_unit / in_unit <= custody);
        assert(0 <= s * out_unit) by (nonlinear_arith)
            requires
                0 <= s,
                0 < out_unit,
        ;
        lemma_div_pos_is_pos(s * out_unit, in_unit);
    }
}

/// On a partial fill whose desired amount may not be representable at
/// native width, the scaled settlement can be computed from the ratio
/// alone: `in_unit * custody / out_unit` equals the specified
/// `paid * custody / desired`.
pub proof fn lemma_settled_from_ratio(paid: int, custody: int, in_unit: int, out_unit: int)
    requires
        valid_units(in_unit, out_unit),
        valid_in_amount(paid, in_unit),
        0 <= custody,
    ensures
        in_unit * custody / out_unit == paid * custody / desired_out_amount(
            paid,
            in_unit,
            out_unit,
        ),
{
    let k = paid / in_unit;
    let d = desired_out_amount(paid, in_unit, out_unit);
    lemma_settlement_bounds(paid, custody, in_unit, out_unit);
    lemma_fundamental_div_mod(paid, in_unit);
    assert(paid == in_unit * k);
    assert(1 <= k) by (nonlinear_arith)
        requires
            0 < paid,
            0 < in_unit,
            paid == in_unit * k,
    ;
    assert(0 <= in_unit * custody) by (nonlinear_arith)
        requires
            0 < in_unit,
            0 <= custody,
    ;
    lemma_div_multiples_vanish_quotient(k, in_unit * custody, out_unit);
    assert((in_unit * custody) / out_unit == (k * (in_unit * custody)) / (k * out_unit));
    assert(k * (in_unit * custody) == paid * custody) by (nonlinear_arith)
        requires
            paid == in_unit * k,
    ;
    assert(d == k * out_unit);
}

/// Law (conservation): the settled amount plus the refund equals the
/// payment exactly, and the delivered asset amount never exceeds the
/// custody balance before the call.
pub proof fn lemma_conservation(paid: int, custody: int, in_unit: int, out_unit: int)
    requires
        valid_units(in_unit, out_unit),
        valid_in_amount(paid, in_unit),
        0 <= custody,
    ensures
        settled_in_amount(paid, custody, in_unit, out_unit) + refund_amount(
            paid,
            custody,
            in_unit,
            out_unit,
        ) == paid,
        0 <= refund_amount(paid, custody, in_unit, out_unit),
        out_amount(paid, custody, in_unit, out_unit) <= custody,
{
    lemma_settlement_bounds(paid, custody, in_unit, out_unit);
}

/// Law (ratio correctness, full fill): when custody covers the desired
/// amount, the buyer receives exactly `paid * out_unit / in_unit` and
/// nothing is refunded.
pub proof fn lemma_full_fill(paid: int, custody: int, in_unit: int, out_unit: int)
    requires
        valid_units(in_unit, out_unit),
        valid_in_amount(paid, in_unit),
        custody >= desired_out_amount(paid, in_unit, out_unit),
    ensures
        settled_in_amount(paid, custody, in_unit, out_unit) == paid,
        out_amount(paid, custody, in_unit, out_unit) == paid * out_unit / in_unit,
        refund_amount(paid, custody, in_unit, out_unit) == 0,
{
    lemma_settlement_bounds(paid, custody, in_unit, out_unit);
}

/// Law (ratio correctness, partial fill): when custody cannot cover the
/// desired amount, the delivered asset amount still fits the custody
/// balance, the settled amount is exactly the floor-scaled payment
/// `paid * custody / desired`, and the refund is its complement.
pub proof fn lemma_partial_fill(paid: int, custody: int, in_unit: int, out_unit: int)
    requires
        valid_units(in_unit, out_unit),
        valid_in_amount(paid, in_unit),
        0 <= custody,
        custody < desired_out_amount(paid, in_unit, out_unit),
    ensures
        settled_in_amount(paid, custody, in_unit, out_unit) == paid * custody
            / desired_out_amount(paid, in_unit, out_unit),
        refund_amount(paid, custody, in_unit, out_unit) == paid - paid * custody
            / desired_out_amount(paid, in_unit, out_unit),
        0 <= settled_in_amount(paid, custody, in_unit, out_unit) <= paid,
        0 <= out_amount(paid, custody, in_unit, out_unit) <= custody,
{
    lemma_settlement_bounds(paid, custody, in_unit, out_unit);
}

} // verus!
