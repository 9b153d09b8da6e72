//! Fee accounting: the protocol fee taken when a swap is created.

use vstd::prelude::*;

verus! {

/// Upper bound on the protocol fee: 5%, in basis points.
pub const MAX_PROTOCOL_FEE_BPS: u32 = 500;

/// Fee rate that applies until an administrator sets another: 0.3%.
pub const DEFAULT_PROTOCOL_FEE_BPS: u32 = 30;

/// Number of basis points in the whole.
pub const BPS_DENOMINATOR: u32 = 10000;

/// The protocol fee on `amount` at `fee_bps` basis points, rounded down.
pub open spec fn fee_of(amount: int, fee_bps: int) -> int {
    (amount * fee_bps) / 10000
}

/// What is left of `amount` for escrow once the fee is taken.
pub open spec fn net_of(amount: int, fee_bps: int) -> int {
    amount - fee_of(amount, fee_bps)
}

/// Splitting the amount into whole ten-thousands and a remainder computes the
/// same fee as multiplying first.
proof fn lemma_fee_by_parts(amount: int, fee_bps: int)
    requires
        0 <= amount,
        0 <= fee_bps,
    ensures
        fee_of(amount, fee_bps) == (amount / 10000) * fee_bps + ((amount % 10000) * fee_bps)
            / 10000,
{
    let q = amount / 10000;
    let r = amount % 10000;
    assert(amount == 10000 * q + r && 0 <= r < 10000) by (nonlinear_arith)
        requires
            q == amount / 10000,
            r == amount % 10000,
    ;
    assert(amount * fee_bps == 10000 * (q * fee_bps) + r * fee_bps) by (nonlinear_arith)
        requires
            amount == 10000 * q + r,
    ;
    let a = q * fee_bps;
    let b = r * fee_bps;
    assert(0 <= b) by (nonlinear_arith)
        requires
            0 <= r,
            0 <= fee_bps,
            b == r * fee_bps,
    ;
    assert((10000 * a + b) / 10000 == a + b / 10000) by (nonlinear_arith)
        requires
            0 <= b,
    ;
}

/// The fee never exceeds the rate's share of the amount, and what is left of
/// a positive amount stays positive as long as the rate is below the whole.
pub proof fn lemma_fee_bounds(amount: int, fee_bps: int)
    requires
        0 <= amount,
        0 <= fee_bps <= 10000,
    ensures
        0 <= fee_of(amount, fee_bps) <= amount,
        amount > 0 && fee_bps < 10000 ==> net_of(amount, fee_bps) > 0,
        fee_of(amount, fee_bps) * 10000 <= amount * fee_bps < (fee_of(amount, fee_bps) + 1)
            * 10000,
{
    let p = amount * fee_bps;
    assert(0 <= p <= amount * 10000) by (nonlinear_arith)
        requires
            0 <= amount,
            0 <= fee_bps <= 10000,
            p == amount * fee_bps,
    ;
    assert(amount > 0 && fee_bps < 10000 ==> p < amount * 10000) by (nonlinear_arith)
        requires
            0 <= amount,
            0 <= fee_bps <= 10000,
            p == amount * fee_bps,
    ;
    assert(0 <= p / 10000 <= amount && (p / 10000) * 10000 <= p < (p / 10000 + 1) * 10000 && (p
        < amount * 10000 ==> p / 10000 < amount)) by (nonlinear_arith)
        requires
            0 <= p <= amount * 10000,
    ;
}

/// Computes the protocol fee on `amount`: `amount * fee_bps / 10000`, rounded
/// down. The product is never formed, so no amount is too large.
pub fn compute_fee(amount: i128, fee_bps: u32) -> (fee: i128)
    requires
        0 <= amount,
        fee_bps <= BPS_DENOMINATOR,
    ensures
        fee == fee_of(amount as int, fee_bps as int),
        0 <= fee <= amount,
{
    proof {
        lemma_fee_by_parts(amount as int, fee_bps as int);
        lemma_fee_bounds(amount as int, fee_bps as int);
    }
    let rate: i128 = fee_bps as i128;
    let whole: i128 = amount / 10000;
    let rest: i128 = amount % 10000;
    assert(0 <= whole * rate <= amount) by (nonlinear_arith)
        requires
            0 <= amount,
            0 <= rate <= 10000,
            whole == amount / 10000,
    ;
    assert(0 <= rest * rate <= 9999 * 10000) by (nonlinear_arith)
        requires
            0 <= rest <= 9999,
            0 <= rate <= 10000,
    ;
    whole * rate + (rest * rate) / 10000
}

/// Splits a gross amount into the protocol fee and the net amount that goes
/// into escrow. The two parts always add up to the gross amount.
pub fn split_amount(amount: i128, fee_bps: u32) -> (parts: (i128, i128))
    requires
        0 <= amount,
        fee_bps <= BPS_DENOMINATOR,
    ensures
        parts.0 == fee_of(amount as int, fee_bps as int),
        parts.1 == net_of(amount as int, fee_bps as int),
        parts.0 + parts.1 == amount,
        0 <= parts.0 <= amount,
        amount > 0 && fee_bps < BPS_DENOMINATOR ==> parts.1 > 0,
{
    proof {
        lemma_fee_bounds(amount as int, fee_bps as int);
    }
    let fee = compute_fee(amount, fee_bps);
    (fee, amount - fee)
}

} // verus!
