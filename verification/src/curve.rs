//! The pricing engine: spot price and the exact cost of moving the supply
//! along a linear price curve.

use vstd::prelude::*;
use crate::error::ErrorCode;
use crate::math::narrow;

verus! {

/// Price of the next unit when `supply` units circulate, on the curve with
/// slope `a` and intercept `b`.
pub open spec fn spot_price(supply: int, a: int, b: int) -> int {
    a * supply + b
}

/// Cost of raising the supply from `s` to `s + d`: the integral of the price
/// over that interval, with the slope term rounded down.
pub open spec fn buy_cost(s: int, d: int, a: int, b: int) -> int {
    a * ((s + d) * (s + d) - s * s) / 2 + b * d
}

/// Proceeds of lowering the supply from `s` to `s - d`: the integral of the
/// price over that interval, with the slope term rounded down.
pub open spec fn sell_proceeds(s: int, d: int, a: int, b: int) -> int {
    a * (s * s - (s - d) * (s - d)) / 2 + b * d
}

/// What [`price_lamports`] returns.
pub open spec fn price_result(supply: u64, a: u64, b: u64) -> Result<u64, ErrorCode> {
    let price = spot_price(supply as int, a as int, b as int);
    if price <= u64::MAX {
        Ok(price as u64)
    } else {
        Err(ErrorCode::MathOverflow)
    }
}

/// What [`buy_cost_lamports`] returns: the cost, unless the new supply or the
/// cost does not fit in 64 bits.
pub open spec fn buy_cost_result(s: u64, d: u64, a: u64, b: u64) -> Result<u64, ErrorCode> {
    let cost = buy_cost(s as int, d as int, a as int, b as int);
    if s + d <= u64::MAX && cost <= u64::MAX {
        Ok(cost as u64)
    } else {
        Err(ErrorCode::MathOverflow)
    }
}

/// What [`sell_proceeds_lamports`] returns: the proceeds, unless more is sold
/// than circulates or the proceeds do not fit in 64 bits.
pub open spec fn sell_proceeds_result(s: u64, d: u64, a: u64, b: u64) -> Result<u64, ErrorCode> {
    let proceeds = sell_proceeds(s as int, d as int, a as int, b as int);
    if d > s {
        Err(ErrorCode::InvalidDelta)
    } else if proceeds <= u64::MAX {
        Ok(proceeds as u64)
    } else {
        Err(ErrorCode::MathOverflow)
    }
}

/// Spot price at `supply`.
pub fn price_lamports(supply: u64, a: u64, b: u64) -> (r: Result<u64, ErrorCode>)
    ensures
        r == price_result(supply, a, b),
        r matches Ok(price) ==> price == spot_price(supply as int, a as int, b as int),
{
    assert(supply * a == a * supply && supply * a <= 0xFFFF_FFFF_FFFF_FFFF * 0xFFFF_FFFF_FFFF_FFFF)
        by (nonlinear_arith)
        requires
            supply <= 0xFFFF_FFFF_FFFF_FFFF,
            a <= 0xFFFF_FFFF_FFFF_FFFF,
    ;
    let wide: u128 = (supply as u128) * (a as u128) + (b as u128);
    narrow(wide)
}

/// Cost of buying `d` units when `s` circulate.
///
/// The computation squares the new supply in 128 bits, so a new supply that
/// does not fit in 64 bits is an overflow whatever the cost would be.
pub fn buy_cost_lamports(s: u64, d: u64, a: u64, b: u64) -> (r: Result<u64, ErrorCode>)
    ensures
        r == buy_cost_result(s, d, a, b),
        r matches Ok(cost) ==> cost == buy_cost(s as int, d as int, a as int, b as int),
{
    let new_s: u128 = (s as u128) + (d as u128);
    proof {
        lemma_square_fits(new_s as int);
        lemma_square_monotonic(s as int, new_s as int);
        lemma_product_fits(b as int, d as int);
    }
    let sq_new: u128 = match new_s.checked_mul(new_s) {
        Some(v) => v,
        None => {
            return Err(ErrorCode::MathOverflow);
        },
    };
    let sq_old: u128 = (s as u128) * (s as u128);
    let term: u128 = sq_new - sq_old;
    let scaled: u128 = match (a as u128).checked_mul(term) {
        Some(v) => v,
        None => {
            return Err(ErrorCode::MathOverflow);
        },
    };
    let flat: u128 = (b as u128) * (d as u128);
    match (scaled / 2).checked_add(flat) {
        Some(total) => narrow(total),
        None => Err(ErrorCode::MathOverflow),
    }
}

/// Proceeds of selling `d` units when `s` circulate.
pub fn sell_proceeds_lamports(s: u64, d: u64, a: u64, b: u64) -> (r: Result<u64, ErrorCode>)
    ensures
        r == sell_proceeds_result(s, d, a, b),
        r matches Ok(proceeds) ==> proceeds == sell_proceeds(s as int, d as int, a as int, b as int),
{
    if d > s {
        return Err(ErrorCode::InvalidDelta);
    }
    let new_s: u128 = (s as u128) - (d as u128);
    proof {
        lemma_square_fits(s as int);
        lemma_square_monotonic(new_s as int, s as int);
        lemma_product_fits(b as int, d as int);
    }
    let sq_old: u128 = (s as u128) * (s as u128);
    let sq_new: u128 = new_s * new_s;
    let term: u128 = sq_old - sq_new;
    let scaled: u128 = match (a as u128).checked_mul(term) {
        Some(v) => v,
        None => {
            return Err(ErrorCode::MathOverflow);
        },
    };
    let flat: u128 = (b as u128) * (d as u128);
    match (scaled / 2).checked_add(flat) {
        Some(total) => narrow(total),
        None => Err(ErrorCode::MathOverflow),
    }
}

/// A square fits in 128 bits exactly when its root fits in 64.
proof fn lemma_square_fits(n: int)
    requires
        0 <= n,
    ensures
        n * n <= u128::MAX <==> n <= u64::MAX,
{
    if n <= 0xFFFF_FFFF_FFFF_FFFF {
        assert(n * n <= 0xFFFF_FFFF_FFFF_FFFF * 0xFFFF_FFFF_FFFF_FFFF) by (nonlinear_arith)
            requires
                0 <= n <= 0xFFFF_FFFF_FFFF_FFFF,
        ;
    } else {
        assert(n * n >= 0x1_0000_0000_0000_0000 * 0x1_0000_0000_0000_0000) by (nonlinear_arith)
            requires
                n >= 0x1_0000_0000_0000_0000,
        ;
    }
}

/// Squaring preserves the order of non-negative numbers.
proof fn lemma_square_monotonic(low: int, high: int)
    requires
        0 <= low <= high,
    ensures
        0 <= low * low <= high * high,
{
    assert(0 <= low * low <= high * high) by (nonlinear_arith)
        requires
            0 <= low <= high,
    ;
}

/// The product of two 64-bit values fits in 128 bits with room to spare.
proof fn lemma_product_fits(x: int, y: int)
    requires
        0 <= x <= u64::MAX,
        0 <= y <= u64::MAX,
    ensures
        0 <= x * y <= 0xFFFF_FFFF_FFFF_FFFF * 0xFFFF_FFFF_FFFF_FFFF,
{
    assert(0 <= x * y <= 0xFFFF_FFFF_FFFF_FFFF * 0xFFFF_FFFF_FFFF_FFFF) by (nonlinear_arith)
        requires
            0 <= x <= 0xFFFF_FFFF_FFFF_FFFF,
            0 <= y <= 0xFFFF_FFFF_FFFF_FFFF,
    ;
}

/// Integral symmetry: buying `d` units from supply `s` costs exactly what
/// selling `d` units from supply `s + d` pays.
pub proof fn lemma_buy_sell_symmetry(s: int, d: int, a: int, b: int)
    ensures
        buy_cost(s, d, a, b) == sell_proceeds(s + d, d, a, b),
{
}

/// Integral symmetry of the executable functions: wherever the new supply
/// fits in 64 bits, a buy and the sell that undoes it return the same thing,
/// the same amount or the same overflow.
pub proof fn lemma_buy_sell_results_agree(s: u64, d: u64, a: u64, b: u64)
    requires
        s + d <= u64::MAX,
    ensures
        buy_cost_result(s, d, a, b) == sell_proceeds_result((s + d) as u64, d, a, b),
{
    lemma_buy_sell_symmetry(s as int, d as int, a as int, b as int);
}

/// With a non-negative slope the price never falls as the supply grows.
pub proof fn lemma_price_non_decreasing(low: int, high: int, a: int, b: int)
    requires
        0 <= a,
        low <= high,
    ensures
        spot_price(low, a, b) <= spot_price(high, a, b),
{
    assert(a * low <= a * high) by (nonlinear_arith)
        requires
            0 <= a,
            low <= high,
    ;
}

/// On 64-bit values: a price that is representable at some supply is
/// representable, and no higher, at every smaller supply.
pub proof fn lemma_price_result_non_decreasing(low: u64, high: u64, a: u64, b: u64)
    requires
        low <= high,
    ensures
        price_result(high, a, b) is Ok ==> price_result(low, a, b) is Ok,
        price_result(high, a, b) matches Ok(p_high) ==> price_result(low, a, b) matches Ok(p_low)
            && p_low <= p_high,
{
    lemma_price_non_decreasing(low as int, high as int, a as int, b as int);
    assert(0 <= a * low) by (nonlinear_arith)
        requires
            0 <= a,
            0 <= low,
    ;
}

/// The cost of a buy and the proceeds of a sell are never negative.
pub proof fn lemma_integral_non_negative(s: int, d: int, a: int, b: int)
    requires
        0 <= s,
        0 <= d,
        0 <= a,
        0 <= b,
    ensures
        0 <= buy_cost(s, d, a, b),
        d <= s ==> 0 <= sell_proceeds(s, d, a, b),
{
    lemma_square_monotonic(s, s + d);
    assert(0 <= a * ((s + d) * (s + d) - s * s)) by (nonlinear_arith)
        requires
            0 <= a,
            0 <= (s + d) * (s + d) - s * s,
    ;
    assert(0 <= b * d) by (nonlinear_arith)
        requires
            0 <= b,
            0 <= d,
    ;
    if d <= s {
        lemma_square_monotonic(s - d, s);
        assert(0 <= a * (s * s - (s - d) * (s - d))) by (nonlinear_arith)
            requires
                0 <= a,
                0 <= s * s - (s - d) * (s - d),
        ;
    }
}

} // verus!
