//! Fixed-point helpers: 64-bit amounts, 128-bit intermediates, basis points.

use vstd::prelude::*;
use crate::error::ErrorCode;

verus! {

/// Basis points in 100%.
pub const BPS_DENOMINATOR: u64 = 10_000;

/// `bps` basis points of `amount`, rounded down.
pub open spec fn bps_share(amount: int, bps: int) -> int {
    amount * bps / (BPS_DENOMINATOR as int)
}

/// A share of a non-negative amount is non-negative, and at most the amount
/// itself while the rate is at most 100%.
pub proof fn lemma_bps_share_bounds(amount: int, bps: int)
    requires
        0 <= amount,
        0 <= bps,
    ensures
        0 <= bps_share(amount, bps),
        bps <= BPS_DENOMINATOR ==> bps_share(amount, bps) <= amount,
{
    assert(0 <= amount * bps) by (nonlinear_arith)
        requires
            0 <= amount,
            0 <= bps,
    ;
    if bps <= 10_000 {
        assert(amount * bps <= amount * 10_000) by (nonlinear_arith)
            requires
                0 <= amount,
                0 <= bps <= 10_000,
        ;
    }
}

/// A higher rate never gives a smaller share.
pub proof fn lemma_bps_share_monotonic(amount: int, low: int, high: int)
    requires
        0 <= amount,
        low <= high,
    ensures
        bps_share(amount, low) <= bps_share(amount, high),
{
    assert(amount * low <= amount * high) by (nonlinear_arith)
        requires
            0 <= amount,
            low <= high,
    ;
}

/// Narrows a 128-bit intermediate to a 64-bit amount; a value that does not
/// fit is an overflow, never truncated.
pub fn narrow(wide: u128) -> (r: Result<u64, ErrorCode>)
    ensures
        r == (if wide <= u64::MAX {
            Ok::<u64, ErrorCode>(wide as u64)
        } else {
            Err(ErrorCode::MathOverflow)
        }),
{
    if wide > 0xFFFF_FFFF_FFFF_FFFF {
        Err(ErrorCode::MathOverflow)
    } else {
        Ok(wide as u64)
    }
}

/// `bps` basis points of `amount`, rounded down, computed in 128 bits.
/// Fails only when the share itself does not fit in 64 bits, which takes a
/// rate above 100%.
pub fn mul_bps(amount: u64, bps: u16) -> (r: Result<u64, ErrorCode>)
    ensures
        r == (if bps_share(amount as int, bps as int) <= u64::MAX {
            Ok::<u64, ErrorCode>(bps_share(amount as int, bps as int) as u64)
        } else {
            Err(ErrorCode::MathOverflow)
        }),
        r matches Ok(share) ==> share == bps_share(amount as int, bps as int),
{
    assert(amount * bps <= 0xFFFF_FFFF_FFFF_FFFF * 0xFFFF) by (nonlinear_arith)
        requires
            amount <= 0xFFFF_FFFF_FFFF_FFFF,
            bps <= 0xFFFF,
    ;
    let product: u128 = (amount as u128) * (bps as u128);
    narrow(product / (BPS_DENOMINATOR as u128))
}

} // verus!
