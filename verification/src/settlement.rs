//! Settlement of a buy: how its cost is shared out among the exit reserve,
//! the treasury and the creator.

use vstd::prelude::*;
use crate::error::ErrorCode;
use crate::math::{bps_share, mul_bps, BPS_DENOMINATOR};

verus! {

/// What [`split_cost`] returns: the reserve's and the treasury's shares are
/// rounded down, and the creator receives whatever is left, so that nothing
/// is lost to rounding. Shares that do not add up to 100% are refused.
pub open spec fn split_result(cost: u64, reserve_bps: u16, platform_bps: u16, creator_bps: u16)
    -> Result<(u64, u64, u64), ErrorCode> {
    let to_reserve = bps_share(cost as int, reserve_bps as int);
    let to_treasury = bps_share(cost as int, platform_bps as int);
    if reserve_bps + platform_bps + creator_bps == BPS_DENOMINATOR {
        Ok((to_reserve as u64, to_treasury as u64, (cost - to_reserve - to_treasury) as u64))
    } else {
        Err(ErrorCode::BadBps)
    }
}

/// The two rounded shares of a split never exceed the cost together, so the
/// remainder that goes to the creator is never negative.
pub proof fn lemma_split_within_cost(cost: int, reserve_bps: int, platform_bps: int)
    requires
        0 <= cost,
        0 <= reserve_bps,
        0 <= platform_bps,
        reserve_bps + platform_bps <= BPS_DENOMINATOR,
    ensures
        0 <= bps_share(cost, reserve_bps),
        0 <= bps_share(cost, platform_bps),
        bps_share(cost, reserve_bps) + bps_share(cost, platform_bps) <= cost,
{
    assert(0 <= cost * reserve_bps && 0 <= cost * platform_bps && cost * reserve_bps + cost
        * platform_bps <= cost * 10_000) by (nonlinear_arith)
        requires
            0 <= cost,
            0 <= reserve_bps,
            0 <= platform_bps,
            reserve_bps + platform_bps <= 10_000,
    ;
}

/// Splits the cost of a buy three ways. The three parts always add up to
/// the cost exactly.
pub fn split_cost(cost: u64, reserve_bps: u16, platform_bps: u16, creator_bps: u16) -> (r: Result<
    (u64, u64, u64),
    ErrorCode,
>)
    ensures
        r == split_result(cost, reserve_bps, platform_bps, creator_bps),
        r matches Ok((to_reserve, to_treasury, to_creator)) ==> to_reserve + to_treasury
            + to_creator == cost,
{
    if (reserve_bps as u64) + (platform_bps as u64) + (creator_bps as u64) != BPS_DENOMINATOR {
        return Err(ErrorCode::BadBps);
    }
    proof {
        lemma_split_within_cost(cost as int, reserve_bps as int, platform_bps as int);
    }
    let to_reserve: u64 = mul_bps(cost, reserve_bps)?;
    let to_treasury: u64 = mul_bps(cost, platform_bps)?;
    let to_creator: u64 = cost - to_reserve - to_treasury;
    Ok((to_reserve, to_treasury, to_creator))
}

} // verus!
