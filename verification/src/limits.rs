//! The rate-limit and fee engine: rolling 24-hour windows, the wallet and
//! market-wide sell allowances, and the tiered exit fee.

use vstd::prelude::*;
use crate::error::ErrorCode;
use crate::math::{bps_share, mul_bps, narrow};
use crate::state::GlobalConfig;

verus! {

/// Length of a rolling window, in seconds.
pub const WINDOW_SECS: i64 = 86_400;

/// A window that began at `start_ts` is over at `now`.
pub open spec fn window_expired(start_ts: i64, now: i64) -> bool {
    now - start_ts >= WINDOW_SECS
}

/// Start of the window that a trade at `now` falls into.
pub open spec fn window_start_at(start_ts: i64, now: i64) -> i64 {
    if window_expired(start_ts, now) {
        now
    } else {
        start_ts
    }
}

/// What the window that a trade at `now` falls into has accumulated before
/// the trade: nothing if the old window is over, else what it had.
pub open spec fn window_sold_at(start_ts: i64, sold: u64, now: i64) -> u64 {
    if window_expired(start_ts, now) {
        0
    } else {
        sold
    }
}

/// Starts a fresh, empty window at `now` if the current one is over, and
/// leaves it alone otherwise.
pub fn reset_if_expired(start_ts: &mut i64, sold: &mut u64, now: i64)
    ensures
        *final(start_ts) == window_start_at(*old(start_ts), now),
        *final(sold) == window_sold_at(*old(start_ts), *old(sold), now),
{
    if (now as i128) - (*start_ts as i128) >= (WINDOW_SECS as i128) {
        *start_ts = now;
        *sold = 0;
    }
}

/// Window reset: once 86 400 seconds have passed since a window began, a
/// trade opens a new window at its own time with nothing accumulated; one
/// second earlier it still falls into the old window and adds to what that
/// has accumulated.
pub proof fn lemma_window_reset(start_ts: i64, sold: u64, now: i64)
    ensures
        now - start_ts >= 86_400 ==> window_start_at(start_ts, now) == now && window_sold_at(
            start_ts,
            sold,
            now,
        ) == 0,
        now - start_ts <= 86_399 ==> window_start_at(start_ts, now) == start_ts && window_sold_at(
            start_ts,
            sold,
            now,
        ) == sold,
{
}

/// Percentage of the allowance `cap` that `used` amounts to, rounded down.
pub open spec fn usage_percent(used: int, cap: int) -> int {
    used * 100 / cap
}

/// The exit fee for a usage percentage. The bands are `0..=20`, `21..=40`,
/// `41..=60`, `61..=80`, and everything above.
pub open spec fn tier_bps(usage: int, cfg: GlobalConfig) -> u16 {
    if usage <= 20 {
        cfg.fee_tier_1_bps
    } else if usage <= 40 {
        cfg.fee_tier_2_bps
    } else if usage <= 60 {
        cfg.fee_tier_3_bps
    } else if usage <= 80 {
        cfg.fee_tier_4_bps
    } else {
        cfg.fee_tier_5_bps
    }
}

/// The fee bands are closed at both ends and leave no gap: a usage of 20 is
/// still in the first band and 21 already in the second, and so on up to 80;
/// from 81 upwards, at 100 and beyond it too, the top tier applies.
pub proof fn lemma_fee_tier_bands(usage: int, cfg: GlobalConfig)
    ensures
        usage <= 20 ==> tier_bps(usage, cfg) == cfg.fee_tier_1_bps,
        21 <= usage <= 40 ==> tier_bps(usage, cfg) == cfg.fee_tier_2_bps,
        41 <= usage <= 60 ==> tier_bps(usage, cfg) == cfg.fee_tier_3_bps,
        61 <= usage <= 80 ==> tier_bps(usage, cfg) == cfg.fee_tier_4_bps,
        81 <= usage ==> tier_bps(usage, cfg) == cfg.fee_tier_5_bps,
{
}

/// What [`fee_bps`] returns.
pub open spec fn fee_bps_result(used: u64, cap: u64, cfg: GlobalConfig) -> Result<u16, ErrorCode> {
    if cap == 0 {
        Err(ErrorCode::InvalidCap)
    } else {
        Ok(tier_bps(usage_percent(used as int, cap as int), cfg))
    }
}

/// Exit fee, in basis points, for a wallet that will have used `used` of its
/// allowance `cap`. An allowance of zero has no usage and is refused.
pub fn fee_bps(used: u64, cap: u64, cfg: &GlobalConfig) -> (r: Result<u16, ErrorCode>)
    ensures
        r == fee_bps_result(used, cap, *cfg),
{
    if cap == 0 {
        return Err(ErrorCode::InvalidCap);
    }
    let usage: u128 = (used as u128) * 100 / (cap as u128);
    let bps: u16 = if usage <= 20 {
        cfg.fee_tier_1_bps
    } else if usage <= 40 {
        cfg.fee_tier_2_bps
    } else if usage <= 60 {
        cfg.fee_tier_3_bps
    } else if usage <= 80 {
        cfg.fee_tier_4_bps
    } else {
        cfg.fee_tier_5_bps
    };
    Ok(bps)
}

/// Value of a wallet's holdings at the current price.
pub open spec fn wallet_value(balance: int, price: int) -> int {
    balance * price
}

/// The smaller of two amounts.
pub open spec fn smaller(x: int, y: int) -> int {
    if x <= y {
        x
    } else {
        y
    }
}

/// What [`wallet_cap`] returns: the smaller of a share of the wallet's
/// holdings value and a share of the reserve, unless the value or one of the
/// shares does not fit in 64 bits.
pub open spec fn wallet_cap_result(
    balance: u64,
    price: u64,
    reserve: u64,
    cfg: GlobalConfig,
) -> Result<u64, ErrorCode> {
    let value = wallet_value(balance as int, price as int);
    let by_holdings = bps_share(value, cfg.wallet_cap_holdings_bps as int);
    let by_reserve = bps_share(reserve as int, cfg.wallet_cap_reserve_bps as int);
    if value <= u64::MAX && by_holdings <= u64::MAX && by_reserve <= u64::MAX {
        Ok(smaller(by_holdings, by_reserve) as u64)
    } else {
        Err(ErrorCode::MathOverflow)
    }
}

/// What one wallet may withdraw per window, from its token balance, the
/// current price and the balance of the exit reserve.
pub fn wallet_cap(balance: u64, price: u64, reserve: u64, cfg: &GlobalConfig) -> (r: Result<
    u64,
    ErrorCode,
>)
    ensures
        r == wallet_cap_result(balance, price, reserve, *cfg),
        r matches Ok(cap) ==> cap == smaller(
            bps_share(wallet_value(balance as int, price as int), cfg.wallet_cap_holdings_bps as int),
            bps_share(reserve as int, cfg.wallet_cap_reserve_bps as int),
        ),
{
    assert(0 <= balance * price <= 0xFFFF_FFFF_FFFF_FFFF * 0xFFFF_FFFF_FFFF_FFFF)
        by (nonlinear_arith)
        requires
            0 <= balance <= 0xFFFF_FFFF_FFFF_FFFF,
            0 <= price <= 0xFFFF_FFFF_FFFF_FFFF,
    ;
    let value: u64 = narrow((balance as u128) * (price as u128))?;
    let by_holdings: u64 = mul_bps(value, cfg.wallet_cap_holdings_bps)?;
    let by_reserve: u64 = mul_bps(reserve, cfg.wallet_cap_reserve_bps)?;
    if by_holdings <= by_reserve {
        Ok(by_holdings)
    } else {
        Ok(by_reserve)
    }
}

/// What [`global_cap`] returns.
pub open spec fn global_cap_result(reserve: u64, cfg: GlobalConfig) -> Result<u64, ErrorCode> {
    let cap = bps_share(reserve as int, cfg.global_cap_bps as int);
    if cap <= u64::MAX {
        Ok(cap as u64)
    } else {
        Err(ErrorCode::MathOverflow)
    }
}

/// What all wallets together may withdraw per window: a share of the
/// balance of the exit reserve.
pub fn global_cap(reserve: u64, cfg: &GlobalConfig) -> (r: Result<u64, ErrorCode>)
    ensures
        r == global_cap_result(reserve, *cfg),
        r matches Ok(cap) ==> cap == bps_share(reserve as int, cfg.global_cap_bps as int),
{
    mul_bps(reserve, cfg.global_cap_bps)
}

} // verus!
