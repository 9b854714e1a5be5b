//! Administration: the process-wide configuration and the creation of
//! markets.

use vstd::prelude::*;
use crate::error::ErrorCode;
use crate::math::BPS_DENOMINATOR;
use crate::pubkey::Pubkey;
use crate::state::{GlobalConfig, Market, MAX_FEE_TIER_5_BPS, MAX_GLOBAL_CAP_BPS};

verus! {

/// The record of the first configuration.
#[derive(Clone, Copy, Debug, PartialEq, Eq)]
pub struct ConfigInitialized {
    pub admin: Pubkey,
    pub global_cap_bps: u16,
    pub wallet_cap_holdings_bps: u16,
    pub wallet_cap_reserve_bps: u16,
    pub cooldown_secs: i64,
}

/// The record of a change of the configuration.
#[derive(Clone, Copy, Debug, PartialEq, Eq)]
pub struct ConfigUpdated {
    pub admin: Pubkey,
    pub paused: bool,
    pub global_cap_bps: u16,
}

/// The record of a new market.
#[derive(Clone, Copy, Debug, PartialEq, Eq)]
pub struct MarketCreated {
    pub market: Pubkey,
    pub creator: Pubkey,
    pub token_mint: Pubkey,
    pub curve_a: u64,
    pub curve_b: u64,
    pub season_id: u64,
}

/// The accounts that the creation of a market names.
#[derive(Clone, Copy, Debug, PartialEq, Eq)]
pub struct CreateMarket {
    /// Address of the new market record.
    pub market: Pubkey,
    pub creator: Pubkey,
    pub token_mint: Pubkey,
    pub exit_reserve: Pubkey,
    pub treasury: Pubkey,
    pub creator_stream: Pubkey,
}

/// The first configuration: the given values, owned by `admin`, with trading
/// open. The values are taken as they are; only updates are held to limits.
pub fn initialize_config(
    admin: Pubkey,
    global_cap_bps: u16,
    wallet_cap_holdings_bps: u16,
    wallet_cap_reserve_bps: u16,
    cooldown_secs: i64,
    fee_tier_1_bps: u16,
    fee_tier_2_bps: u16,
    fee_tier_3_bps: u16,
    fee_tier_4_bps: u16,
    fee_tier_5_bps: u16,
) -> (r: (GlobalConfig, ConfigInitialized))
    ensures
        r.0 == (GlobalConfig {
            admin,
            paused: false,
            global_cap_bps,
            wallet_cap_holdings_bps,
            wallet_cap_reserve_bps,
            cooldown_secs,
            fee_tier_1_bps,
            fee_tier_2_bps,
            fee_tier_3_bps,
            fee_tier_4_bps,
            fee_tier_5_bps,
        }),
        r.1 == (ConfigInitialized {
            admin,
            global_cap_bps,
            wallet_cap_holdings_bps,
            wallet_cap_reserve_bps,
            cooldown_secs,
        }),
{
    (
        GlobalConfig {
            admin,
            paused: false,
            global_cap_bps,
            wallet_cap_holdings_bps,
            wallet_cap_reserve_bps,
            cooldown_secs,
            fee_tier_1_bps,
            fee_tier_2_bps,
            fee_tier_3_bps,
            fee_tier_4_bps,
            fee_tier_5_bps,
        },
        ConfigInitialized {
            admin,
            global_cap_bps,
            wallet_cap_holdings_bps,
            wallet_cap_reserve_bps,
            cooldown_secs,
        },
    )
}

/// Why an update of the configuration is refused, if it is: the caller is
/// not the administrator, or the market-wide allowance or the top fee tier
/// is above its limit, which breaks the invariant of the configuration's
/// basis-point values.
pub open spec fn update_refusal(
    config: GlobalConfig,
    signer: Pubkey,
    global_cap_bps: u16,
    fee_tier_5_bps: u16,
) -> Option<ErrorCode> {
    if signer != config.admin {
        Some(ErrorCode::NotAuthorized)
    } else if global_cap_bps > MAX_GLOBAL_CAP_BPS || fee_tier_5_bps > MAX_FEE_TIER_5_BPS {
        Some(ErrorCode::BadBps)
    } else {
        None
    }
}

/// Replaces every setting of the configuration; the administrator stays.
/// A refused update changes nothing; an accepted one leaves the
/// configuration within its limits.
pub fn update_config(
    config: &mut GlobalConfig,
    signer: &Pubkey,
    paused: bool,
    global_cap_bps: u16,
    wallet_cap_holdings_bps: u16,
    wallet_cap_reserve_bps: u16,
    cooldown_secs: i64,
    fee_tier_1_bps: u16,
    fee_tier_2_bps: u16,
    fee_tier_3_bps: u16,
    fee_tier_4_bps: u16,
    fee_tier_5_bps: u16,
) -> (r: Result<ConfigUpdated, ErrorCode>)
    ensures
        match r {
            Ok(event) => {
                &&& update_refusal(*old(config), *signer, global_cap_bps, fee_tier_5_bps) is None
                &&& *final(config) == (GlobalConfig {
                    admin: old(config).admin,
                    paused,
                    global_cap_bps,
                    wallet_cap_holdings_bps,
                    wallet_cap_reserve_bps,
                    cooldown_secs,
                    fee_tier_1_bps,
                    fee_tier_2_bps,
                    fee_tier_3_bps,
                    fee_tier_4_bps,
                    fee_tier_5_bps,
                })
                &&& final(config).within_limits()
                &&& event == (ConfigUpdated { admin: old(config).admin, paused, global_cap_bps })
            },
            Err(e) => {
                &&& update_refusal(*old(config), *signer, global_cap_bps, fee_tier_5_bps) == Some(e)
                &&& *final(config) == *old(config)
            },
        },
{
    if *signer != config.admin {
        return Err(ErrorCode::NotAuthorized);
    }
    if global_cap_bps > MAX_GLOBAL_CAP_BPS || fee_tier_5_bps > MAX_FEE_TIER_5_BPS {
        return Err(ErrorCode::BadBps);
    }
    config.paused = paused;
    config.global_cap_bps = global_cap_bps;
    config.wallet_cap_holdings_bps = wallet_cap_holdings_bps;
    config.wallet_cap_reserve_bps = wallet_cap_reserve_bps;
    config.cooldown_secs = cooldown_secs;
    config.fee_tier_1_bps = fee_tier_1_bps;
    config.fee_tier_2_bps = fee_tier_2_bps;
    config.fee_tier_3_bps = fee_tier_3_bps;
    config.fee_tier_4_bps = fee_tier_4_bps;
    config.fee_tier_5_bps = fee_tier_5_bps;
    Ok(ConfigUpdated { admin: config.admin, paused, global_cap_bps })
}

/// Why the creation of a market is refused, if it is: the three shares of
/// the cost split do not add up to 100%, or trading is paused.
pub open spec fn create_market_refusal(
    config: GlobalConfig,
    reserve_bps: u16,
    platform_bps: u16,
    creator_bps: u16,
) -> Option<ErrorCode> {
    if reserve_bps + platform_bps + creator_bps != BPS_DENOMINATOR {
        Some(ErrorCode::BadBps)
    } else if config.paused {
        Some(ErrorCode::Paused)
    } else {
        None
    }
}

/// A new market at `now`: nothing in circulation, an empty market-wide
/// window that starts now, and the given curve and cost split, which stay
/// as they are for the life of the market.
pub fn create_market(
    config: &GlobalConfig,
    accounts: &CreateMarket,
    curve_a: u64,
    curve_b: u64,
    reserve_bps: u16,
    platform_bps: u16,
    creator_bps: u16,
    season_id: u64,
    now: i64,
) -> (r: Result<(Market, MarketCreated), ErrorCode>)
    ensures
        match r {
            Ok((market, event)) => {
                &&& create_market_refusal(*config, reserve_bps, platform_bps, creator_bps) is None
                &&& market == (Market {
                    creator: accounts.creator,
                    token_mint: accounts.token_mint,
                    exit_reserve: accounts.exit_reserve,
                    treasury: accounts.treasury,
                    creator_stream: accounts.creator_stream,
                    curve_a,
                    curve_b,
                    reserve_bps,
                    platform_bps,
                    creator_bps,
                    supply: 0,
                    global_window_start_ts: now,
                    global_sold_in_window_lamports: 0,
                    season_id,
                    created_at_ts: now,
                })
                &&& market.wf()
                &&& event == (MarketCreated {
                    market: accounts.market,
                    creator: accounts.creator,
                    token_mint: accounts.token_mint,
                    curve_a,
                    curve_b,
                    season_id,
                })
            },
            Err(e) => create_market_refusal(*config, reserve_bps, platform_bps, creator_bps)
                == Some(e),
        },
{
    if (reserve_bps as u64) + (platform_bps as u64) + (creator_bps as u64) != BPS_DENOMINATOR {
        return Err(ErrorCode::BadBps);
    }
    if config.paused {
        return Err(ErrorCode::Paused);
    }
    Ok(
        (
            Market {
                creator: accounts.creator,
                token_mint: accounts.token_mint,
                exit_reserve: accounts.exit_reserve,
                treasury: accounts.treasury,
                creator_stream: accounts.creator_stream,
                curve_a,
                curve_b,
                reserve_bps,
                platform_bps,
                creator_bps,
                supply: 0,
                global_window_start_ts: now,
                global_sold_in_window_lamports: 0,
                season_id,
                created_at_ts: now,
            },
            MarketCreated {
                market: accounts.market,
                creator: accounts.creator,
                token_mint: accounts.token_mint,
                curve_a,
                curve_b,
                season_id,
            },
        ),
    )
}

} // verus!
