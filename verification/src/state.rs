//! The persistent records: the process-wide configuration, one market per
//! asset, one sell history per wallet and market, and the reward seasons.

use vstd::prelude::*;
use crate::math::BPS_DENOMINATOR;
use crate::pubkey::Pubkey;

verus! {

/// Largest market-wide sell allowance, in basis points of the reserve, that
/// an update of the configuration accepts.
pub const MAX_GLOBAL_CAP_BPS: u16 = 3_000;

/// Largest top-tier exit fee, in basis points, that an update of the
/// configuration accepts.
pub const MAX_FEE_TIER_5_BPS: u16 = 5_000;

/// Status of a season that is running.
pub const SEASON_ACTIVE: u8 = 0;

/// Status of a season that was ended.
pub const SEASON_ENDED: u8 = 1;

/// Process-wide trading parameters. Trades read them and never change them.
#[derive(Clone, Copy, Debug, PartialEq, Eq)]
pub struct GlobalConfig {
    /// The only account allowed to change this record.
    pub admin: Pubkey,
    /// While set, no trade and no market creation is accepted.
    pub paused: bool,
    /// Share of the reserve, in basis points, that all wallets together may
    /// withdraw per window.
    pub global_cap_bps: u16,
    /// Share of the value of its holdings, in basis points, that one wallet
    /// may withdraw per window.
    pub wallet_cap_holdings_bps: u16,
    /// Share of the reserve, in basis points, that one wallet may withdraw
    /// per window.
    pub wallet_cap_reserve_bps: u16,
    /// Seconds a wallet must wait between two sells.
    pub cooldown_secs: i64,
    /// Exit fee, in basis points, while at most 20% of the allowance is used.
    pub fee_tier_1_bps: u16,
    /// Exit fee from 21% to 40%.
    pub fee_tier_2_bps: u16,
    /// Exit fee from 41% to 60%.
    pub fee_tier_3_bps: u16,
    /// Exit fee from 61% to 80%.
    pub fee_tier_4_bps: u16,
    /// Exit fee from 81% upwards.
    pub fee_tier_5_bps: u16,
}

impl GlobalConfig {
    /// The bounds that every update enforces. A freshly initialised
    /// configuration is not held to them.
    pub open spec fn within_limits(&self) -> bool {
        &&& self.global_cap_bps <= MAX_GLOBAL_CAP_BPS
        &&& self.fee_tier_5_bps <= MAX_FEE_TIER_5_BPS
    }
}

/// One tradable asset: its price curve, how the cost of a buy is shared out,
/// the circulating supply, and what was sold in the current window.
#[derive(Clone, Copy, Debug, PartialEq, Eq)]
pub struct Market {
    pub creator: Pubkey,
    pub token_mint: Pubkey,
    /// Vault that sells are paid from.
    pub exit_reserve: Pubkey,
    pub treasury: Pubkey,
    pub creator_stream: Pubkey,
    /// Slope of the price curve.
    pub curve_a: u64,
    /// Intercept of the price curve.
    pub curve_b: u64,
    /// Share of every buy, in basis points, that goes to the exit reserve.
    pub reserve_bps: u16,
    /// Share that goes to the treasury.
    pub platform_bps: u16,
    /// Share that goes to the creator.
    pub creator_bps: u16,
    /// Units in circulation.
    pub supply: u64,
    /// Start of the current market-wide window.
    pub global_window_start_ts: i64,
    /// Net payout of all sells in the current market-wide window.
    pub global_sold_in_window_lamports: u64,
    pub season_id: u64,
    pub created_at_ts: i64,
}

impl Market {
    /// The three shares of a buy add up to 100%.
    pub open spec fn wf(&self) -> bool {
        self.reserve_bps + self.platform_bps + self.creator_bps == BPS_DENOMINATOR
    }

    /// Everything that is fixed when the market is created: the accounts,
    /// the curve, the cost split, the season and the creation time.
    pub open spec fn same_terms(&self, other: &Market) -> bool {
        &&& self.creator == other.creator
        &&& self.token_mint == other.token_mint
        &&& self.exit_reserve == other.exit_reserve
        &&& self.treasury == other.treasury
        &&& self.creator_stream == other.creator_stream
        &&& self.curve_a == other.curve_a
        &&& self.curve_b == other.curve_b
        &&& self.reserve_bps == other.reserve_bps
        &&& self.platform_bps == other.platform_bps
        &&& self.creator_bps == other.creator_bps
        &&& self.season_id == other.season_id
        &&& self.created_at_ts == other.created_at_ts
    }
}

/// What one wallet sold on one market: its own window and the time of its
/// last sell.
#[derive(Clone, Copy, Debug, PartialEq, Eq)]
pub struct UserMarketState {
    pub wallet: Pubkey,
    pub market: Pubkey,
    /// Start of the wallet's current window.
    pub window_start_ts: i64,
    /// Net payout of the wallet's sells in its current window.
    pub sold_in_window_lamports: u64,
    /// Time of the wallet's last sell; zero before the first.
    pub last_sell_ts: i64,
}

impl Default for UserMarketState {
    /// The record of a wallet that has not sold yet: all zero.
    fn default() -> (r: Self)
        ensures
            r.wallet.bytes@ == Seq::new(32, |i: int| 0u8),
            r.market == r.wallet,
            r.window_start_ts == 0,
            r.sold_in_window_lamports == 0,
            r.last_sell_ts == 0,
    {
        let zero = Pubkey::new([0u8; 32]);
        UserMarketState {
            wallet: zero,
            market: zero,
            window_start_ts: 0,
            sold_in_window_lamports: 0,
            last_sell_ts: 0,
        }
    }
}

/// A reward season.
#[derive(Clone, Copy, Debug, PartialEq, Eq)]
pub struct Season {
    pub id: u64,
    pub start_ts: i64,
    pub end_ts: i64,
    pub reward_pool_lamports: u64,
    /// [`SEASON_ACTIVE`] or [`SEASON_ENDED`].
    pub status: u8,
}

impl Season {
    /// A season ends after it starts and is either active or ended.
    pub open spec fn wf(&self) -> bool {
        &&& self.start_ts < self.end_ts
        &&& (self.status == SEASON_ACTIVE || self.status == SEASON_ENDED)
    }
}

} // verus!
