//! Reward seasons and the treasury. Only the administrator acts here.

use vstd::prelude::*;
use crate::error::ErrorCode;
use crate::pubkey::Pubkey;
use crate::state::{GlobalConfig, Season, SEASON_ACTIVE, SEASON_ENDED};

verus! {

/// The record of a new season.
#[derive(Clone, Copy, Debug, PartialEq, Eq)]
pub struct SeasonCreated {
    pub season_id: u64,
    pub start_ts: i64,
    pub end_ts: i64,
}

/// The record of the end of a season.
#[derive(Clone, Copy, Debug, PartialEq, Eq)]
pub struct SeasonEnded {
    pub season_id: u64,
}

/// The record of a payment into a season's reward pool.
#[derive(Clone, Copy, Debug, PartialEq, Eq)]
pub struct SeasonFunded {
    pub season_id: u64,
    pub amount: u64,
    /// The pool after the payment.
    pub pool_balance: u64,
}

/// The record of a withdrawal from the treasury.
#[derive(Clone, Copy, Debug, PartialEq, Eq)]
pub struct TreasuryWithdrawn {
    pub recipient: Pubkey,
    pub amount: u64,
}

/// Why the creation of a season is refused, if it is: the caller is not the
/// administrator, or the season would not end after it starts.
pub open spec fn create_season_refusal(
    config: GlobalConfig,
    signer: Pubkey,
    start_ts: i64,
    end_ts: i64,
) -> Option<ErrorCode> {
    if signer != config.admin {
        Some(ErrorCode::NotAuthorized)
    } else if end_ts <= start_ts {
        Some(ErrorCode::BadParam)
    } else {
        None
    }
}

/// A new, active season with an empty reward pool.
pub fn create_season(
    config: &GlobalConfig,
    signer: &Pubkey,
    season_id: u64,
    start_ts: i64,
    end_ts: i64,
) -> (r: Result<(Season, SeasonCreated), ErrorCode>)
    ensures
        match r {
            Ok((season, event)) => {
                &&& create_season_refusal(*config, *signer, start_ts, end_ts) is None
                &&& season == (Season {
                    id: season_id,
                    start_ts,
                    end_ts,
                    reward_pool_lamports: 0,
                    status: SEASON_ACTIVE,
                })
                &&& season.wf()
                &&& event == (SeasonCreated { season_id, start_ts, end_ts })
            },
            Err(e) => create_season_refusal(*config, *signer, start_ts, end_ts) == Some(e),
        },
{
    if *signer != config.admin {
        return Err(ErrorCode::NotAuthorized);
    }
    if end_ts <= start_ts {
        return Err(ErrorCode::BadParam);
    }
    Ok(
        (
            Season {
                id: season_id,
                start_ts,
                end_ts,
                reward_pool_lamports: 0,
                status: SEASON_ACTIVE,
            },
            SeasonCreated { season_id, start_ts, end_ts },
        ),
    )
}

/// Ends a season. Ending a season that was ended already changes nothing.
/// Anyone but the administrator is refused.
pub fn end_season(config: &GlobalConfig, signer: &Pubkey, season: &mut Season) -> (r: Result<
    SeasonEnded,
    ErrorCode,
>)
    ensures
        match r {
            Ok(event) => {
                &&& *signer == config.admin
                &&& *final(season) == (Season { status: SEASON_ENDED, ..*old(season) })
                &&& event == (SeasonEnded { season_id: old(season).id })
            },
            Err(e) => {
                &&& *signer != config.admin
                &&& e == ErrorCode::NotAuthorized
                &&& *final(season) == *old(season)
            },
        },
        old(season).wf() ==> final(season).wf(),
{
    if *signer != config.admin {
        return Err(ErrorCode::NotAuthorized);
    }
    season.status = SEASON_ENDED;
    Ok(SeasonEnded { season_id: season.id })
}

/// Why a payment into a reward pool is refused, if it is: the caller is not
/// the administrator, or the pool would not fit in 64 bits.
pub open spec fn fund_refusal(config: GlobalConfig, signer: Pubkey, season: Season, lamports: u64)
    -> Option<ErrorCode> {
    if signer != config.admin {
        Some(ErrorCode::NotAuthorized)
    } else if season.reward_pool_lamports + lamports > u64::MAX {
        Some(ErrorCode::MathOverflow)
    } else {
        None
    }
}

/// Adds `lamports` to a season's reward pool. The caller takes them out of
/// the treasury.
pub fn fund_season_pool(
    config: &GlobalConfig,
    signer: &Pubkey,
    season: &mut Season,
    lamports: u64,
) -> (r: Result<SeasonFunded, ErrorCode>)
    ensures
        match r {
            Ok(event) => {
                &&& fund_refusal(*config, *signer, *old(season), lamports) is None
                &&& *final(season) == (Season {
                    reward_pool_lamports: (old(season).reward_pool_lamports + lamports) as u64,
                    ..*old(season)
                })
                &&& event == (SeasonFunded {
                    season_id: old(season).id,
                    amount: lamports,
                    pool_balance: final(season).reward_pool_lamports,
                })
            },
            Err(e) => {
                &&& fund_refusal(*config, *signer, *old(season), lamports) == Some(e)
                &&& *final(season) == *old(season)
            },
        },
        old(season).wf() ==> final(season).wf(),
{
    if *signer != config.admin {
        return Err(ErrorCode::NotAuthorized);
    }
    let pool: u64 = match season.reward_pool_lamports.checked_add(lamports) {
        Some(v) => v,
        None => {
            return Err(ErrorCode::MathOverflow);
        },
    };
    season.reward_pool_lamports = pool;
    Ok(SeasonFunded { season_id: season.id, amount: lamports, pool_balance: pool })
}

/// Approves a withdrawal of `lamports` from the treasury to `recipient`.
/// The caller moves them. Anyone but the administrator is refused.
pub fn withdraw_treasury(
    config: &GlobalConfig,
    signer: &Pubkey,
    recipient: Pubkey,
    lamports: u64,
) -> (r: Result<TreasuryWithdrawn, ErrorCode>)
    ensures
        r == (if *signer == config.admin {
            Ok::<TreasuryWithdrawn, ErrorCode>(TreasuryWithdrawn { recipient, amount: lamports })
        } else {
            Err(ErrorCode::NotAuthorized)
        }),
{
    if *signer != config.admin {
        return Err(ErrorCode::NotAuthorized);
    }
    Ok(TreasuryWithdrawn { recipient, amount: lamports })
}

} // verus!
