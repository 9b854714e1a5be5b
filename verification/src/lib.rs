//! A bonding-curve token market with exit-liquidity protection.
//!
//! One synthetic asset trades against a reserve of base currency at a price
//! that is a linear function of the circulating supply. Buys pay the exact
//! integral of the price over the supply they add; sells receive the integral
//! over the supply they remove, less a fee that grows with how much of the
//! seller's withdrawal allowance the current 24-hour window has used, and only
//! while a per-wallet cap, a market-wide cap and a cooldown all permit it.
//!
//! Every function here is pure: it takes the records and the values read from
//! the ledger and the clock, and returns the amounts to move together with the
//! record of the trade. Moving balances is left to the caller.

pub mod error;
pub mod pubkey;
pub mod math;
pub mod curve;
pub mod state;
pub mod limits;
pub mod settlement;
pub mod market;
pub mod factory;
pub mod rewards;
