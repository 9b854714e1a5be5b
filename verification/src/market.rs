//! Trading: buys and sells against one market.
//!
//! Both operations read the records and the ledger, decide, and only then
//! change the records. A refused trade leaves every record as it was.

use vstd::prelude::*;
use crate::curve::{
    buy_cost, buy_cost_lamports, lemma_integral_non_negative, lemma_price_result_non_decreasing,
    price_lamports, sell_proceeds, sell_proceeds_lamports, spot_price,
};
use crate::error::ErrorCode;
use crate::limits::{
    fee_bps, global_cap, reset_if_expired, smaller, tier_bps, usage_percent, wallet_cap,
    wallet_value, window_sold_at, window_start_at,
};
use crate::math::{bps_share, lemma_bps_share_bounds, lemma_bps_share_monotonic, mul_bps};
use crate::pubkey::Pubkey;
use crate::settlement::split_cost;
use crate::state::{GlobalConfig, Market, UserMarketState, MAX_GLOBAL_CAP_BPS};

verus! {

/// Side of a trade that added supply.
pub const SIDE_BUY: u8 = 0;

/// Side of a trade that removed supply.
pub const SIDE_SELL: u8 = 1;

/// The record of one executed trade.
#[derive(Clone, Copy, Debug, PartialEq, Eq)]
pub struct TradeEvent {
    pub market: Pubkey,
    pub wallet: Pubkey,
    /// [`SIDE_BUY`] or [`SIDE_SELL`].
    pub side: u8,
    /// Units bought or sold.
    pub token_amount: u64,
    /// What the curve charges or pays for the units.
    pub sol_gross: u64,
    /// What the wallet pays or receives.
    pub sol_net: u64,
    /// Exit fee withheld from a sell; zero for a buy.
    pub fee: u64,
    /// Rate of the exit fee in basis points; zero for a buy.
    pub fee_tier: u16,
    /// Supply after the trade.
    pub post_supply: u64,
    /// Spot price after the trade.
    pub post_price: u64,
    /// Time of the trade.
    pub ts: i64,
}

/// The accounts that a buy names.
#[derive(Clone, Copy, Debug, PartialEq, Eq)]
pub struct Buy {
    /// Address of the market record.
    pub market: Pubkey,
    pub buyer: Pubkey,
    /// The vaults that the buyer is about to pay into.
    pub exit_reserve: Pubkey,
    pub treasury: Pubkey,
    pub creator_stream: Pubkey,
}

/// The accounts that a sell names, with the balances read from them.
#[derive(Clone, Copy, Debug, PartialEq, Eq)]
pub struct Sell {
    /// Address of the market record.
    pub market: Pubkey,
    pub seller: Pubkey,
    /// The vault that the seller is about to be paid from.
    pub exit_reserve: Pubkey,
    /// Balance of that vault.
    pub exit_reserve_lamports: u64,
    /// Units of the asset that the seller holds.
    pub seller_token_balance: u64,
}

/// What the caller has to settle after a buy: three payments by the buyer,
/// which add up to the gross cost of the trade, and `event.token_amount`
/// units to issue to the buyer.
#[derive(Clone, Copy, Debug, PartialEq, Eq)]
pub struct BuyReceipt {
    pub to_reserve: u64,
    pub to_treasury: u64,
    pub to_creator: u64,
    pub event: TradeEvent,
}

/// Why a buy is refused, if it is. The first reason that applies wins.
pub open spec fn buy_refusal(config: GlobalConfig, market: Market, accounts: Buy, amount: u64)
    -> Option<ErrorCode> {
    let s = market.supply as int;
    let a = market.curve_a as int;
    let b = market.curve_b as int;
    if accounts.exit_reserve != market.exit_reserve || accounts.treasury != market.treasury
        || accounts.creator_stream != market.creator_stream {
        Some(ErrorCode::InvalidVault)
    } else if config.paused {
        Some(ErrorCode::Paused)
    } else if s + amount > u64::MAX || buy_cost(s, amount as int, a, b) > u64::MAX {
        Some(ErrorCode::MathOverflow)
    } else if !market.wf() {
        Some(ErrorCode::BadBps)
    } else if spot_price(s + amount, a, b) > u64::MAX {
        Some(ErrorCode::MathOverflow)
    } else {
        None
    }
}

/// The market after an accepted buy at `now`: the supply has grown by the
/// amount bought, and a market-wide window that was over has been replaced
/// by an empty one starting now.
pub open spec fn market_after_buy(market: Market, amount: u64, now: i64) -> Market {
    Market {
        supply: (market.supply + amount) as u64,
        global_window_start_ts: window_start_at(market.global_window_start_ts, now),
        global_sold_in_window_lamports: window_sold_at(
            market.global_window_start_ts,
            market.global_sold_in_window_lamports,
            now,
        ),
        ..market
    }
}

/// What an accepted buy hands back.
pub open spec fn buy_receipt(market: Market, accounts: Buy, amount: u64, now: i64) -> BuyReceipt {
    let s = market.supply as int;
    let a = market.curve_a as int;
    let b = market.curve_b as int;
    let cost = buy_cost(s, amount as int, a, b);
    let to_reserve = bps_share(cost, market.reserve_bps as int);
    let to_treasury = bps_share(cost, market.platform_bps as int);
    BuyReceipt {
        to_reserve: to_reserve as u64,
        to_treasury: to_treasury as u64,
        to_creator: (cost - to_reserve - to_treasury) as u64,
        event: TradeEvent {
            market: accounts.market,
            wallet: accounts.buyer,
            side: SIDE_BUY,
            token_amount: amount,
            sol_gross: cost as u64,
            sol_net: cost as u64,
            fee: 0,
            fee_tier: 0,
            post_supply: (s + amount) as u64,
            post_price: spot_price(s + amount, a, b) as u64,
            ts: now,
        },
    }
}

/// Buys `token_amount` units at `now`.
///
/// On success the market has moved to [`market_after_buy`] and the receipt is
/// [`buy_receipt`]; the three payments of the receipt add up to the cost. On
/// refusal the error is [`buy_refusal`] and the market is unchanged.
pub fn buy(
    config: &GlobalConfig,
    market: &mut Market,
    accounts: &Buy,
    token_amount: u64,
    now: i64,
) -> (r: Result<BuyReceipt, ErrorCode>)
    ensures
        match r {
            Ok(receipt) => {
                &&& buy_refusal(*config, *old(market), *accounts, token_amount) is None
                &&& *final(market) == market_after_buy(*old(market), token_amount, now)
                &&& receipt == buy_receipt(*old(market), *accounts, token_amount, now)
                &&& receipt.to_reserve + receipt.to_treasury + receipt.to_creator
                    == receipt.event.sol_gross
            },
            Err(e) => {
                &&& buy_refusal(*config, *old(market), *accounts, token_amount) == Some(e)
                &&& *final(market) == *old(market)
            },
        },
{
    if accounts.exit_reserve != market.exit_reserve || accounts.treasury != market.treasury
        || accounts.creator_stream != market.creator_stream {
        return Err(ErrorCode::InvalidVault);
    }
    if config.paused {
        return Err(ErrorCode::Paused);
    }
    let cost: u64 = buy_cost_lamports(market.supply, token_amount, market.curve_a, market.curve_b)?;
    let (to_reserve, to_treasury, to_creator) = split_cost(
        cost,
        market.reserve_bps,
        market.platform_bps,
        market.creator_bps,
    )?;
    let new_supply: u64 = market.supply + token_amount;
    let post_price: u64 = price_lamports(new_supply, market.curve_a, market.curve_b)?;

    let mut window_start: i64 = market.global_window_start_ts;
    let mut window_sold: u64 = market.global_sold_in_window_lamports;
    reset_if_expired(&mut window_start, &mut window_sold, now);

    market.global_window_start_ts = window_start;
    market.global_sold_in_window_lamports = window_sold;
    market.supply = new_supply;
    Ok(
        BuyReceipt {
            to_reserve,
            to_treasury,
            to_creator,
            event: TradeEvent {
                market: accounts.market,
                wallet: accounts.buyer,
                side: SIDE_BUY,
                token_amount,
                sol_gross: cost,
                sol_net: cost,
                fee: 0,
                fee_tier: 0,
                post_supply: new_supply,
                post_price,
                ts: now,
            },
        },
    )
}

/// What the wallet has accumulated in the window that a sell at `now` falls
/// into, before the sell.
pub open spec fn wallet_accumulated(user: UserMarketState, now: i64) -> int {
    window_sold_at(user.window_start_ts, user.sold_in_window_lamports, now) as int
}

/// What all wallets have accumulated in the market-wide window that a sell at
/// `now` falls into, before the sell.
pub open spec fn global_accumulated(market: Market, now: i64) -> int {
    window_sold_at(market.global_window_start_ts, market.global_sold_in_window_lamports, now) as int
}

/// What the seller's wallet may withdraw per window: the smaller of a share
/// of the value of its holdings at the current price and a share of the
/// reserve. It is worked out afresh for every sell.
pub open spec fn sell_wallet_cap(config: GlobalConfig, market: Market, accounts: Sell) -> int {
    let price = spot_price(market.supply as int, market.curve_a as int, market.curve_b as int);
    smaller(
        bps_share(
            wallet_value(accounts.seller_token_balance as int, price),
            config.wallet_cap_holdings_bps as int,
        ),
        bps_share(accounts.exit_reserve_lamports as int, config.wallet_cap_reserve_bps as int),
    )
}

/// What all wallets together may withdraw per window: a share of the reserve.
pub open spec fn sell_global_cap(config: GlobalConfig, accounts: Sell) -> int {
    bps_share(accounts.exit_reserve_lamports as int, config.global_cap_bps as int)
}

/// What the curve pays for the units sold, before the fee.
pub open spec fn sell_gross(market: Market, amount: u64) -> int {
    sell_proceeds(
        market.supply as int,
        amount as int,
        market.curve_a as int,
        market.curve_b as int,
    )
}

/// Rate of the exit fee, in basis points: the tier for the usage that the
/// wallet's window would reach if the gross proceeds were added to it.
pub open spec fn sell_fee_tier(
    config: GlobalConfig,
    market: Market,
    user: UserMarketState,
    accounts: Sell,
    amount: u64,
    now: i64,
) -> u16 {
    tier_bps(
        usage_percent(
            wallet_accumulated(user, now) + sell_gross(market, amount),
            sell_wallet_cap(config, market, accounts),
        ),
        config,
    )
}

/// The exit fee: the tier's share of the gross proceeds, rounded down.
pub open spec fn sell_fee(
    config: GlobalConfig,
    market: Market,
    user: UserMarketState,
    accounts: Sell,
    amount: u64,
    now: i64,
) -> int {
    bps_share(
        sell_gross(market, amount),
        sell_fee_tier(config, market, user, accounts, amount, now) as int,
    )
}

/// What the seller receives: the gross proceeds less the fee.
pub open spec fn sell_net(
    config: GlobalConfig,
    market: Market,
    user: UserMarketState,
    accounts: Sell,
    amount: u64,
    now: i64,
) -> int {
    sell_gross(market, amount) - sell_fee(config, market, user, accounts, amount, now)
}

/// Why a sell is refused, if it is. The first reason that applies wins.
pub open spec fn sell_refusal(
    config: GlobalConfig,
    market: Market,
    user: UserMarketState,
    accounts: Sell,
    amount: u64,
    now: i64,
) -> Option<ErrorCode> {
    let price = spot_price(market.supply as int, market.curve_a as int, market.curve_b as int);
    let value = wallet_value(accounts.seller_token_balance as int, price);
    let by_holdings = bps_share(value, config.wallet_cap_holdings_bps as int);
    let by_reserve = bps_share(
        accounts.exit_reserve_lamports as int,
        config.wallet_cap_reserve_bps as int,
    );
    let wallet_cap = sell_wallet_cap(config, market, accounts);
    let global_cap = sell_global_cap(config, accounts);
    let gross = sell_gross(market, amount);
    let fee = sell_fee(config, market, user, accounts, amount, now);
    let net = sell_net(config, market, user, accounts, amount, now);
    if accounts.exit_reserve != market.exit_reserve {
        Some(ErrorCode::InvalidVault)
    } else if config.paused {
        Some(ErrorCode::Paused)
    } else if amount == 0 {
        Some(ErrorCode::InvalidDelta)
    } else if price > u64::MAX || value > u64::MAX || by_holdings > u64::MAX || by_reserve
        > u64::MAX {
        Some(ErrorCode::MathOverflow)
    } else if amount > market.supply {
        Some(ErrorCode::InvalidDelta)
    } else if gross > u64::MAX || wallet_accumulated(user, now) + gross > u64::MAX {
        Some(ErrorCode::MathOverflow)
    } else if wallet_cap == 0 {
        Some(ErrorCode::InvalidCap)
    } else if fee > gross {
        Some(ErrorCode::MathOverflow)
    } else if now - user.last_sell_ts < config.cooldown_secs {
        Some(ErrorCode::CooldownActive)
    } else if global_cap > u64::MAX || global_accumulated(market, now) + net > u64::MAX {
        Some(ErrorCode::MathOverflow)
    } else if global_accumulated(market, now) + net > global_cap {
        Some(ErrorCode::GlobalSellCapExceeded)
    } else if wallet_accumulated(user, now) + net > wallet_cap {
        Some(ErrorCode::WalletSellCapExceeded)
    } else {
        None
    }
}

/// The market after an accepted sell at `now` that paid out `net`: the supply
/// has shrunk by the amount sold, and the market-wide window, emptied first
/// if it was over, has advanced by the net payout.
pub open spec fn market_after_sell(market: Market, amount: u64, net: int, now: i64) -> Market {
    Market {
        supply: (market.supply - amount) as u64,
        global_window_start_ts: window_start_at(market.global_window_start_ts, now),
        global_sold_in_window_lamports: (global_accumulated(market, now) + net) as u64,
        ..market
    }
}

/// The wallet's record after an accepted sell at `now` that paid out `net`:
/// its window, emptied first if it was over, has advanced by the net payout,
/// and the cooldown runs from now.
pub open spec fn user_after_sell(user: UserMarketState, net: int, now: i64) -> UserMarketState {
    UserMarketState {
        window_start_ts: window_start_at(user.window_start_ts, now),
        sold_in_window_lamports: (wallet_accumulated(user, now) + net) as u64,
        last_sell_ts: now,
        ..user
    }
}

/// The record of an accepted sell.
pub open spec fn sell_event(
    config: GlobalConfig,
    market: Market,
    user: UserMarketState,
    accounts: Sell,
    amount: u64,
    now: i64,
) -> TradeEvent {
    let post_supply = market.supply - amount;
    TradeEvent {
        market: accounts.market,
        wallet: accounts.seller,
        side: SIDE_SELL,
        token_amount: amount,
        sol_gross: sell_gross(market, amount) as u64,
        sol_net: sell_net(config, market, user, accounts, amount, now) as u64,
        fee: sell_fee(config, market, user, accounts, amount, now) as u64,
        fee_tier: sell_fee_tier(config, market, user, accounts, amount, now),
        post_supply: post_supply as u64,
        post_price: spot_price(post_supply, market.curve_a as int, market.curve_b as int) as u64,
        ts: now,
    }
}

/// Sells `token_amount` units at `now`.
///
/// On success the market and the wallet's record have moved to
/// [`market_after_sell`] and [`user_after_sell`], and the event is
/// [`sell_event`]: the caller retires `event.token_amount` units from the
/// seller and pays `event.sol_net` out of the exit reserve; the fee stays in
/// the reserve. On refusal the error is [`sell_refusal`] and both records are
/// unchanged.
pub fn sell(
    config: &GlobalConfig,
    market: &mut Market,
    user_state: &mut UserMarketState,
    accounts: &Sell,
    token_amount: u64,
    now: i64,
) -> (r: Result<TradeEvent, ErrorCode>)
    ensures
        match r {
            Ok(event) => {
                &&& sell_refusal(
                    *config,
                    *old(market),
                    *old(user_state),
                    *accounts,
                    token_amount,
                    now,
                ) is None
                &&& event == sell_event(
                    *config,
                    *old(market),
                    *old(user_state),
                    *accounts,
                    token_amount,
                    now,
                )
                &&& *final(market) == market_after_sell(
                    *old(market),
                    token_amount,
                    event.sol_net as int,
                    now,
                )
                &&& *final(user_state) == user_after_sell(
                    *old(user_state),
                    event.sol_net as int,
                    now,
                )
                &&& event.sol_net + event.fee == event.sol_gross
                &&& final(market).global_sold_in_window_lamports <= sell_global_cap(
                    *config,
                    *accounts,
                )
                &&& final(user_state).sold_in_window_lamports <= sell_wallet_cap(
                    *config,
                    *old(market),
                    *accounts,
                )
            },
            Err(e) => {
                &&& sell_refusal(
                    *config,
                    *old(market),
                    *old(user_state),
                    *accounts,
                    token_amount,
                    now,
                ) == Some(e)
                &&& *final(market) == *old(market)
                &&& *final(user_state) == *old(user_state)
            },
        },
{
    if accounts.exit_reserve != market.exit_reserve {
        return Err(ErrorCode::InvalidVault);
    }
    if config.paused {
        return Err(ErrorCode::Paused);
    }
    if token_amount == 0 {
        return Err(ErrorCode::InvalidDelta);
    }
    let mut global_start: i64 = market.global_window_start_ts;
    let mut global_sold: u64 = market.global_sold_in_window_lamports;
    reset_if_expired(&mut global_start, &mut global_sold, now);
    let mut wallet_start: i64 = user_state.window_start_ts;
    let mut wallet_sold: u64 = user_state.sold_in_window_lamports;
    reset_if_expired(&mut wallet_start, &mut wallet_sold, now);

    let price_now: u64 = price_lamports(market.supply, market.curve_a, market.curve_b)?;
    let wallet_limit: u64 = wallet_cap(
        accounts.seller_token_balance,
        price_now,
        accounts.exit_reserve_lamports,
        config,
    )?;
    let gross: u64 = sell_proceeds_lamports(
        market.supply,
        token_amount,
        market.curve_a,
        market.curve_b,
    )?;
    let used: u64 = match wallet_sold.checked_add(gross) {
        Some(v) => v,
        None => {
            return Err(ErrorCode::MathOverflow);
        },
    };
    let tier: u16 = fee_bps(used, wallet_limit, config)?;
    let fee: u64 = mul_bps(gross, tier)?;
    let net: u64 = match gross.checked_sub(fee) {
        Some(v) => v,
        None => {
            return Err(ErrorCode::MathOverflow);
        },
    };
    if (now as i128) - (user_state.last_sell_ts as i128) < (config.cooldown_secs as i128) {
        return Err(ErrorCode::CooldownActive);
    }
    let global_limit: u64 = global_cap(accounts.exit_reserve_lamports, config)?;
    let global_total: u64 = match global_sold.checked_add(net) {
        Some(v) => v,
        None => {
            return Err(ErrorCode::MathOverflow);
        },
    };
    if global_total > global_limit {
        return Err(ErrorCode::GlobalSellCapExceeded);
    }
    let wallet_total: u64 = wallet_sold + net;
    if wallet_total > wallet_limit {
        return Err(ErrorCode::WalletSellCapExceeded);
    }
    let post_supply: u64 = market.supply - token_amount;
    proof {
        lemma_price_result_non_decreasing(
            post_supply,
            market.supply,
            market.curve_a,
            market.curve_b,
        );
    }
    let post_price: u64 = price_lamports(post_supply, market.curve_a, market.curve_b)?;

    market.supply = post_supply;
    market.global_window_start_ts = global_start;
    market.global_sold_in_window_lamports = global_total;
    user_state.window_start_ts = wallet_start;
    user_state.sold_in_window_lamports = wallet_total;
    user_state.last_sell_ts = now;
    Ok(
        TradeEvent {
            market: accounts.market,
            wallet: accounts.seller,
            side: SIDE_SELL,
            token_amount,
            sol_gross: gross,
            sol_net: net,
            fee,
            fee_tier: tier,
            post_supply,
            post_price,
            ts: now,
        },
    )
}

/// A sell whose net payout would push the wallet's window past the wallet's
/// allowance, or the market-wide window past the market-wide allowance, is
/// refused.
pub proof fn lemma_sell_over_cap_refused(
    config: GlobalConfig,
    market: Market,
    user: UserMarketState,
    accounts: Sell,
    amount: u64,
    now: i64,
)
    requires
        wallet_accumulated(user, now) + sell_net(config, market, user, accounts, amount, now)
            > sell_wallet_cap(config, market, accounts) || global_accumulated(market, now)
            + sell_net(config, market, user, accounts, amount, now) > sell_global_cap(
            config,
            accounts,
        ),
    ensures
        sell_refusal(config, market, user, accounts, amount, now) is Some,
{
}

/// A sell within the cooldown of the wallet's last sell is refused, whatever
/// the amount and whatever else holds.
pub proof fn lemma_sell_in_cooldown_refused(
    config: GlobalConfig,
    market: Market,
    user: UserMarketState,
    accounts: Sell,
    amount: u64,
    now: i64,
)
    requires
        now - user.last_sell_ts < config.cooldown_secs,
    ensures
        sell_refusal(config, market, user, accounts, amount, now) is Some,
{
}

/// An accepted sell counts against fresh windows where the old ones were
/// over: a window that began 86 400 seconds ago or more holds exactly the net
/// payout afterwards and starts at the sell, while a younger window keeps its
/// start and grows by the net payout. The wallet's window and the market-wide
/// window are judged each by its own start.
pub proof fn lemma_sell_advances_windows(
    config: GlobalConfig,
    market: Market,
    user: UserMarketState,
    accounts: Sell,
    amount: u64,
    now: i64,
)
    requires
        sell_refusal(config, market, user, accounts, amount, now) is None,
    ensures
        ({
            let net = sell_net(config, market, user, accounts, amount, now);
            let after = user_after_sell(user, net, now);
            &&& 0 <= net
            &&& now - user.window_start_ts >= 86_400 ==> after.window_start_ts == now
                && after.sold_in_window_lamports == net
            &&& now - user.window_start_ts < 86_400 ==> after.window_start_ts
                == user.window_start_ts && after.sold_in_window_lamports
                == user.sold_in_window_lamports + net
        }),
        ({
            let net = sell_net(config, market, user, accounts, amount, now);
            let after = market_after_sell(market, amount, net, now);
            &&& now - market.global_window_start_ts >= 86_400 ==> after.global_window_start_ts
                == now && after.global_sold_in_window_lamports == net
            &&& now - market.global_window_start_ts < 86_400 ==> after.global_window_start_ts
                == market.global_window_start_ts && after.global_sold_in_window_lamports
                == market.global_sold_in_window_lamports + net
        }),
{
}

/// An accepted sell pays out no more than both allowances leave room for,
/// and so, while either the market-wide share or the wallet's share of the
/// reserve is at most 100%, no more than the reserve holds.
pub proof fn lemma_sell_payout_bounded(
    config: GlobalConfig,
    market: Market,
    user: UserMarketState,
    accounts: Sell,
    amount: u64,
    now: i64,
)
    requires
        sell_refusal(config, market, user, accounts, amount, now) is None,
    ensures
        0 <= sell_net(config, market, user, accounts, amount, now) <= sell_gross(market, amount),
        sell_net(config, market, user, accounts, amount, now) <= sell_global_cap(config, accounts),
        sell_net(config, market, user, accounts, amount, now) <= sell_wallet_cap(
            config,
            market,
            accounts,
        ),
        config.global_cap_bps <= 10_000 || config.wallet_cap_reserve_bps <= 10_000 ==> sell_net(
            config,
            market,
            user,
            accounts,
            amount,
            now,
        ) <= accounts.exit_reserve_lamports,
{
    let gross = sell_gross(market, amount);
    let tier = sell_fee_tier(config, market, user, accounts, amount, now);
    lemma_integral_non_negative(
        market.supply as int,
        amount as int,
        market.curve_a as int,
        market.curve_b as int,
    );
    lemma_bps_share_bounds(gross, tier as int);
    lemma_bps_share_bounds(accounts.exit_reserve_lamports as int, config.global_cap_bps as int);
    lemma_bps_share_bounds(
        accounts.exit_reserve_lamports as int,
        config.wallet_cap_reserve_bps as int,
    );
}

/// Exit-liquidity protection: while the configuration is within its limits,
/// what all wallets together have taken out of the reserve in the current
/// window, this sell included, is at most 30% of what the reserve held when
/// the sell was accepted.
pub proof fn lemma_sell_protects_reserve(
    config: GlobalConfig,
    market: Market,
    user: UserMarketState,
    accounts: Sell,
    amount: u64,
    now: i64,
)
    requires
        config.within_limits(),
        sell_refusal(config, market, user, accounts, amount, now) is None,
    ensures
        global_accumulated(market, now) + sell_net(config, market, user, accounts, amount, now)
            <= bps_share(accounts.exit_reserve_lamports as int, MAX_GLOBAL_CAP_BPS as int),
        bps_share(accounts.exit_reserve_lamports as int, MAX_GLOBAL_CAP_BPS as int) * 10
            <= accounts.exit_reserve_lamports * 3,
{
    lemma_bps_share_monotonic(
        accounts.exit_reserve_lamports as int,
        config.global_cap_bps as int,
        MAX_GLOBAL_CAP_BPS as int,
    );
}

/// A buy leaves the market-wide window alone unless it is over, and then
/// replaces it by an empty one that starts at the buy.
pub proof fn lemma_buy_resets_window(market: Market, amount: u64, now: i64)
    ensures
        ({
            let after = market_after_buy(market, amount, now);
            &&& now - market.global_window_start_ts >= 86_400 ==> after.global_window_start_ts
                == now && after.global_sold_in_window_lamports == 0
            &&& now - market.global_window_start_ts < 86_400 ==> after.global_window_start_ts
                == market.global_window_start_ts && after.global_sold_in_window_lamports
                == market.global_sold_in_window_lamports
        }),
{
}

/// A trade changes nothing of what was fixed when the market was created,
/// and so keeps its cost split adding up to 100%.
pub proof fn lemma_trades_keep_terms(market: Market, amount: u64, net: int, now: i64)
    ensures
        market_after_buy(market, amount, now).same_terms(&market),
        market_after_sell(market, amount, net, now).same_terms(&market),
        market.wf() ==> market_after_buy(market, amount, now).wf() && market_after_sell(
            market,
            amount,
            net,
            now,
        ).wf(),
{
}

} // verus!
