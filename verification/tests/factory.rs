use trasim::error::ErrorCode;
use trasim::factory::{
    create_market, initialize_config, update_config, ConfigInitialized, ConfigUpdated, CreateMarket,
    MarketCreated,
};
use trasim::pubkey::Pubkey;
use trasim::state::{GlobalConfig, Market, MAX_FEE_TIER_5_BPS, MAX_GLOBAL_CAP_BPS};

fn admin() -> Pubkey {
    Pubkey::new([1; 32])
}

fn initial() -> GlobalConfig {
    initialize_config(admin(), 3000, 5000, 1000, 60, 100, 200, 300, 400, 500).0
}

fn accounts() -> CreateMarket {
    CreateMarket {
        market: Pubkey::new([7; 32]),
        creator: Pubkey::new([2; 32]),
        token_mint: Pubkey::new([3; 32]),
        exit_reserve: Pubkey::new([4; 32]),
        treasury: Pubkey::new([5; 32]),
        creator_stream: Pubkey::new([6; 32]),
    }
}

#[test]
fn limits_are_thirty_and_fifty_percent() {
    assert_eq!(MAX_GLOBAL_CAP_BPS, 3000);
    assert_eq!(MAX_FEE_TIER_5_BPS, 5000);
}

#[test]
fn first_configuration_takes_the_values_as_given() {
    let (cfg, event) = initialize_config(admin(), 3000, 5000, 1000, 60, 100, 200, 300, 400, 500);
    assert_eq!(
        cfg,
        GlobalConfig {
            admin: admin(),
            paused: false,
            global_cap_bps: 3000,
            wallet_cap_holdings_bps: 5000,
            wallet_cap_reserve_bps: 1000,
            cooldown_secs: 60,
            fee_tier_1_bps: 100,
            fee_tier_2_bps: 200,
            fee_tier_3_bps: 300,
            fee_tier_4_bps: 400,
            fee_tier_5_bps: 500,
        }
    );
    assert_eq!(
        event,
        ConfigInitialized {
            admin: admin(),
            global_cap_bps: 3000,
            wallet_cap_holdings_bps: 5000,
            wallet_cap_reserve_bps: 1000,
            cooldown_secs: 60,
        }
    );
}

#[test]
fn first_configuration_is_not_held_to_the_limits() {
    let (cfg, _) = initialize_config(admin(), 9000, 1, 2, -3, 4, 5, 6, 7, 60_000);
    assert_eq!((cfg.global_cap_bps, cfg.fee_tier_5_bps, cfg.cooldown_secs), (9000, 60_000, -3));
    assert!(!cfg.paused);
}

#[test]
fn update_replaces_every_setting_but_the_admin() {
    let mut cfg = initial();
    let event = update_config(&mut cfg, &admin(), true, 2999, 11, 12, 13, 14, 15, 16, 17, 18).unwrap();
    assert_eq!(event, ConfigUpdated { admin: admin(), paused: true, global_cap_bps: 2999 });
    assert_eq!(
        cfg,
        GlobalConfig {
            admin: admin(),
            paused: true,
            global_cap_bps: 2999,
            wallet_cap_holdings_bps: 11,
            wallet_cap_reserve_bps: 12,
            cooldown_secs: 13,
            fee_tier_1_bps: 14,
            fee_tier_2_bps: 15,
            fee_tier_3_bps: 16,
            fee_tier_4_bps: 17,
            fee_tier_5_bps: 18,
        }
    );
}

#[test]
fn update_accepts_the_limits_themselves() {
    let mut cfg = initial();
    update_config(&mut cfg, &admin(), false, 3000, 1, 1, 1, 1, 1, 1, 1, 5000).unwrap();
    assert_eq!((cfg.global_cap_bps, cfg.fee_tier_5_bps), (3000, 5000));
}

#[test]
fn update_beyond_a_limit_is_refused() {
    let mut cfg = initial();
    assert_eq!(
        update_config(&mut cfg, &admin(), true, 3001, 1, 1, 1, 1, 1, 1, 1, 5000),
        Err(ErrorCode::BadBps)
    );
    assert_eq!(
        update_config(&mut cfg, &admin(), true, 3000, 1, 1, 1, 1, 1, 1, 1, 5001),
        Err(ErrorCode::BadBps)
    );
    assert_eq!(
        update_config(&mut cfg, &admin(), false, u16::MAX, 1, 1, 1, 1, 1, 1, 1, u16::MAX),
        Err(ErrorCode::BadBps)
    );
    assert_eq!(cfg, initial());
}

#[test]
fn update_keeps_a_configuration_within_its_limits() {
    // A first configuration may lie beyond the limits; an update never leaves it there.
    let (mut cfg, _) = initialize_config(admin(), 9000, 1, 2, 3, 4, 5, 6, 7, 60_000);
    let before = cfg;
    assert_eq!(
        update_config(&mut cfg, &admin(), false, 9000, 1, 2, 3, 4, 5, 6, 7, 60_000),
        Err(ErrorCode::BadBps)
    );
    assert_eq!(cfg, before);
    update_config(&mut cfg, &admin(), false, 2500, 1, 2, 3, 4, 5, 6, 7, 4000).unwrap();
    assert!(cfg.global_cap_bps <= MAX_GLOBAL_CAP_BPS && cfg.fee_tier_5_bps <= MAX_FEE_TIER_5_BPS);
}

#[test]
fn update_by_a_stranger_is_refused() {
    let mut cfg = initial();
    let stranger = Pubkey::new([9; 32]);
    assert_eq!(
        update_config(&mut cfg, &stranger, true, 100, 1, 1, 1, 1, 1, 1, 1, 100),
        Err(ErrorCode::NotAuthorized)
    );
    assert_eq!(
        update_config(&mut cfg, &stranger, true, 9999, 1, 1, 1, 1, 1, 1, 1, 100),
        Err(ErrorCode::NotAuthorized)
    );
    assert_eq!(cfg, initial());
}

#[test]
fn new_market_is_empty() {
    let (market, event) = create_market(&initial(), &accounts(), 2, 1000, 7000, 2000, 1000, 9, 1234).unwrap();
    assert_eq!(
        market,
        Market {
            creator: Pubkey::new([2; 32]),
            token_mint: Pubkey::new([3; 32]),
            exit_reserve: Pubkey::new([4; 32]),
            treasury: Pubkey::new([5; 32]),
            creator_stream: Pubkey::new([6; 32]),
            curve_a: 2,
            curve_b: 1000,
            reserve_bps: 7000,
            platform_bps: 2000,
            creator_bps: 1000,
            supply: 0,
            global_window_start_ts: 1234,
            global_sold_in_window_lamports: 0,
            season_id: 9,
            created_at_ts: 1234,
        }
    );
    assert_eq!(
        event,
        MarketCreated {
            market: Pubkey::new([7; 32]),
            creator: Pubkey::new([2; 32]),
            token_mint: Pubkey::new([3; 32]),
            curve_a: 2,
            curve_b: 1000,
            season_id: 9,
        }
    );
}

#[test]
fn new_market_needs_shares_that_add_up() {
    assert_eq!(
        create_market(&initial(), &accounts(), 2, 1000, 7000, 2000, 999, 9, 1234),
        Err(ErrorCode::BadBps)
    );
    assert_eq!(
        create_market(&initial(), &accounts(), 2, 1000, 7000, 2000, 1001, 9, 1234),
        Err(ErrorCode::BadBps)
    );
    assert_eq!(
        create_market(&initial(), &accounts(), 2, 1000, u16::MAX, u16::MAX, u16::MAX, 9, 1234),
        Err(ErrorCode::BadBps)
    );
    assert!(create_market(&initial(), &accounts(), 2, 1000, 0, 0, 10_000, 9, 1234).is_ok());
}

#[test]
fn new_market_while_paused_is_refused() {
    let mut cfg = initial();
    cfg.paused = true;
    assert_eq!(
        create_market(&cfg, &accounts(), 2, 1000, 7000, 2000, 1000, 9, 1234),
        Err(ErrorCode::Paused)
    );
    // The split is looked at first.
    assert_eq!(
        create_market(&cfg, &accounts(), 2, 1000, 7000, 2000, 0, 9, 1234),
        Err(ErrorCode::BadBps)
    );
}
