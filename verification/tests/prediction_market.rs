use battlechain::prediction_market::amm::constant_product::{
    calculate_amount_out, calculate_lp_shares, calculate_lp_withdrawal, calculate_shares_out, check_slippage,
    integer_sqrt,
};
use battlechain::prediction_market::constants::{
    CREATOR_FEE_BPS, DEFAULT_BETTING_PERIOD_SECONDS, FP_SCALE, LP_FEE_BPS, MAX_BETTING_PERIOD_SECONDS,
    MIN_BETTING_PERIOD_SECONDS, MIN_INITIAL_LIQUIDITY, MIN_TRADE_AMOUNT, PROTOCOL_FEE_BPS, TRADING_FEE_BPS,
};
use battlechain::prediction_market::state::liquidity::LiquidityPosition;
use battlechain::prediction_market::state::market::{Currency, Market, MarketStatus};
use battlechain::prediction_market::state::position::Position;
use battlechain::prediction_market::state::scheduled_match::{MatchStatus, ScheduledMatch};
use battlechain::pubkey::Pubkey;

#[test]
fn test_calculate_shares_out() {
    let (shares_out, price_impact, fee) = calculate_shares_out(10, 100, 100, 40).unwrap();
    assert_eq!(fee, 0);
    assert_eq!(shares_out, 9);
    assert!(price_impact < 1000);
}

#[test]
fn test_calculate_amount_out() {
    let (amount_out, _fee) = calculate_amount_out(9, 90, 110, 40).unwrap();
    assert!(amount_out >= 9 && amount_out <= 10);
}

#[test]
fn test_calculate_lp_shares_initial() {
    let (lp_shares, yes_actual, no_actual) = calculate_lp_shares(100, 100, 0, 0, 0).unwrap();
    assert_eq!(lp_shares, 100);
    assert_eq!(yes_actual, 100);
    assert_eq!(no_actual, 100);
}

#[test]
fn test_calculate_lp_shares_subsequent() {
    let (lp_shares, yes_actual, no_actual) = calculate_lp_shares(50, 50, 100, 100, 100).unwrap();
    assert_eq!(lp_shares, 50);
    assert_eq!(yes_actual, 50);
    assert_eq!(no_actual, 50);
}

#[test]
fn test_calculate_lp_withdrawal() {
    let (yes_amount, no_amount, fees) = calculate_lp_withdrawal(50, 150, 150, 150, 30).unwrap();
    assert_eq!(yes_amount, 50);
    assert_eq!(no_amount, 50);
    assert_eq!(fees, 10);
}

#[test]
fn test_slippage_check() {
    let result = check_slippage(100, 95, 1000);
    assert!(result.is_ok());
    let result = check_slippage(100, 85, 1000);
    assert!(result.is_err());
}

#[test]
fn test_integer_sqrt() {
    assert_eq!(integer_sqrt(0), 0);
    assert_eq!(integer_sqrt(1), 1);
    assert_eq!(integer_sqrt(4), 2);
    assert_eq!(integer_sqrt(9), 3);
    assert_eq!(integer_sqrt(16), 4);
    assert_eq!(integer_sqrt(100), 10);
    assert_eq!(integer_sqrt(10000), 100);
}

#[test]
fn test_price_impact_large_trade() {
    let (shares_out, price_impact, _) = calculate_shares_out(50, 100, 100, 40).unwrap();
    assert!(shares_out < 50);
    assert!(price_impact > 2000);
}

#[test]
fn test_fee_distribution() {
    assert_eq!(LP_FEE_BPS + PROTOCOL_FEE_BPS + CREATOR_FEE_BPS, TRADING_FEE_BPS);
}

#[test]
fn test_fp_scale() {
    let half: u128 = FP_SCALE / 2;
    assert_eq!(half, 500_000);
    let quarter: u128 = FP_SCALE / 4;
    assert_eq!(quarter, 250_000);
}

#[test]
fn test_min_amounts() {
    assert!(MIN_TRADE_AMOUNT > 0);
    assert!(MIN_INITIAL_LIQUIDITY >= MIN_TRADE_AMOUNT);
}

#[test]
fn test_betting_period_bounds() {
    assert!(MIN_BETTING_PERIOD_SECONDS < DEFAULT_BETTING_PERIOD_SECONDS);
    assert!(DEFAULT_BETTING_PERIOD_SECONDS < MAX_BETTING_PERIOD_SECONDS);
}

fn lp_position(entry_value: u64, fees_earned: u64) -> LiquidityPosition {
    LiquidityPosition {
        market: Pubkey::default(),
        provider: Pubkey::default(),
        lp_shares: 100,
        yes_deposited: 100,
        no_deposited: 100,
        entry_value,
        fees_earned,
        last_fee_collection: 0,
        deposited_at: 0,
        withdrawn_at: None,
        withdrawn: false,
        bump: 0,
    }
}

#[test]
fn test_impermanent_loss() {
    let lp_position = lp_position(200, 10);
    let il = lp_position.calculate_il(100, 100, 100);
    assert_eq!(il, 0);
    let il = lp_position.calculate_il(150, 50, 100);
    assert_eq!(il, 0);
    let il = lp_position.calculate_il(120, 30, 100);
    assert_eq!(il, -50);
}

#[test]
fn test_total_returns() {
    let lp_position = lp_position(200, 60);
    let returns = lp_position.total_returns(120, 30, 100);
    assert_eq!(returns, 10);
}

#[test]
fn test_currency_decimals() {
    assert_eq!(Currency::SOL.decimals(), 9);
    assert_eq!(Currency::USDC.decimals(), 6);
    assert_eq!(Currency::USDT.decimals(), 6);
}

fn market() -> Market {
    Market {
        market_id: 1,
        match_id: 1,
        scheduled_match: Pubkey::default(),
        yes_pool: 100,
        no_pool: 100,
        k_last: 10000,
        total_liquidity: 0,
        fee_bps: 40,
        total_volume: 0,
        total_fees_collected: 0,
        lp_fees: 0,
        protocol_fees: 0,
        creator_fees: 0,
        currency: Currency::SOL,
        vault: None,
        created_at: 0,
        betting_end_time: 1000,
        resolved_at: None,
        status: MarketStatus::Open,
        outcome: None,
        winner: None,
        battle: None,
        creator: Pubkey::default(),
        bump: 0,
    }
}

#[test]
fn test_market_prices() {
    let mut market = market();
    assert_eq!(market.yes_price_bps(), 5000);
    assert_eq!(market.no_price_bps(), 5000);
    market.yes_pool = 150;
    market.no_pool = 50;
    assert_eq!(market.yes_price_bps(), 7500);
    assert_eq!(market.no_price_bps(), 2500);
}

#[test]
fn test_market_status_checks() {
    let market = market();
    assert!(market.is_open());
    assert!(!market.is_resolved());
    assert!(market.is_betting_ended(1001));
    assert!(!market.is_betting_ended(999));
}

#[test]
fn test_position_value() {
    let position = Position {
        market: Pubkey::default(),
        owner: Pubkey::default(),
        yes_shares: 100,
        no_shares: 50,
        avg_yes_entry_price: 5000,
        avg_no_entry_price: 5000,
        total_invested: 150,
        realized_pnl: 0,
        trade_count: 2,
        created_at: 0,
        last_trade_at: 0,
        claimed: false,
        payout_amount: 0,
        bump: 0,
    };
    let value = position.current_value(6000, 4000);
    assert_eq!(value, 80);
    let pnl = position.unrealized_pnl(6000, 4000);
    assert_eq!(pnl, -70);
}

#[test]
fn test_can_claim() {
    let mut position = Position {
        market: Pubkey::default(),
        owner: Pubkey::default(),
        yes_shares: 100,
        no_shares: 0,
        avg_yes_entry_price: 5000,
        avg_no_entry_price: 0,
        total_invested: 100,
        realized_pnl: 0,
        trade_count: 1,
        created_at: 0,
        last_trade_at: 0,
        claimed: false,
        payout_amount: 0,
        bump: 0,
    };
    assert!(position.can_claim(Some(true)));
    assert!(!position.can_claim(Some(false)));
    assert!(!position.can_claim(None));
    position.claimed = true;
    assert!(!position.can_claim(Some(true)));
}

fn scheduled(created_at: i64, start: i64, end: i64, battle: i64) -> ScheduledMatch {
    ScheduledMatch {
        match_id: 1,
        player1: Pubkey::default(),
        player2: Pubkey::default(),
        game_reference: Pubkey::default(),
        is_external: false,
        external_result_id: None,
        market: Pubkey::default(),
        created_at,
        betting_start: start,
        betting_end: end,
        estimated_battle_time: battle,
        resolved_at: None,
        status: MatchStatus::Open,
        winner: None,
        creator: Pubkey::default(),
        title: String::from("Test Match"),
        metadata: String::from("{}"),
        bump: 0,
    }
}

#[test]
fn test_betting_status() {
    let scheduled_match = scheduled(0, 100, 200, 300);
    assert!(!scheduled_match.is_betting_open(50));
    assert!(scheduled_match.is_betting_open(150));
    assert!(!scheduled_match.is_betting_open(250));
    assert!(scheduled_match.is_betting_ended(250));
}

#[test]
fn test_can_resolve() {
    let mut scheduled_match = scheduled(0, 100, 200, 300);
    assert!(!scheduled_match.can_resolve(250));
    scheduled_match.status = MatchStatus::Locked;
    assert!(scheduled_match.can_resolve(250));
}

#[test]
fn test_time_calculations() {
    let scheduled_match = scheduled(100, 200, 300, 400);
    assert_eq!(scheduled_match.time_until_betting_ends(250), 50);
    assert_eq!(scheduled_match.time_until_betting_ends(350), 0);
    assert_eq!(scheduled_match.age(150), 50);
}

#[test]
fn integer_sqrt_at_the_top_of_the_range() {
    // The largest accepted input, one below u128::MAX: its root is 2^64 - 1.
    assert_eq!(integer_sqrt(u128::MAX - 1), u64::MAX as u128);
    assert_eq!(integer_sqrt(u128::MAX - 3), u64::MAX as u128);
}

#[test]
fn quote_round_trip_never_profits() {
    for &(amount, x, y) in [(10u64, 100u64, 100u64), (50, 100, 100), (7, 3, 1000), (1000, 10, 10)].iter() {
        let (s, _, _) = calculate_shares_out(amount, x, y, 40).unwrap();
        assert!(s < y);
        if let Ok((back, _)) = calculate_amount_out(s, y - s, x + amount, 40) {
            assert!(back <= amount);
        }
    }
}
