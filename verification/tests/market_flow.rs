use battlechain::prediction_market::errors::PredictionMarketError;
use battlechain::prediction_market::instructions::add_liquidity;
use battlechain::prediction_market::instructions::add_liquidity::LiquidityContext;
use battlechain::prediction_market::instructions::buy_shares;
use battlechain::prediction_market::instructions::buy_shares::{TradeContext, TradeRequest};
use battlechain::prediction_market::instructions::claim_winnings;
use battlechain::prediction_market::instructions::create_market;
use battlechain::prediction_market::instructions::remove_liquidity;
use battlechain::prediction_market::instructions::resolve_market;
use battlechain::prediction_market::instructions::scheduled_match::{
    cancel_match_handler, complete_match_handler, create_scheduled_match_handler, start_match_handler, NewMatch,
};
use battlechain::prediction_market::instructions::sell_shares;
use battlechain::prediction_market::state::liquidity::LiquidityPosition;
use battlechain::prediction_market::state::market::{Market, MarketStatus};
use battlechain::prediction_market::state::position::Position;
use battlechain::prediction_market::state::scheduled_match::{MatchStatus, ScheduledMatch};
use battlechain::pubkey::Pubkey;

const POOL: u64 = 1_000_000_000;
const TRADE: u64 = 10_000_000;

fn key(b: u8) -> Pubkey {
    Pubkey::new_from_array([b; 32])
}

fn new_match(start: i64, end: i64) -> NewMatch {
    NewMatch {
        match_id: 3,
        player1: key(1),
        player2: key(2),
        game_reference: key(30),
        is_external: false,
        betting_start: start,
        betting_end: end,
        estimated_battle_time: end + 100,
        title: String::from("Final"),
        description: String::from("{}"),
    }
}

fn scheduled() -> ScheduledMatch {
    create_scheduled_match_handler(new_match(100, 200), key(9), 50, 0).unwrap()
}

fn market() -> Market {
    create_market::handler(&scheduled(), key(31), key(9), 60, 0, 3, POOL, POOL).unwrap()
}

fn empty_position() -> Position {
    Position {
        market: Pubkey::default(),
        owner: Pubkey::default(),
        yes_shares: 0,
        no_shares: 0,
        avg_yes_entry_price: 0,
        avg_no_entry_price: 0,
        total_invested: 0,
        realized_pnl: 0,
        trade_count: 0,
        created_at: 0,
        last_trade_at: 0,
        claimed: false,
        payout_amount: 0,
        bump: 0,
    }
}

fn empty_lp() -> LiquidityPosition {
    LiquidityPosition {
        market: Pubkey::default(),
        provider: Pubkey::default(),
        lp_shares: 0,
        yes_deposited: 0,
        no_deposited: 0,
        entry_value: 0,
        fees_earned: 0,
        last_fee_collection: 0,
        deposited_at: 0,
        withdrawn_at: None,
        withdrawn: false,
        bump: 0,
    }
}

fn ctx(now: i64) -> TradeContext {
    TradeContext { market_key: key(31), trader: key(5), now, position_bump: 1 }
}

fn buy(amount: u64, is_yes: bool) -> TradeRequest {
    TradeRequest { amount, is_yes, min_out: 0, max_slippage_bps: 1000 }
}

#[test]
fn scheduling_rules() {
    assert_eq!(
        create_scheduled_match_handler(new_match(200, 200), key(9), 50, 0).err(),
        Some(PredictionMarketError::InvalidBettingPeriod)
    );
    assert_eq!(
        create_scheduled_match_handler(new_match(40, 200), key(9), 50, 0).err(),
        Some(PredictionMarketError::InvalidBettingPeriod)
    );
    let mut same = new_match(100, 200);
    same.player2 = key(1);
    assert_eq!(create_scheduled_match_handler(same, key(9), 50, 0).err(), Some(PredictionMarketError::InvalidAccount));
    let m = scheduled();
    assert_eq!(m.status, MatchStatus::Open);
    assert_eq!(m.metadata, "{}");
}

#[test]
fn match_life_cycle() {
    let mut m = scheduled();
    assert_eq!(start_match_handler(&mut m), Ok(()));
    assert_eq!(m.status, MatchStatus::Locked);
    assert_eq!(start_match_handler(&mut m), Err(PredictionMarketError::InvalidMatchStatus));
    assert!(complete_match_handler(&mut m, key(7), key(30), 300).is_err());
    assert_eq!(complete_match_handler(&mut m, key(2), key(30), 300), Ok(()));
    assert_eq!(m.status, MatchStatus::Resolved);
    assert_eq!(m.winner, Some(key(2)));
    assert_eq!(cancel_match_handler(&mut m), Err(PredictionMarketError::InvalidMatchStatus));
}

#[test]
fn market_opening_rules() {
    assert_eq!(
        create_market::handler(&scheduled(), key(31), key(9), 60, 0, 3, POOL - 1, POOL).err(),
        Some(PredictionMarketError::InsufficientLiquidity)
    );
    let mut locked = scheduled();
    locked.status = MatchStatus::Locked;
    assert_eq!(
        create_market::handler(&locked, key(31), key(9), 60, 0, 3, POOL, POOL).err(),
        Some(PredictionMarketError::InvalidMarketStatus)
    );
    let m = market();
    assert_eq!(m.k_last, (POOL as u128) * (POOL as u128));
    assert_eq!(m.betting_end_time, 200);
    assert_eq!(m.yes_price_bps() as u32 + m.no_price_bps() as u32, 10_000);
}

#[test]
fn buying_moves_the_pools() {
    let mut m = market();
    let mut p = empty_position();
    let q = buy_shares::handler(&mut m, &mut p, ctx(150), buy(TRADE, true)).unwrap();
    assert_eq!(q.fee_amount, 40_000);
    assert_eq!(q.amount_out, 9_861_776);
    assert_eq!(q.price_impact_bps, 98);
    assert_eq!(m.yes_pool, POOL + TRADE);
    assert_eq!(m.no_pool, POOL - 9_861_776);
    assert_eq!(m.k_last, (m.yes_pool as u128) * (m.no_pool as u128));
    assert!(m.k_last >= (POOL as u128) * (POOL as u128));
    assert_eq!((m.lp_fees, m.protocol_fees, m.creator_fees), (30_000, 5_000, 5_000));
    assert_eq!(p.owner, key(5));
    assert_eq!(p.yes_shares, 9_861_776);
    assert_eq!(p.avg_yes_entry_price, 10_140);
    assert_eq!(p.total_invested, TRADE);
    assert_eq!(p.trade_count, 1);
    assert!(m.yes_price_bps() > 5000);
}

#[test]
fn buying_rules() {
    let mut m = market();
    let mut p = empty_position();
    assert_eq!(
        buy_shares::handler(&mut m, &mut p, ctx(150), buy(TRADE - 1, true)).err(),
        Some(PredictionMarketError::AmountBelowMinimum)
    );
    assert_eq!(
        buy_shares::handler(&mut m, &mut p, ctx(200), buy(TRADE, true)).err(),
        Some(PredictionMarketError::BettingEnded)
    );
    let greedy = TradeRequest { amount: TRADE, is_yes: true, min_out: TRADE * 2, max_slippage_bps: 1000 };
    assert_eq!(
        buy_shares::handler(&mut m, &mut p, ctx(150), greedy).err(),
        Some(PredictionMarketError::SlippageExceeded)
    );
    let loose = TradeRequest { amount: TRADE, is_yes: true, min_out: 0, max_slippage_bps: 1001 };
    assert_eq!(buy_shares::handler(&mut m, &mut p, ctx(150), loose).err(), Some(PredictionMarketError::InvalidSlippage));
    assert_eq!(m.yes_pool, POOL);
    m.status = MarketStatus::Locked;
    assert_eq!(
        buy_shares::handler(&mut m, &mut p, ctx(150), buy(TRADE, true)).err(),
        Some(PredictionMarketError::MarketLocked)
    );
}

#[test]
fn selling_rules_and_proceeds() {
    let mut m = market();
    let mut p = empty_position();
    buy_shares::handler(&mut m, &mut p, ctx(150), buy(3 * TRADE, false)).unwrap();
    let held = p.no_shares;
    assert_eq!(held, 29_013_088);
    assert_eq!(
        sell_shares::handler(&mut m, &mut p, 150, buy(held + 1, false)).err(),
        Some(PredictionMarketError::InsufficientShares)
    );
    assert_eq!(
        sell_shares::handler(&mut m, &mut p, 200, buy(TRADE, false)).err(),
        Some(PredictionMarketError::BettingPeriodEnded)
    );
    let before = m;
    let q = sell_shares::handler(&mut m, &mut p, 160, buy(TRADE, false)).unwrap();
    assert_eq!(p.no_shares, held - TRADE);
    assert_eq!(m.no_pool, before.no_pool + TRADE);
    assert_eq!(m.yes_pool, before.yes_pool - q.amount_out);
    assert_eq!(p.realized_pnl, q.amount_out as i64);
    // The NO shares enter against the YES pool: 10_499_630 gross, less a 41_998 fee.
    assert_eq!(q.fee_amount, 41_998);
    assert_eq!(q.amount_out, 10_457_632);
}

#[test]
fn liquidity_in_and_out() {
    let mut m = market();
    let mut l = empty_lp();
    let c = LiquidityContext { market_key: key(31), provider: key(6), now: 100, position_bump: 2 };
    assert_eq!(
        add_liquidity::handler(&mut m, &mut l, c, POOL - 1, POOL).err(),
        Some(PredictionMarketError::AmountBelowMinimum)
    );
    let d = add_liquidity::handler(&mut m, &mut l, c, POOL, POOL).unwrap();
    assert_eq!(d.lp_shares, POOL);
    assert_eq!(m.total_liquidity, POOL);
    assert_eq!(m.yes_pool, 2 * POOL);
    assert_eq!(l.lp_shares, POOL);
    assert_eq!(l.entry_value, 2 * POOL);
    assert_eq!(
        remove_liquidity::handler(&mut m, &mut l, 150, POOL + 1, 0, 0).err(),
        Some(PredictionMarketError::InsufficientLPShares)
    );
    assert_eq!(
        remove_liquidity::handler(&mut m, &mut l, 150, POOL, 3 * POOL, 0).err(),
        Some(PredictionMarketError::SlippageExceeded)
    );
    let w = remove_liquidity::handler(&mut m, &mut l, 150, POOL, 0, 0).unwrap();
    assert_eq!((w.yes_amount, w.no_amount, w.fees_earned), (2 * POOL, 2 * POOL, 0));
    assert_eq!(m.total_liquidity, 0);
    assert_eq!(l.lp_shares, 0);
}

#[test]
fn resolution_and_claims() {
    let mut m = market();
    let mut p = empty_position();
    buy_shares::handler(&mut m, &mut p, ctx(150), buy(TRADE, true)).unwrap();
    let mut sm = scheduled();
    assert_eq!(
        resolve_market::handler(&mut m, &sm, 199).err(),
        Some(PredictionMarketError::BettingPeriodNotEnded)
    );
    assert_eq!(resolve_market::handler(&mut m, &sm, 250).err(), Some(PredictionMarketError::MatchNotCompleted));
    sm.status = MatchStatus::Resolved;
    assert_eq!(resolve_market::handler(&mut m, &sm, 250).err(), Some(PredictionMarketError::NoWinnerSet));
    assert_eq!(claim_winnings::handler(&m, &mut p, 260).err(), Some(PredictionMarketError::MarketNotResolved));
    sm.winner = Some(key(1));
    let res = resolve_market::handler(&mut m, &sm, 250).unwrap();
    assert!(res.outcome);
    assert_eq!(m.status, MarketStatus::Resolved);
    assert_eq!(
        resolve_market::handler(&mut m, &sm, 251).err(),
        Some(PredictionMarketError::InvalidMarketStatus)
    );
    assert_eq!(
        resolve_market::cancel_market_handler(&mut m, &sm, 251).err(),
        Some(PredictionMarketError::MarketAlreadyResolved)
    );
    assert!(p.can_claim(m.outcome));
    let out = claim_winnings::handler(&m, &mut p, 260).unwrap();
    assert_eq!(out.payout, 9_861_776);
    assert_eq!(out.net_pnl, 9_861_776 - TRADE as i64);
    assert!(p.claimed);
    assert_eq!(claim_winnings::handler(&m, &mut p, 261).err(), Some(PredictionMarketError::AlreadyClaimed));
    let mut loser = empty_position();
    loser.no_shares = 5;
    assert_eq!(claim_winnings::handler(&m, &mut loser, 262).err(), Some(PredictionMarketError::NoWinningsToClaim));
    assert_eq!(
        claim_winnings::claim_refund_handler(&m, &mut loser, 262).err(),
        Some(PredictionMarketError::MarketNotCancelled)
    );
}

#[test]
fn cancellation_and_refunds() {
    let mut m = market();
    let mut p = empty_position();
    buy_shares::handler(&mut m, &mut p, ctx(150), buy(TRADE, false)).unwrap();
    let mut sm = scheduled();
    assert_eq!(
        resolve_market::cancel_market_handler(&mut m, &sm, 170).err(),
        Some(PredictionMarketError::InvalidMatchStatus)
    );
    assert_eq!(cancel_match_handler(&mut sm), Ok(()));
    assert_eq!(resolve_market::cancel_market_handler(&mut m, &sm, 170), Ok(()));
    assert_eq!(m.status, MarketStatus::Cancelled);
    assert_eq!(claim_winnings::claim_refund_handler(&m, &mut p, 180), Ok(TRADE));
    assert_eq!(p.payout_amount, TRADE);
    assert_eq!(
        claim_winnings::claim_refund_handler(&m, &mut p, 181).err(),
        Some(PredictionMarketError::AlreadyClaimed)
    );
    let mut idle = empty_position();
    assert_eq!(
        claim_winnings::claim_refund_handler(&m, &mut idle, 182).err(),
        Some(PredictionMarketError::NoRefundAvailable)
    );
    assert_eq!(resolve_market::handler(&mut m, &sm, 300).err(), Some(PredictionMarketError::InvalidMarketStatus));
}

#[test]
fn larger_trades_get_worse_prices() {
    let mut last = (0u64, 0u16);
    for amount in [TRADE, 5 * TRADE, 20 * TRADE, 100 * TRADE] {
        let (shares, impact, _) =
            battlechain::prediction_market::amm::constant_product::calculate_shares_out(amount, POOL, POOL, 40).unwrap();
        assert!(shares >= last.0);
        assert!(impact >= last.1);
        assert!(shares < amount);
        last = (shares, impact);
    }
}

#[test]
fn buy_below_the_minimum_is_refused() {
    let mut probe = market();
    let mut p = empty_position();
    let q = buy_shares::handler(&mut probe, &mut p, ctx(150), buy(TRADE, true)).unwrap();
    let shares = q.amount_out;
    // One share short of the minimum is well within the 10% tolerance, and
    // still refused.
    let mut m = market();
    let mut p = empty_position();
    let picky = TradeRequest { amount: TRADE, is_yes: true, min_out: shares + 1, max_slippage_bps: 1000 };
    assert_eq!(
        buy_shares::handler(&mut m, &mut p, ctx(150), picky).err(),
        Some(PredictionMarketError::SlippageExceeded)
    );
    assert_eq!(m.yes_pool, POOL);
    let exact = TradeRequest { amount: TRADE, is_yes: true, min_out: shares, max_slippage_bps: 1000 };
    assert_eq!(buy_shares::handler(&mut m, &mut p, ctx(150), exact).unwrap().amount_out, shares);
    assert!(p.yes_shares >= shares);
}

#[test]
fn selling_back_at_once_never_profits() {
    for &amount in [2 * TRADE, 5 * TRADE, 40 * TRADE].iter() {
        let mut m = market();
        let mut p = empty_position();
        let bought = buy_shares::handler(&mut m, &mut p, ctx(150), buy(amount, true)).unwrap();
        let sold = sell_shares::handler(&mut m, &mut p, 150, buy(bought.amount_out, true)).unwrap();
        assert!(sold.amount_out <= amount);
    }
}

#[test]
fn liquidity_leaves_after_resolution_not_while_locked() {
    let mut m = market();
    let mut l = empty_lp();
    let c = LiquidityContext { market_key: key(31), provider: key(6), now: 100, position_bump: 2 };
    add_liquidity::handler(&mut m, &mut l, c, POOL, POOL).unwrap();
    m.status = MarketStatus::Locked;
    assert_eq!(
        remove_liquidity::handler(&mut m, &mut l, 250, POOL, 0, 0).err(),
        Some(PredictionMarketError::MarketLocked)
    );
    m.status = MarketStatus::Resolved;
    let w = remove_liquidity::handler(&mut m, &mut l, 400, POOL, 0, 0).unwrap();
    assert_eq!((w.yes_amount, w.no_amount), (2 * POOL, 2 * POOL));
    assert_eq!(l.lp_shares, 0);
}

#[test]
fn refusals_come_before_the_entry_steps() {
    let mut m = market();
    let p = empty_position();
    assert_eq!(buy_shares::buy_refusal(&m, &p, ctx(150), buy(TRADE, true)), None);
    assert!(buy_shares::entry_price_ok(&p, ctx(150), &m, buy(TRADE, true)));
    assert_eq!(
        buy_shares::buy_refusal(&m, &p, ctx(200), buy(TRADE, true)),
        Some(PredictionMarketError::BettingEnded)
    );
    let greedy = TradeRequest { amount: TRADE, is_yes: true, min_out: TRADE * 2, max_slippage_bps: 1000 };
    assert_eq!(buy_shares::buy_refusal(&m, &p, ctx(150), greedy), Some(PredictionMarketError::SlippageExceeded));
    let l = empty_lp();
    let c = LiquidityContext { market_key: key(31), provider: key(6), now: 100, position_bump: 2 };
    assert_eq!(add_liquidity::add_refusal(&m, &l, c, POOL, POOL), None);
    assert!(add_liquidity::deposit_value_fits(&m, POOL, POOL));
    assert_eq!(
        add_liquidity::add_refusal(&m, &l, c, POOL - 1, POOL),
        Some(PredictionMarketError::AmountBelowMinimum)
    );
    m.status = MarketStatus::Locked;
    assert_eq!(buy_shares::buy_refusal(&m, &p, ctx(150), buy(TRADE, true)), Some(PredictionMarketError::MarketLocked));
    assert_eq!(add_liquidity::add_refusal(&m, &l, c, POOL, POOL), Some(PredictionMarketError::MarketLocked));
}
