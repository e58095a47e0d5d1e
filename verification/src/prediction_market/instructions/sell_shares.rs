//! Selling YES or NO shares back to the pool.
use vstd::prelude::*;
use crate::prediction_market::amm::constant_product::{
    calculate_amount_out, check_slippage, curve_out, law_buy_then_sell_never_profits, lemma_curve_out_keeps_product,
    trade_fee,
};
use crate::prediction_market::constants::{LP_FEE_BPS, MIN_TRADE_AMOUNT, PROTOCOL_FEE_BPS, TRADING_FEE_BPS};
use crate::prediction_market::errors::PredictionMarketError;
use crate::prediction_market::instructions::buy_shares::{
    buy_pools, buy_quote, fee_split, market_after_buy, slippage_failure, TradeQuote, TradeRequest,
};
use crate::prediction_market::state::market::{Market, MarketStatus};
use crate::prediction_market::state::position::Position;

verus! {

/// The pool the sold shares are priced into, and the pool the currency is
/// priced out of: for YES shares the NO pool and the YES pool.
pub open spec fn sell_pools(m: Market, is_yes: bool) -> (int, int) {
    if is_yes {
        (m.no_pool as int, m.yes_pool as int)
    } else {
        (m.yes_pool as int, m.no_pool as int)
    }
}

/// Currency out before the fee, for a sale.
pub open spec fn sell_gross(m: Market, req: TradeRequest) -> int {
    let (rin, rout) = sell_pools(m, req.is_yes);
    curve_out(req.amount as int, rin, rout)
}

/// The quote a sale gets: the fee comes off the curve's output; a sale reports
/// no price impact.
pub open spec fn sell_quote(m: Market, req: TradeRequest) -> TradeQuote {
    let gross = sell_gross(m, req);
    let fee = trade_fee(gross, m.fee_bps as int);
    TradeQuote { amount_out: (gross - fee) as u64, price_impact_bps: 0, fee_amount: fee as u64 }
}

/// The first check a sale fails, in the order they are made.
pub open spec fn sell_failure(m: Market, p: Position, now: i64, req: TradeRequest) -> Option<PredictionMarketError> {
    let (rin, rout) = sell_pools(m, req.is_yes);
    let held = if req.is_yes {
        p.yes_shares
    } else {
        p.no_shares
    };
    let gross = sell_gross(m, req);
    let q = sell_quote(m, req);
    let (lp, protocol, creator) = fee_split(q.fee_amount as int);
    if m.status != MarketStatus::Open {
        Some(PredictionMarketError::MarketLocked)
    } else if now >= m.betting_end_time {
        Some(PredictionMarketError::BettingPeriodEnded)
    } else if req.amount < MIN_TRADE_AMOUNT {
        Some(PredictionMarketError::AmountBelowMinimum)
    } else if held < req.amount {
        Some(PredictionMarketError::InsufficientShares)
    } else if rin == 0 || rout == 0 {
        Some(PredictionMarketError::InsufficientLiquidity)
    } else if trade_fee(gross, m.fee_bps as int) > gross {
        Some(PredictionMarketError::MathOverflow)
    } else if slippage_failure(req.min_out as int, q.amount_out as int, req.max_slippage_bps as int) is Some {
        slippage_failure(req.min_out as int, q.amount_out as int, req.max_slippage_bps as int)
    } else if q.amount_out > rout {
        Some(PredictionMarketError::InsufficientLiquidity)
    } else if req.is_yes && (m.yes_pool + req.amount > u64::MAX || m.no_pool < q.amount_out) {
        Some(PredictionMarketError::MathOverflow)
    } else if !req.is_yes && (m.no_pool + req.amount > u64::MAX || m.yes_pool < q.amount_out) {
        Some(PredictionMarketError::MathOverflow)
    } else if m.lp_fees + lp > u64::MAX || m.protocol_fees + protocol > u64::MAX || m.creator_fees
        + creator > u64::MAX || m.total_fees_collected + q.fee_amount > u64::MAX || m.total_volume
        + q.amount_out > u64::MAX {
        Some(PredictionMarketError::MathOverflow)
    } else if !(i64::MIN <= p.realized_pnl + (q.amount_out as i64) as int <= i64::MAX) {
        Some(PredictionMarketError::MathOverflow)
    } else {
        None
    }
}

/// The market after a sale that passed every check: the sold side's pool
/// takes the shares and the other pool pays the currency out.
pub open spec fn market_after_sell(m: Market, req: TradeRequest) -> Market {
    let q = sell_quote(m, req);
    let (lp, protocol, creator) = fee_split(q.fee_amount as int);
    let (yes, no) = if req.is_yes {
        ((m.yes_pool + req.amount) as u64, (m.no_pool - q.amount_out) as u64)
    } else {
        ((m.yes_pool - q.amount_out) as u64, (m.no_pool + req.amount) as u64)
    };
    Market {
        yes_pool: yes,
        no_pool: no,
        k_last: (yes * no) as u128,
        lp_fees: (m.lp_fees + lp) as u64,
        protocol_fees: (m.protocol_fees + protocol) as u64,
        creator_fees: (m.creator_fees + creator) as u64,
        total_fees_collected: (m.total_fees_collected + q.fee_amount) as u64,
        total_volume: (m.total_volume + q.amount_out) as u64,
        ..m
    }
}

/// The position after a sale that passed every check: fewer shares, and the
/// currency received booked as realized profit.
pub open spec fn position_after_sell(m: Market, p: Position, now: i64, req: TradeRequest) -> Position {
    let q = sell_quote(m, req);
    let p1 = if req.is_yes {
        Position { yes_shares: (p.yes_shares - req.amount) as u64, ..p }
    } else {
        Position { no_shares: (p.no_shares - req.amount) as u64, ..p }
    };
    Position { realized_pnl: (p.realized_pnl + (q.amount_out as i64) as int) as i64, last_trade_at: now, ..p1 }
}

/// Sells shares of one side back to the pool; the currency itself is moved by
/// the caller. On failure nothing changes.
pub fn handler(market: &mut Market, position: &mut Position, now: i64, req: TradeRequest) -> (r: Result<
    TradeQuote,
    PredictionMarketError,
>)
    ensures
        match sell_failure(*old(market), *old(position), now, req) {
            Some(e) => r == Err::<TradeQuote, _>(e) && *final(market) == *old(market) && *final(position)
                == *old(position),
            None => r == Ok::<TradeQuote, PredictionMarketError>(sell_quote(*old(market), req))
                && *final(market) == market_after_sell(*old(market), req) && *final(position)
                == position_after_sell(*old(market), *old(position), now, req),
        },
{
    if market.status != MarketStatus::Open {
        return Err(PredictionMarketError::MarketLocked);
    }
    if !(now < market.betting_end_time) {
        return Err(PredictionMarketError::BettingPeriodEnded);
    }
    if req.amount < MIN_TRADE_AMOUNT {
        return Err(PredictionMarketError::AmountBelowMinimum);
    }
    let user_shares = if req.is_yes {
        position.yes_shares
    } else {
        position.no_shares
    };
    if user_shares < req.amount {
        return Err(PredictionMarketError::InsufficientShares);
    }
    let (reserve_in, reserve_out) = if req.is_yes {
        (market.no_pool, market.yes_pool)
    } else {
        (market.yes_pool, market.no_pool)
    };
    let (amount_out, fee_amount) = match calculate_amount_out(req.amount, reserve_in, reserve_out, market.fee_bps) {
        Ok(q) => q,
        Err(e) => {
            return Err(e);
        },
    };
    let price_impact: u16 = 0;
    match check_slippage(req.min_out, amount_out, req.max_slippage_bps) {
        Ok(()) => {},
        Err(e) => {
            return Err(e);
        },
    }
    if amount_out < req.min_out {
        return Err(PredictionMarketError::SlippageExceeded);
    }
    if amount_out > reserve_out {
        return Err(PredictionMarketError::InsufficientLiquidity);
    }
    proof {
        crate::prediction_market::amm::constant_product::lemma_curve_out_keeps_product(
            req.amount as int,
            reserve_in as int,
            reserve_out as int,
        );
    }
    let mut m = *market;
    if req.is_yes {
        m.yes_pool = match m.yes_pool.checked_add(req.amount) {
            Some(v) => v,
            None => {
                return Err(PredictionMarketError::MathOverflow);
            },
        };
        m.no_pool = match m.no_pool.checked_sub(amount_out) {
            Some(v) => v,
            None => {
                return Err(PredictionMarketError::MathOverflow);
            },
        };
    } else {
        m.no_pool = match m.no_pool.checked_add(req.amount) {
            Some(v) => v,
            None => {
                return Err(PredictionMarketError::MathOverflow);
            },
        };
        m.yes_pool = match m.yes_pool.checked_sub(amount_out) {
            Some(v) => v,
            None => {
                return Err(PredictionMarketError::MathOverflow);
            },
        };
    }
    proof {
        crate::prediction_market::amm::constant_product::lemma_mul_bounds(
            m.yes_pool as int,
            m.no_pool as int,
            u64::MAX as int,
            u64::MAX as int,
        );
    }
    m.k_last = (m.yes_pool as u128) * (m.no_pool as u128);

    // split the fee among providers, protocol and creator
    let lp_fee: u64 = ((fee_amount as u128 * LP_FEE_BPS as u128) / TRADING_FEE_BPS as u128) as u64;
    let protocol_fee: u64 = ((fee_amount as u128 * PROTOCOL_FEE_BPS as u128) / TRADING_FEE_BPS as u128) as u64;
    assert(lp_fee + protocol_fee <= fee_amount) by {
        let a = fee_amount * 30;
        let b = fee_amount * 5;
        assert(a == 30 * fee_amount && b == 5 * fee_amount);
        assert(a / 40 + b / 40 <= fee_amount);
    }
    let creator_fee: u64 = fee_amount - lp_fee - protocol_fee;
    m.lp_fees = match m.lp_fees.checked_add(lp_fee) {
        Some(v) => v,
        None => {
            return Err(PredictionMarketError::MathOverflow);
        },
    };
    m.protocol_fees = match m.protocol_fees.checked_add(protocol_fee) {
        Some(v) => v,
        None => {
            return Err(PredictionMarketError::MathOverflow);
        },
    };
    m.creator_fees = match m.creator_fees.checked_add(creator_fee) {
        Some(v) => v,
        None => {
            return Err(PredictionMarketError::MathOverflow);
        },
    };
    m.total_fees_collected = match m.total_fees_collected.checked_add(fee_amount) {
        Some(v) => v,
        None => {
            return Err(PredictionMarketError::MathOverflow);
        },
    };
    m.total_volume = match m.total_volume.checked_add(amount_out) {
        Some(v) => v,
        None => {
            return Err(PredictionMarketError::MathOverflow);
        },
    };

    let mut p = *position;
    if req.is_yes {
        p.yes_shares = p.yes_shares - req.amount;
    } else {
        p.no_shares = p.no_shares - req.amount;
    }
    let sale_value = amount_out as i64;
    p.realized_pnl = match p.realized_pnl.checked_add(sale_value) {
        Some(v) => v,
        None => {
            return Err(PredictionMarketError::MathOverflow);
        },
    };
    p.last_trade_at = now;
    *market = m;
    *position = p;
    Ok(TradeQuote { amount_out, price_impact_bps: price_impact, fee_amount })
}

/// Selling straight back the shares a buy has just bought never returns
/// more currency than the buy paid (fees of at most 100%, both pools
/// non-empty, and the grown pool within 64 bits).
pub proof fn law_sell_back_never_profits(m: Market, req: TradeRequest)
    requires
        m.yes_pool > 0,
        m.no_pool > 0,
        m.fee_bps <= 10000,
        buy_pools(m, req.is_yes).0 + req.amount <= u64::MAX,
    ensures
        ({
            let back = TradeRequest { amount: buy_quote(m, req).amount_out, ..req };
            sell_quote(market_after_buy(m, req), back).amount_out <= req.amount
        }),
{
    let a = req.amount as int;
    let bps = m.fee_bps as int;
    assert(a * bps <= a * 10000) by (nonlinear_arith)
        requires
            0 <= a,
            0 <= bps <= 10000,
    ;
    vstd::arithmetic::div_mod::lemma_div_is_ordered(a * bps, a * 10000, 10000);
    vstd::arithmetic::div_mod::lemma_div_pos_is_pos(a * bps, 10000);
    assert((a * 10000) / 10000 == a) by (nonlinear_arith);
    let fee = trade_fee(a, bps);
    assert(0 <= fee <= a);
    let net = a - fee;
    let (rin, rout) = buy_pools(m, req.is_yes);
    lemma_curve_out_keeps_product(net, rin, rout);
    law_buy_then_sell_never_profits(net, a, rin, rout);
    let s = curve_out(net, rin, rout);
    let m2 = market_after_buy(m, req);
    let back = TradeRequest { amount: buy_quote(m, req).amount_out, ..req };
    assert(back.amount == s);
    let (sin, sout) = sell_pools(m2, back.is_yes);
    assert(sin == rout - s && sout == rin + a);
    lemma_curve_out_keeps_product(s, rout - s, rin + a);
    let gross = sell_gross(m2, back);
    assert(gross <= a);
    assert(gross * bps <= gross * 10000) by (nonlinear_arith)
        requires
            0 <= gross,
            0 <= bps <= 10000,
    ;
    vstd::arithmetic::div_mod::lemma_div_is_ordered(gross * bps, gross * 10000, 10000);
    vstd::arithmetic::div_mod::lemma_div_pos_is_pos(gross * bps, 10000);
    assert((gross * 10000) / 10000 == gross) by (nonlinear_arith);
}

} // verus!
