//! Buying YES or NO shares from the pool.
use vstd::prelude::*;
use crate::prediction_market::amm::constant_product::{
    calculate_shares_out, check_slippage, curve_out, price_impact_bps, slippage_bps, trade_fee,
};
use crate::prediction_market::constants::{
    LP_FEE_BPS, MAX_SLIPPAGE_BPS, MIN_TRADE_AMOUNT, PROTOCOL_FEE_BPS, TRADING_FEE_BPS,
};
use crate::prediction_market::errors::PredictionMarketError;
use crate::prediction_market::state::market::{Market, MarketStatus};
use crate::prediction_market::state::position::Position;
use crate::pubkey::{is_zero_key, Pubkey};

verus! {

/// The price a trade got.
#[derive(Clone, Copy, Debug)]
pub struct TradeQuote {
    /// Shares (or currency, for a sale) the trader receives.
    pub amount_out: u64,
    /// Price impact in basis points.
    pub price_impact_bps: u16,
    /// Fee charged.
    pub fee_amount: u64,
}

/// A trade's request.
#[derive(Clone, Copy, Debug)]
pub struct TradeRequest {
    /// Currency paid in (buy) or shares sold (sell).
    pub amount: u64,
    /// Side traded: YES when true.
    pub is_yes: bool,
    /// Smallest output the trader accepts; the slippage check is measured
    /// against it.
    pub min_out: u64,
    /// Slippage tolerance in basis points.
    pub max_slippage_bps: u16,
}

/// Who trades, when, and where the position account lives.
#[derive(Clone, Copy, Debug)]
pub struct TradeContext {
    pub market_key: Pubkey,
    pub trader: Pubkey,
    pub now: i64,
    pub position_bump: u8,
}

/// A new, empty position.
pub open spec fn fresh_position(c: TradeContext) -> Position {
    Position {
        market: c.market_key,
        owner: c.trader,
        yes_shares: 0,
        no_shares: 0,
        avg_yes_entry_price: 0,
        avg_no_entry_price: 0,
        total_invested: 0,
        realized_pnl: 0,
        trade_count: 0,
        created_at: c.now,
        last_trade_at: c.now,
        claimed: false,
        payout_amount: 0,
        bump: c.position_bump,
    }
}

/// The position a buy works on: a fresh one when the account has no owner yet.
pub open spec fn position_for(p: Position, c: TradeContext) -> Position {
    if is_zero_key(p.owner) {
        fresh_position(c)
    } else {
        p
    }
}

/// The pool paid into and the pool shares come out of.
pub open spec fn buy_pools(m: Market, is_yes: bool) -> (int, int) {
    if is_yes {
        (m.yes_pool as int, m.no_pool as int)
    } else {
        (m.no_pool as int, m.yes_pool as int)
    }
}

/// The liquidity-provider, protocol and creator parts of a fee, in the
/// proportions 30 : 5 : 5 of the 40 basis point fee; the creator gets the rest.
pub open spec fn fee_split(fee: int) -> (int, int, int) {
    let lp = (fee * LP_FEE_BPS) / (TRADING_FEE_BPS as int);
    let protocol = (fee * PROTOCOL_FEE_BPS) / (TRADING_FEE_BPS as int);
    (lp, protocol, fee - lp - protocol)
}

/// The quote a buy gets from the pools.
pub open spec fn buy_quote(m: Market, req: TradeRequest) -> TradeQuote {
    let (rin, rout) = buy_pools(m, req.is_yes);
    let fee = trade_fee(req.amount as int, m.fee_bps as int);
    let net = req.amount - fee;
    TradeQuote {
        amount_out: curve_out(net, rin, rout) as u64,
        price_impact_bps: price_impact_bps(net, rin) as u16,
        fee_amount: fee as u64,
    }
}

/// Why the slippage protection refuses a trade, if it does: the tolerance
/// is above the market cap, the output falls short of the expected one by
/// more than the tolerance, or it is below the minimum the trader accepts.
pub open spec fn slippage_failure(expected: int, actual: int, max_bps: int) -> Option<PredictionMarketError> {
    if max_bps > MAX_SLIPPAGE_BPS {
        Some(PredictionMarketError::InvalidSlippage)
    } else if expected > 0 && slippage_bps(expected, actual) > max_bps {
        Some(PredictionMarketError::SlippageExceeded)
    } else if actual < expected {
        Some(PredictionMarketError::SlippageExceeded)
    } else {
        None
    }
}

/// The first check a buy fails before it prices the position's entry, in the
/// order they are made.
pub open spec fn buy_failure_before_entry(m: Market, p: Position, c: TradeContext, req: TradeRequest) -> Option<
    PredictionMarketError,
> {
    let (rin, rout) = buy_pools(m, req.is_yes);
    let q = buy_quote(m, req);
    let (lp, protocol, creator) = fee_split(q.fee_amount as int);
    let p0 = position_for(p, c);
    let side = if req.is_yes {
        p0.yes_shares
    } else {
        p0.no_shares
    };
    if m.status != MarketStatus::Open {
        Some(PredictionMarketError::MarketLocked)
    } else if c.now >= m.betting_end_time {
        Some(PredictionMarketError::BettingEnded)
    } else if req.amount < MIN_TRADE_AMOUNT {
        Some(PredictionMarketError::AmountBelowMinimum)
    } else if rin == 0 || rout == 0 {
        Some(PredictionMarketError::InsufficientLiquidity)
    } else if trade_fee(req.amount as int, m.fee_bps as int) > req.amount {
        Some(PredictionMarketError::MathOverflow)
    } else if slippage_failure(req.min_out as int, q.amount_out as int, req.max_slippage_bps as int) is Some {
        slippage_failure(req.min_out as int, q.amount_out as int, req.max_slippage_bps as int)
    } else if rin + req.amount > u64::MAX {
        Some(PredictionMarketError::MathOverflow)
    } else if m.lp_fees + lp > u64::MAX || m.protocol_fees + protocol > u64::MAX || m.creator_fees
        + creator > u64::MAX || m.total_fees_collected + q.fee_amount > u64::MAX || m.total_volume
        + req.amount > u64::MAX {
        Some(PredictionMarketError::MathOverflow)
    } else if side + q.amount_out > u64::MAX {
        Some(PredictionMarketError::MathOverflow)
    } else {
        None
    }
}

/// The refusal a buy meets before it prices the position's entry, if any:
/// the checks of the handler, in its order, run without changing anything.
pub fn buy_refusal(market: &Market, position: &Position, c: TradeContext, req: TradeRequest) -> (r: Option<
    PredictionMarketError,
>)
    ensures
        r == buy_failure_before_entry(*market, *position, c, req),
{
    if market.status != MarketStatus::Open {
        return Some(PredictionMarketError::MarketLocked);
    }
    if !(c.now < market.betting_end_time) {
        return Some(PredictionMarketError::BettingEnded);
    }
    if req.amount < MIN_TRADE_AMOUNT {
        return Some(PredictionMarketError::AmountBelowMinimum);
    }
    let (reserve_in, reserve_out) = if req.is_yes {
        (market.yes_pool, market.no_pool)
    } else {
        (market.no_pool, market.yes_pool)
    };
    let (shares_out, _price_impact, fee_amount) = match calculate_shares_out(
        req.amount,
        reserve_in,
        reserve_out,
        market.fee_bps,
    ) {
        Ok(q) => q,
        Err(e) => {
            return Some(e);
        },
    };
    match check_slippage(req.min_out, shares_out, req.max_slippage_bps) {
        Ok(()) => {},
        Err(e) => {
            return Some(e);
        },
    }
    if shares_out < req.min_out {
        return Some(PredictionMarketError::SlippageExceeded);
    }
    proof {
        lemma_fee_split(fee_amount as int);
    }
    if reserve_in.checked_add(req.amount).is_none() {
        return Some(PredictionMarketError::MathOverflow);
    }
    let lp_fee: u128 = (fee_amount as u128 * LP_FEE_BPS as u128) / TRADING_FEE_BPS as u128;
    let protocol_fee: u128 = (fee_amount as u128 * PROTOCOL_FEE_BPS as u128) / TRADING_FEE_BPS as u128;
    let creator_fee: u128 = fee_amount as u128 - lp_fee - protocol_fee;
    if market.lp_fees.checked_add(lp_fee as u64).is_none() || market.protocol_fees.checked_add(
        protocol_fee as u64,
    ).is_none() || market.creator_fees.checked_add(creator_fee as u64).is_none()
        || market.total_fees_collected.checked_add(fee_amount).is_none() || market.total_volume.checked_add(
        req.amount,
    ).is_none() {
        return Some(PredictionMarketError::MathOverflow);
    }
    let side: u64 = if position.owner.is_default() {
        0
    } else if req.is_yes {
        position.yes_shares
    } else {
        position.no_shares
    };
    if side.checked_add(shares_out).is_none() {
        return Some(PredictionMarketError::MathOverflow);
    }
    None
}

/// Whether the position's new average entry price can be worked out: the
/// weighted sum fits in 128 bits, or, for a first buy, some shares come out.
pub fn entry_price_ok(position: &Position, c: TradeContext, market: &Market, req: TradeRequest) -> (b: bool)
    requires
        buy_failure_before_entry(*market, *position, c, req) is None,
    ensures
        b == entry_price_computable(*position, c, *market, req),
{
    let (old_shares, old_price): (u64, u64) = if position.owner.is_default() {
        (0, 0)
    } else if req.is_yes {
        (position.yes_shares, position.avg_yes_entry_price)
    } else {
        (position.no_shares, position.avg_no_entry_price)
    };
    if old_shares > 0 {
        proof {
            crate::prediction_market::amm::constant_product::lemma_mul_bounds(
                old_shares as int,
                old_price as int,
                u64::MAX as int,
                u64::MAX as int,
            );
        }
        let weighted: u128 = old_shares as u128 * old_price as u128;
        weighted.checked_add(req.amount as u128 * 10000).is_some()
    } else {
        let (reserve_in, reserve_out) = if req.is_yes {
            (market.yes_pool, market.no_pool)
        } else {
            (market.no_pool, market.yes_pool)
        };
        match calculate_shares_out(req.amount, reserve_in, reserve_out, market.fee_bps) {
            Ok((shares_out, _, _)) => shares_out > 0,
            Err(_) => false,
        }
    }
}

/// The first check a buy fails, in the order they are made.
pub open spec fn buy_failure(m: Market, p: Position, c: TradeContext, req: TradeRequest) -> Option<
    PredictionMarketError,
> {
    let p0 = position_for(p, c);
    if buy_failure_before_entry(m, p, c, req) is Some {
        buy_failure_before_entry(m, p, c, req)
    } else if p0.total_invested + req.amount > u64::MAX || p0.trade_count + 1 > u64::MAX {
        Some(PredictionMarketError::MathOverflow)
    } else {
        None
    }
}

/// The average entry price can be computed: a first buy receives shares, and
/// a later one keeps the weighted sum within 128 bits.
pub open spec fn entry_price_computable(p: Position, c: TradeContext, m: Market, req: TradeRequest) -> bool {
    let p0 = position_for(p, c);
    let (old_shares, old_price) = if req.is_yes {
        (p0.yes_shares, p0.avg_yes_entry_price)
    } else {
        (p0.no_shares, p0.avg_no_entry_price)
    };
    if old_shares > 0 {
        old_shares * old_price + req.amount * 10000 <= u128::MAX
    } else {
        buy_quote(m, req).amount_out > 0
    }
}

/// New average entry price: the shares-weighted mean of the old price and
/// this buy's price in basis points per share.
pub open spec fn new_entry_price(old_shares: int, old_price: int, amount: int, shares_out: int) -> int {
    if old_shares > 0 {
        ((old_shares * old_price + amount * 10000) / (old_shares + shares_out)) as u64 as int
    } else {
        ((amount * 10000) / shares_out) as u64 as int
    }
}

/// The market after a buy that passed every check.
pub open spec fn market_after_buy(m: Market, req: TradeRequest) -> Market {
    let q = buy_quote(m, req);
    let (lp, protocol, creator) = fee_split(q.fee_amount as int);
    let (yes, no) = if req.is_yes {
        ((m.yes_pool + req.amount) as u64, (m.no_pool - q.amount_out) as u64)
    } else {
        ((m.yes_pool - q.amount_out) as u64, (m.no_pool + req.amount) as u64)
    };
    Market {
        yes_pool: yes,
        no_pool: no,
        k_last: (yes * no) as u128,
        lp_fees: (m.lp_fees + lp) as u64,
        protocol_fees: (m.protocol_fees + protocol) as u64,
        creator_fees: (m.creator_fees + creator) as u64,
        total_fees_collected: (m.total_fees_collected + q.fee_amount) as u64,
        total_volume: (m.total_volume + req.amount) as u64,
        ..m
    }
}

/// The position after a buy that passed every check.
pub open spec fn position_after_buy(m: Market, p: Position, c: TradeContext, req: TradeRequest) -> Position {
    let q = buy_quote(m, req);
    let p0 = position_for(p, c);
    let p1 = if req.is_yes {
        Position {
            yes_shares: (p0.yes_shares + q.amount_out) as u64,
            avg_yes_entry_price: new_entry_price(
                p0.yes_shares as int,
                p0.avg_yes_entry_price as int,
                req.amount as int,
                q.amount_out as int,
            ) as u64,
            ..p0
        }
    } else {
        Position {
            no_shares: (p0.no_shares + q.amount_out) as u64,
            avg_no_entry_price: new_entry_price(
                p0.no_shares as int,
                p0.avg_no_entry_price as int,
                req.amount as int,
                q.amount_out as int,
            ) as u64,
            ..p0
        }
    };
    Position {
        total_invested: (p1.total_invested + req.amount) as u64,
        trade_count: (p1.trade_count + 1) as u64,
        last_trade_at: c.now,
        ..p1
    }
}

proof fn lemma_fee_split(fee: int)
    requires
        fee >= 0,
    ensures
        ({
            let (lp, protocol, creator) = fee_split(fee);
            0 <= lp <= fee && 0 <= protocol <= fee && 0 <= creator <= fee && lp + protocol + creator == fee
        }),
{
    let a = fee * 30;
    let b = fee * 5;
    assert(a == 30 * fee && b == 5 * fee);
    assert(a / 40 + b / 40 <= fee);
    assert(a / 40 >= 0 && b / 40 >= 0);
}

/// Buys shares of one side: the fee is taken from the payment, the rest moves
/// the curve, the fee is split among providers, protocol and creator, and the
/// position records the shares, its average entry price and the investment.
/// The currency itself is moved by the caller. On failure nothing changes.
pub fn handler(market: &mut Market, position: &mut Position, c: TradeContext, req: TradeRequest) -> (r:
    Result<TradeQuote, PredictionMarketError>)
    requires
        buy_failure_before_entry(*old(market), *old(position), c, req) is None ==> entry_price_computable(
            *old(position),
            c,
            *old(market),
            req,
        ),
    ensures
        match buy_failure(*old(market), *old(position), c, req) {
            Some(e) => r == Err::<TradeQuote, _>(e) && *final(market) == *old(market) && *final(position)
                == *old(position),
            None => r == Ok::<TradeQuote, PredictionMarketError>(buy_quote(*old(market), req))
                && *final(market) == market_after_buy(*old(market), req) && *final(position)
                == position_after_buy(*old(market), *old(position), c, req),
        },
{
    if market.status != MarketStatus::Open {
        return Err(PredictionMarketError::MarketLocked);
    }
    if !(c.now < market.betting_end_time) {
        return Err(PredictionMarketError::BettingEnded);
    }
    if req.amount < MIN_TRADE_AMOUNT {
        return Err(PredictionMarketError::AmountBelowMinimum);
    }
    let (reserve_in, reserve_out) = if req.is_yes {
        (market.yes_pool, market.no_pool)
    } else {
        (market.no_pool, market.yes_pool)
    };
    let (shares_out, price_impact, fee_amount) = match calculate_shares_out(
        req.amount,
        reserve_in,
        reserve_out,
        market.fee_bps,
    ) {
        Ok(q) => q,
        Err(e) => {
            return Err(e);
        },
    };
    match check_slippage(req.min_out, shares_out, req.max_slippage_bps) {
        Ok(()) => {},
        Err(e) => {
            return Err(e);
        },
    }
    if shares_out < req.min_out {
        return Err(PredictionMarketError::SlippageExceeded);
    }
    proof {
        crate::prediction_market::amm::constant_product::lemma_curve_out_keeps_product(
            (req.amount - fee_amount) as int,
            reserve_in as int,
            reserve_out as int,
        );
        lemma_fee_split(fee_amount as int);
    }
    let mut m = *market;
    if req.is_yes {
        m.yes_pool = match m.yes_pool.checked_add(req.amount) {
            Some(v) => v,
            None => {
                return Err(PredictionMarketError::MathOverflow);
            },
        };
        m.no_pool = m.no_pool - shares_out;
    } else {
        m.no_pool = match m.no_pool.checked_add(req.amount) {
            Some(v) => v,
            None => {
                return Err(PredictionMarketError::MathOverflow);
            },
        };
        m.yes_pool = m.yes_pool - shares_out;
    }
    proof {
        crate::prediction_market::amm::constant_product::lemma_mul_bounds(
            m.yes_pool as int,
            m.no_pool as int,
            u64::MAX as int,
            u64::MAX as int,
        );
    }
    m.k_last = (m.yes_pool as u128) * (m.no_pool as u128);

    // split the fee among providers, protocol and creator
    let lp_fee: u128 = (fee_amount as u128 * LP_FEE_BPS as u128) / TRADING_FEE_BPS as u128;
    let protocol_fee: u128 = (fee_amount as u128 * PROTOCOL_FEE_BPS as u128) / TRADING_FEE_BPS as u128;
    let creator_fee: u128 = fee_amount as u128 - lp_fee - protocol_fee;
    m.lp_fees = match m.lp_fees.checked_add(lp_fee as u64) {
        Some(v) => v,
        None => {
            return Err(PredictionMarketError::MathOverflow);
        },
    };
    m.protocol_fees = match m.protocol_fees.checked_add(protocol_fee as u64) {
        Some(v) => v,
        None => {
            return Err(PredictionMarketError::MathOverflow);
        },
    };
    m.creator_fees = match m.creator_fees.checked_add(creator_fee as u64) {
        Some(v) => v,
        None => {
            return Err(PredictionMarketError::MathOverflow);
        },
    };
    m.total_fees_collected = match m.total_fees_collected.checked_add(fee_amount) {
        Some(v) => v,
        None => {
            return Err(PredictionMarketError::MathOverflow);
        },
    };
    m.total_volume = match m.total_volume.checked_add(req.amount) {
        Some(v) => v,
        None => {
            return Err(PredictionMarketError::MathOverflow);
        },
    };

    let mut p = *position;
    if p.owner.is_default() {
        p = Position {
            market: c.market_key,
            owner: c.trader,
            yes_shares: 0,
            no_shares: 0,
            avg_yes_entry_price: 0,
            avg_no_entry_price: 0,
            total_invested: 0,
            realized_pnl: 0,
            trade_count: 0,
            created_at: c.now,
            last_trade_at: c.now,
            claimed: false,
            payout_amount: 0,
            bump: c.position_bump,
        };
    }
    if req.is_yes {
        let old_shares = p.yes_shares;
        let old_price = p.avg_yes_entry_price;
        p.yes_shares = match p.yes_shares.checked_add(shares_out) {
            Some(v) => v,
            None => {
                return Err(PredictionMarketError::MathOverflow);
            },
        };
        if old_shares > 0 {
            proof {
                crate::prediction_market::amm::constant_product::lemma_mul_bounds(
                    old_shares as int,
                    old_price as int,
                    u64::MAX as int,
                    u64::MAX as int,
                );
            }
            p.avg_yes_entry_price = ((old_shares as u128 * old_price as u128 + req.amount as u128 * 10000)
                / p.yes_shares as u128) as u64;
        } else {
            p.avg_yes_entry_price = (req.amount as u128 * 10000 / shares_out as u128) as u64;
        }
    } else {
        let old_shares = p.no_shares;
        let old_price = p.avg_no_entry_price;
        p.no_shares = match p.no_shares.checked_add(shares_out) {
            Some(v) => v,
            None => {
                return Err(PredictionMarketError::MathOverflow);
            },
        };
        if old_shares > 0 {
            proof {
                crate::prediction_market::amm::constant_product::lemma_mul_bounds(
                    old_shares as int,
                    old_price as int,
                    u64::MAX as int,
                    u64::MAX as int,
                );
            }
            p.avg_no_entry_price = ((old_shares as u128 * old_price as u128 + req.amount as u128 * 10000)
                / p.no_shares as u128) as u64;
        } else {
            p.avg_no_entry_price = (req.amount as u128 * 10000 / shares_out as u128) as u64;
        }
    }
    p.total_invested = match p.total_invested.checked_add(req.amount) {
        Some(v) => v,
        None => {
            return Err(PredictionMarketError::MathOverflow);
        },
    };
    p.trade_count = match p.trade_count.checked_add(1) {
        Some(v) => v,
        None => {
            return Err(PredictionMarketError::MathOverflow);
        },
    };
    p.last_trade_at = c.now;
    *market = m;
    *position = p;
    Ok(TradeQuote { amount_out: shares_out, price_impact_bps: price_impact, fee_amount })
}

/// A buy never lowers the constant product: the pools' product after the
/// trade is at least the product before.
pub proof fn law_buy_keeps_product(m: Market, req: TradeRequest, p: Position, c: TradeContext)
    requires
        buy_failure(m, p, c, req) is None,
    ensures
        market_after_buy(m, req).yes_pool * market_after_buy(m, req).no_pool >= m.yes_pool * m.no_pool,
        market_after_buy(m, req).k_last == market_after_buy(m, req).yes_pool * market_after_buy(m, req).no_pool,
{
    let (rin, rout) = buy_pools(m, req.is_yes);
    let fee = trade_fee(req.amount as int, m.fee_bps as int);
    let net = req.amount - fee;
    crate::prediction_market::amm::constant_product::lemma_curve_out_keeps_product(net, rin, rout);
    let out = curve_out(net, rin, rout);
    let m2 = market_after_buy(m, req);
    crate::prediction_market::amm::constant_product::lemma_mul_bounds(
        m2.yes_pool as int,
        m2.no_pool as int,
        u64::MAX as int,
        u64::MAX as int,
    );
    assert((rin + req.amount) * (rout - out) >= (rin + net) * (rout - out)) by (nonlinear_arith)
        requires
            req.amount >= net,
            rout - out >= 0,
    ;
    if req.is_yes {
        assert(m2.yes_pool * m2.no_pool == (rin + req.amount) * (rout - out));
        assert(m.yes_pool * m.no_pool == rin * rout);
    } else {
        assert(m2.yes_pool * m2.no_pool == (rout - out) * (rin + req.amount)) by (nonlinear_arith)
            requires
                m2.yes_pool == rout - out,
                m2.no_pool == rin + req.amount,
        ;
        assert((rout - out) * (rin + req.amount) == (rin + req.amount) * (rout - out)) by (nonlinear_arith);
        assert(m.yes_pool * m.no_pool == rout * rin);
        assert(rout * rin == rin * rout) by (nonlinear_arith);
    }
}

/// A buy's fee is split without loss: the three parts add up to the fee.
pub proof fn law_fee_split_is_exact(fee: u64)
    ensures
        ({
            let (lp, protocol, creator) = fee_split(fee as int);
            lp + protocol + creator == fee && lp == (fee * 30) / 40 && protocol == (fee * 5) / 40
        }),
{
    lemma_fee_split(fee as int);
}

} // verus!
