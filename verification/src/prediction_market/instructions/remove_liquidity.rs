//! Withdrawing liquidity from a market's pools.
use vstd::prelude::*;
use crate::prediction_market::amm::constant_product::{calculate_lp_withdrawal, lemma_proportional_part};
use crate::prediction_market::constants::FP_SCALE;
use crate::prediction_market::errors::PredictionMarketError;
use crate::prediction_market::state::liquidity::LiquidityPosition;
use crate::prediction_market::state::market::{Currency, Market, MarketStatus};

verus! {

/// What a withdrawal pays out.
#[derive(Clone, Copy, Debug)]
pub struct Withdrawal {
    /// YES side paid out, its share of the fees included.
    pub yes_amount: u64,
    /// NO side paid out, its share of the fees included.
    pub no_amount: u64,
    /// The provider fees this withdrawal collects.
    pub fees_earned: u64,
}

/// The pool parts and fee share of burning `lp` shares.
pub open spec fn withdrawal_parts(m: Market, lp: u64) -> (int, int, int) {
    (
        (lp * m.yes_pool) / (m.total_liquidity as int),
        (lp * m.no_pool) / (m.total_liquidity as int),
        (lp * m.lp_fees) / (m.total_liquidity as int),
    )
}

/// The first check a withdrawal fails, in order.
pub open spec fn remove_failure(
    m: Market,
    l: LiquidityPosition,
    lp_shares: u64,
    min_yes_out: u64,
    min_no_out: u64,
) -> Option<PredictionMarketError> {
    let (y, n, f) = withdrawal_parts(m, lp_shares);
    let ty = y + f / 2;
    let tn = n + f / 2;
    if m.status == MarketStatus::Locked {
        Some(PredictionMarketError::MarketLocked)
    } else if l.lp_shares < lp_shares {
        Some(PredictionMarketError::InsufficientLPShares)
    } else if lp_shares == 0 {
        Some(PredictionMarketError::AmountBelowMinimum)
    } else if m.total_liquidity == 0 {
        Some(PredictionMarketError::DivisionByZero)
    } else if lp_shares > m.total_liquidity {
        Some(PredictionMarketError::InvalidLPShares)
    } else if y < min_yes_out || n < min_no_out {
        Some(PredictionMarketError::SlippageExceeded)
    } else if ty > u64::MAX || tn > u64::MAX {
        Some(PredictionMarketError::MathOverflow)
    } else if m.currency == Currency::SOL && ty + tn > u64::MAX {
        Some(PredictionMarketError::MathOverflow)
    } else if m.yes_pool < ty || m.no_pool < tn {
        Some(PredictionMarketError::InsufficientLiquidity)
    } else if l.fees_earned + f > u64::MAX {
        Some(PredictionMarketError::MathOverflow)
    } else {
        None
    }
}

/// The market after a withdrawal that passed every check.
pub open spec fn market_after_remove(m: Market, lp_shares: u64) -> Market {
    let (y, n, f) = withdrawal_parts(m, lp_shares);
    let yes = (m.yes_pool - (y + f / 2)) as u64;
    let no = (m.no_pool - (n + f / 2)) as u64;
    Market {
        yes_pool: yes,
        no_pool: no,
        total_liquidity: (m.total_liquidity - lp_shares) as u64,
        k_last: (yes * no) as u128,
        lp_fees: (m.lp_fees - f) as u64,
        ..m
    }
}

/// The smaller of two amounts.
pub open spec fn min_u64(a: u64, b: u64) -> u64 {
    if a < b {
        a
    } else {
        b
    }
}

/// The liquidity position after a withdrawal that passed every check.
pub open spec fn position_after_remove(m: Market, l: LiquidityPosition, lp_shares: u64, now: i64) -> LiquidityPosition {
    let (y, n, f) = withdrawal_parts(m, lp_shares);
    let remaining = (l.lp_shares - lp_shares) as u64;
    LiquidityPosition {
        lp_shares: remaining,
        yes_deposited: (l.yes_deposited - min_u64(y as u64, l.yes_deposited)) as u64,
        no_deposited: (l.no_deposited - min_u64(n as u64, l.no_deposited)) as u64,
        fees_earned: (l.fees_earned + f) as u64,
        last_fee_collection: now,
        withdrawn: if remaining == 0 {
            true
        } else {
            l.withdrawn
        },
        withdrawn_at: if remaining == 0 {
            Some(now)
        } else {
            l.withdrawn_at
        },
        ..l
    }
}

/// Burns liquidity shares: pays the same fraction of each pool plus half the
/// collected provider fees to each side, and updates the provider's position.
/// The currency itself is moved by the caller. On failure nothing changes.
pub fn handler(
    market: &mut Market,
    liquidity_position: &mut LiquidityPosition,
    now: i64,
    lp_shares: u64,
    min_yes_out: u64,
    min_no_out: u64,
) -> (r: Result<Withdrawal, PredictionMarketError>)
    ensures
        match remove_failure(*old(market), *old(liquidity_position), lp_shares, min_yes_out, min_no_out) {
            Some(e) => r == Err::<Withdrawal, _>(e) && *final(market) == *old(market)
                && *final(liquidity_position) == *old(liquidity_position),
            None => ({
                let (y, n, f) = withdrawal_parts(*old(market), lp_shares);
                &&& r == Ok::<Withdrawal, PredictionMarketError>(
                    Withdrawal {
                        yes_amount: (y + f / 2) as u64,
                        no_amount: (n + f / 2) as u64,
                        fees_earned: f as u64,
                    },
                )
                &&& *final(market) == market_after_remove(*old(market), lp_shares)
                &&& *final(liquidity_position) == position_after_remove(
                    *old(market),
                    *old(liquidity_position),
                    lp_shares,
                    now,
                )
            }),
        },
{
    if market.status == MarketStatus::Locked {
        return Err(PredictionMarketError::MarketLocked);
    }
    if liquidity_position.lp_shares < lp_shares {
        return Err(PredictionMarketError::InsufficientLPShares);
    }
    if lp_shares == 0 {
        return Err(PredictionMarketError::AmountBelowMinimum);
    }
    let (yes_amount, no_amount, fees_earned) = match calculate_lp_withdrawal(
        lp_shares,
        market.yes_pool,
        market.no_pool,
        market.total_liquidity,
        market.lp_fees,
    ) {
        Ok(q) => q,
        Err(e) => {
            return Err(e);
        },
    };
    proof {
        lemma_proportional_part(lp_shares as int, market.yes_pool as int, market.total_liquidity as int);
        lemma_proportional_part(lp_shares as int, market.no_pool as int, market.total_liquidity as int);
        lemma_proportional_part(lp_shares as int, market.lp_fees as int, market.total_liquidity as int);
    }
    if yes_amount < min_yes_out {
        return Err(PredictionMarketError::SlippageExceeded);
    }
    if no_amount < min_no_out {
        return Err(PredictionMarketError::SlippageExceeded);
    }
    let total_yes_out = match yes_amount.checked_add(fees_earned / 2) {
        Some(v) => v,
        None => {
            return Err(PredictionMarketError::MathOverflow);
        },
    };
    let total_no_out = match no_amount.checked_add(fees_earned / 2) {
        Some(v) => v,
        None => {
            return Err(PredictionMarketError::MathOverflow);
        },
    };
    if market.currency == Currency::SOL {
        match total_yes_out.checked_add(total_no_out) {
            Some(_) => {},
            None => {
                return Err(PredictionMarketError::MathOverflow);
            },
        }
    }
    let mut m = *market;
    m.yes_pool = match m.yes_pool.checked_sub(total_yes_out) {
        Some(v) => v,
        None => {
            return Err(PredictionMarketError::InsufficientLiquidity);
        },
    };
    m.no_pool = match m.no_pool.checked_sub(total_no_out) {
        Some(v) => v,
        None => {
            return Err(PredictionMarketError::InsufficientLiquidity);
        },
    };
    m.total_liquidity = m.total_liquidity - lp_shares;
    proof {
        crate::prediction_market::amm::constant_product::lemma_mul_bounds(
            m.yes_pool as int,
            m.no_pool as int,
            u64::MAX as int,
            u64::MAX as int,
        );
    }
    m.k_last = (m.yes_pool as u128) * (m.no_pool as u128);
    m.lp_fees = m.lp_fees - fees_earned;

    let mut l = *liquidity_position;
    l.lp_shares = l.lp_shares - lp_shares;
    let yes_taken = if yes_amount < l.yes_deposited {
        yes_amount
    } else {
        l.yes_deposited
    };
    l.yes_deposited = l.yes_deposited - yes_taken;
    let no_taken = if no_amount < l.no_deposited {
        no_amount
    } else {
        l.no_deposited
    };
    l.no_deposited = l.no_deposited - no_taken;
    l.fees_earned = match l.fees_earned.checked_add(fees_earned) {
        Some(v) => v,
        None => {
            return Err(PredictionMarketError::MathOverflow);
        },
    };
    l.last_fee_collection = now;
    if l.lp_shares == 0 {
        l.withdrawn = true;
        l.withdrawn_at = Some(now);
    }
    *market = m;
    *liquidity_position = l;
    Ok(Withdrawal { yes_amount: total_yes_out, no_amount: total_no_out, fees_earned })
}

/// A provider's share of the accumulated provider fees, less what it has
/// already collected; nothing while no liquidity is issued.
fn calculate_lp_fees(
    lp_shares: u64,
    total_liquidity: u64,
    total_lp_fees: u64,
    already_collected: u64,
) -> (r: Result<u64, PredictionMarketError>)
    ensures
        total_liquidity == 0 ==> r == Ok::<u64, PredictionMarketError>(0),
        total_liquidity > 0 ==> ({
            let share = (lp_shares * FP_SCALE) / (total_liquidity as int);
            let entitled = ((total_lp_fees * share) / (FP_SCALE as int)) as u64;
            &&& total_lp_fees * share > u128::MAX ==> r == Err::<u64, _>(PredictionMarketError::MathOverflow)
            &&& total_lp_fees * share <= u128::MAX && entitled < already_collected ==> r == Err::<u64, _>(
                PredictionMarketError::MathOverflow,
            )
            &&& total_lp_fees * share <= u128::MAX && entitled >= already_collected ==> r == Ok::<
                u64,
                PredictionMarketError,
            >((entitled - already_collected) as u64)
        }),
{
    if total_liquidity == 0 {
        return Ok(0);
    }
    assert(lp_shares * FP_SCALE <= u64::MAX * 1_000_000);
    let share_percentage: u128 = (lp_shares as u128) * FP_SCALE / (total_liquidity as u128);
    let product: u128 = match (total_lp_fees as u128).checked_mul(share_percentage) {
        Some(v) => v,
        None => {
            return Err(PredictionMarketError::MathOverflow);
        },
    };
    let entitled_fees: u64 = (product / FP_SCALE) as u64;
    match entitled_fees.checked_sub(already_collected) {
        Some(v) => Ok(v),
        None => Err(PredictionMarketError::MathOverflow),
    }
}

/// Withdrawing every share of a pool pays out every unit of both pools'
/// proportional parts: the parts of the whole supply are the whole reserves.
pub proof fn law_full_withdrawal_takes_whole_pool(m: Market)
    requires
        m.total_liquidity > 0,
    ensures
        withdrawal_parts(m, m.total_liquidity) == (m.yes_pool as int, m.no_pool as int, m.lp_fees as int),
{
    lemma_proportional_part(m.total_liquidity as int, m.yes_pool as int, m.total_liquidity as int);
    lemma_proportional_part(m.total_liquidity as int, m.no_pool as int, m.total_liquidity as int);
    lemma_proportional_part(m.total_liquidity as int, m.lp_fees as int, m.total_liquidity as int);
}

} // verus!
