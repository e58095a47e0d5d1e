//! Depositing liquidity into a market's pools.
use vstd::prelude::*;
use crate::prediction_market::amm::constant_product::{
    calculate_lp_shares, lemma_is_spec_isqrt, lp_shares_for_deposit, spec_isqrt,
};
use crate::prediction_market::constants::MIN_INITIAL_LIQUIDITY;
use crate::prediction_market::errors::PredictionMarketError;
use crate::prediction_market::state::liquidity::LiquidityPosition;
use crate::prediction_market::state::market::{Currency, Market, MarketStatus};
use crate::pubkey::{is_zero_key, Pubkey};

verus! {

/// Who deposits, when, and where the liquidity position account lives.
#[derive(Clone, Copy, Debug)]
pub struct LiquidityContext {
    pub market_key: Pubkey,
    pub provider: Pubkey,
    pub now: i64,
    pub position_bump: u8,
}

/// What a deposit minted and took.
#[derive(Clone, Copy, Debug)]
pub struct Deposit {
    pub lp_shares: u64,
    pub yes_amount: u64,
    pub no_amount: u64,
}

/// The shares minted for a deposit and the amounts taken of each side.
pub open spec fn deposit_quote(m: Market, yes_amount: int, no_amount: int) -> (int, int, int) {
    if m.total_liquidity == 0 {
        (spec_isqrt(yes_amount * no_amount), yes_amount, no_amount)
    } else {
        let lp = lp_shares_for_deposit(yes_amount, no_amount, m.yes_pool as int, m.no_pool as int,
            m.total_liquidity as int);
        (
            lp,
            ((lp * m.yes_pool) / (m.total_liquidity as int)) as u64 as int,
            ((lp * m.no_pool) / (m.total_liquidity as int)) as u64 as int,
        )
    }
}

/// A new, empty liquidity position.
pub open spec fn fresh_liquidity_position(c: LiquidityContext) -> LiquidityPosition {
    LiquidityPosition {
        market: c.market_key,
        provider: c.provider,
        lp_shares: 0,
        yes_deposited: 0,
        no_deposited: 0,
        entry_value: 0,
        fees_earned: 0,
        last_fee_collection: c.now,
        deposited_at: c.now,
        withdrawn_at: None,
        withdrawn: false,
        bump: c.position_bump,
    }
}

/// The position a deposit works on: a fresh one when the account has no
/// provider yet.
pub open spec fn liquidity_position_for(l: LiquidityPosition, c: LiquidityContext) -> LiquidityPosition {
    if is_zero_key(l.provider) {
        fresh_liquidity_position(c)
    } else {
        l
    }
}

/// The first check a deposit fails before it values the entry, in order.
pub open spec fn add_failure_before_entry(
    m: Market,
    l: LiquidityPosition,
    c: LiquidityContext,
    yes_amount: u64,
    no_amount: u64,
) -> Option<PredictionMarketError> {
    let (lp, ya, na) = deposit_quote(m, yes_amount as int, no_amount as int);
    let l0 = liquidity_position_for(l, c);
    if m.status != MarketStatus::Open {
        Some(PredictionMarketError::MarketLocked)
    } else if yes_amount < MIN_INITIAL_LIQUIDITY || no_amount < MIN_INITIAL_LIQUIDITY {
        Some(PredictionMarketError::AmountBelowMinimum)
    } else if m.total_liquidity > 0 && (m.yes_pool == 0 || m.no_pool == 0) {
        Some(PredictionMarketError::InsufficientLiquidity)
    } else if m.total_liquidity > 0 && lp == 0 {
        Some(PredictionMarketError::LiquidityTooLow)
    } else if m.currency == Currency::SOL && ya + na > u64::MAX {
        Some(PredictionMarketError::MathOverflow)
    } else if m.yes_pool + ya > u64::MAX || m.no_pool + na > u64::MAX || m.total_liquidity + lp > u64::MAX {
        Some(PredictionMarketError::MathOverflow)
    } else if l0.lp_shares + lp > u64::MAX || l0.yes_deposited + ya > u64::MAX || l0.no_deposited + na
        > u64::MAX {
        Some(PredictionMarketError::MathOverflow)
    } else {
        None
    }
}

/// The refusal a deposit meets before it values the entry, if any: the
/// checks of the handler, in its order, run without changing anything.
pub fn add_refusal(
    market: &Market,
    liquidity_position: &LiquidityPosition,
    c: LiquidityContext,
    yes_amount: u64,
    no_amount: u64,
) -> (r: Option<PredictionMarketError>)
    ensures
        r == add_failure_before_entry(*market, *liquidity_position, c, yes_amount, no_amount),
{
    if market.status != MarketStatus::Open {
        return Some(PredictionMarketError::MarketLocked);
    }
    if !(yes_amount >= MIN_INITIAL_LIQUIDITY && no_amount >= MIN_INITIAL_LIQUIDITY) {
        return Some(PredictionMarketError::AmountBelowMinimum);
    }
    let (lp_shares, yes_actual, no_actual) = match calculate_lp_shares(
        yes_amount,
        no_amount,
        market.yes_pool,
        market.no_pool,
        market.total_liquidity,
    ) {
        Ok(q) => q,
        Err(e) => {
            return Some(e);
        },
    };
    proof {
        if market.total_liquidity == 0 {
            lemma_is_spec_isqrt(yes_amount * no_amount, lp_shares as int);
        }
    }
    if market.currency == Currency::SOL && yes_actual.checked_add(no_actual).is_none() {
        return Some(PredictionMarketError::MathOverflow);
    }
    if market.yes_pool.checked_add(yes_actual).is_none() || market.no_pool.checked_add(no_actual).is_none()
        || market.total_liquidity.checked_add(lp_shares).is_none() {
        return Some(PredictionMarketError::MathOverflow);
    }
    let (held, yes_in, no_in): (u64, u64, u64) = if liquidity_position.provider.is_default() {
        (0, 0, 0)
    } else {
        (liquidity_position.lp_shares, liquidity_position.yes_deposited, liquidity_position.no_deposited)
    };
    if held.checked_add(lp_shares).is_none() || yes_in.checked_add(yes_actual).is_none() || no_in.checked_add(
        no_actual,
    ).is_none() {
        return Some(PredictionMarketError::MathOverflow);
    }
    None
}

/// Whether the value of a deposit, both sides taken together, fits in 64
/// bits.
pub fn deposit_value_fits(market: &Market, yes_amount: u64, no_amount: u64) -> (b: bool)
    requires
        market.status == MarketStatus::Open,
        yes_amount >= MIN_INITIAL_LIQUIDITY,
        no_amount >= MIN_INITIAL_LIQUIDITY,
        !(market.total_liquidity > 0 && (market.yes_pool == 0 || market.no_pool == 0)),
        !(market.total_liquidity > 0 && deposit_quote(*market, yes_amount as int, no_amount as int).0 == 0),
    ensures
        b == (deposit_quote(*market, yes_amount as int, no_amount as int).1 + deposit_quote(
            *market,
            yes_amount as int,
            no_amount as int,
        ).2 <= u64::MAX),
{
    match calculate_lp_shares(yes_amount, no_amount, market.yes_pool, market.no_pool, market.total_liquidity) {
        Ok((lp_shares, yes_actual, no_actual)) => {
            proof {
                if market.total_liquidity == 0 {
                    lemma_is_spec_isqrt(yes_amount * no_amount, lp_shares as int);
                }
            }
            yes_actual.checked_add(no_actual).is_some()
        },
        Err(_) => {
            assert(false);
            false
        },
    }
}

/// The first check a deposit fails, in order.
pub open spec fn add_failure(
    m: Market,
    l: LiquidityPosition,
    c: LiquidityContext,
    yes_amount: u64,
    no_amount: u64,
) -> Option<PredictionMarketError> {
    let (lp, ya, na) = deposit_quote(m, yes_amount as int, no_amount as int);
    let l0 = liquidity_position_for(l, c);
    if add_failure_before_entry(m, l, c, yes_amount, no_amount) is Some {
        add_failure_before_entry(m, l, c, yes_amount, no_amount)
    } else if l0.entry_value + (ya + na) > u64::MAX {
        Some(PredictionMarketError::MathOverflow)
    } else {
        None
    }
}

/// The market after a deposit that passed every check.
pub open spec fn market_after_add(m: Market, yes_amount: u64, no_amount: u64) -> Market {
    let (lp, ya, na) = deposit_quote(m, yes_amount as int, no_amount as int);
    let yes = (m.yes_pool + ya) as u64;
    let no = (m.no_pool + na) as u64;
    Market {
        yes_pool: yes,
        no_pool: no,
        total_liquidity: (m.total_liquidity + lp) as u64,
        k_last: (yes * no) as u128,
        ..m
    }
}

/// The liquidity position after a deposit that passed every check.
pub open spec fn position_after_add(
    m: Market,
    l: LiquidityPosition,
    c: LiquidityContext,
    yes_amount: u64,
    no_amount: u64,
) -> LiquidityPosition {
    let (lp, ya, na) = deposit_quote(m, yes_amount as int, no_amount as int);
    let l0 = liquidity_position_for(l, c);
    LiquidityPosition {
        lp_shares: (l0.lp_shares + lp) as u64,
        yes_deposited: (l0.yes_deposited + ya) as u64,
        no_deposited: (l0.no_deposited + na) as u64,
        entry_value: (l0.entry_value + ya + na) as u64,
        ..l0
    }
}

/// Deposits liquidity: mints shares for the deposit, takes the amounts they
/// are worth into the pools, and records them in the provider's position. The
/// currency itself is moved by the caller. On failure nothing changes.
pub fn handler(
    market: &mut Market,
    liquidity_position: &mut LiquidityPosition,
    c: LiquidityContext,
    yes_amount: u64,
    no_amount: u64,
) -> (r: Result<Deposit, PredictionMarketError>)
    requires
        add_failure_before_entry(*old(market), *old(liquidity_position), c, yes_amount, no_amount) is None
            ==> deposit_quote(*old(market), yes_amount as int, no_amount as int).1 + deposit_quote(
            *old(market),
            yes_amount as int,
            no_amount as int,
        ).2 <= u64::MAX,
    ensures
        match add_failure(*old(market), *old(liquidity_position), c, yes_amount, no_amount) {
            Some(e) => r == Err::<Deposit, _>(e) && *final(market) == *old(market)
                && *final(liquidity_position) == *old(liquidity_position),
            None => ({
                let (lp, ya, na) = deposit_quote(*old(market), yes_amount as int, no_amount as int);
                &&& r == Ok::<Deposit, PredictionMarketError>(
                    Deposit { lp_shares: lp as u64, yes_amount: ya as u64, no_amount: na as u64 },
                )
                &&& *final(market) == market_after_add(*old(market), yes_amount, no_amount)
                &&& *final(liquidity_position) == position_after_add(
                    *old(market),
                    *old(liquidity_position),
                    c,
                    yes_amount,
                    no_amount,
                )
            }),
        },
{
    if market.status != MarketStatus::Open {
        return Err(PredictionMarketError::MarketLocked);
    }
    if !(yes_amount >= MIN_INITIAL_LIQUIDITY && no_amount >= MIN_INITIAL_LIQUIDITY) {
        return Err(PredictionMarketError::AmountBelowMinimum);
    }
    let (lp_shares, yes_actual, no_actual) = match calculate_lp_shares(
        yes_amount,
        no_amount,
        market.yes_pool,
        market.no_pool,
        market.total_liquidity,
    ) {
        Ok(q) => q,
        Err(e) => {
            return Err(e);
        },
    };
    proof {
        if market.total_liquidity == 0 {
            lemma_is_spec_isqrt(yes_amount * no_amount, lp_shares as int);
        }
    }
    if market.currency == Currency::SOL {
        match yes_actual.checked_add(no_actual) {
            Some(_) => {},
            None => {
                return Err(PredictionMarketError::MathOverflow);
            },
        }
    }
    let mut m = *market;
    m.yes_pool = match m.yes_pool.checked_add(yes_actual) {
        Some(v) => v,
        None => {
            return Err(PredictionMarketError::MathOverflow);
        },
    };
    m.no_pool = match m.no_pool.checked_add(no_actual) {
        Some(v) => v,
        None => {
            return Err(PredictionMarketError::MathOverflow);
        },
    };
    m.total_liquidity = match m.total_liquidity.checked_add(lp_shares) {
        Some(v) => v,
        None => {
            return Err(PredictionMarketError::MathOverflow);
        },
    };
    proof {
        crate::prediction_market::amm::constant_product::lemma_mul_bounds(
            m.yes_pool as int,
            m.no_pool as int,
            u64::MAX as int,
            u64::MAX as int,
        );
    }
    m.k_last = (m.yes_pool as u128) * (m.no_pool as u128);

    let mut l = *liquidity_position;
    if l.provider.is_default() {
        l = LiquidityPosition {
            market: c.market_key,
            provider: c.provider,
            lp_shares: 0,
            yes_deposited: 0,
            no_deposited: 0,
            entry_value: 0,
            fees_earned: 0,
            last_fee_collection: c.now,
            deposited_at: c.now,
            withdrawn_at: None,
            withdrawn: false,
            bump: c.position_bump,
        };
    }
    l.lp_shares = match l.lp_shares.checked_add(lp_shares) {
        Some(v) => v,
        None => {
            return Err(PredictionMarketError::MathOverflow);
        },
    };
    l.yes_deposited = match l.yes_deposited.checked_add(yes_actual) {
        Some(v) => v,
        None => {
            return Err(PredictionMarketError::MathOverflow);
        },
    };
    l.no_deposited = match l.no_deposited.checked_add(no_actual) {
        Some(v) => v,
        None => {
            return Err(PredictionMarketError::MathOverflow);
        },
    };
    l.entry_value = match l.entry_value.checked_add(yes_actual + no_actual) {
        Some(v) => v,
        None => {
            return Err(PredictionMarketError::MathOverflow);
        },
    };
    *market = m;
    *liquidity_position = l;
    Ok(Deposit { lp_shares, yes_amount: yes_actual, no_amount: no_actual })
}

} // verus!
