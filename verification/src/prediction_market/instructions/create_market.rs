//! Opening a market on a scheduled match.
use vstd::prelude::*;
use crate::prediction_market::constants::{MIN_INITIAL_LIQUIDITY, TRADING_FEE_BPS};
use crate::prediction_market::errors::PredictionMarketError;
use crate::prediction_market::state::market::{Currency, Market, MarketStatus};
use crate::prediction_market::state::scheduled_match::{MatchStatus, ScheduledMatch};
use crate::pubkey::Pubkey;

verus! {

/// The market opened on a scheduled match with the given pools.
pub open spec fn new_market(
    sm: ScheduledMatch,
    scheduled_match_key: Pubkey,
    creator: Pubkey,
    now: i64,
    bump: u8,
    match_id: u64,
    initial_yes_pool: u64,
    initial_no_pool: u64,
) -> Market {
    Market {
        market_id: match_id,
        match_id,
        scheduled_match: scheduled_match_key,
        yes_pool: initial_yes_pool,
        no_pool: initial_no_pool,
        k_last: (initial_yes_pool * initial_no_pool) as u128,
        total_liquidity: 0,
        fee_bps: TRADING_FEE_BPS,
        total_volume: 0,
        total_fees_collected: 0,
        lp_fees: 0,
        protocol_fees: 0,
        creator_fees: 0,
        currency: Currency::SOL,
        vault: None,
        created_at: now,
        betting_end_time: sm.betting_end,
        resolved_at: None,
        status: MarketStatus::Open,
        outcome: None,
        winner: None,
        battle: None,
        creator,
        bump,
    }
}

/// Opens a SOL market on an open scheduled match; both pools start at no less
/// than the minimum initial liquidity.
pub fn handler(
    scheduled_match: &ScheduledMatch,
    scheduled_match_key: Pubkey,
    creator: Pubkey,
    now: i64,
    bump: u8,
    match_id: u64,
    initial_yes_pool: u64,
    initial_no_pool: u64,
) -> (r: Result<Market, PredictionMarketError>)
    ensures
        initial_yes_pool < MIN_INITIAL_LIQUIDITY || initial_no_pool < MIN_INITIAL_LIQUIDITY ==> r
            == Err::<Market, _>(PredictionMarketError::InsufficientLiquidity),
        initial_yes_pool >= MIN_INITIAL_LIQUIDITY && initial_no_pool >= MIN_INITIAL_LIQUIDITY
            && scheduled_match.status != MatchStatus::Open ==> r == Err::<Market, _>(
            PredictionMarketError::InvalidMarketStatus,
        ),
        initial_yes_pool >= MIN_INITIAL_LIQUIDITY && initial_no_pool >= MIN_INITIAL_LIQUIDITY
            && scheduled_match.status == MatchStatus::Open ==> r == Ok::<Market, PredictionMarketError>(
            new_market(
                *scheduled_match,
                scheduled_match_key,
                creator,
                now,
                bump,
                match_id,
                initial_yes_pool,
                initial_no_pool,
            ),
        ),
{
    if initial_yes_pool < MIN_INITIAL_LIQUIDITY {
        return Err(PredictionMarketError::InsufficientLiquidity);
    }
    if initial_no_pool < MIN_INITIAL_LIQUIDITY {
        return Err(PredictionMarketError::InsufficientLiquidity);
    }
    if scheduled_match.status != MatchStatus::Open {
        return Err(PredictionMarketError::InvalidMarketStatus);
    }
    proof {
        crate::prediction_market::amm::constant_product::lemma_mul_bounds(
            initial_yes_pool as int,
            initial_no_pool as int,
            u64::MAX as int,
            u64::MAX as int,
        );
    }
    Ok(
        Market {
            market_id: match_id,
            match_id,
            scheduled_match: scheduled_match_key,
            yes_pool: initial_yes_pool,
            no_pool: initial_no_pool,
            k_last: (initial_yes_pool as u128) * (initial_no_pool as u128),
            total_liquidity: 0,
            fee_bps: TRADING_FEE_BPS,
            total_volume: 0,
            total_fees_collected: 0,
            lp_fees: 0,
            protocol_fees: 0,
            creator_fees: 0,
            currency: Currency::SOL,
            vault: None,
            created_at: now,
            betting_end_time: scheduled_match.betting_end,
            resolved_at: None,
            status: MarketStatus::Open,
            outcome: None,
            winner: None,
            battle: None,
            creator,
            bump,
        },
    )
}

} // verus!
