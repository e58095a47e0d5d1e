//! Resolving a market from its match's result, or cancelling it.
use vstd::prelude::*;
use crate::prediction_market::errors::PredictionMarketError;
use crate::prediction_market::state::market::{Market, MarketStatus};
use crate::prediction_market::state::scheduled_match::{MatchStatus, ScheduledMatch};
use crate::pubkey::Pubkey;

verus! {

/// Resolution: an open or locked market, past its betting window, whose match
/// is resolved with a winner. YES wins when the winner is the first player.
pub open spec fn resolve_market_spec(m: Market, sm: ScheduledMatch, now: i64) -> Result<
    Market,
    PredictionMarketError,
> {
    if !(m.status == MarketStatus::Locked || m.status == MarketStatus::Open) {
        Err(PredictionMarketError::InvalidMarketStatus)
    } else if now < m.betting_end_time {
        Err(PredictionMarketError::BettingPeriodNotEnded)
    } else if sm.status != MatchStatus::Resolved {
        Err(PredictionMarketError::MatchNotCompleted)
    } else if sm.winner is None {
        Err(PredictionMarketError::NoWinnerSet)
    } else {
        let winner = sm.winner->Some_0;
        Ok(
            Market {
                status: MarketStatus::Resolved,
                outcome: Some(winner == sm.player1),
                winner: Some(winner),
                battle: Some(sm.game_reference),
                resolved_at: Some(now),
                ..m
            },
        )
    }
}

/// Cancellation: any market not yet resolved, once its match is cancelled.
pub open spec fn cancel_market_spec(m: Market, sm: ScheduledMatch, now: i64) -> Result<
    Market,
    PredictionMarketError,
> {
    if m.status == MarketStatus::Resolved {
        Err(PredictionMarketError::MarketAlreadyResolved)
    } else if sm.status != MatchStatus::Cancelled {
        Err(PredictionMarketError::InvalidMatchStatus)
    } else {
        Ok(Market { status: MarketStatus::Cancelled, resolved_at: Some(now), ..m })
    }
}

/// The market after a transition: the new market on success, unchanged on failure.
pub open spec fn market_after(old_m: Market, outcome: Result<Market, PredictionMarketError>) -> Market {
    match outcome {
        Ok(m) => m,
        Err(_) => old_m,
    }
}

/// What a resolution decided: the winning side and player.
#[derive(Clone, Copy, Debug)]
pub struct Resolution {
    /// True when YES won.
    pub outcome: bool,
    pub winner: Pubkey,
}

/// Resolves the market from the match's result.
pub fn handler(market: &mut Market, scheduled_match: &ScheduledMatch, now: i64) -> (r: Result<
    Resolution,
    PredictionMarketError,
>)
    ensures
        *final(market) == market_after(*old(market), resolve_market_spec(*old(market), *scheduled_match, now)),
        match resolve_market_spec(*old(market), *scheduled_match, now) {
            Ok(m2) => r matches Ok(res) && Some(res.outcome) == m2.outcome && Some(res.winner) == m2.winner,
            Err(e) => r == Err::<Resolution, _>(e),
        },
{
    if !(market.status == MarketStatus::Locked || market.status == MarketStatus::Open) {
        return Err(PredictionMarketError::InvalidMarketStatus);
    }
    if now < market.betting_end_time {
        return Err(PredictionMarketError::BettingPeriodNotEnded);
    }
    if scheduled_match.status != MatchStatus::Resolved {
        return Err(PredictionMarketError::MatchNotCompleted);
    }
    let winner = match scheduled_match.winner {
        Some(w) => w,
        None => {
            return Err(PredictionMarketError::NoWinnerSet);
        },
    };
    let outcome = winner == scheduled_match.player1;
    market.status = MarketStatus::Resolved;
    market.outcome = Some(outcome);
    market.winner = Some(winner);
    market.battle = Some(scheduled_match.game_reference);
    market.resolved_at = Some(now);
    Ok(Resolution { outcome, winner })
}

/// Cancels the market once its match is cancelled.
pub fn cancel_market_handler(market: &mut Market, scheduled_match: &ScheduledMatch, now: i64) -> (r: Result<
    (),
    PredictionMarketError,
>)
    ensures
        *final(market) == market_after(*old(market), cancel_market_spec(*old(market), *scheduled_match, now)),
        match cancel_market_spec(*old(market), *scheduled_match, now) {
            Ok(_) => r is Ok,
            Err(e) => r == Err::<(), _>(e),
        },
{
    if market.status == MarketStatus::Resolved {
        return Err(PredictionMarketError::MarketAlreadyResolved);
    }
    if scheduled_match.status != MatchStatus::Cancelled {
        return Err(PredictionMarketError::InvalidMatchStatus);
    }
    market.status = MarketStatus::Cancelled;
    market.resolved_at = Some(now);
    Ok(())
}

/// Resolution and cancellation exclude each other: a resolved market cannot
/// be cancelled, and a cancelled market cannot be resolved.
pub proof fn law_resolve_and_cancel_exclusive(m: Market, sm: ScheduledMatch, now: i64, later: i64)
    ensures
        resolve_market_spec(m, sm, now) is Ok ==> cancel_market_spec(
            resolve_market_spec(m, sm, now)->Ok_0,
            sm,
            later,
        ) is Err,
        cancel_market_spec(m, sm, now) is Ok ==> resolve_market_spec(
            cancel_market_spec(m, sm, now)->Ok_0,
            sm,
            later,
        ) is Err,
{
}

/// A resolution cannot be replayed: once resolved, a market refuses every
/// later resolution, whatever the match then says, and keeps its outcome.
pub proof fn law_resolution_is_final(m: Market, sm: ScheduledMatch, now: i64, sm2: ScheduledMatch, later: i64)
    ensures
        resolve_market_spec(m, sm, now) is Ok ==> {
            let m2 = resolve_market_spec(m, sm, now)->Ok_0;
            &&& resolve_market_spec(m2, sm2, later) == Err::<Market, _>(PredictionMarketError::InvalidMarketStatus)
            &&& m2.outcome == Some(sm.winner == Some(sm.player1))
        },
{
}

} // verus!
