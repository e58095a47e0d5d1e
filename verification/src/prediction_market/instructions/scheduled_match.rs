//! Creating a scheduled match and moving it through its life cycle.
use vstd::prelude::*;
use crate::prediction_market::errors::PredictionMarketError;
use crate::prediction_market::state::scheduled_match::{MatchStatus, ScheduledMatch};
use crate::pubkey::{is_zero_key, Pubkey};

verus! {

/// Everything a new scheduled match is made of.
pub struct NewMatch {
    pub match_id: u64,
    pub player1: Pubkey,
    pub player2: Pubkey,
    pub game_reference: Pubkey,
    pub is_external: bool,
    pub betting_start: i64,
    pub betting_end: i64,
    pub estimated_battle_time: i64,
    pub title: String,
    pub description: String,
}

/// A scheduled match is created with a betting window that ends after it
/// starts and starts no earlier than `now`, between two different players.
pub fn create_scheduled_match_handler(
    params: NewMatch,
    creator: Pubkey,
    now: i64,
    bump: u8,
) -> (r: Result<ScheduledMatch, PredictionMarketError>)
    ensures
        params.betting_end <= params.betting_start ==> r == Err::<ScheduledMatch, _>(
            PredictionMarketError::InvalidBettingPeriod,
        ),
        params.betting_end > params.betting_start && params.betting_start < now ==> r == Err::<
            ScheduledMatch,
            _,
        >(PredictionMarketError::InvalidBettingPeriod),
        params.betting_end > params.betting_start && params.betting_start >= now && params.player1
            == params.player2 ==> r == Err::<ScheduledMatch, _>(PredictionMarketError::InvalidAccount),
        params.betting_end > params.betting_start && params.betting_start >= now && params.player1
            != params.player2 ==> (r matches Ok(m) && {
            &&& m.match_id == params.match_id
            &&& m.player1 == params.player1
            &&& m.player2 == params.player2
            &&& m.game_reference == params.game_reference
            &&& m.is_external == params.is_external
            &&& m.external_result_id == None::<u64>
            &&& is_zero_key(m.market)
            &&& m.betting_start == params.betting_start
            &&& m.betting_end == params.betting_end
            &&& m.estimated_battle_time == params.estimated_battle_time
            &&& m.resolved_at == None::<i64>
            &&& m.status == MatchStatus::Open
            &&& m.winner == None::<Pubkey>
            &&& m.creator == creator
            &&& m.title@ == params.title@
            &&& m.metadata@ == params.description@
            &&& m.created_at == now
            &&& m.bump == bump
        }),
{
    if !(params.betting_end > params.betting_start) {
        return Err(PredictionMarketError::InvalidBettingPeriod);
    }
    if !(params.betting_start >= now) {
        return Err(PredictionMarketError::InvalidBettingPeriod);
    }
    if params.player1 == params.player2 {
        return Err(PredictionMarketError::InvalidAccount);
    }
    Ok(
        ScheduledMatch {
            match_id: params.match_id,
            player1: params.player1,
            player2: params.player2,
            game_reference: params.game_reference,
            is_external: params.is_external,
            external_result_id: None,
            market: Pubkey::default(),
            created_at: now,
            betting_start: params.betting_start,
            betting_end: params.betting_end,
            estimated_battle_time: params.estimated_battle_time,
            resolved_at: None,
            status: MatchStatus::Open,
            winner: None,
            creator,
            title: params.title,
            metadata: params.description,
            bump,
        },
    )
}

/// The match with only its status changed.
pub open spec fn with_status(m: ScheduledMatch, status: MatchStatus) -> ScheduledMatch {
    ScheduledMatch { status, ..m }
}

/// Starting a match: only an open match is locked.
pub open spec fn start_match_spec(m: ScheduledMatch) -> Result<ScheduledMatch, PredictionMarketError> {
    if m.status != MatchStatus::Open {
        Err(PredictionMarketError::InvalidMatchStatus)
    } else {
        Ok(with_status(m, MatchStatus::Locked))
    }
}

/// Completing a match: an open or locked match is resolved, and only with one
/// of its two players as the winner.
pub open spec fn complete_match_spec(m: ScheduledMatch, winner: Pubkey, now: i64) -> Result<
    ScheduledMatch,
    PredictionMarketError,
> {
    if !(m.status == MatchStatus::Locked || m.status == MatchStatus::Open) {
        Err(PredictionMarketError::InvalidMatchStatus)
    } else if !(winner == m.player1 || winner == m.player2) {
        Err(PredictionMarketError::InvalidAccount)
    } else {
        Ok(ScheduledMatch { status: MatchStatus::Resolved, winner: Some(winner), resolved_at: Some(now), ..m })
    }
}

/// Cancelling a match: anything but a resolved match is cancelled.
pub open spec fn cancel_match_spec(m: ScheduledMatch) -> Result<ScheduledMatch, PredictionMarketError> {
    if m.status == MatchStatus::Resolved {
        Err(PredictionMarketError::InvalidMatchStatus)
    } else {
        Ok(with_status(m, MatchStatus::Cancelled))
    }
}

/// The match after a transition: the new match on success, unchanged on failure.
pub open spec fn match_after(
    old_m: ScheduledMatch,
    outcome: Result<ScheduledMatch, PredictionMarketError>,
) -> ScheduledMatch {
    match outcome {
        Ok(m) => m,
        Err(_) => old_m,
    }
}

/// The error of a transition, or success.
pub open spec fn unit_result(outcome: Result<ScheduledMatch, PredictionMarketError>) -> Result<
    (),
    PredictionMarketError,
> {
    match outcome {
        Ok(_) => Ok(()),
        Err(e) => Err(e),
    }
}

/// An open match is locked; any other status is refused.
pub fn start_match_handler(scheduled_match: &mut ScheduledMatch) -> (r: Result<(), PredictionMarketError>)
    ensures
        r == unit_result(start_match_spec(*old(scheduled_match))),
        *final(scheduled_match) == match_after(*old(scheduled_match), start_match_spec(*old(scheduled_match))),
{
    if scheduled_match.status != MatchStatus::Open {
        return Err(PredictionMarketError::InvalidMatchStatus);
    }
    scheduled_match.status = MatchStatus::Locked;
    Ok(())
}

/// An open or locked match is resolved with one of its two players as the
/// winner; anything else is refused. The battle account is not recorded.
pub fn complete_match_handler(
    scheduled_match: &mut ScheduledMatch,
    winner: Pubkey,
    battle_account: Pubkey,
    now: i64,
) -> (r: Result<(), PredictionMarketError>)
    ensures
        r == unit_result(complete_match_spec(*old(scheduled_match), winner, now)),
        *final(scheduled_match) == match_after(
            *old(scheduled_match),
            complete_match_spec(*old(scheduled_match), winner, now),
        ),
{
    if !(scheduled_match.status == MatchStatus::Locked || scheduled_match.status == MatchStatus::Open) {
        return Err(PredictionMarketError::InvalidMatchStatus);
    }
    if !(winner == scheduled_match.player1 || winner == scheduled_match.player2) {
        return Err(PredictionMarketError::InvalidAccount);
    }
    scheduled_match.status = MatchStatus::Resolved;
    scheduled_match.winner = Some(winner);
    scheduled_match.resolved_at = Some(now);
    Ok(())
}

/// A match that is not resolved is cancelled; a resolved one is refused.
pub fn cancel_match_handler(scheduled_match: &mut ScheduledMatch) -> (r: Result<(), PredictionMarketError>)
    ensures
        r == unit_result(cancel_match_spec(*old(scheduled_match))),
        *final(scheduled_match) == match_after(*old(scheduled_match), cancel_match_spec(*old(scheduled_match))),
{
    if scheduled_match.status == MatchStatus::Resolved {
        return Err(PredictionMarketError::InvalidMatchStatus);
    }
    scheduled_match.status = MatchStatus::Cancelled;
    Ok(())
}

/// A resolved match stays resolved: starting, completing and cancelling it
/// are all refused.
pub proof fn law_resolved_match_is_final(m: ScheduledMatch, winner: Pubkey, now: i64)
    requires
        m.status == MatchStatus::Resolved,
    ensures
        start_match_spec(m) is Err,
        complete_match_spec(m, winner, now) is Err,
        cancel_match_spec(m) is Err,
{
}

/// Completing a match names one of its two players as the winner.
pub proof fn law_completed_winner_is_a_player(m: ScheduledMatch, winner: Pubkey, now: i64)
    requires
        complete_match_spec(m, winner, now) is Ok,
    ensures
        ({
            let m2 = complete_match_spec(m, winner, now)->Ok_0;
            m2.winner == Some(winner) && (winner == m2.player1 || winner == m2.player2)
                && m2.status == MatchStatus::Resolved
        }),
{
}

} // verus!
