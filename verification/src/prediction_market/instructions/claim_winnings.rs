//! Paying out winning shares after resolution, or refunds after cancellation.
use vstd::prelude::*;
use crate::prediction_market::errors::PredictionMarketError;
use crate::prediction_market::state::market::{Market, MarketStatus};
use crate::prediction_market::state::position::{spec_can_claim, Position};

verus! {

/// A 64-bit signed value.
pub open spec fn fits_i64(x: int) -> bool {
    i64::MIN <= x <= i64::MAX
}

/// What a claim paid and what it meant to the trader.
#[derive(Clone, Copy, Debug)]
pub struct ClaimOutcome {
    /// Currency paid out, one unit per winning share.
    pub payout: u64,
    /// The side that won.
    pub outcome: bool,
    /// Payout less what was put in.
    pub net_pnl: i64,
}

/// Claiming winnings: a resolved market, an unclaimed position with a set
/// outcome, and winning shares. Each winning share pays one unit.
pub open spec fn claim_winnings_spec(m: Market, p: Position, now: i64) -> Result<
    (Position, ClaimOutcome),
    PredictionMarketError,
> {
    if m.status != MarketStatus::Resolved {
        Err(PredictionMarketError::MarketNotResolved)
    } else if p.claimed {
        Err(PredictionMarketError::AlreadyClaimed)
    } else if m.outcome is None {
        Err(PredictionMarketError::NoOutcomeSet)
    } else {
        let outcome = m.outcome->Some_0;
        let payout = if outcome {
            p.yes_shares
        } else {
            p.no_shares
        };
        let net = (payout as i64) as int - (p.total_invested as i64) as int;
        if payout == 0 {
            Err(PredictionMarketError::NoWinningsToClaim)
        } else if !fits_i64(net) {
            Err(PredictionMarketError::MathOverflow)
        } else if !fits_i64(p.realized_pnl + net) {
            Err(PredictionMarketError::MathOverflow)
        } else {
            Ok(
                (
                    Position {
                        claimed: true,
                        payout_amount: payout,
                        realized_pnl: (p.realized_pnl + net) as i64,
                        last_trade_at: now,
                        ..p
                    },
                    ClaimOutcome { payout, outcome, net_pnl: net as i64 },
                ),
            )
        }
    }
}

/// Claiming a refund: a cancelled market and an unclaimed position that put
/// something in; everything put in comes back.
pub open spec fn claim_refund_spec(m: Market, p: Position, now: i64) -> Result<
    (Position, u64),
    PredictionMarketError,
> {
    if m.status != MarketStatus::Cancelled {
        Err(PredictionMarketError::MarketNotCancelled)
    } else if p.claimed {
        Err(PredictionMarketError::AlreadyClaimed)
    } else if p.total_invested == 0 {
        Err(PredictionMarketError::NoRefundAvailable)
    } else {
        Ok(
            (
                Position {
                    claimed: true,
                    payout_amount: p.total_invested,
                    realized_pnl: 0,
                    last_trade_at: now,
                    ..p
                },
                p.total_invested,
            ),
        )
    }
}

/// Pays the position's winning shares. The currency itself is moved by the
/// caller.
pub fn handler(market: &Market, position: &mut Position, now: i64) -> (r: Result<
    ClaimOutcome,
    PredictionMarketError,
>)
    ensures
        match claim_winnings_spec(*market, *old(position), now) {
            Ok((p2, o)) => r == Ok::<ClaimOutcome, PredictionMarketError>(o) && *final(position) == p2,
            Err(e) => r == Err::<ClaimOutcome, _>(e) && *final(position) == *old(position),
        },
{
    if market.status != MarketStatus::Resolved {
        return Err(PredictionMarketError::MarketNotResolved);
    }
    if position.claimed {
        return Err(PredictionMarketError::AlreadyClaimed);
    }
    let outcome = match market.outcome {
        Some(o) => o,
        None => {
            return Err(PredictionMarketError::NoOutcomeSet);
        },
    };
    let winning_shares = if outcome {
        position.yes_shares
    } else {
        position.no_shares
    };
    let payout = winning_shares;
    if payout == 0 {
        return Err(PredictionMarketError::NoWinningsToClaim);
    }
    let initial_investment = position.total_invested;
    let net_pnl = match (payout as i64).checked_sub(initial_investment as i64) {
        Some(v) => v,
        None => {
            return Err(PredictionMarketError::MathOverflow);
        },
    };
    let realized = match position.realized_pnl.checked_add(net_pnl) {
        Some(v) => v,
        None => {
            return Err(PredictionMarketError::MathOverflow);
        },
    };
    position.claimed = true;
    position.payout_amount = payout;
    position.realized_pnl = realized;
    position.last_trade_at = now;
    Ok(ClaimOutcome { payout, outcome, net_pnl })
}

/// Refunds everything the position put in. The currency itself is moved by
/// the caller.
pub fn claim_refund_handler(market: &Market, position: &mut Position, now: i64) -> (r: Result<
    u64,
    PredictionMarketError,
>)
    ensures
        match claim_refund_spec(*market, *old(position), now) {
            Ok((p2, refund)) => r == Ok::<u64, PredictionMarketError>(refund) && *final(position) == p2,
            Err(e) => r == Err::<u64, _>(e) && *final(position) == *old(position),
        },
{
    if market.status != MarketStatus::Cancelled {
        return Err(PredictionMarketError::MarketNotCancelled);
    }
    if position.claimed {
        return Err(PredictionMarketError::AlreadyClaimed);
    }
    let refund = position.total_invested;
    if refund == 0 {
        return Err(PredictionMarketError::NoRefundAvailable);
    }
    position.claimed = true;
    position.payout_amount = refund;
    position.realized_pnl = 0;
    position.last_trade_at = now;
    Ok(refund)
}

/// A position is paid at most once: after a successful claim, a second claim,
/// of winnings or of a refund, is refused as already claimed.
pub proof fn law_claim_at_most_once(m: Market, p: Position, now: i64, later: i64)
    ensures
        claim_winnings_spec(m, p, now) is Ok ==> {
            let p2 = claim_winnings_spec(m, p, now)->Ok_0.0;
            &&& claim_winnings_spec(m, p2, later) == Err::<(Position, ClaimOutcome), _>(
                PredictionMarketError::AlreadyClaimed,
            )
            &&& m.status == MarketStatus::Resolved
        },
        claim_refund_spec(m, p, now) is Ok ==> claim_refund_spec(m, claim_refund_spec(m, p, now)->Ok_0.0, later)
            == Err::<(Position, u64), _>(PredictionMarketError::AlreadyClaimed),
{
}

/// On a resolved market, winnings can be claimed exactly when the position
/// says it can claim (barring a profit figure that leaves 64 bits).
pub proof fn law_claim_matches_can_claim(m: Market, p: Position, now: i64)
    requires
        m.status == MarketStatus::Resolved,
        m.outcome is Some,
        fits_i64(((if m.outcome->Some_0 { p.yes_shares } else { p.no_shares }) as i64) as int
            - (p.total_invested as i64) as int),
        fits_i64(p.realized_pnl + ((if m.outcome->Some_0 { p.yes_shares } else { p.no_shares }) as i64) as int
            - (p.total_invested as i64) as int),
    ensures
        claim_winnings_spec(m, p, now) is Ok <==> spec_can_claim(p, m.outcome),
{
}

} // verus!
