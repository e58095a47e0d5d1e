//! A scheduled match that a market trades on.
use vstd::prelude::*;
use crate::pubkey::Pubkey;

verus! {

/// Life cycle of a scheduled match.
#[derive(Clone, Copy, Debug, PartialEq, Eq, Structural)]
pub enum MatchStatus {
    /// Betting period open.
    Open,
    /// Betting over, waiting for the game.
    Locked,
    /// Game over.
    Resolved,
    /// Match cancelled.
    Cancelled,
}

/// A match between two players, with its betting window.
#[derive(Clone, Debug)]
pub struct ScheduledMatch {
    pub match_id: u64,
    pub player1: Pubkey,
    pub player2: Pubkey,
    /// The battle offer, or the oracle's game, the match refers to.
    pub game_reference: Pubkey,
    pub is_external: bool,
    pub external_result_id: Option<u64>,
    pub market: Pubkey,
    pub created_at: i64,
    pub betting_start: i64,
    pub betting_end: i64,
    pub estimated_battle_time: i64,
    pub resolved_at: Option<i64>,
    pub status: MatchStatus,
    pub winner: Option<Pubkey>,
    pub creator: Pubkey,
    /// Title (at most 64 characters stored).
    pub title: String,
    /// Free-form metadata (at most 256 characters stored).
    pub metadata: String,
    pub bump: u8,
}

impl ScheduledMatch {
    /// Size of the stored account, discriminator included.
    pub const LEN: usize = 8 + 8 + 32 + 32 + 32 + 1 + (1 + 8) + 32 + 8 + 8 + 8 + 8 + (1 + 8) + 1 + (1 + 32)
        + 32 + (4 + 64) + (4 + 256) + 1;

    /// Whether bets are taken at `current_time`: open and inside the window.
    pub fn is_betting_open(&self, current_time: i64) -> (b: bool)
        ensures
            b == (self.status == MatchStatus::Open && self.betting_start <= current_time
                && current_time < self.betting_end),
    {
        self.status == MatchStatus::Open && current_time >= self.betting_start && current_time
            < self.betting_end
    }

    /// Whether the betting window has closed at `current_time`.
    pub fn is_betting_ended(&self, current_time: i64) -> (b: bool)
        ensures
            b == (current_time >= self.betting_end),
    {
        current_time >= self.betting_end
    }

    /// Whether the match may be resolved at `current_time`: locked and past
    /// the betting window.
    pub fn can_resolve(&self, current_time: i64) -> (b: bool)
        ensures
            b == (self.status == MatchStatus::Locked && current_time >= self.betting_end),
    {
        self.status == MatchStatus::Locked && current_time >= self.betting_end
    }

    /// Whether the match is resolved.
    pub fn is_resolved(&self) -> (b: bool)
        ensures
            b == (self.status == MatchStatus::Resolved),
    {
        self.status == MatchStatus::Resolved
    }

    /// Seconds until the betting window closes, 0 once it has.
    pub fn time_until_betting_ends(&self, current_time: i64) -> (t: i64)
        requires
            self.betting_end - current_time <= i64::MAX,
        ensures
            t == if current_time >= self.betting_end {
                0
            } else {
                self.betting_end - current_time
            },
    {
        if current_time >= self.betting_end {
            0
        } else {
            self.betting_end - current_time
        }
    }

    /// Seconds since the match was created.
    pub fn age(&self, current_time: i64) -> (t: i64)
        requires
            i64::MIN <= current_time - self.created_at <= i64::MAX,
        ensures
            t == current_time - self.created_at,
    {
        current_time - self.created_at
    }
}

} // verus!
