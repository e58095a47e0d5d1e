//! The battle account.
use vstd::prelude::*;
use crate::pubkey::Pubkey;

verus! {

/// Life cycle of a battle.
#[derive(Clone, Copy, Debug, PartialEq, Eq, Structural)]
pub enum BattleState {
    Waiting,
    Active,
    Finished,
}

/// Stance a character takes for a turn.
#[derive(Clone, Copy, Debug, PartialEq, Eq, Structural)]
pub enum StanceType {
    Balanced,
    Aggressive,
    Defensive,
    Berserker,
    Counter,
}

impl StanceType {
    /// Numeric code of the stance, 0 to 4 in declaration order.
    pub fn to_u8(&self) -> (c: u8)
        ensures
            c == stance_code(*self),
    {
        match self {
            StanceType::Balanced => 0,
            StanceType::Aggressive => 1,
            StanceType::Defensive => 2,
            StanceType::Berserker => 3,
            StanceType::Counter => 4,
        }
    }
}

/// Numeric code of a stance, 0 to 4 in declaration order.
pub open spec fn stance_code(s: StanceType) -> u8 {
    match s {
        StanceType::Balanced => 0,
        StanceType::Aggressive => 1,
        StanceType::Defensive => 2,
        StanceType::Berserker => 3,
        StanceType::Counter => 4,
    }
}

/// A battle between two players; player 1 made the offer.
#[derive(Clone, Copy, Debug)]
pub struct Battle {
    pub battle_id: u64,
    pub player1: Pubkey,
    pub player2: Pubkey,
    pub start_ts: i64,
    /// Whose turn it is: 1 or 2.
    pub current_turn: u8,
    pub turn_number: u64,
    pub current_round: u8,
    pub rounds_completed: u8,
    pub turns_in_current_round: u8,
    pub player1_health: u64,
    pub player2_health: u64,
    pub state: BattleState,
    pub player1_stance: StanceType,
    pub player2_stance: StanceType,
    pub created_at: i64,
    pub inactivity_timeout: i64,
    pub last_action_ts: i64,
    pub winner: Option<Pubkey>,
    pub player1_dot_damage: u64,
    pub player2_dot_damage: u64,
    pub player1_dot_turns: u8,
    pub player2_dot_turns: u8,
    /// Percentage of the damage of the next attack a player meets that goes
    /// back to its attacker.
    pub player1_reflection: u16,
    pub player2_reflection: u16,
    pub player1_miss_count: u16,
    pub player2_miss_count: u16,
    /// Highest entropy index used; every turn must use a higher one.
    pub last_entropy_index: u64,
    pub bump: u8,
    pub player1_used_wildcard: bool,
    pub player2_used_wildcard: bool,
    pub player1_special_used: bool,
    pub player2_special_used: bool,
    pub player1_preference: u8,
    pub player2_preference: u8,
    pub player1_pref_set: bool,
    pub player2_pref_set: bool,
}

} // verus!
