//! Errors of the battle game.
use vstd::prelude::*;

verus! {

/// Every way a game operation can be refused.
#[derive(Debug, Clone, Copy, PartialEq, Eq, Structural)]
pub enum GameError {
    /// Unauthorized refill
    UnauthorizedRefill,
    /// Seed replay
    SeedReplay,
    /// Entropy pool full
    EntropyPoolFull,
    /// No entropy available
    NoEntropyAvailable,
    /// Invalid index
    InvalidIndex,
    /// Invalid range
    InvalidRange,
    /// Math overflow
    MathOverflow,
    /// Invalid NFT token account
    InvalidNftAta,
    /// Not NFT owner
    NotNftOwner,
    /// Offer not active
    OfferNotActive,
    /// Character fails constraints
    CharacterConstraint,
    /// Unauthorized
    Unauthorized,
    /// Invalid request state
    InvalidRequestState,
    /// Invalid battle state
    InvalidBattleState,
    /// Battle already finished
    BattleAlreadyFinished,
    /// Not your turn
    NotYourTurn,
    /// Special on cooldown
    SpecialOnCooldown,
    /// Invalid timestamp
    InvalidTimestamp,
    /// Battle not finished
    BattleNotFinished,
    /// Auto-approve disabled
    AutoApproveDisabled,
    /// SPL not whitelisted
    SPLNotWhitelisted,
    /// Timeout not reached
    TimeoutNotReached,
}

/// The human-readable message of each error.
pub open spec fn game_error_message(e: GameError) -> Seq<char> {
    match e {
        GameError::UnauthorizedRefill => "Unauthorized refill"@,
        GameError::SeedReplay => "Seed replay"@,
        GameError::EntropyPoolFull => "Entropy pool full"@,
        GameError::NoEntropyAvailable => "No entropy available"@,
        GameError::InvalidIndex => "Invalid index"@,
        GameError::InvalidRange => "Invalid range"@,
        GameError::MathOverflow => "Math overflow"@,
        GameError::InvalidNftAta => "Invalid NFT token account"@,
        GameError::NotNftOwner => "Not NFT owner"@,
        GameError::OfferNotActive => "Offer not active"@,
        GameError::CharacterConstraint => "Character fails constraints"@,
        GameError::Unauthorized => "Unauthorized"@,
        GameError::InvalidRequestState => "Invalid request state"@,
        GameError::InvalidBattleState => "Invalid battle state"@,
        GameError::BattleAlreadyFinished => "Battle already finished"@,
        GameError::NotYourTurn => "Not your turn"@,
        GameError::SpecialOnCooldown => "Special on cooldown"@,
        GameError::InvalidTimestamp => "Invalid timestamp"@,
        GameError::BattleNotFinished => "Battle not finished"@,
        GameError::AutoApproveDisabled => "Auto-approve disabled"@,
        GameError::SPLNotWhitelisted => "SPL not whitelisted"@,
        GameError::TimeoutNotReached => "Timeout not reached"@,
    }
}

impl GameError {
    /// The human-readable message of the error.
    pub fn message(&self) -> (s: &'static str)
        ensures
            s@ == game_error_message(*self),
    {
        match self {
            GameError::UnauthorizedRefill => "Unauthorized refill",
            GameError::SeedReplay => "Seed replay",
            GameError::EntropyPoolFull => "Entropy pool full",
            GameError::NoEntropyAvailable => "No entropy available",
            GameError::InvalidIndex => "Invalid index",
            GameError::InvalidRange => "Invalid range",
            GameError::MathOverflow => "Math overflow",
            GameError::InvalidNftAta => "Invalid NFT token account",
            GameError::NotNftOwner => "Not NFT owner",
            GameError::OfferNotActive => "Offer not active",
            GameError::CharacterConstraint => "Character fails constraints",
            GameError::Unauthorized => "Unauthorized",
            GameError::InvalidRequestState => "Invalid request state",
            GameError::InvalidBattleState => "Invalid battle state",
            GameError::BattleAlreadyFinished => "Battle already finished",
            GameError::NotYourTurn => "Not your turn",
            GameError::SpecialOnCooldown => "Special on cooldown",
            GameError::InvalidTimestamp => "Invalid timestamp",
            GameError::BattleNotFinished => "Battle not finished",
            GameError::AutoApproveDisabled => "Auto-approve disabled",
            GameError::SPLNotWhitelisted => "SPL not whitelisted",
            GameError::TimeoutNotReached => "Timeout not reached",
        }
    }
}

} // verus!
