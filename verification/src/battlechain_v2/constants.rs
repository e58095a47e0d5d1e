//! Game parameters.
use vstd::prelude::*;

verus! {

/// Fixed-point scale: 1.0 is written 1_000_000.
pub const FP_SCALE: u128 = 1_000_000u128;

/// Critical-hit multiplier used when a character's own is lower (2.0).
pub const DEFAULT_CRIT_FP: u128 = 2_000_000u128;

/// Cap on the total damage multiplier (10.0).
pub const MAX_TOTAL_MULTIPLIER_FP: u128 = 10_000_000u128;

/// Most consecutive equal base rolls that build a combo.
pub const MAX_COMBO_STACK: u8 = 5u8;

/// Length of a seed in bytes.
pub const SEED_LEN: usize = 32usize;

/// Seed batches the entropy pool holds.
pub const MAX_BATCHES: usize = 8usize;

/// Entropy a single turn needs.
pub const MIN_ENTROPY_PER_TURN: u64 = 1u64;

/// Rounds a battle lasts at most.
pub const MAX_ROUNDS: u8 = 3u8;

/// Turns in one round.
pub const TURNS_PER_ROUND: u8 = 3u8;

/// Turns a battle lasts at most.
pub const MAX_TOTAL_TURNS: u8 = 9u8;

} // verus!
