//! Arithmetic, randomness and combat helpers.
pub mod levelup;
pub mod math;
pub mod stance;
pub mod wildcard;
