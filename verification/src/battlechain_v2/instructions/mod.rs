//! Operations of the battle game that run turns.
pub mod damage;
pub mod round_execution;
pub mod turn;
