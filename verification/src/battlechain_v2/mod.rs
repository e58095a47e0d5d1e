//! The battle game: characters, battle offers, stakes, and turn-based
//! combat driven by an entropy pool.
pub mod constants;
pub mod errors;
pub mod instructions;
pub mod program;
pub mod state;
pub mod utils;
