//! The prediction market: a constant-product market maker over the YES and
//! NO outcome of a scheduled match.
pub mod amm;
pub mod errors;
pub mod constants;
pub mod state;
pub mod instructions;
