//! Accounts of the prediction market.
pub mod liquidity;
pub mod market;
pub mod position;
pub mod scheduled_match;
