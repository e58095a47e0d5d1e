//! Verified game and market logic for an on-chain turn-based battle game
//! and the prediction market that trades on its matches.
pub mod pubkey;
pub mod prediction_market;
pub mod battlechain_v2;
