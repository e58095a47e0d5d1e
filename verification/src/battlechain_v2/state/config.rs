//! The global configuration.
use vstd::prelude::*;
use crate::pubkey::Pubkey;

verus! {

/// Global settings of the game.
#[derive(Clone, Debug)]
pub struct Config {
    pub admin: Pubkey,
    /// Protocol fee in basis points.
    pub fee_bps: u16,
    pub inactivity_timeout: i64,
    /// SPL mints accepted for stakes (at most 8 stored).
    pub spl_whitelist: Vec<Pubkey>,
    pub trait_authority: Pubkey,
    pub bump: u8,
}

} // verus!
