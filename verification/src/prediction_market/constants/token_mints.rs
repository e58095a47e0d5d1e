//! Token mints the market accepts (devnet addresses, set at deployment).
use vstd::prelude::*;
use crate::pubkey::{is_zero_key, Pubkey};

verus! {

/// Native SOL needs no mint.
pub const SOL: Option<Pubkey> = None;

/// USDC mint on devnet (the default address until deployment sets it).
pub fn usdc_devnet() -> (k: Pubkey)
    ensures
        is_zero_key(k),
{
    Pubkey::default()
}

/// USDT mint on devnet (the default address until deployment sets it).
pub fn usdt_devnet() -> (k: Pubkey)
    ensures
        is_zero_key(k),
{
    Pubkey::default()
}

} // verus!
