//! Market parameters.
pub mod token_mints;

use vstd::prelude::*;

verus! {

/// Fixed-point scale: 0.5 is written 500_000.
pub const FP_SCALE: u128 = 1_000_000u128;

/// Trading fee in basis points (0.40% in all).
pub const TRADING_FEE_BPS: u16 = 40u16;

/// Share of the trading fee that goes to liquidity providers.
pub const LP_FEE_BPS: u16 = 30u16;

/// Share of the trading fee that goes to the protocol.
pub const PROTOCOL_FEE_BPS: u16 = 5u16;

/// Share of the trading fee that goes to the match creator.
pub const CREATOR_FEE_BPS: u16 = 5u16;

/// Smallest initial pool and liquidity deposit (1 SOL in lamports).
pub const MIN_INITIAL_LIQUIDITY: u64 = 1_000_000_000u64;

/// Smallest trade (0.01 SOL in lamports).
pub const MIN_TRADE_AMOUNT: u64 = 10_000_000u64;

/// Largest slippage tolerance a trader may ask for (10%).
pub const MAX_SLIPPAGE_BPS: u16 = 1000u16;

/// Default betting period before a battle (one hour).
pub const DEFAULT_BETTING_PERIOD_SECONDS: i64 = 3600i64;

/// Shortest betting period (five minutes).
pub const MIN_BETTING_PERIOD_SECONDS: i64 = 300i64;

/// Longest betting period (seven days).
pub const MAX_BETTING_PERIOD_SECONDS: i64 = 604800i64;

/// Decimals of native SOL.
pub const SOL_DECIMALS: u8 = 9u8;

/// Decimals of USDC.
pub const USDC_DECIMALS: u8 = 6u8;

/// Decimals of USDT.
pub const USDT_DECIMALS: u8 = 6u8;

} // verus!
