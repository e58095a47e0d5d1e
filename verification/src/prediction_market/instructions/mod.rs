//! The market's operations, as transitions of its account data.
pub mod add_liquidity;
pub mod buy_shares;
pub mod claim_winnings;
pub mod create_market;
pub mod remove_liquidity;
pub mod resolve_market;
pub mod scheduled_match;
pub mod sell_shares;
