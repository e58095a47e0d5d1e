//! Errors of the prediction market.
use vstd::prelude::*;

verus! {

/// Every way a prediction-market operation can be refused.
#[derive(Debug, Clone, Copy, PartialEq, Eq, Structural)]
pub enum PredictionMarketError {
    /// Math overflow occurred
    MathOverflow,
    /// Division by zero
    DivisionByZero,
    /// Invalid market status for this operation
    InvalidMarketStatus,
    /// Market is still open for trading
    MarketStillOpen,
    /// Market is locked, no trading allowed
    MarketLocked,
    /// Market has already been resolved
    MarketAlreadyResolved,
    /// Market has not been resolved yet
    MarketNotResolved,
    /// Battle has not finished yet
    BattleNotFinished,
    /// Insufficient liquidity in pool
    InsufficientLiquidity,
    /// Amount below minimum trade amount
    AmountBelowMinimum,
    /// Amount exceeds maximum allowed
    AmountTooLarge,
    /// Slippage tolerance exceeded
    SlippageExceeded,
    /// Invalid slippage tolerance (max 10%)
    InvalidSlippage,
    /// Deadline has passed
    DeadlinePassed,
    /// Invalid odds ratio
    InvalidOdds,
    /// Invalid currency specified
    InvalidCurrency,
    /// Currency mismatch between market and trade
    CurrencyMismatch,
    /// Token mint mismatch
    TokenMintMismatch,
    /// Insufficient balance
    InsufficientBalance,
    /// No shares to claim
    NoSharesToClaim,
    /// Position already claimed
    AlreadyClaimed,
    /// Invalid outcome
    InvalidOutcome,
    /// You did not win this market
    NotAWinner,
    /// Invalid betting period duration
    InvalidBettingPeriod,
    /// Betting period has not started
    BettingNotStarted,
    /// Betting period has ended
    BettingEnded,
    /// Cannot resolve before betting ends
    TooEarlyToResolve,
    /// Invalid scheduled match reference
    InvalidScheduledMatch,
    /// Battle has not been created yet
    BattleNotCreated,
    /// Unauthorized access
    Unauthorized,
    /// Invalid initial pool ratio
    InvalidInitialRatio,
    /// Liquidity too low to remove
    LiquidityTooLow,
    /// No liquidity position found
    NoLiquidityPosition,
    /// LP shares amount invalid
    InvalidLPShares,
    /// Cannot remove liquidity while market is active
    MarketStillActive,
    /// Invalid fixed-point calculation
    InvalidFixedPoint,
    /// Price impact too high
    PriceImpactTooHigh,
    /// Constant product invariant violation
    InvariantViolation,
    /// Invalid fee parameters
    InvalidFeeParams,
    /// Token transfer failed
    TokenTransferFailed,
    /// Invalid vault account
    InvalidVault,
    /// Account not found or invalid
    InvalidAccount,
    /// Numerical overflow in conversion
    ConversionOverflow,
    /// Betting period has ended
    BettingPeriodEnded,
    /// Insufficient shares
    InsufficientShares,
    /// Insufficient funds
    InsufficientFunds,
    /// No outcome set
    NoOutcomeSet,
    /// No winnings to claim
    NoWinningsToClaim,
    /// Market was not cancelled
    MarketNotCancelled,
    /// No refund available
    NoRefundAvailable,
    /// Insufficient LP shares
    InsufficientLPShares,
    /// Betting period has not ended
    BettingPeriodNotEnded,
    /// Match has not completed
    MatchNotCompleted,
    /// No winner set
    NoWinnerSet,
    /// Invalid match status
    InvalidMatchStatus,
}

/// The human-readable message of each error.
pub open spec fn market_error_message(e: PredictionMarketError) -> Seq<char> {
    match e {
        PredictionMarketError::MathOverflow => "Math overflow occurred"@,
        PredictionMarketError::DivisionByZero => "Division by zero"@,
        PredictionMarketError::InvalidMarketStatus => "Invalid market status for this operation"@,
        PredictionMarketError::MarketStillOpen => "Market is still open for trading"@,
        PredictionMarketError::MarketLocked => "Market is locked, no trading allowed"@,
        PredictionMarketError::MarketAlreadyResolved => "Market has already been resolved"@,
        PredictionMarketError::MarketNotResolved => "Market has not been resolved yet"@,
        PredictionMarketError::BattleNotFinished => "Battle has not finished yet"@,
        PredictionMarketError::InsufficientLiquidity => "Insufficient liquidity in pool"@,
        PredictionMarketError::AmountBelowMinimum => "Amount below minimum trade amount"@,
        PredictionMarketError::AmountTooLarge => "Amount exceeds maximum allowed"@,
        PredictionMarketError::SlippageExceeded => "Slippage tolerance exceeded"@,
        PredictionMarketError::InvalidSlippage => "Invalid slippage tolerance (max 10%)"@,
        PredictionMarketError::DeadlinePassed => "Deadline has passed"@,
        PredictionMarketError::InvalidOdds => "Invalid odds ratio"@,
        PredictionMarketError::InvalidCurrency => "Invalid currency specified"@,
        PredictionMarketError::CurrencyMismatch => "Currency mismatch between market and trade"@,
        PredictionMarketError::TokenMintMismatch => "Token mint mismatch"@,
        PredictionMarketError::InsufficientBalance => "Insufficient balance"@,
        PredictionMarketError::NoSharesToClaim => "No shares to claim"@,
        PredictionMarketError::AlreadyClaimed => "Position already claimed"@,
        PredictionMarketError::InvalidOutcome => "Invalid outcome"@,
        PredictionMarketError::NotAWinner => "You did not win this market"@,
        PredictionMarketError::InvalidBettingPeriod => "Invalid betting period duration"@,
        PredictionMarketError::BettingNotStarted => "Betting period has not started"@,
        PredictionMarketError::BettingEnded => "Betting period has ended"@,
        PredictionMarketError::TooEarlyToResolve => "Cannot resolve before betting ends"@,
        PredictionMarketError::InvalidScheduledMatch => "Invalid scheduled match reference"@,
        PredictionMarketError::BattleNotCreated => "Battle has not been created yet"@,
        PredictionMarketError::Unauthorized => "Unauthorized access"@,
        PredictionMarketError::InvalidInitialRatio => "Invalid initial pool ratio"@,
        PredictionMarketError::LiquidityTooLow => "Liquidity too low to remove"@,
        PredictionMarketError::NoLiquidityPosition => "No liquidity position found"@,
        PredictionMarketError::InvalidLPShares => "LP shares amount invalid"@,
        PredictionMarketError::MarketStillActive => "Cannot remove liquidity while market is active"@,
        PredictionMarketError::InvalidFixedPoint => "Invalid fixed-point calculation"@,
        PredictionMarketError::PriceImpactTooHigh => "Price impact too high"@,
        PredictionMarketError::InvariantViolation => "Constant product invariant violation"@,
        PredictionMarketError::InvalidFeeParams => "Invalid fee parameters"@,
        PredictionMarketError::TokenTransferFailed => "Token transfer failed"@,
        PredictionMarketError::InvalidVault => "Invalid vault account"@,
        PredictionMarketError::InvalidAccount => "Account not found or invalid"@,
        PredictionMarketError::ConversionOverflow => "Numerical overflow in conversion"@,
        PredictionMarketError::BettingPeriodEnded => "Betting period has ended"@,
        PredictionMarketError::InsufficientShares => "Insufficient shares"@,
        PredictionMarketError::InsufficientFunds => "Insufficient funds"@,
        PredictionMarketError::NoOutcomeSet => "No outcome set"@,
        PredictionMarketError::NoWinningsToClaim => "No winnings to claim"@,
        PredictionMarketError::MarketNotCancelled => "Market was not cancelled"@,
        PredictionMarketError::NoRefundAvailable => "No refund available"@,
        PredictionMarketError::InsufficientLPShares => "Insufficient LP shares"@,
        PredictionMarketError::BettingPeriodNotEnded => "Betting period has not ended"@,
        PredictionMarketError::MatchNotCompleted => "Match has not completed"@,
        PredictionMarketError::NoWinnerSet => "No winner set"@,
        PredictionMarketError::InvalidMatchStatus => "Invalid match status"@,
    }
}

impl PredictionMarketError {
    /// The human-readable message of the error.
    pub fn message(&self) -> (s: &'static str)
        ensures
            s@ == market_error_message(*self),
    {
        match self {
            PredictionMarketError::MathOverflow => "Math overflow occurred",
            PredictionMarketError::DivisionByZero => "Division by zero",
            PredictionMarketError::InvalidMarketStatus => "Invalid market status for this operation",
            PredictionMarketError::MarketStillOpen => "Market is still open for trading",
            PredictionMarketError::MarketLocked => "Market is locked, no trading allowed",
            PredictionMarketError::MarketAlreadyResolved => "Market has already been resolved",
            PredictionMarketError::MarketNotResolved => "Market has not been resolved yet",
            PredictionMarketError::BattleNotFinished => "Battle has not finished yet",
            PredictionMarketError::InsufficientLiquidity => "Insufficient liquidity in pool",
            PredictionMarketError::AmountBelowMinimum => "Amount below minimum trade amount",
            PredictionMarketError::AmountTooLarge => "Amount exceeds maximum allowed",
            PredictionMarketError::SlippageExceeded => "Slippage tolerance exceeded",
            PredictionMarketError::InvalidSlippage => "Invalid slippage tolerance (max 10%)",
            PredictionMarketError::DeadlinePassed => "Deadline has passed",
            PredictionMarketError::InvalidOdds => "Invalid odds ratio",
            PredictionMarketError::InvalidCurrency => "Invalid currency specified",
            PredictionMarketError::CurrencyMismatch => "Currency mismatch between market and trade",
            PredictionMarketError::TokenMintMismatch => "Token mint mismatch",
            PredictionMarketError::InsufficientBalance => "Insufficient balance",
            PredictionMarketError::NoSharesToClaim => "No shares to claim",
            PredictionMarketError::AlreadyClaimed => "Position already claimed",
            PredictionMarketError::InvalidOutcome => "Invalid outcome",
            PredictionMarketError::NotAWinner => "You did not win this market",
            PredictionMarketError::InvalidBettingPeriod => "Invalid betting period duration",
            PredictionMarketError::BettingNotStarted => "Betting period has not started",
            PredictionMarketError::BettingEnded => "Betting period has ended",
            PredictionMarketError::TooEarlyToResolve => "Cannot resolve before betting ends",
            PredictionMarketError::InvalidScheduledMatch => "Invalid scheduled match reference",
            PredictionMarketError::BattleNotCreated => "Battle has not been created yet",
            PredictionMarketError::Unauthorized => "Unauthorized access",
            PredictionMarketError::InvalidInitialRatio => "Invalid initial pool ratio",
            PredictionMarketError::LiquidityTooLow => "Liquidity too low to remove",
            PredictionMarketError::NoLiquidityPosition => "No liquidity position found",
            PredictionMarketError::InvalidLPShares => "LP shares amount invalid",
            PredictionMarketError::MarketStillActive => "Cannot remove liquidity while market is active",
            PredictionMarketError::InvalidFixedPoint => "Invalid fixed-point calculation",
            PredictionMarketError::PriceImpactTooHigh => "Price impact too high",
            PredictionMarketError::InvariantViolation => "Constant product invariant violation",
            PredictionMarketError::InvalidFeeParams => "Invalid fee parameters",
            PredictionMarketError::TokenTransferFailed => "Token transfer failed",
            PredictionMarketError::InvalidVault => "Invalid vault account",
            PredictionMarketError::InvalidAccount => "Account not found or invalid",
            PredictionMarketError::ConversionOverflow => "Numerical overflow in conversion",
            PredictionMarketError::BettingPeriodEnded => "Betting period has ended",
            PredictionMarketError::InsufficientShares => "Insufficient shares",
            PredictionMarketError::InsufficientFunds => "Insufficient funds",
            PredictionMarketError::NoOutcomeSet => "No outcome set",
            PredictionMarketError::NoWinningsToClaim => "No winnings to claim",
            PredictionMarketError::MarketNotCancelled => "Market was not cancelled",
            PredictionMarketError::NoRefundAvailable => "No refund available",
            PredictionMarketError::InsufficientLPShares => "Insufficient LP shares",
            PredictionMarketError::BettingPeriodNotEnded => "Betting period has not ended",
            PredictionMarketError::MatchNotCompleted => "Match has not completed",
            PredictionMarketError::NoWinnerSet => "No winner set",
            PredictionMarketError::InvalidMatchStatus => "Invalid match status",
        }
    }
}

} // verus!
