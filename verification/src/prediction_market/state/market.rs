//! The market account and its pricing.
use vstd::prelude::*;
use crate::pubkey::Pubkey;

verus! {

/// Currency a market trades in.
#[derive(Clone, Copy, Debug, PartialEq, Eq, Structural)]
pub enum Currency {
    SOL,
    USDC,
    USDT,
}

impl Currency {
    /// Decimal places of the currency.
    pub fn decimals(&self) -> (d: u8)
        ensures
            d == match *self {
                Currency::SOL => 9u8,
                Currency::USDC => 6u8,
                Currency::USDT => 6u8,
            },
    {
        match self {
            Currency::SOL => 9,
            Currency::USDC => 6,
            Currency::USDT => 6,
        }
    }

    /// Numeric code of the currency: SOL 0, USDC 1, USDT 2.
    pub fn to_u8(&self) -> (c: u8)
        ensures
            c == match *self {
                Currency::SOL => 0u8,
                Currency::USDC => 1u8,
                Currency::USDT => 2u8,
            },
    {
        match self {
            Currency::SOL => 0,
            Currency::USDC => 1,
            Currency::USDT => 2,
        }
    }
}

/// Life cycle of a market.
#[derive(Clone, Copy, Debug, PartialEq, Eq, Structural)]
pub enum MarketStatus {
    /// Open for trading.
    Open,
    /// Betting period over, waiting for the battle.
    Locked,
    /// Battle over, market resolved.
    Resolved,
    /// The battle did not happen.
    Cancelled,
}

/// A prediction market priced by a constant-product pool of YES and NO.
#[derive(Clone, Copy, Debug)]
pub struct Market {
    pub market_id: u64,
    pub match_id: u64,
    pub scheduled_match: Pubkey,
    /// YES pool reserves.
    pub yes_pool: u64,
    /// NO pool reserves.
    pub no_pool: u64,
    /// Product of the pools after the last change.
    pub k_last: u128,
    /// Liquidity shares issued.
    pub total_liquidity: u64,
    /// Trading fee in basis points.
    pub fee_bps: u16,
    pub total_volume: u64,
    pub total_fees_collected: u64,
    /// Fees owed to liquidity providers.
    pub lp_fees: u64,
    /// Fees owed to the protocol.
    pub protocol_fees: u64,
    /// Fees owed to the match creator.
    pub creator_fees: u64,
    pub currency: Currency,
    pub vault: Option<Pubkey>,
    pub created_at: i64,
    pub betting_end_time: i64,
    pub resolved_at: Option<i64>,
    pub status: MarketStatus,
    /// After resolution: true when YES won.
    pub outcome: Option<bool>,
    pub winner: Option<Pubkey>,
    pub battle: Option<Pubkey>,
    pub creator: Pubkey,
    pub bump: u8,
}

/// YES price in basis points of pools `yes` and `no`: 5000 when both are empty.
pub open spec fn spec_yes_price_bps(yes: int, no: int) -> int {
    if yes == 0 && no == 0 {
        5000
    } else {
        let p = (yes * 10000) / (yes + no);
        if p < 10000 {
            p
        } else {
            10000
        }
    }
}

impl Market {
    /// Size of the stored account, discriminator included.
    pub const LEN: usize = 8 + 8 + 8 + 32 + 8 + 8 + 16 + 8 + 2 + 8 + 8 + 8 + 8 + 8 + 1 + (1 + 32) + 8 + 8
        + (1 + 8) + 1 + (1 + 1) + (1 + 32) + (1 + 32) + 32 + 1;

    /// Whether the market is open for trading.
    pub fn is_open(&self) -> (b: bool)
        ensures
            b == (self.status == MarketStatus::Open),
    {
        self.status == MarketStatus::Open
    }

    /// Whether the betting period is over at `current_time`.
    pub fn is_betting_ended(&self, current_time: i64) -> (b: bool)
        ensures
            b == (current_time >= self.betting_end_time),
    {
        current_time >= self.betting_end_time
    }

    /// Whether the market is resolved.
    pub fn is_resolved(&self) -> (b: bool)
        ensures
            b == (self.status == MarketStatus::Resolved),
    {
        self.status == MarketStatus::Resolved
    }

    /// Price of YES in basis points: its pool's share of both pools.
    pub fn yes_price_bps(&self) -> (p: u16)
        ensures
            p == spec_yes_price_bps(self.yes_pool as int, self.no_pool as int),
            p <= 10000,
    {
        if self.yes_pool == 0 && self.no_pool == 0 {
            return 5000;
        }
        let total: u128 = self.yes_pool as u128 + self.no_pool as u128;
        assert(self.yes_pool * 10000 <= u64::MAX * 10000);
        let price: u128 = (self.yes_pool as u128 * 10000) / total;
        if price < 10000 {
            price as u16
        } else {
            10000
        }
    }

    /// Price of NO in basis points: what YES leaves of 10000.
    pub fn no_price_bps(&self) -> (p: u16)
        ensures
            p == 10000 - spec_yes_price_bps(self.yes_pool as int, self.no_pool as int),
    {
        10000 - self.yes_price_bps()
    }
}

/// The YES and NO prices of a market always add up to 10000 basis points,
/// each between 0 and 10000; equal pools price both sides at 5000.
pub proof fn law_prices_sum_to_one(yes: u64, no: u64)
    ensures
        0 <= spec_yes_price_bps(yes as int, no as int) <= 10000,
        spec_yes_price_bps(yes as int, no as int) + (10000 - spec_yes_price_bps(yes as int, no as int))
            == 10000,
        yes == no ==> spec_yes_price_bps(yes as int, no as int) == 5000,
{
    if !(yes == 0 && no == 0) {
        assert(yes * 10000 >= 0);
        vstd::arithmetic::div_mod::lemma_div_pos_is_pos(yes * 10000, yes + no);
        if yes == no {
            assert((yes * 10000) / (yes + no) == 5000) by (nonlinear_arith)
                requires
                    yes == no,
                    yes > 0,
            {
                assert(yes * 10000 == 5000 * (yes + no));
            }
        }
    }
}

} // verus!
