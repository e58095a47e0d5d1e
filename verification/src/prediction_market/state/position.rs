//! A trader's holdings in one market.
use vstd::prelude::*;
use crate::pubkey::Pubkey;

verus! {

/// A trader's YES and NO shares in one market, with profit tracking.
#[derive(Clone, Copy, Debug)]
pub struct Position {
    pub market: Pubkey,
    pub owner: Pubkey,
    pub yes_shares: u64,
    pub no_shares: u64,
    /// Average YES entry price in basis points.
    pub avg_yes_entry_price: u64,
    /// Average NO entry price in basis points.
    pub avg_no_entry_price: u64,
    /// Currency put in over all buys.
    pub total_invested: u64,
    pub realized_pnl: i64,
    pub trade_count: u64,
    pub created_at: i64,
    pub last_trade_at: i64,
    pub claimed: bool,
    pub payout_amount: u64,
    pub bump: u8,
}

/// Worth of `yes` and `no` shares at the given prices in basis points,
/// truncated to 64 bits as returned.
pub open spec fn spec_position_value(yes: int, no: int, yes_price_bps: int, no_price_bps: int) -> int {
    ((yes * yes_price_bps) / 10000 + (no * no_price_bps) / 10000) as u64 as int
}

/// Signed difference of two unsigned amounts, each read as a 64-bit signed value.
pub open spec fn signed_gain(value: u64, cost: u64) -> int {
    (value as i64) as int - (cost as i64) as int
}

impl Position {
    /// Size of the stored account, discriminator included.
    pub const LEN: usize = 8 + 32 + 32 + 8 + 8 + 8 + 8 + 8 + 8 + 8 + 8 + 8 + 1 + 8 + 1;

    /// Worth of the position at the given prices.
    pub fn current_value(&self, yes_price_bps: u16, no_price_bps: u16) -> (v: u64)
        ensures
            v == spec_position_value(self.yes_shares as int, self.no_shares as int, yes_price_bps as int,
                no_price_bps as int),
    {
        assert(self.yes_shares * yes_price_bps <= u64::MAX * u16::MAX) by (nonlinear_arith)
            requires
                self.yes_shares <= u64::MAX,
                yes_price_bps <= u16::MAX,
        ;
        assert(self.no_shares * no_price_bps <= u64::MAX * u16::MAX) by (nonlinear_arith)
            requires
                self.no_shares <= u64::MAX,
                no_price_bps <= u16::MAX,
        ;
        let yes_value: u128 = (self.yes_shares as u128 * yes_price_bps as u128) / 10000;
        let no_value: u128 = (self.no_shares as u128 * no_price_bps as u128) / 10000;
        (yes_value + no_value) as u64
    }

    /// Gain of the position's worth over what was put in.
    pub fn unrealized_pnl(&self, yes_price_bps: u16, no_price_bps: u16) -> (p: i64)
        requires
            i64::MIN <= signed_gain(
                spec_position_value(self.yes_shares as int, self.no_shares as int, yes_price_bps as int,
                    no_price_bps as int) as u64,
                self.total_invested,
            ) <= i64::MAX,
        ensures
            p == signed_gain(
                spec_position_value(self.yes_shares as int, self.no_shares as int, yes_price_bps as int,
                    no_price_bps as int) as u64,
                self.total_invested,
            ),
    {
        let current = self.current_value(yes_price_bps, no_price_bps) as i64;
        let invested = self.total_invested as i64;
        current - invested
    }

    /// Realized gain plus the unrealized gain at the given prices.
    pub fn total_pnl(&self, yes_price_bps: u16, no_price_bps: u16) -> (p: i64)
        requires
            i64::MIN <= signed_gain(
                spec_position_value(self.yes_shares as int, self.no_shares as int, yes_price_bps as int,
                    no_price_bps as int) as u64,
                self.total_invested,
            ) <= i64::MAX,
            i64::MIN <= self.realized_pnl + signed_gain(
                spec_position_value(self.yes_shares as int, self.no_shares as int, yes_price_bps as int,
                    no_price_bps as int) as u64,
                self.total_invested,
            ) <= i64::MAX,
        ensures
            p == self.realized_pnl + signed_gain(
                spec_position_value(self.yes_shares as int, self.no_shares as int, yes_price_bps as int,
                    no_price_bps as int) as u64,
                self.total_invested,
            ),
    {
        self.realized_pnl + self.unrealized_pnl(yes_price_bps, no_price_bps)
    }

    /// Whether the position holds shares of the winning side and has not
    /// been paid yet.
    pub fn can_claim(&self, outcome: Option<bool>) -> (b: bool)
        ensures
            b == spec_can_claim(*self, outcome),
    {
        if self.claimed {
            return false;
        }
        match outcome {
            Some(true) => self.yes_shares > 0,
            Some(false) => self.no_shares > 0,
            None => false,
        }
    }
}

/// A position can claim when unclaimed and holding winning shares.
pub open spec fn spec_can_claim(p: Position, outcome: Option<bool>) -> bool {
    !p.claimed && match outcome {
        Some(true) => p.yes_shares > 0,
        Some(false) => p.no_shares > 0,
        None => false,
    }
}

} // verus!
