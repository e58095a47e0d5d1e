//! A liquidity provider's stake in one market.
use vstd::prelude::*;
use crate::pubkey::Pubkey;

verus! {

/// A liquidity provider's shares in one market, with entry data.
#[derive(Clone, Copy, Debug)]
pub struct LiquidityPosition {
    pub market: Pubkey,
    pub provider: Pubkey,
    /// Liquidity shares held.
    pub lp_shares: u64,
    pub yes_deposited: u64,
    pub no_deposited: u64,
    /// Currency value put in.
    pub entry_value: u64,
    /// Fees collected so far.
    pub fees_earned: u64,
    pub last_fee_collection: i64,
    pub deposited_at: i64,
    pub withdrawn_at: Option<i64>,
    pub withdrawn: bool,
    pub bump: u8,
}

/// Millionths of the pool that `lp_shares` of `total` make up.
pub open spec fn spec_share_ratio(lp_shares: int, total: int) -> int {
    (lp_shares * 1_000_000) / total
}

/// Worth of the position's share of the pools, truncated to 64 bits as
/// computed.
pub open spec fn spec_lp_current_value(lp_shares: int, yes_pool: int, no_pool: int, total: int) -> int {
    let ratio = spec_share_ratio(lp_shares, total);
    ((yes_pool * ratio) / 1_000_000 + (no_pool * ratio) / 1_000_000) as u64 as int
}

/// Gain or loss of the position's worth against what was put in.
pub open spec fn spec_impermanent_loss(p: LiquidityPosition, yes_pool: int, no_pool: int, total: int) -> int {
    if total == 0 {
        0
    } else {
        ((spec_lp_current_value(p.lp_shares as int, yes_pool, no_pool, total) as u64) as i64) as int - (
        p.entry_value as i64) as int
    }
}

impl LiquidityPosition {
    /// Size of the stored account, discriminator included.
    pub const LEN: usize = 8 + 32 + 32 + 8 + 8 + 8 + 8 + 8 + 8 + 8 + (1 + 8) + 1 + 1;

    /// Gain or loss of the position's worth in the current pools against what
    /// was put in.
    pub fn calculate_il(&self, current_yes_pool: u64, current_no_pool: u64, total_liquidity: u64) -> (il: i64)
        requires
            total_liquidity > 0 ==> current_yes_pool * spec_share_ratio(self.lp_shares as int,
                total_liquidity as int) <= u128::MAX,
            total_liquidity > 0 ==> current_no_pool * spec_share_ratio(self.lp_shares as int,
                total_liquidity as int) <= u128::MAX,
            total_liquidity > 0 ==> (current_yes_pool * spec_share_ratio(self.lp_shares as int,
                total_liquidity as int)) / 1_000_000 + (current_no_pool * spec_share_ratio(
                self.lp_shares as int,
                total_liquidity as int,
            )) / 1_000_000 <= u128::MAX,
            i64::MIN <= spec_impermanent_loss(*self, current_yes_pool as int, current_no_pool as int,
                total_liquidity as int) <= i64::MAX,
        ensures
            il == spec_impermanent_loss(*self, current_yes_pool as int, current_no_pool as int,
                total_liquidity as int),
    {
        if total_liquidity == 0 {
            return 0;
        }
        assert(self.lp_shares * 1_000_000 <= u64::MAX * 1_000_000);
        let share_ratio: u128 = (self.lp_shares as u128 * 1_000_000) / total_liquidity as u128;
        let current_yes: u128 = (current_yes_pool as u128 * share_ratio) / 1_000_000;
        let current_no: u128 = (current_no_pool as u128 * share_ratio) / 1_000_000;
        let current_value: u64 = (current_yes + current_no) as u64;
        current_value as i64 - self.entry_value as i64
    }

    /// Impermanent loss plus the fees earned.
    pub fn total_returns(&self, current_yes_pool: u64, current_no_pool: u64, total_liquidity: u64) -> (t: i64)
        requires
            total_liquidity > 0 ==> current_yes_pool * spec_share_ratio(self.lp_shares as int,
                total_liquidity as int) <= u128::MAX,
            total_liquidity > 0 ==> current_no_pool * spec_share_ratio(self.lp_shares as int,
                total_liquidity as int) <= u128::MAX,
            total_liquidity > 0 ==> (current_yes_pool * spec_share_ratio(self.lp_shares as int,
                total_liquidity as int)) / 1_000_000 + (current_no_pool * spec_share_ratio(
                self.lp_shares as int,
                total_liquidity as int,
            )) / 1_000_000 <= u128::MAX,
            i64::MIN <= spec_impermanent_loss(*self, current_yes_pool as int, current_no_pool as int,
                total_liquidity as int) <= i64::MAX,
            i64::MIN <= spec_impermanent_loss(*self, current_yes_pool as int, current_no_pool as int,
                total_liquidity as int) + (self.fees_earned as i64) as int <= i64::MAX,
        ensures
            t == spec_impermanent_loss(*self, current_yes_pool as int, current_no_pool as int,
                total_liquidity as int) + (self.fees_earned as i64) as int,
    {
        let il = self.calculate_il(current_yes_pool, current_no_pool, total_liquidity);
        il + self.fees_earned as i64
    }
}

} // verus!
