//! Battle offers and join requests.
use vstd::prelude::*;
use crate::battlechain_v2::state::character::CharacterClass;
use crate::pubkey::Pubkey;

verus! {

/// Currency of a stake.
#[derive(Clone, Copy, Debug)]
pub enum Currency {
    SOL,
    SPL(Pubkey),
}

impl PartialEq for Currency {
    fn eq(&self, other: &Currency) -> (r: bool) {
        match (self, other) {
            (Currency::SOL, Currency::SOL) => true,
            (Currency::SPL(a), Currency::SPL(b)) => a == b,
            _ => false,
        }
    }
}

impl vstd::std_specs::cmp::PartialEqSpecImpl for Currency {
    open spec fn obeys_eq_spec() -> bool {
        true
    }

    open spec fn eq_spec(&self, other: &Currency) -> bool {
        *self == *other
    }
}

impl Eq for Currency {
}

/// State of a join request.
#[derive(Clone, Copy, Debug, PartialEq, Eq, Structural)]
pub enum JoinStatus {
    Pending,
    Approved,
    Rejected,
    Withdrawn,
}

/// An offer to battle, with its stake and who may join.
#[derive(Clone, Debug)]
pub struct Offer {
    pub creator: Pubkey,
    pub offer_nonce: u64,
    pub currency: Currency,
    pub stake_amount: u64,
    pub min_level: u16,
    pub max_level: u16,
    /// Classes that may join; empty means any (at most 5 stored).
    pub allowed_classes: Vec<CharacterClass>,
    pub auto_approve: bool,
    pub start_ts: i64,
    pub inactivity_timeout: i64,
    pub created_at: i64,
    pub is_active: bool,
    pub bump: u8,
}

/// A challenger's request to join an offer.
#[derive(Clone, Copy, Debug)]
pub struct Request {
    pub offer: Pubkey,
    pub challenger: Pubkey,
    pub character: Pubkey,
    pub offered_stake: u64,
    pub created_at: i64,
    pub status: JoinStatus,
    pub bump: u8,
}

} // verus!
