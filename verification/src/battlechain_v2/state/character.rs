//! Characters and their progression.
use vstd::prelude::*;
use crate::pubkey::Pubkey;

verus! {

/// Class of a character.
#[derive(Clone, Copy, Debug, PartialEq, Eq, Structural)]
pub enum CharacterClass {
    Warrior,
    Assassin,
    Mage,
    Tank,
    Trickster,
}

impl CharacterClass {
    /// Numeric code of the class, 0 to 4 in declaration order.
    pub fn to_u8(&self) -> (c: u8)
        ensures
            c == class_code(*self),
    {
        match self {
            CharacterClass::Warrior => 0,
            CharacterClass::Assassin => 1,
            CharacterClass::Mage => 2,
            CharacterClass::Tank => 3,
            CharacterClass::Trickster => 4,
        }
    }
}

/// Numeric code of a class, 0 to 4 in declaration order.
pub open spec fn class_code(c: CharacterClass) -> u8 {
    match c {
        CharacterClass::Warrior => 0,
        CharacterClass::Assassin => 1,
        CharacterClass::Mage => 2,
        CharacterClass::Tank => 3,
        CharacterClass::Trickster => 4,
    }
}

/// A battle character tied to an NFT.
#[derive(Clone, Copy, Debug)]
pub struct Character {
    pub nft_mint: Pubkey,
    pub base_class: CharacterClass,
    pub max_hp: u32,
    pub current_hp: u32,
    pub base_damage_min: u16,
    pub base_damage_max: u16,
    /// Critical-hit chance in basis points.
    pub crit_bps: u16,
    /// Critical-hit multiplier in fixed point.
    pub crit_multiplier_fp: u32,
    /// Dodge chance in basis points.
    pub dodge_bps: u16,
    pub defense: u16,
    pub special_cooldown: u8,
    pub last_base_damage: u16,
    pub combo_count: u8,
    pub lifes: u8,
    pub mod_attack_bps: i16,
    pub mod_defense_bps: i16,
    pub mod_crit_bps: i16,
    pub rarity: u8,
    pub created_at: i64,
    pub bump: u8,
}

/// Experience and level of a character's NFT.
#[derive(Clone, Copy, Debug)]
pub struct Progression {
    pub nft_mint: Pubkey,
    pub xp: u64,
    pub level: u16,
    pub mmr: u64,
    pub last_played: i64,
    pub bump: u8,
}

/// Trait modifiers applied to a character.
#[derive(Clone, Copy, Debug, Default)]
pub struct TraitBundle {
    pub rarity: u8,
    pub attack_bps: i16,
    pub defense_bps: i16,
    pub crit_bps: i16,
    pub nonce: i64,
}

} // verus!
