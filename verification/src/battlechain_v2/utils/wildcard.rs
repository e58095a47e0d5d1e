//! The one-shot wildcard effect.
use vstd::prelude::*;
use crate::battlechain_v2::constants::FP_SCALE;
use crate::battlechain_v2::errors::GameError;
use crate::battlechain_v2::state::battle::Battle;
use crate::battlechain_v2::state::character::Character;
use crate::battlechain_v2::utils::math::{fp_mul, mul_fp_checked};

verus! {

/// `x + step`, saturating at the largest 64-bit value.
pub open spec fn sat_add_u64(x: u64, step: int) -> u64 {
    if x + step > u64::MAX {
        u64::MAX
    } else {
        (x + step) as u64
    }
}

/// `x + step`, saturating at the largest 8-bit value.
pub open spec fn sat_add_u8(x: u8, step: int) -> u8 {
    if x + step > u8::MAX {
        u8::MAX
    } else {
        (x + step) as u8
    }
}

/// `x + step`, saturating at the largest 32-bit value.
pub open spec fn sat_add_u32(x: u32, step: int) -> u32 {
    if x + step > u32::MAX {
        u32::MAX
    } else {
        (x + step) as u32
    }
}

/// The wildcard effect a roll selects, by code: 1 is +25% damage (40%),
/// 2 heals the attacker 10 hit points (30%), 3 puts a light damage-over-time
/// on the opponent (15%), 4 does nothing (10%), 5 doubles the damage (5%).
pub open spec fn wildcard_code(wild_roll: u64) -> u8 {
    let r = wild_roll % 10000;
    if r < 4000 {
        1
    } else if r < 7000 {
        2
    } else if r < 8500 {
        3
    } else if r < 9500 {
        4
    } else {
        5
    }
}

/// The damage multiplier of a wildcard code, in fixed point.
pub open spec fn wildcard_damage_fp(code: u8) -> int {
    if code == 1 {
        1_250_000
    } else if code == 5 {
        2_000_000
    } else {
        1_000_000
    }
}

/// The battle after a wildcard: the light damage-over-time of code 3 lands on
/// the opponent of the player on turn (player 2 when player 1 is on turn).
pub open spec fn battle_after_wildcard(b: Battle, code: u8) -> Battle {
    if code != 3 {
        b
    } else if b.current_turn == 1 {
        Battle {
            player2_dot_damage: sat_add_u64(b.player2_dot_damage, 2),
            player2_dot_turns: sat_add_u8(b.player2_dot_turns, 1),
            ..b
        }
    } else {
        Battle {
            player1_dot_damage: sat_add_u64(b.player1_dot_damage, 2),
            player1_dot_turns: sat_add_u8(b.player1_dot_turns, 1),
            ..b
        }
    }
}

/// The attacker after a wildcard: code 2 heals 10, capped at its maximum.
pub open spec fn attacker_after_wildcard(att: Character, code: u8) -> Character {
    if code != 2 {
        att
    } else {
        let hp = sat_add_u32(att.current_hp, 10);
        Character {
            current_hp: if hp > att.max_hp {
                att.max_hp
            } else {
                hp
            },
            ..att
        }
    }
}

/// Applies the wildcard effect a roll selects and returns its code; the
/// attacker is the player on turn. Fails, changing nothing, only when scaling
/// the damage overflows.
pub fn apply_wildcard_effect(
    wild_roll: u64,
    damage_fp: &mut u128,
    battle: &mut Battle,
    att: &mut Character,
    _def: &Character,
) -> (r: Result<u8, GameError>)
    ensures
        ({
            let code = wildcard_code(wild_roll);
            let m = wildcard_damage_fp(code);
            if m != 1_000_000 && *old(damage_fp) * m > u128::MAX {
                &&& r == Err::<u8, _>(GameError::MathOverflow)
                &&& *final(damage_fp) == *old(damage_fp)
                &&& *final(battle) == *old(battle)
                &&& *final(att) == *old(att)
            } else {
                &&& r == Ok::<u8, GameError>(code)
                &&& *final(damage_fp) == if m != 1_000_000 {
                    fp_mul(*old(damage_fp) as int, m) as u128
                } else {
                    *old(damage_fp)
                }
                &&& *final(battle) == battle_after_wildcard(*old(battle), code)
                &&& *final(att) == attacker_after_wildcard(*old(att), code)
            }
        }),
{
    let r = wild_roll % 10000;
    if r < 4000 {
        let add_fp = FP_SCALE * 125 / 100;
        *damage_fp = match mul_fp_checked(*damage_fp, add_fp) {
            Ok(v) => v,
            Err(e) => {
                return Err(e);
            },
        };
        return Ok(1);
    } else if r < 7000 {
        att.current_hp = att.current_hp.saturating_add(10);
        if att.current_hp > att.max_hp {
            att.current_hp = att.max_hp;
        }
        return Ok(2);
    } else if r < 8500 {
        if battle.current_turn == 1 {
            battle.player2_dot_damage = battle.player2_dot_damage.saturating_add(2);
            battle.player2_dot_turns = battle.player2_dot_turns.saturating_add(1);
        } else {
            battle.player1_dot_damage = battle.player1_dot_damage.saturating_add(2);
            battle.player1_dot_turns = battle.player1_dot_turns.saturating_add(1);
        }
        return Ok(3);
    } else if r < 9500 {
        return Ok(4);
    } else {
        *damage_fp = match mul_fp_checked(*damage_fp, FP_SCALE * 2) {
            Ok(v) => v,
            Err(e) => {
                return Err(e);
            },
        };
        return Ok(5);
    }
}

} // verus!
