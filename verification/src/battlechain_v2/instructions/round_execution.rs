//! Turn resolution and rounds of three turns.
use vstd::prelude::*;
use crate::battlechain_v2::constants::{
    DEFAULT_CRIT_FP, FP_SCALE, MAX_COMBO_STACK, MAX_ROUNDS, TURNS_PER_ROUND,
};
use crate::battlechain_v2::errors::GameError;
use crate::battlechain_v2::instructions::damage::{
    apply_hit, conclude_spec, conclude_levels, conclude_battle, hit_spec, law_hit_never_heals, law_settle_outcome, law_tick_never_heals, scale_damage,
    sat_sub, scaled_damage, settle_levels, settle_spec, settle_turn, someone_down, spec_winner, tick_effects,
    tick_spec, Hit,
};
use crate::battlechain_v2::instructions::turn::{
    law_pool_turn_never_heals, lemma_pool_turn_frame, play_turn, pool_turn_levels, pool_turn_spec, preference_spec,
    set_preference,
};
use crate::battlechain_v2::state::battle::{Battle, BattleState, StanceType};
use crate::battlechain_v2::state::character::{Character, CharacterClass, Progression};
use crate::battlechain_v2::state::entropy::EntropyPool;
use crate::battlechain_v2::utils::math::{fp_mul, mul_fp_checked};
use crate::battlechain_v2::utils::stance::{
    sample_stance_with_preference, spec_sample_stance, spec_stance_multipliers, stance_multipliers,
};
use crate::battlechain_v2::utils::wildcard::{
    apply_wildcard_effect, attacker_after_wildcard, battle_after_wildcard, sat_add_u64, sat_add_u8,
    wildcard_code, wildcard_damage_fp,
};
use crate::pubkey::Pubkey;

verus! {

/// A player's move for one turn.
#[derive(Clone, Copy, Debug)]
pub struct TurnMove {
    /// Stance preference 0 to 4, or negative for none.
    pub preference: i8,
    /// Use the class special ability.
    pub use_special: bool,
    /// Use the one-shot wildcard.
    pub use_wildcard: bool,
}

/// A player's moves for a round: three turns at once.
#[derive(Clone, Debug)]
pub struct RoundMoves {
    pub moves: Vec<TurnMove>,
}

/// Everything a turn reads and writes: the battle, both characters and both
/// progressions, seen from the attacker.
#[derive(Clone, Copy, Debug)]
pub struct Combatants {
    pub battle: Battle,
    pub attacker: Character,
    pub defender: Character,
    pub attacker_prog: Progression,
    pub defender_prog: Progression,
}

/// The six random values a turn draws from one entropy seed: base damage,
/// critical hit, dodge, wildcard, attacker stance and defender stance.
#[derive(Clone, Copy, Debug)]
pub struct TurnRolls {
    pub base: u64,
    pub crit: u64,
    pub dodge: u64,
    pub wild: u64,
    pub attacker_stance: u64,
    pub defender_stance: u64,
}

/// The attack as rolled, before moves and stances scale it.
#[derive(Clone, Copy, Debug)]
pub struct AttackRoll {
    pub base_roll: u64,
    pub crit_roll: u64,
    pub dodge_roll: u64,
    pub wild_roll: u64,
    pub att_stance: StanceType,
    pub def_stance: StanceType,
    /// Base damage with the level bonus.
    pub base_damage: u128,
    /// Damage in fixed point after critical hit and combo.
    pub damage_fp: u128,
    pub is_crit: bool,
    pub combo_applied: bool,
}

/// The base damage a raw roll gives within the attacker's damage range.
#[verifier::opaque]
pub open spec fn spec_roll_base(a: Character, raw: u64) -> int {
    (raw as int) % ((a.base_damage_max - a.base_damage_min + 1) as int) + a.base_damage_min
}

/// Bonus base damage of a level: two per level above the first.
pub open spec fn level_bonus(level: u16) -> int {
    if level >= 1 {
        (level - 1) * 2
    } else {
        0
    }
}

/// The attacker's critical-hit multiplier, the default when none is set.
pub open spec fn spec_crit_mult(a: Character) -> int {
    if a.crit_multiplier_fp > 0 {
        a.crit_multiplier_fp as int
    } else {
        DEFAULT_CRIT_FP as int
    }
}

/// The attacker's critical-hit chance in basis points with its crit bonus.
pub open spec fn spec_crit_chance(a: Character) -> int {
    a.crit_bps + a.mod_crit_bps
}

/// The stance preference of the attacker.
pub open spec fn attacker_pref(b: Battle, is_player1: bool) -> (bool, u8) {
    if is_player1 {
        (b.player1_pref_set, b.player1_preference)
    } else {
        (b.player2_pref_set, b.player2_preference)
    }
}

/// The stance preference of the defender.
pub open spec fn defender_pref(b: Battle, is_player1: bool) -> (bool, u8) {
    if is_player1 {
        (b.player2_pref_set, b.player2_preference)
    } else {
        (b.player1_pref_set, b.player1_preference)
    }
}

/// The combo count after a roll: one more (at most the cap) when the base
/// roll repeats the last one, else zero.
pub open spec fn next_combo(a: Character, base: int) -> int {
    if a.last_base_damage == base {
        let c = sat_add_u8(a.combo_count, 1);
        if c > MAX_COMBO_STACK {
            MAX_COMBO_STACK as int
        } else {
            c as int
        }
    } else {
        0
    }
}

/// Rolling the attack: base damage in the attacker's range plus the level
/// bonus, the stances both sides take, a critical hit, and a combo when the
/// base roll repeats.
#[verifier::opaque]
pub open spec fn prepare_spec(f: Combatants, is_player1: bool, r: TurnRolls) -> (Combatants, AttackRoll) {
    let base = spec_roll_base(f.attacker, r.base);
    let att_st = spec_sample_stance(f.attacker.base_class, attacker_pref(f.battle, is_player1), r.attacker_stance);
    let def_st = spec_sample_stance(f.defender.base_class, defender_pref(f.battle, is_player1), r.defender_stance);
    let battle = if is_player1 {
        Battle { player1_stance: att_st, player2_stance: def_st, ..f.battle }
    } else {
        Battle { player2_stance: att_st, player1_stance: def_st, ..f.battle }
    };
    let base_u = base + level_bonus(f.attacker_prog.level);
    let is_crit = (r.crit % 10000) < spec_crit_chance(f.attacker);
    let d1 = crit_damage(base_u, is_crit, spec_crit_mult(f.attacker));
    let combo = next_combo(f.attacker, base);
    let same = f.attacker.last_base_damage == base;
    let d2 = if same {
        fp_mul(d1, FP_SCALE + 150_000 * combo)
    } else {
        d1
    };
    let attacker = Character { combo_count: combo as u8, last_base_damage: base as u16, ..f.attacker };
    (
        Combatants { battle, attacker, ..f },
        AttackRoll {
            base_roll: base as u64,
            crit_roll: r.crit % 10000,
            dodge_roll: r.dodge % 10000,
            wild_roll: r.wild % 10000,
            att_stance: att_st,
            def_stance: def_st,
            base_damage: base_u as u128,
            damage_fp: d2 as u128,
            is_crit,
            combo_applied: same,
        },
    )
}

/// Fixed-point scaling stays within bounds: for a value at most `d_max` and a
/// multiplier at most `m_max`, the raw product and the result are bounded.
pub proof fn lemma_fp_mul_bound(d: int, m: int, d_max: int, m_max: int)
    requires
        0 <= d <= d_max,
        0 <= m <= m_max,
    ensures
        0 <= d * m <= d_max * m_max,
        0 <= fp_mul(d, m) <= (d_max * m_max) / 1_000_000,
{
    assert(0 <= d * m <= d_max * m_max) by (nonlinear_arith)
        requires
            0 <= d <= d_max,
            0 <= m <= m_max,
    ;
    vstd::arithmetic::div_mod::lemma_div_is_ordered(d * m, d_max * m_max, 1_000_000);
    vstd::arithmetic::div_mod::lemma_div_pos_is_pos(d * m, 1_000_000);
}

/// The base damage a raw roll gives within the attacker's damage range.
pub fn roll_base(a: &Character, raw: u64) -> (base: u64)
    requires
        a.base_damage_max >= a.base_damage_min,
    ensures
        base == spec_roll_base(*a, raw),
        a.base_damage_min <= base <= a.base_damage_max,
{
    let min_d = a.base_damage_min as u64;
    let max_d = a.base_damage_max as u64;
    let range = max_d - min_d + 1;
    let m = raw % range;
    assert(m < range) by {
        vstd::arithmetic::div_mod::lemma_mod_bound(raw as int, range as int);
    }
    proof {
        reveal(spec_roll_base);
    }
    m + min_d
}

/// The stances the attacker and defender take.
pub fn pick_stances(f: &Combatants, is_player1: bool, r: TurnRolls) -> (st: (StanceType, StanceType))
    ensures
        st.0 == spec_sample_stance(f.attacker.base_class, attacker_pref(f.battle, is_player1), r.attacker_stance),
        st.1 == spec_sample_stance(f.defender.base_class, defender_pref(f.battle, is_player1), r.defender_stance),
{
    let att_pref = if is_player1 {
        (f.battle.player1_pref_set, f.battle.player1_preference)
    } else {
        (f.battle.player2_pref_set, f.battle.player2_preference)
    };
    let def_pref = if is_player1 {
        (f.battle.player2_pref_set, f.battle.player2_preference)
    } else {
        (f.battle.player1_pref_set, f.battle.player1_preference)
    };
    let att_stance = sample_stance_with_preference(f.attacker.base_class, att_pref, r.attacker_stance);
    let def_stance = sample_stance_with_preference(f.defender.base_class, def_pref, r.defender_stance);
    (att_stance, def_stance)
}

/// Damage in fixed point after the critical hit: the base damage times the
/// scale, times the critical multiplier on a critical hit.
#[verifier::opaque]
pub open spec fn crit_damage(base_u: int, is_crit: bool, mult: int) -> int {
    if is_crit {
        fp_mul(base_u * FP_SCALE, mult)
    } else {
        base_u * FP_SCALE
    }
}

/// Scales the base damage to fixed point and applies a critical hit.
pub fn apply_crit(base_u: u128, is_crit: bool, crit_mult_fp: u128) -> (d: u128)
    requires
        base_u <= 196_603,
        crit_mult_fp <= u32::MAX,
    ensures
        d == crit_damage(base_u as int, is_crit, crit_mult_fp as int),
        d <= 196_603_000_000 * 4295,
{
    let damage_fp: u128 = base_u * FP_SCALE;
    proof {
        reveal(crit_damage);
        lemma_fp_mul_bound(damage_fp as int, crit_mult_fp as int, 196_603_000_000, 4_294_967_295);
    }
    if is_crit {
        match mul_fp_checked(damage_fp, crit_mult_fp) {
            Ok(v) => v,
            Err(_) => {
                assert(false);
                damage_fp
            },
        }
    } else {
        damage_fp
    }
}

/// Applies a combo multiplier of 1 + 0.15 per combo step.
pub fn apply_combo(d: u128, combo: u8) -> (r: u128)
    requires
        d <= 196_603_000_000 * 4295,
        combo <= 5,
    ensures
        r == fp_mul(d as int, FP_SCALE + 150_000 * combo),
        r <= 196_603_000_000 * 4295 * 2,
{
    let combo_mult_fp: u128 = FP_SCALE + (150_000u128 * (combo as u128));
    proof {
        lemma_fp_mul_bound(d as int, combo_mult_fp as int, 196_603_000_000int * 4295, 1_750_000);
    }
    match mul_fp_checked(d, combo_mult_fp) {
        Ok(v) => v,
        Err(_) => {
            assert(false);
            d
        },
    }
}

/// Whether a roll below 10000 is a critical hit for the attacker, and the
/// attacker's critical multiplier.
fn crit_of(a: &Character, crit_roll: u64) -> (r: (bool, u128))
    requires
        crit_roll < 10000,
    ensures
        r.0 == (crit_roll < spec_crit_chance(*a)),
        r.1 == spec_crit_mult(*a),
        r.1 <= u32::MAX,
{
    let stored_crit_fp = a.crit_multiplier_fp as u128;
    let crit_mult_fp = if stored_crit_fp > 0 {
        stored_crit_fp
    } else {
        DEFAULT_CRIT_FP
    };
    let crit_chance: i64 = a.crit_bps as i64 + a.mod_crit_bps as i64;
    ((crit_roll as i64) < crit_chance, crit_mult_fp)
}

/// Rolls the attack and records the stances and the combo.
#[verifier::rlimit(60)]
pub fn prepare_attack(f: &mut Combatants, is_player1: bool, r: TurnRolls) -> (roll: AttackRoll)
    requires
        old(f).attacker.base_damage_max >= old(f).attacker.base_damage_min,
    ensures
        (*final(f), roll) == prepare_spec(*old(f), is_player1, r),
        roll.base_damage <= 196_603,
        roll.damage_fp <= 196_603_000_000 * 4295 * 2,
{
    proof {
        reveal(prepare_spec);
    }
    let base_rand = roll_base(&f.attacker, r.base);
    let crit_roll = r.crit % 10000;
    let dodge_roll = r.dodge % 10000;
    let wild_roll = r.wild % 10000;
    let (att_stance, def_stance) = pick_stances(f, is_player1, r);
    if is_player1 {
        f.battle.player1_stance = att_stance;
        f.battle.player2_stance = def_stance;
    } else {
        f.battle.player2_stance = att_stance;
        f.battle.player1_stance = def_stance;
    }

    let attacker_level = f.attacker_prog.level as u64;
    let level_bonus_dmg: u64 = attacker_level.saturating_sub(1) * 2;
    let base_u128: u128 = base_rand as u128 + level_bonus_dmg as u128;

    let (is_crit, crit_mult_fp) = crit_of(&f.attacker, crit_roll);
    let mut damage_fp = apply_crit(base_u128, is_crit, crit_mult_fp);

    let last_base = f.attacker.last_base_damage;
    let current_base: u16 = base_rand as u16;
    let same = last_base == current_base;
    if same {
        f.attacker.combo_count = f.attacker.combo_count.saturating_add(1);
        if f.attacker.combo_count > MAX_COMBO_STACK {
            f.attacker.combo_count = MAX_COMBO_STACK;
        }
        damage_fp = apply_combo(damage_fp, f.attacker.combo_count);
    } else {
        f.attacker.combo_count = 0;
    }
    f.attacker.last_base_damage = current_base;
    AttackRoll {
        base_roll: base_rand,
        crit_roll,
        dodge_roll,
        wild_roll,
        att_stance,
        def_stance,
        base_damage: base_u128,
        damage_fp,
        is_crit,
        combo_applied: same,
    }
}


/// Largest damage, in fixed point, a turn can reach after the combo step.
pub open spec fn combo_damage_cap() -> int {
    196_603_000_000int * 4295 * 2
}

/// Using the wildcard: once per battle per player; the effect the roll
/// selects then scales the damage, heals the attacker, or burdens the
/// opponent.
pub open spec fn wildcard_move_spec(f: Combatants, is_player1: bool, d: int, wild_roll: u64) -> Result<
    (Combatants, int, u8),
    GameError,
> {
    let used = if is_player1 {
        f.battle.player1_used_wildcard
    } else {
        f.battle.player2_used_wildcard
    };
    if used {
        Err(GameError::InvalidRequestState)
    } else {
        let b1 = if is_player1 {
            Battle { player1_used_wildcard: true, ..f.battle }
        } else {
            Battle { player2_used_wildcard: true, ..f.battle }
        };
        let code = wildcard_code(wild_roll);
        let m = wildcard_damage_fp(code);
        let d2 = if m != 1_000_000 {
            fp_mul(d, m)
        } else {
            d
        };
        Ok(
            (
                Combatants {
                    battle: battle_after_wildcard(b1, code),
                    attacker: attacker_after_wildcard(f.attacker, code),
                    ..f
                },
                d2,
                code,
            ),
        )
    }
}

/// Plays the wildcard. On failure nothing changes.
pub fn use_wildcard_move(f: &mut Combatants, is_player1: bool, damage_fp: u128, wild_roll: u64) -> (r: Result<
    (u128, u8),
    GameError,
>)
    requires
        damage_fp <= combo_damage_cap(),
    ensures
        match wildcard_move_spec(*old(f), is_player1, damage_fp as int, wild_roll) {
            Err(e) => r == Err::<(u128, u8), _>(e) && *final(f) == *old(f),
            Ok((f2, d2, code)) => ({
                &&& 0 <= d2 <= 2 * combo_damage_cap()
                &&& r == Ok::<(u128, u8), GameError>((d2 as u128, code))
                &&& *final(f) == f2
            }),
        },
{
    if is_player1 {
        if f.battle.player1_used_wildcard {
            return Err(GameError::InvalidRequestState);
        }
        f.battle.player1_used_wildcard = true;
    } else {
        if f.battle.player2_used_wildcard {
            return Err(GameError::InvalidRequestState);
        }
        f.battle.player2_used_wildcard = true;
    }
    let mut d = damage_fp;
    proof {
        lemma_fp_mul_bound(d as int, 2_000_000, combo_damage_cap(), 2_000_000);
        lemma_fp_mul_bound(d as int, 1_250_000, combo_damage_cap(), 2_000_000);
    }
    let code = match apply_wildcard_effect(wild_roll, &mut d, &mut f.battle, &mut f.attacker, &f.defender) {
        Ok(c) => c,
        Err(_) => {
            assert(false);
            0
        },
    };
    Ok((d, code))
}

/// Using the class special: once per battle per player and only off
/// cooldown. Warrior's Battle Fury adds 50% to the damage (see
/// `fury_continues` for its second turn); Assassin's Shadow Strike makes the
/// hit critical when the roll did not (its damage held at twice the combo
/// cap, far above what the final cap lets through) and meets only half the
/// defense (see `shadow_strike`); Mage's Arcane Blast takes 25 health from the opponent
/// past every defense; Tank's Iron Wall sends back all of the damage of the
/// next attack it meets; Trickster's Wild Card sets off the wildcard effect
/// the roll selects. Each then waits out its cooldown (3, 2, 3, 4 and 2).
pub open spec fn special_move_spec(f: Combatants, is_player1: bool, d: int, wild_roll: u64, is_crit: bool) -> Result<
    (Combatants, int),
    GameError,
> {
    let used = if is_player1 {
        f.battle.player1_special_used
    } else {
        f.battle.player2_special_used
    };
    if used {
        Err(GameError::InvalidRequestState)
    } else if f.attacker.special_cooldown != 0 {
        Err(GameError::SpecialOnCooldown)
    } else {
        let b = if is_player1 {
            Battle { player1_special_used: true, ..f.battle }
        } else {
            Battle { player2_special_used: true, ..f.battle }
        };
        match f.attacker.base_class {
            CharacterClass::Warrior => Ok(
                (
                    Combatants { battle: b, attacker: Character { special_cooldown: 3, ..f.attacker }, ..f },
                    fp_mul(d, 1_500_000),
                ),
            ),
            CharacterClass::Assassin => Ok(
                (
                    Combatants { battle: b, attacker: Character { special_cooldown: 2, ..f.attacker }, ..f },
                    if is_crit {
                        d
                    } else if fp_mul(d, spec_crit_mult(f.attacker)) > 2 * combo_damage_cap() {
                        2 * combo_damage_cap()
                    } else {
                        fp_mul(d, spec_crit_mult(f.attacker))
                    },
                ),
            ),
            CharacterClass::Mage => {
                let b2 = if is_player1 {
                    Battle { player2_health: sat_sub(b.player2_health, 25), ..b }
                } else {
                    Battle { player1_health: sat_sub(b.player1_health, 25), ..b }
                };
                Ok((Combatants { battle: b2, attacker: Character { special_cooldown: 3, ..f.attacker }, ..f }, d))
            },
            CharacterClass::Tank => {
                let b2 = if is_player1 {
                    Battle { player1_reflection: 100, ..b }
                } else {
                    Battle { player2_reflection: 100, ..b }
                };
                Ok((Combatants { battle: b2, attacker: Character { special_cooldown: 4, ..f.attacker }, ..f }, d))
            },
            CharacterClass::Trickster => {
                let code = wildcard_code(wild_roll);
                let m = wildcard_damage_fp(code);
                Ok(
                    (
                        Combatants {
                            battle: battle_after_wildcard(b, code),
                            attacker: Character { special_cooldown: 2, ..attacker_after_wildcard(f.attacker, code) },
                            ..f
                        },
                        if m != 1_000_000 {
                            fp_mul(d, m)
                        } else {
                            d
                        },
                    ),
                )
            },
        }
    }
}

/// `x + step`, saturating at the largest 16-bit value.
pub open spec fn sat_add_u16(x: u16, step: int) -> u16 {
    if x + step > u16::MAX {
        u16::MAX
    } else {
        (x + step) as u16
    }
}

/// Plays the class special. On failure nothing changes.
pub fn use_special_move(f: &mut Combatants, is_player1: bool, damage_fp: u128, wild_roll: u64, is_crit: bool) -> (r:
    Result<u128, GameError>)
    requires
        damage_fp <= 2 * combo_damage_cap(),
    ensures
        match special_move_spec(*old(f), is_player1, damage_fp as int, wild_roll, is_crit) {
            Err(e) => r == Err::<u128, _>(e) && *final(f) == *old(f),
            Ok((f2, d2)) => ({
                &&& 0 <= d2 <= 6 * combo_damage_cap()
                &&& r == Ok::<u128, GameError>(d2 as u128)
                &&& *final(f) == f2
            }),
        },
{
    let used = if is_player1 {
        f.battle.player1_special_used
    } else {
        f.battle.player2_special_used
    };
    if used {
        return Err(GameError::InvalidRequestState);
    }
    if f.attacker.special_cooldown != 0 {
        return Err(GameError::SpecialOnCooldown);
    }
    if is_player1 {
        f.battle.player1_special_used = true;
    } else {
        f.battle.player2_special_used = true;
    }
    proof {
        lemma_fp_mul_bound(damage_fp as int, 3_000_000, 2 * combo_damage_cap(), 3_000_000);
        lemma_fp_mul_bound(damage_fp as int, 2_000_000, 2 * combo_damage_cap(), 3_000_000);
        lemma_fp_mul_bound(damage_fp as int, 1_500_000, 2 * combo_damage_cap(), 3_000_000);
        lemma_fp_mul_bound(damage_fp as int, 1_250_000, 2 * combo_damage_cap(), 3_000_000);
    }
    let mut d = damage_fp;
    match f.attacker.base_class {
        CharacterClass::Warrior => {
            d = match mul_fp_checked(d, FP_SCALE * 3 / 2) {
                Ok(v) => v,
                Err(_) => {
                    assert(false);
                    d
                },
            };
            f.attacker.special_cooldown = 3;
        },
        CharacterClass::Assassin => {
            if !is_crit {
                let (_, mult) = crit_of(&f.attacker, 0);
                proof {
                    lemma_fp_mul_bound(damage_fp as int, mult as int, 2 * combo_damage_cap(), u32::MAX as int);
                }
                let c = match mul_fp_checked(d, mult) {
                    Ok(v) => v,
                    Err(_) => {
                        assert(false);
                        d
                    },
                };
                let cap: u128 = 2 * (196_603_000_000u128 * 4295 * 2);
                d = if c > cap {
                    cap
                } else {
                    c
                };
            }
            f.attacker.special_cooldown = 2;
        },
        CharacterClass::Mage => {
            if is_player1 {
                f.battle.player2_health = f.battle.player2_health.saturating_sub(25);
            } else {
                f.battle.player1_health = f.battle.player1_health.saturating_sub(25);
            }
            f.attacker.special_cooldown = 3;
        },
        CharacterClass::Tank => {
            if is_player1 {
                f.battle.player1_reflection = 100;
            } else {
                f.battle.player2_reflection = 100;
            }
            f.attacker.special_cooldown = 4;
        },
        CharacterClass::Trickster => {
            match apply_wildcard_effect(wild_roll, &mut d, &mut f.battle, &mut f.attacker, &f.defender) {
                Ok(_) => {},
                Err(_) => {
                    assert(false);
                },
            }
            f.attacker.special_cooldown = 2;
        },
    }
    Ok(d)
}

/// Battle Fury lasts two turns: a Warrior that used its special on its last
/// attack (its cooldown of 3 has ticked once, to 2) adds 50% again.
pub open spec fn fury_continues(f: Combatants, is_player1: bool) -> bool {
    &&& f.attacker.base_class == CharacterClass::Warrior
    &&& f.attacker.special_cooldown == 2
    &&& if is_player1 {
        f.battle.player1_special_used
    } else {
        f.battle.player2_special_used
    }
}

/// Shadow Strike pierces: an Assassin playing its special meets only half
/// the defense.
pub open spec fn shadow_strike(f: Combatants, mv: TurnMove) -> bool {
    mv.use_special && f.attacker.base_class == CharacterClass::Assassin
}

/// Playing the moves of a turn on the rolled attack: first the wildcard,
/// then the special, each when asked for; without the special, a Warrior's
/// Battle Fury may still run. Gives the damage in fixed point
/// and the wildcard code when one was played.
#[verifier::opaque]
pub open spec fn moves_spec(f: Combatants, is_player1: bool, mv: TurnMove, roll: AttackRoll) -> Result<
    (Combatants, int, Option<u8>),
    GameError,
> {
    let w = if mv.use_wildcard {
        match wildcard_move_spec(f, is_player1, roll.damage_fp as int, roll.wild_roll) {
            Err(e) => Err(e),
            Ok((f2, d2, code)) => Ok((f2, d2, Some(code))),
        }
    } else {
        Ok((f, roll.damage_fp as int, None))
    };
    match w {
        Err(e) => Err(e),
        Ok((f2, d2, wild)) => if mv.use_special {
            match special_move_spec(f2, is_player1, d2, roll.wild_roll, roll.is_crit) {
                Err(e) => Err(e),
                Ok((f3, d3)) => Ok((f3, d3, wild)),
            }
        } else if fury_continues(f2, is_player1) {
            Ok((f2, fp_mul(d2, 1_500_000), wild))
        } else {
            Ok((f2, d2, wild))
        },
    }
}

/// What a resolved turn reports.
#[derive(Clone, Copy, Debug)]
pub struct TurnReport {
    /// The attack as rolled.
    pub roll: AttackRoll,
    /// The wildcard code, when the wildcard was played.
    pub wildcard: Option<u8>,
    /// Whether the damage cap applied.
    pub clamped: bool,
    /// The hit and what came back to the attacker.
    pub hit: Hit,
    /// The attacker's combo count after the turn.
    pub combo_count: u8,
    /// Whether the battle ended on this turn.
    pub ended: bool,
    pub winner: Option<Pubkey>,
    pub post_health_p1: u64,
    pub post_health_p2: u64,
}

/// A whole turn: roll the attack, play the moves, scale and cap the damage,
/// land the hit, tick the effects, and end the battle when a player is down.
#[verifier::opaque]
pub open spec fn turn_spec(f: Combatants, is_player1: bool, mv: TurnMove, r: TurnRolls) -> Result<
    (Combatants, TurnReport),
    GameError,
> {
    let (f1, roll) = prepare_spec(f, is_player1, r);
    match moves_spec(f1, is_player1, mv, roll) {
        Err(e) => Err(e),
        Ok((f2, d, wild)) => {
            let (dmg, clamped) = scaled_damage(d, roll.base_damage as int, roll.att_stance, roll.def_stance, f2.attacker.mod_attack_bps);
            let (_, _, self_bps, counter_bps) = spec_stance_multipliers(roll.att_stance, roll.def_stance);
            let (f3, hit) = hit_spec(f2, is_player1, dmg as u64, roll.dodge_roll, self_bps, counter_bps, shadow_strike(f2, mv));
            let f4 = settle_spec(tick_spec(f3), is_player1);
            Ok(
                (
                    f4,
                    TurnReport {
                        roll,
                        wildcard: wild,
                        clamped,
                        hit,
                        combo_count: f4.attacker.combo_count,
                        ended: someone_down(tick_spec(f3).battle),
                        winner: f4.battle.winner,
                        post_health_p1: f4.battle.player1_health,
                        post_health_p2: f4.battle.player2_health,
                    },
                ),
            )
        },
    }
}

/// The levels reached on a turn that ends the battle.
#[verifier::opaque]
pub open spec fn turn_levels(f: Combatants, is_player1: bool, mv: TurnMove, r: TurnRolls) -> Seq<u16> {
    let (f1, roll) = prepare_spec(f, is_player1, r);
    match moves_spec(f1, is_player1, mv, roll) {
        Err(_) => seq![],
        Ok((f2, d, _)) => {
            let (dmg, _) = scaled_damage(d, roll.base_damage as int, roll.att_stance, roll.def_stance, f2.attacker.mod_attack_bps);
            let (_, _, self_bps, counter_bps) = spec_stance_multipliers(roll.att_stance, roll.def_stance);
            let (f3, _) = hit_spec(f2, is_player1, dmg as u64, roll.dodge_roll, self_bps, counter_bps, shadow_strike(f2, mv));
            settle_levels(tick_spec(f3), is_player1)
        },
    }
}

/// Plays the moves of a turn on the rolled attack. On failure nothing
/// changes.
pub fn play_moves(f: &mut Combatants, is_player1: bool, mv: TurnMove, roll: AttackRoll) -> (r: Result<
    (u128, Option<u8>),
    GameError,
>)
    requires
        roll.damage_fp <= combo_damage_cap(),
    ensures
        match moves_spec(*old(f), is_player1, mv, roll) {
            Err(e) => r == Err::<(u128, Option<u8>), _>(e) && *final(f) == *old(f),
            Ok((f2, d, wild)) => ({
                &&& 0 <= d <= 6 * combo_damage_cap()
                &&& r == Ok::<(u128, Option<u8>), GameError>((d as u128, wild))
                &&& *final(f) == f2
            }),
        },
{
    proof {
        reveal(moves_spec);
    }
    let mut g = *f;
    let mut d = roll.damage_fp;
    let mut wild: Option<u8> = None;
    if mv.use_wildcard {
        match use_wildcard_move(&mut g, is_player1, d, roll.wild_roll) {
            Ok((d2, code)) => {
                d = d2;
                wild = Some(code);
            },
            Err(e) => {
                return Err(e);
            },
        }
    }
    if mv.use_special {
        match use_special_move(&mut g, is_player1, d, roll.wild_roll, roll.is_crit) {
            Ok(d3) => {
                d = d3;
            },
            Err(e) => {
                return Err(e);
            },
        }
    } else {
        let used = if is_player1 {
            g.battle.player1_special_used
        } else {
            g.battle.player2_special_used
        };
        if g.attacker.base_class == CharacterClass::Warrior && g.attacker.special_cooldown == 2 && used {
            proof {
                lemma_fp_mul_bound(d as int, 1_500_000, 2 * combo_damage_cap(), 1_500_000);
            }
            d = match mul_fp_checked(d, FP_SCALE * 3 / 2) {
                Ok(v) => v,
                Err(_) => {
                    assert(false);
                    d
                },
            };
        }
    }
    *f = g;
    Ok((d, wild))
}

/// Resolves one turn of the attacker against the defender with the given
/// rolls. On failure nothing changes. Returns the report and the
/// levels reached.
pub fn resolve_turn(f: &mut Combatants, is_player1: bool, mv: TurnMove, r: TurnRolls) -> (res: Result<
    (TurnReport, Vec<u16>),
    GameError,
>)
    requires
        old(f).attacker.base_damage_max >= old(f).attacker.base_damage_min,
    ensures
        match turn_spec(*old(f), is_player1, mv, r) {
            Err(e) => res == Err::<(TurnReport, Vec<u16>), _>(e) && *final(f) == *old(f),
            Ok((f2, rep)) => ({
                &&& res matches Ok((rep2, levels)) && rep2 == rep && levels@ == turn_levels(
                    *old(f),
                    is_player1,
                    mv,
                    r,
                )
                &&& *final(f) == f2
            }),
        },
{
    proof {
        reveal(turn_spec);
        reveal(turn_levels);
    }
    let mut g = *f;
    let roll = prepare_attack(&mut g, is_player1, r);
    let (d, wild) = match play_moves(&mut g, is_player1, mv, roll) {
        Ok(v) => v,
        Err(e) => {
            return Err(e);
        },
    };
    proof {
        assert(6 * combo_damage_cap() <= 20_000_000_000_000_000);
    }
    let (dmg, clamped) = scale_damage(d, roll.base_damage, roll.att_stance, roll.def_stance, g.attacker.mod_attack_bps);
    let (_att_fp, _def_fp, self_bps, counter_bps) = stance_multipliers(roll.att_stance, roll.def_stance);
    let pierce = mv.use_special && g.attacker.base_class == CharacterClass::Assassin;
    let hit = apply_hit(&mut g, is_player1, dmg, roll.dodge_roll, self_bps, counter_bps, pierce);
    tick_effects(&mut g);
    let ended = g.battle.player1_health == 0 || g.battle.player2_health == 0;
    let levels = settle_turn(&mut g, is_player1);
    let report = TurnReport {
        roll,
        wildcard: wild,
        clamped,
        hit,
        combo_count: g.attacker.combo_count,
        ended,
        winner: g.battle.winner,
        post_health_p1: g.battle.player1_health,
        post_health_p2: g.battle.player2_health,
    };
    *f = g;
    Ok((report, levels))
}

/// The fields a turn leaves alone: the schedule, the players, the entropy
/// index and the time of the last action.
pub open spec fn keeps_schedule(b1: Battle, b2: Battle) -> bool {
    &&& b2.turns_in_current_round == b1.turns_in_current_round
    &&& b2.current_round == b1.current_round
    &&& b2.rounds_completed == b1.rounds_completed
    &&& b2.current_turn == b1.current_turn
    &&& b2.turn_number == b1.turn_number
    &&& b2.player1 == b1.player1
    &&& b2.player2 == b1.player2
    &&& b2.last_entropy_index == b1.last_entropy_index
    &&& b2.last_action_ts == b1.last_action_ts
}

/// A step keeps the schedule, the battle state and the attacker's damage
/// range.
pub open spec fn step_keeps(f: Combatants, f2: Combatants) -> bool {
    &&& keeps_schedule(f.battle, f2.battle)
    &&& f2.battle.state == f.battle.state
    &&& f2.attacker.base_damage_min == f.attacker.base_damage_min
    &&& f2.attacker.base_damage_max == f.attacker.base_damage_max
    &&& f2.defender.base_damage_min == f.defender.base_damage_min
    &&& f2.defender.base_damage_max == f.defender.base_damage_max
}

proof fn lemma_prepare_keeps(f: Combatants, is_player1: bool, r: TurnRolls)
    ensures
        step_keeps(f, prepare_spec(f, is_player1, r).0),
{
    reveal(prepare_spec);
}

proof fn lemma_moves_keep(f: Combatants, is_player1: bool, mv: TurnMove, roll: AttackRoll)
    ensures
        moves_spec(f, is_player1, mv, roll) matches Ok((f2, _, _)) ==> step_keeps(f, f2),
{
    reveal(moves_spec);
}

proof fn lemma_hit_keeps(
    f: Combatants,
    is_player1: bool,
    dmg: u64,
    dodge_roll: u64,
    self_bps: u16,
    counter_bps: u16,
    pierce: bool,
)
    ensures
        step_keeps(f, hit_spec(f, is_player1, dmg, dodge_roll, self_bps, counter_bps, pierce).0),
{
    reveal(hit_spec);
}

proof fn lemma_tick_keeps(f: Combatants)
    ensures
        step_keeps(f, tick_spec(f)),
{
    reveal(tick_spec);
}

proof fn lemma_settle_keeps(f: Combatants, attacker_is_p1: bool)
    ensures
        keeps_schedule(f.battle, settle_spec(f, attacker_is_p1).battle),
        settle_spec(f, attacker_is_p1).battle.state == BattleState::Finished || settle_spec(f, attacker_is_p1) == f,
{
    reveal(conclude_spec);
}

/// A turn keeps the schedule; it finishes the battle or leaves its state
/// and the attacker's damage range as they were.
pub proof fn lemma_turn_frame(f: Combatants, is_player1: bool, mv: TurnMove, r: TurnRolls)
    ensures
        turn_spec(f, is_player1, mv, r) matches Ok((f2, _)) ==> {
            &&& keeps_schedule(f.battle, f2.battle)
            &&& f2.battle.state == BattleState::Finished || step_keeps(f, f2)
        },
{
    reveal(turn_spec);
    let (f1, roll) = prepare_spec(f, is_player1, r);
    lemma_prepare_keeps(f, is_player1, r);
    lemma_moves_keep(f1, is_player1, mv, roll);
    if let Ok((f2, d, wild)) = moves_spec(f1, is_player1, mv, roll) {
        let (dmg, clamped) = scaled_damage(d, roll.base_damage as int, roll.att_stance, roll.def_stance, f2.attacker.mod_attack_bps);
        let (_, _, self_bps, counter_bps) = spec_stance_multipliers(roll.att_stance, roll.def_stance);
        lemma_hit_keeps(f2, is_player1, dmg as u64, roll.dodge_roll, self_bps, counter_bps, shadow_strike(f2, mv));
        let f3 = hit_spec(f2, is_player1, dmg as u64, roll.dodge_roll, self_bps, counter_bps, shadow_strike(f2, mv)).0;
        lemma_tick_keeps(f3);
        lemma_settle_keeps(tick_spec(f3), is_player1);
    }
}

/// The combatants with the battle's time of last action set to `t`.
pub open spec fn at_time(f: Combatants, t: i64) -> Combatants {
    Combatants { battle: Battle { last_action_ts: t, ..f.battle }, ..f }
}

proof fn lemma_prepare_time(f: Combatants, is_player1: bool, r: TurnRolls, t: i64)
    ensures
        prepare_spec(at_time(f, t), is_player1, r) == (at_time(prepare_spec(f, is_player1, r).0, t), prepare_spec(
            f,
            is_player1,
            r,
        ).1),
{
    reveal(prepare_spec);
}

proof fn lemma_wildcard_time(f: Combatants, is_player1: bool, d: int, w: u64, t: i64)
    ensures
        wildcard_move_spec(at_time(f, t), is_player1, d, w) == match wildcard_move_spec(f, is_player1, d, w) {
            Err(e) => Err(e),
            Ok((f2, d2, c)) => Ok::<(Combatants, int, u8), GameError>((at_time(f2, t), d2, c)),
        },
{
}

#[verifier::rlimit(40)]
proof fn lemma_special_time(f: Combatants, is_player1: bool, d: int, w: u64, c: bool, t: i64)
    ensures
        special_move_spec(at_time(f, t), is_player1, d, w, c) == match special_move_spec(f, is_player1, d, w, c) {
            Err(e) => Err(e),
            Ok((f2, d2)) => Ok::<(Combatants, int), GameError>((at_time(f2, t), d2)),
        },
{
}

proof fn lemma_moves_time(f: Combatants, is_player1: bool, mv: TurnMove, roll: AttackRoll, t: i64)
    ensures
        moves_spec(at_time(f, t), is_player1, mv, roll) == match moves_spec(f, is_player1, mv, roll) {
            Err(e) => Err(e),
            Ok((f2, d, w)) => Ok::<(Combatants, int, Option<u8>), GameError>((at_time(f2, t), d, w)),
        },
{
    reveal(moves_spec);
    lemma_wildcard_time(f, is_player1, roll.damage_fp as int, roll.wild_roll, t);
    if let Ok((f2, d2, code)) = wildcard_move_spec(f, is_player1, roll.damage_fp as int, roll.wild_roll) {
        lemma_special_time(f2, is_player1, d2, roll.wild_roll, roll.is_crit, t);
    }
    lemma_special_time(f, is_player1, roll.damage_fp as int, roll.wild_roll, roll.is_crit, t);
    assert(fury_continues(at_time(f, t), is_player1) == fury_continues(f, is_player1));
    if let Ok((f2, d2, code)) = wildcard_move_spec(f, is_player1, roll.damage_fp as int, roll.wild_roll) {
        assert(fury_continues(at_time(f2, t), is_player1) == fury_continues(f2, is_player1));
    }
}

proof fn lemma_hit_time(
    f: Combatants,
    is_player1: bool,
    dmg: u64,
    dodge_roll: u64,
    self_bps: u16,
    counter_bps: u16,
    pierce: bool,
    t: i64,
)
    ensures
        hit_spec(at_time(f, t), is_player1, dmg, dodge_roll, self_bps, counter_bps, pierce) == (
            at_time(hit_spec(f, is_player1, dmg, dodge_roll, self_bps, counter_bps, pierce).0, t),
            hit_spec(f, is_player1, dmg, dodge_roll, self_bps, counter_bps, pierce).1,
        ),
{
    reveal(hit_spec);
}

proof fn lemma_tick_time(f: Combatants, t: i64)
    ensures
        tick_spec(at_time(f, t)) == at_time(tick_spec(f), t),
{
    reveal(tick_spec);
}

proof fn lemma_settle_time(f: Combatants, is_player1: bool, t: i64)
    ensures
        settle_spec(at_time(f, t), is_player1) == at_time(settle_spec(f, is_player1), t),
        settle_levels(at_time(f, t), is_player1) == settle_levels(f, is_player1),
{
    reveal(conclude_spec);
    reveal(conclude_levels);
}

/// A turn never reads the time of the last action: played at another
/// recorded time, it gives the same outcome with that time kept.
pub proof fn lemma_turn_ignores_time(f: Combatants, is_player1: bool, mv: TurnMove, r: TurnRolls, t: i64)
    ensures
        turn_spec(at_time(f, t), is_player1, mv, r) == match turn_spec(f, is_player1, mv, r) {
            Err(e) => Err(e),
            Ok((f2, rep)) => Ok::<(Combatants, TurnReport), GameError>((at_time(f2, t), rep)),
        },
        turn_levels(at_time(f, t), is_player1, mv, r) == turn_levels(f, is_player1, mv, r),
{
    reveal(turn_spec);
    reveal(turn_levels);
    let (f1, roll) = prepare_spec(f, is_player1, r);
    lemma_prepare_time(f, is_player1, r, t);
    lemma_moves_time(f1, is_player1, mv, roll, t);
    if let Ok((f2, d, wild)) = moves_spec(f1, is_player1, mv, roll) {
        let (dmg, clamped) = scaled_damage(
            d,
            roll.base_damage as int,
            roll.att_stance,
            roll.def_stance,
            f2.attacker.mod_attack_bps,
        );
        let (_, _, self_bps, counter_bps) = spec_stance_multipliers(roll.att_stance, roll.def_stance);
        let pierce = shadow_strike(f2, mv);
        assert(shadow_strike(at_time(f2, t), mv) == pierce);
        lemma_hit_time(f2, is_player1, dmg as u64, roll.dodge_roll, self_bps, counter_bps, pierce, t);
        let f3 = hit_spec(f2, is_player1, dmg as u64, roll.dodge_roll, self_bps, counter_bps, pierce).0;
        lemma_tick_time(f3, t);
        lemma_settle_time(tick_spec(f3), is_player1, t);
    }
}

/// A turn inside a round: a pool turn, after which the turn number moves
/// on by one (saturating).
pub open spec fn single_turn_spec(
    pool: EntropyPool,
    f: Combatants,
    signer: Pubkey,
    is_player1: bool,
    mv: TurnMove,
) -> Result<(EntropyPool, Combatants, TurnReport, u64), GameError> {
    match pool_turn_spec(pool, f, signer, is_player1, mv) {
        Err(e) => Err(e),
        Ok((p2, f2, rep, used)) => Ok(
            (
                p2,
                Combatants {
                    battle: Battle { turn_number: sat_add_u64(f2.battle.turn_number, 1), ..f2.battle },
                    ..f2
                },
                rep,
                used,
            ),
        ),
    }
}

/// Plays one turn of a round. On failure neither the pool nor the
/// combatants change. Returns the report, the entropy index used and the
/// levels reached.
pub fn execute_single_turn(
    pool: &mut EntropyPool,
    f: &mut Combatants,
    signer: &Pubkey,
    is_player1: bool,
    mv: TurnMove,
) -> (r: Result<(TurnReport, u64, Vec<u16>), GameError>)
    requires
        old(f).attacker.base_damage_max >= old(f).attacker.base_damage_min,
    ensures
        match single_turn_spec(*old(pool), *old(f), *signer, is_player1, mv) {
            Err(e) => ({
                &&& r == Err::<(TurnReport, u64, Vec<u16>), _>(e)
                &&& *final(pool) == *old(pool)
                &&& *final(f) == *old(f)
            }),
            Ok((p2, f2, rep, used)) => ({
                &&& r matches Ok((rep2, used2, levels)) && rep2 == rep && used2 == used && levels@
                    == pool_turn_levels(*old(pool), *old(f), *signer, is_player1, mv)
                &&& *final(pool) == p2
                &&& *final(f) == f2
            }),
        },
{
    let res = play_turn(pool, f, signer, is_player1, mv);
    if res.is_ok() {
        f.battle.turn_number = f.battle.turn_number.saturating_add(1);
    }
    res
}

/// The same combatants seen from the other side: attacker and defender,
/// with their progressions, trade places.
pub open spec fn swap_sides(f: Combatants) -> Combatants {
    Combatants {
        battle: f.battle,
        attacker: f.defender,
        defender: f.attacker,
        attacker_prog: f.defender_prog,
        defender_prog: f.attacker_prog,
    }
}

/// A move with no preference, special or wildcard.
pub open spec fn plain_move() -> TurnMove {
    TurnMove { preference: -1i8, use_special: false, use_wildcard: false }
}

/// A turn of a round, the combatants seen from the signer. Attacks
/// alternate: the player on turn attacks. When that is the signer, it
/// attacks with its move; otherwise the signer's move only sets its stance
/// preference and the opponent attacks with a plain move.
pub open spec fn round_turn_spec(
    pool: EntropyPool,
    f: Combatants,
    signer: Pubkey,
    signer_is_p1: bool,
    mv: TurnMove,
) -> Result<(EntropyPool, Combatants, TurnReport, u64), GameError> {
    if (f.battle.current_turn == 1) == signer_is_p1 {
        single_turn_spec(pool, f, signer, signer_is_p1, mv)
    } else {
        match preference_spec(f.battle, signer_is_p1, mv.preference) {
            Err(e) => Err(e),
            Ok(b) => match single_turn_spec(
                pool,
                swap_sides(Combatants { battle: b, ..f }),
                signer,
                !signer_is_p1,
                plain_move(),
            ) {
                Err(e) => Err(e),
                Ok((p2, f2, rep, used)) => Ok((p2, swap_sides(f2), rep, used)),
            },
        }
    }
}

/// The levels reached on such a turn.
pub open spec fn round_turn_levels(
    pool: EntropyPool,
    f: Combatants,
    signer: Pubkey,
    signer_is_p1: bool,
    mv: TurnMove,
) -> Seq<u16> {
    if (f.battle.current_turn == 1) == signer_is_p1 {
        pool_turn_levels(pool, f, signer, signer_is_p1, mv)
    } else {
        match preference_spec(f.battle, signer_is_p1, mv.preference) {
            Err(_) => seq![],
            Ok(b) => pool_turn_levels(
                pool,
                swap_sides(Combatants { battle: b, ..f }),
                signer,
                !signer_is_p1,
                plain_move(),
            ),
        }
    }
}

/// Plays one turn of a round for the signer: its own attack when it is on
/// turn, else the opponent's. On failure neither the pool nor the
/// combatants change.
pub fn play_round_turn(
    pool: &mut EntropyPool,
    f: &mut Combatants,
    signer: &Pubkey,
    signer_is_p1: bool,
    mv: TurnMove,
) -> (r: Result<(TurnReport, u64, Vec<u16>), GameError>)
    requires
        old(f).attacker.base_damage_max >= old(f).attacker.base_damage_min,
        old(f).defender.base_damage_max >= old(f).defender.base_damage_min,
    ensures
        match round_turn_spec(*old(pool), *old(f), *signer, signer_is_p1, mv) {
            Err(e) => ({
                &&& r == Err::<(TurnReport, u64, Vec<u16>), _>(e)
                &&& *final(pool) == *old(pool)
                &&& *final(f) == *old(f)
            }),
            Ok((p2, f2, rep, used)) => ({
                &&& r matches Ok((rep2, used2, levels)) && rep2 == rep && used2 == used && levels@
                    == round_turn_levels(*old(pool), *old(f), *signer, signer_is_p1, mv)
                &&& *final(pool) == p2
                &&& *final(f) == f2
            }),
        },
{
    if (f.battle.current_turn == 1) == signer_is_p1 {
        return execute_single_turn(pool, f, signer, signer_is_p1, mv);
    }
    let mut b = f.battle;
    match set_preference(&mut b, signer_is_p1, mv.preference) {
        Ok(()) => {},
        Err(e) => {
            return Err(e);
        },
    }
    let mut g = Combatants {
        battle: b,
        attacker: f.defender,
        defender: f.attacker,
        attacker_prog: f.defender_prog,
        defender_prog: f.attacker_prog,
    };
    let plain = TurnMove { preference: -1, use_special: false, use_wildcard: false };
    match execute_single_turn(pool, &mut g, signer, !signer_is_p1, plain) {
        Ok(v) => {
            *f = Combatants {
                battle: g.battle,
                attacker: g.defender,
                defender: g.attacker,
                attacker_prog: g.defender_prog,
                defender_prog: g.attacker_prog,
            };
            Ok(v)
        },
        Err(e) => Err(e),
    }
}

/// A turn of a round uses an entropy index above the battle's last one and
/// records it, takes one index from the pool, raises neither player's
/// health, keeps the schedule, and finishes the battle or leaves its state
/// and both damage ranges as they were.
pub proof fn lemma_round_turn_frame(
    pool: EntropyPool,
    f: Combatants,
    signer: Pubkey,
    signer_is_p1: bool,
    mv: TurnMove,
)
    ensures
        round_turn_spec(pool, f, signer, signer_is_p1, mv) matches Ok((p2, f2, rep, used)) ==> {
            &&& used > f.battle.last_entropy_index
            &&& f2.battle.last_entropy_index == used
            &&& p2.total_available == pool.total_available - 1
            &&& f2.battle.turns_in_current_round == f.battle.turns_in_current_round
            &&& f2.battle.current_round == f.battle.current_round
            &&& f2.battle.rounds_completed == f.battle.rounds_completed
            &&& f2.battle.current_turn == f.battle.current_turn
            &&& f2.battle.turn_number == sat_add_u64(f.battle.turn_number, 1)
            &&& f2.battle.last_action_ts == f.battle.last_action_ts
            &&& f2.battle.player1 == f.battle.player1
            &&& f2.battle.player2 == f.battle.player2
            &&& f2.battle.player1_health <= f.battle.player1_health
            &&& f2.battle.player2_health <= f.battle.player2_health
            &&& f2.battle.state == BattleState::Finished || ({
                &&& f2.battle.state == f.battle.state
                &&& f2.attacker.base_damage_min == f.attacker.base_damage_min
                &&& f2.attacker.base_damage_max == f.attacker.base_damage_max
                &&& f2.defender.base_damage_min == f.defender.base_damage_min
                &&& f2.defender.base_damage_max == f.defender.base_damage_max
            })
        },
{
    if (f.battle.current_turn == 1) == signer_is_p1 {
        lemma_pool_turn_frame(pool, f, signer, signer_is_p1, mv);
        law_pool_turn_never_heals(pool, f, signer, signer_is_p1, mv);
    } else if let Ok(b) = preference_spec(f.battle, signer_is_p1, mv.preference) {
        let g = swap_sides(Combatants { battle: b, ..f });
        lemma_pool_turn_frame(pool, g, signer, !signer_is_p1, plain_move());
        law_pool_turn_never_heals(pool, g, signer, !signer_is_p1, plain_move());
    }
}

/// The combatants after a turn of a round that did not end the battle:
/// one more turn in the round, and the turn passes to the other player.
pub open spec fn next_turn(f: Combatants) -> Combatants {
    Combatants {
        battle: Battle {
            turns_in_current_round: (f.battle.turns_in_current_round + 1) as u8,
            current_turn: if f.battle.current_turn == 1 {
                2
            } else {
                1
            },
            ..f.battle
        },
        ..f
    }
}

/// Puts the reports, entropy indices and levels of earlier turns in front of
/// those of the rest of a round.
pub open spec fn prefix_round(
    reps: Seq<TurnReport>,
    idxs: Seq<u64>,
    lv: Seq<u16>,
    rest: Result<(EntropyPool, Combatants, Seq<TurnReport>, Seq<u64>, Seq<u16>), GameError>,
) -> Result<(EntropyPool, Combatants, Seq<TurnReport>, Seq<u64>, Seq<u16>), GameError> {
    match rest {
        Err(e) => Err(e),
        Ok((p, f, r, i, l)) => Ok((p, f, reps + r, idxs + i, lv + l)),
    }
}

/// The turns of a round, one per move, until the moves run out or the
/// battle is finished. Gives the pool, the combatants, the reports, the
/// entropy indices used and the levels reached.
#[verifier::opaque]
pub open spec fn round_turns_spec(
    pool: EntropyPool,
    f: Combatants,
    signer: Pubkey,
    is_player1: bool,
    moves: Seq<TurnMove>,
) -> Result<(EntropyPool, Combatants, Seq<TurnReport>, Seq<u64>, Seq<u16>), GameError>
    decreases moves.len(),
{
    if moves.len() == 0 || f.battle.state == BattleState::Finished {
        Ok((pool, f, seq![], seq![], seq![]))
    } else {
        match round_turn_spec(pool, f, signer, is_player1, moves[0]) {
            Err(e) => Err(e),
            Ok((p2, f2, rep, used)) => {
                let lv = round_turn_levels(pool, f, signer, is_player1, moves[0]);
                if f2.battle.state == BattleState::Finished {
                    Ok((p2, f2, seq![rep], seq![used], lv))
                } else {
                    prefix_round(
                        seq![rep],
                        seq![used],
                        lv,
                        round_turns_spec(p2, next_turn(f2), signer, is_player1, moves.drop_first()),
                    )
                }
            },
        }
    }
}

/// Who may play a round and whether they may now: the battle is active,
/// there are exactly three moves, the last round has not been passed, the
/// signer is a player whose turn it is, and the pool holds entropy for
/// three turns of six values each. Gives whether the signer is player 1.
pub open spec fn round_checks(b: Battle, pool: EntropyPool, signer: Pubkey, moves_len: int) -> Result<bool, GameError> {
    if b.state != BattleState::Active {
        Err(GameError::InvalidBattleState)
    } else if moves_len != TURNS_PER_ROUND {
        Err(GameError::InvalidRange)
    } else if b.current_round > MAX_ROUNDS {
        Err(GameError::InvalidRange)
    } else if signer != b.player1 && signer != b.player2 {
        Err(GameError::Unauthorized)
    } else if signer == b.player1 && b.current_turn != 1 {
        Err(GameError::NotYourTurn)
    } else if signer != b.player1 && b.current_turn != 2 {
        Err(GameError::NotYourTurn)
    } else if pool.total_available < TURNS_PER_ROUND * 6 {
        Err(GameError::NoEntropyAvailable)
    } else {
        Ok(signer == b.player1)
    }
}

/// The end of a round: when the battle goes on and three turns are done,
/// the round counts as completed and the next begins; once the last round
/// is completed the battle is concluded, the healthier player winning (the
/// signer is player 1 when `signer_is_p1`). Gives the combatants, whether a
/// round completed, and whether the round limit ended the battle.
pub open spec fn round_end_spec(f: Combatants, signer_is_p1: bool) -> (Combatants, bool, bool) {
    let b = f.battle;
    if b.state != BattleState::Finished && b.turns_in_current_round >= TURNS_PER_ROUND {
        let b1 = Battle {
            rounds_completed: (b.rounds_completed + 1) as u8,
            current_round: (b.current_round + 1) as u8,
            turns_in_current_round: 0,
            ..b
        };
        if b1.rounds_completed >= MAX_ROUNDS {
            (conclude_spec(Combatants { battle: b1, ..f }, signer_is_p1), true, true)
        } else {
            (Combatants { battle: b1, ..f }, true, false)
        }
    } else {
        (f, false, false)
    }
}

/// The levels reached at the end of a round.
pub open spec fn round_end_levels(f: Combatants, signer_is_p1: bool) -> Seq<u16> {
    let b = f.battle;
    if b.state != BattleState::Finished && b.turns_in_current_round >= TURNS_PER_ROUND && b.rounds_completed + 1
        >= MAX_ROUNDS {
        conclude_levels(
            Combatants {
                battle: Battle {
                    rounds_completed: (b.rounds_completed + 1) as u8,
                    current_round: (b.current_round + 1) as u8,
                    turns_in_current_round: 0,
                    ..b
                },
                ..f
            },
            signer_is_p1,
        )
    } else {
        seq![]
    }
}

/// What a round did: a report and an entropy index per turn played, the
/// levels reached, whether the round completed, and whether the round limit
/// ended the battle.
#[derive(Clone, Debug)]
pub struct RoundOutcome {
    pub reports: Vec<TurnReport>,
    pub entropy_indices: Vec<u64>,
    pub levels: Vec<u16>,
    pub round_completed: bool,
    pub limit_reached: bool,
}

/// A round: the checks, the time of the action, the turns, and the end of
/// the round. Gives the pool, the combatants, the reports, the entropy
/// indices, the levels, whether the round completed and whether the round
/// limit ended the battle.
pub open spec fn execute_round_spec(
    pool: EntropyPool,
    f: Combatants,
    signer: Pubkey,
    moves: Seq<TurnMove>,
    now: i64,
) -> Result<(EntropyPool, Combatants, Seq<TurnReport>, Seq<u64>, Seq<u16>, bool, bool), GameError> {
    match round_checks(f.battle, pool, signer, moves.len() as int) {
        Err(e) => Err(e),
        Ok(is_player1) => {
            let f1 = Combatants { battle: Battle { last_action_ts: now, ..f.battle }, ..f };
            match round_turns_spec(pool, f1, signer, is_player1, moves) {
                Err(e) => Err(e),
                Ok((p2, f2, reps, idxs, lv)) => {
                    let (f3, completed, limit) = round_end_spec(f2, is_player1);
                    Ok((p2, f3, reps, idxs, lv + round_end_levels(f2, is_player1), completed, limit))
                },
            }
        },
    }
}

/// A round with no moves left, or on a finished battle, plays nothing.
proof fn lemma_round_done(pool: EntropyPool, f: Combatants, signer: Pubkey, is_player1: bool, moves: Seq<TurnMove>)
    requires
        moves.len() == 0 || f.battle.state == BattleState::Finished,
    ensures
        round_turns_spec(pool, f, signer, is_player1, moves) == Ok::<
            (EntropyPool, Combatants, Seq<TurnReport>, Seq<u64>, Seq<u16>),
            GameError,
        >((pool, f, seq![], seq![], seq![])),
{
    reveal(round_turns_spec);
}

/// A round whose next turn fails fails with it.
proof fn lemma_round_fails(
    pool: EntropyPool,
    f: Combatants,
    signer: Pubkey,
    is_player1: bool,
    moves: Seq<TurnMove>,
    e: GameError,
)
    requires
        moves.len() > 0,
        f.battle.state != BattleState::Finished,
        round_turn_spec(pool, f, signer, is_player1, moves[0]) == Err::<
            (EntropyPool, Combatants, TurnReport, u64),
            GameError,
        >(e),
    ensures
        round_turns_spec(pool, f, signer, is_player1, moves) == Err::<
            (EntropyPool, Combatants, Seq<TurnReport>, Seq<u64>, Seq<u16>),
            GameError,
        >(e),
{
    reveal(round_turns_spec);
}

/// A round plays its next turn, then the rest.
proof fn lemma_round_step(
    pool: EntropyPool,
    f: Combatants,
    signer: Pubkey,
    is_player1: bool,
    moves: Seq<TurnMove>,
    p2: EntropyPool,
    f2: Combatants,
    rep: TurnReport,
    used: u64,
)
    requires
        moves.len() > 0,
        f.battle.state != BattleState::Finished,
        round_turn_spec(pool, f, signer, is_player1, moves[0]) == Ok::<
            (EntropyPool, Combatants, TurnReport, u64),
            GameError,
        >((p2, f2, rep, used)),
    ensures
        round_turns_spec(pool, f, signer, is_player1, moves) == prefix_round(
            seq![rep],
            seq![used],
            round_turn_levels(pool, f, signer, is_player1, moves[0]),
            round_turns_spec(
                p2,
                if f2.battle.state == BattleState::Finished {
                    f2
                } else {
                    next_turn(f2)
                },
                signer,
                is_player1,
                moves.drop_first(),
            ),
        ),
{
    reveal(round_turns_spec);
    if f2.battle.state == BattleState::Finished {
        let lv = round_turn_levels(pool, f, signer, is_player1, moves[0]);
        assert(round_turns_spec(p2, f2, signer, is_player1, moves.drop_first()) == Ok::<
            (EntropyPool, Combatants, Seq<TurnReport>, Seq<u64>, Seq<u16>),
            GameError,
        >((p2, f2, seq![], seq![], seq![])));
        assert(seq![rep] + seq![] =~= seq![rep]);
        assert(seq![used] + seq![] =~= seq![used]);
        assert(lv + seq![] =~= lv);
    }
}

/// Nothing in front changes nothing.
proof fn lemma_prefix_empty(
    rest: Result<(EntropyPool, Combatants, Seq<TurnReport>, Seq<u64>, Seq<u16>), GameError>,
)
    ensures
        prefix_round(seq![], seq![], seq![], rest) == rest,
{
    if let Ok((p, f, r, i, l)) = rest {
        assert(Seq::<TurnReport>::empty() + r =~= r);
        assert(Seq::<u64>::empty() + i =~= i);
        assert(Seq::<u16>::empty() + l =~= l);
    }
}

/// Putting two groups in front, one after the other, is putting them in
/// front together.
proof fn lemma_prefix_join(
    r1: Seq<TurnReport>,
    i1: Seq<u64>,
    l1: Seq<u16>,
    r2: Seq<TurnReport>,
    i2: Seq<u64>,
    l2: Seq<u16>,
    rest: Result<(EntropyPool, Combatants, Seq<TurnReport>, Seq<u64>, Seq<u16>), GameError>,
)
    ensures
        prefix_round(r1, i1, l1, prefix_round(r2, i2, l2, rest)) == prefix_round(r1 + r2, i1 + i2, l1 + l2, rest),
{
    if let Ok((p, f, r, i, l)) = rest {
        assert(r1 + (r2 + r) =~= (r1 + r2) + r);
        assert(i1 + (i2 + i) =~= (i1 + i2) + i);
        assert(l1 + (l2 + l) =~= (l1 + l2) + l);
    }
}

/// Checks who may play a round and whether they may now; gives whether the
/// signer is player 1.
pub fn check_round(b: &Battle, pool: &EntropyPool, signer: &Pubkey, moves_len: usize) -> (r: Result<bool, GameError>)
    ensures
        r == round_checks(*b, *pool, *signer, moves_len as int),
{
    if b.state != BattleState::Active {
        return Err(GameError::InvalidBattleState);
    }
    if moves_len != TURNS_PER_ROUND as usize {
        return Err(GameError::InvalidRange);
    }
    if b.current_round > MAX_ROUNDS {
        return Err(GameError::InvalidRange);
    }
    let is_player1 = if *signer == b.player1 {
        true
    } else if *signer == b.player2 {
        false
    } else {
        return Err(GameError::Unauthorized);
    };
    if is_player1 {
        if b.current_turn != 1 {
            return Err(GameError::NotYourTurn);
        }
    } else {
        if b.current_turn != 2 {
            return Err(GameError::NotYourTurn);
        }
    }
    let estimated_entropy_needed: u64 = (TURNS_PER_ROUND as u64) * 6;
    if pool.total_available < estimated_entropy_needed {
        return Err(GameError::NoEntropyAvailable);
    }
    Ok(is_player1)
}

/// Plays the turns of a round, one per move, until the moves run out or the
/// battle is finished. On failure neither the pool nor the combatants
/// change. Returns the reports, the entropy indices used and the levels
/// reached.
pub fn play_round_turns(
    pool: &mut EntropyPool,
    f: &mut Combatants,
    signer: &Pubkey,
    is_player1: bool,
    round_moves: &RoundMoves,
) -> (r: Result<(Vec<TurnReport>, Vec<u64>, Vec<u16>), GameError>)
    requires
        round_moves.moves.len() <= 3,
        old(f).attacker.base_damage_max >= old(f).attacker.base_damage_min,
        old(f).defender.base_damage_max >= old(f).defender.base_damage_min,
        old(f).battle.turns_in_current_round <= u8::MAX - 3,
    ensures
        match round_turns_spec(*old(pool), *old(f), *signer, is_player1, round_moves.moves@) {
            Err(e) => ({
                &&& r is Err && r->Err_0 == e
                &&& *final(pool) == *old(pool)
                &&& *final(f) == *old(f)
            }),
            Ok((p2, f2, reps, idxs, lv)) => ({
                &&& r matches Ok((out_reps, out_idxs, out_lv)) && out_reps@ == reps && out_idxs@ == idxs
                    && out_lv@ == lv
                &&& *final(pool) == p2
                &&& *final(f) == f2
            }),
        },
        final(f).battle.rounds_completed == old(f).battle.rounds_completed,
        final(f).battle.current_round == old(f).battle.current_round,
{
    let mut g = *f;
    let mut q = *pool;
    let ghost moves = round_moves.moves@;
    let mut reports: Vec<TurnReport> = Vec::new();
    let mut entropy_indices: Vec<u64> = Vec::new();
    let mut levels: Vec<u16> = Vec::new();
    let mut i: usize = 0;
    proof {
        assert(moves.skip(0) =~= moves);
        lemma_prefix_empty(round_turns_spec(q, g, *signer, is_player1, moves));
    }
    while i < round_moves.moves.len() && g.battle.state != BattleState::Finished
        invariant
            moves == round_moves.moves@,
            moves.len() <= 3,
            0 <= i <= moves.len(),
            prefix_round(
                reports@,
                entropy_indices@,
                levels@,
                round_turns_spec(q, g, *signer, is_player1, moves.skip(i as int)),
            ) == round_turns_spec(*old(pool), *old(f), *signer, is_player1, moves),
            g.battle.turns_in_current_round <= u8::MAX - 3 + i,
            g.battle.rounds_completed == old(f).battle.rounds_completed,
            g.battle.current_round == old(f).battle.current_round,
            *f == *old(f),
            *pool == *old(pool),
            g.battle.state != BattleState::Finished ==> g.attacker.base_damage_max >= g.attacker.base_damage_min,
            g.battle.state != BattleState::Finished ==> g.defender.base_damage_max >= g.defender.base_damage_min,
        decreases moves.len() - i,
    {
        let mv = round_moves.moves[i];
        let ghost q_before = q;
        let ghost g_before = g;
        let ghost rest_before = moves.skip(i as int);
        proof {
            lemma_round_turn_frame(q, g, *signer, is_player1, mv);
            assert(rest_before[0] == mv);
            assert(rest_before.drop_first() =~= moves.skip(i + 1));
        }
        let (rep, used, mut lv) = match play_round_turn(&mut q, &mut g, signer, is_player1, mv) {
            Ok(v) => v,
            Err(e) => {
                proof {
                    lemma_round_fails(q, g, *signer, is_player1, rest_before, e);
                }
                return Err(e);
            },
        };
        let ghost lv_seq = lv@;
        let ghost g_after = g;
        let ghost reports_before = reports@;
        let ghost indices_before = entropy_indices@;
        let ghost levels_before = levels@;
        reports.push(rep);
        entropy_indices.push(used);
        levels.append(&mut lv);
        if g.battle.state != BattleState::Finished {
            g.battle.turns_in_current_round = g.battle.turns_in_current_round + 1;
            g.battle.current_turn = if g.battle.current_turn == 1 {
                2
            } else {
                1
            };
            assert(g == next_turn(g_after));
        }
        i = i + 1;
        proof {
            lemma_round_step(q_before, g_before, *signer, is_player1, rest_before, q, g_after, rep, used);
            let rest = round_turns_spec(q, g, *signer, is_player1, moves.skip(i as int));
            lemma_prefix_join(reports_before, indices_before, levels_before, seq![rep], seq![used], lv_seq, rest);
            assert(reports@ =~= reports_before + seq![rep]);
            assert(entropy_indices@ =~= indices_before + seq![used]);
            assert(levels@ =~= levels_before + lv_seq);
        }
    }
    proof {
        lemma_round_done(q, g, *signer, is_player1, moves.skip(i as int));
        assert(reports@ + seq![] =~= reports@);
        assert(entropy_indices@ + seq![] =~= entropy_indices@);
        assert(levels@ + seq![] =~= levels@);
    }
    *f = g;
    *pool = q;
    Ok((reports, entropy_indices, levels))
}

/// Ends a round. Returns whether a round completed, whether the round limit
/// ended the battle, and the levels reached.
pub fn finish_round(f: &mut Combatants, signer_is_p1: bool) -> (r: (bool, bool, Vec<u16>))
    requires
        old(f).battle.rounds_completed < u8::MAX,
        old(f).battle.current_round < u8::MAX,
    ensures
        (*final(f), r.0, r.1) == round_end_spec(*old(f), signer_is_p1),
        r.2@ == round_end_levels(*old(f), signer_is_p1),
{
    if f.battle.state != BattleState::Finished && f.battle.turns_in_current_round >= TURNS_PER_ROUND {
        f.battle.rounds_completed = f.battle.rounds_completed + 1;
        f.battle.current_round = f.battle.current_round + 1;
        f.battle.turns_in_current_round = 0;
        if f.battle.rounds_completed >= MAX_ROUNDS {
            let levels = conclude_battle(f, signer_is_p1);
            return (true, true, levels);
        }
        return (true, false, Vec::new());
    }
    (false, false, Vec::new())
}

/// Plays a round of up to three turns for the signer at time `now`. On
/// failure neither the pool nor the combatants change.
pub fn execute_round_handler(
    pool: &mut EntropyPool,
    f: &mut Combatants,
    signer: &Pubkey,
    round_moves: &RoundMoves,
    now: i64,
) -> (r: Result<RoundOutcome, GameError>)
    requires
        old(f).attacker.base_damage_max >= old(f).attacker.base_damage_min,
        old(f).defender.base_damage_max >= old(f).defender.base_damage_min,
        old(f).battle.turns_in_current_round <= u8::MAX - TURNS_PER_ROUND,
        old(f).battle.rounds_completed < u8::MAX,
    ensures
        match execute_round_spec(*old(pool), *old(f), *signer, round_moves.moves@, now) {
            Err(e) => ({
                &&& r is Err && r->Err_0 == e
                &&& *final(pool) == *old(pool)
                &&& *final(f) == *old(f)
            }),
            Ok((p2, f2, reps, idxs, lv, completed, limit)) => ({
                &&& r matches Ok(out) && out.reports@ == reps && out.entropy_indices@ == idxs && out.levels@ == lv
                    && out.round_completed == completed && out.limit_reached == limit
                &&& *final(pool) == p2
                &&& *final(f) == f2
            }),
        },
{
    let is_player1 = match check_round(&f.battle, pool, signer, round_moves.moves.len()) {
        Ok(v) => v,
        Err(e) => {
            return Err(e);
        },
    };
    let mut g = *f;
    let mut q = *pool;
    g.battle.last_action_ts = now;
    let (reports, entropy_indices, mut levels) = match play_round_turns(
        &mut q,
        &mut g,
        signer,
        is_player1,
        round_moves,
    ) {
        Ok(v) => v,
        Err(e) => {
            return Err(e);
        },
    };
    let (round_completed, limit_reached, mut end_levels) = finish_round(&mut g, is_player1);
    levels.append(&mut end_levels);
    *f = g;
    *pool = q;
    Ok(RoundOutcome { reports, entropy_indices, levels, round_completed, limit_reached })
}

/// Rolling the attack never touches either player's health, and playing
/// the moves never raises it.
proof fn lemma_moves_keep_health(f: Combatants, is_player1: bool, mv: TurnMove, r: TurnRolls)
    ensures
        prepare_spec(f, is_player1, r).0.battle.player1_health == f.battle.player1_health,
        prepare_spec(f, is_player1, r).0.battle.player2_health == f.battle.player2_health,
        ({
            let (f1, roll) = prepare_spec(f, is_player1, r);
            moves_spec(f1, is_player1, mv, roll) matches Ok((f2, _, _)) ==> {
                &&& f2.battle.player1_health <= f.battle.player1_health
                &&& f2.battle.player2_health <= f.battle.player2_health
            }
        }),
{
    reveal(prepare_spec);
    reveal(moves_spec);
}

/// A turn never raises either player's health.
pub proof fn law_turn_never_heals(f: Combatants, is_player1: bool, mv: TurnMove, r: TurnRolls)
    ensures
        turn_spec(f, is_player1, mv, r) matches Ok((f2, _)) ==> {
            &&& f2.battle.player1_health <= f.battle.player1_health
            &&& f2.battle.player2_health <= f.battle.player2_health
        },
{
    reveal(turn_spec);
    lemma_moves_keep_health(f, is_player1, mv, r);
    let (f1, roll) = prepare_spec(f, is_player1, r);
    if let Ok((f2, d, wild)) = moves_spec(f1, is_player1, mv, roll) {
        let (dmg, clamped) = scaled_damage(d, roll.base_damage as int, roll.att_stance, roll.def_stance, f2.attacker.mod_attack_bps);
        let (_, _, self_bps, counter_bps) = spec_stance_multipliers(roll.att_stance, roll.def_stance);
        law_hit_never_heals(f2, is_player1, dmg as u64, roll.dodge_roll, self_bps, counter_bps, shadow_strike(f2, mv));
        let f3 = hit_spec(f2, is_player1, dmg as u64, roll.dodge_roll, self_bps, counter_bps, shadow_strike(f2, mv)).0;
        law_tick_never_heals(f3);
        law_settle_outcome(tick_spec(f3), is_player1);
    }
}

/// A turn ends the battle exactly when it leaves a player with no health;
/// the battle is then finished and the healthier player, if any, has won.
pub proof fn law_turn_ends_when_down(f: Combatants, is_player1: bool, mv: TurnMove, r: TurnRolls)
    ensures
        turn_spec(f, is_player1, mv, r) matches Ok((f2, rep)) ==> {
            &&& rep.ended <==> someone_down(f2.battle)
            &&& rep.ended ==> f2.battle.state == BattleState::Finished && f2.battle.winner == spec_winner(
                f2.battle,
            )
            &&& rep.post_health_p1 == f2.battle.player1_health
            &&& rep.post_health_p2 == f2.battle.player2_health
        },
{
    reveal(turn_spec);
    let (f1, roll) = prepare_spec(f, is_player1, r);
    if let Ok((f2, d, wild)) = moves_spec(f1, is_player1, mv, roll) {
        let (dmg, clamped) = scaled_damage(d, roll.base_damage as int, roll.att_stance, roll.def_stance, f2.attacker.mod_attack_bps);
        let (_, _, self_bps, counter_bps) = spec_stance_multipliers(roll.att_stance, roll.def_stance);
        let f3 = hit_spec(f2, is_player1, dmg as u64, roll.dodge_roll, self_bps, counter_bps, shadow_strike(f2, mv)).0;
        law_settle_outcome(tick_spec(f3), is_player1);
    }
}

/// Each player plays the wildcard at most once: once it is played, playing
/// it again is refused.
pub proof fn law_wildcard_once(f: Combatants, is_player1: bool, d: int, w: u64, d2: int, w2: u64)
    ensures
        wildcard_move_spec(f, is_player1, d, w) matches Ok((f2, _, _)) ==> wildcard_move_spec(
            f2,
            is_player1,
            d2,
            w2,
        ) == Err::<(Combatants, int, u8), _>(GameError::InvalidRequestState),
{
}

/// Each player plays the class special at most once: once it is played,
/// playing it again is refused.
pub proof fn law_special_once(f: Combatants, is_player1: bool, d: int, w: u64, c: bool, d2: int, w2: u64, c2: bool)
    ensures
        special_move_spec(f, is_player1, d, w, c) matches Ok((f2, _)) ==> special_move_spec(f2, is_player1, d2, w2, c2)
            == Err::<
            (Combatants, int),
            _,
        >(GameError::InvalidRequestState),
{
}

/// Over the turns of a round the entropy indices used strictly increase,
/// all lie above the battle's last index before the round, and the battle
/// ends up recording the last of them; the pool loses one index per turn;
/// the round number and completed rounds stay as they were.
pub proof fn law_round_entropy_fresh(
    pool: EntropyPool,
    f: Combatants,
    signer: Pubkey,
    is_player1: bool,
    moves: Seq<TurnMove>,
)
    ensures
        round_turns_spec(pool, f, signer, is_player1, moves) matches Ok((p2, f2, reps, idxs, lv)) ==> {
            &&& forall|i: int, j: int| 0 <= i < j < idxs.len() ==> idxs[i] < idxs[j]
            &&& forall|i: int| 0 <= i < idxs.len() ==> idxs[i] > f.battle.last_entropy_index
            &&& idxs.len() > 0 ==> f2.battle.last_entropy_index == idxs.last()
            &&& idxs.len() == 0 ==> f2.battle.last_entropy_index == f.battle.last_entropy_index
            &&& p2.total_available == pool.total_available - idxs.len()
            &&& f2.battle.current_round == f.battle.current_round
            &&& f2.battle.rounds_completed == f.battle.rounds_completed
        },
    decreases moves.len(),
{
    reveal(round_turns_spec);
    if moves.len() == 0 || f.battle.state == BattleState::Finished {
    } else {
        lemma_round_turn_frame(pool, f, signer, is_player1, moves[0]);
        if let Ok((p2, f2, rep, used)) = round_turn_spec(pool, f, signer, is_player1, moves[0]) {
            if f2.battle.state != BattleState::Finished {
                let f3 = next_turn(f2);
                law_round_entropy_fresh(p2, f3, signer, is_player1, moves.drop_first());
                if let Ok((p4, f4, reps, idxs, lv)) = round_turns_spec(
                    p2,
                    f3,
                    signer,
                    is_player1,
                    moves.drop_first(),
                ) {
                    let all = seq![used] + idxs;
                    assert forall|i: int, j: int| 0 <= i < j < all.len() implies all[i] < all[j] by {
                        if i > 0 {
                            assert(all[i] == idxs[i - 1]);
                            assert(all[j] == idxs[j - 1]);
                        } else {
                            assert(all[j] == idxs[j - 1]);
                        }
                    }
                    assert forall|i: int| 0 <= i < all.len() implies all[i] > f.battle.last_entropy_index by {
                        if i > 0 {
                            assert(all[i] == idxs[i - 1]);
                        }
                    }
                    if idxs.len() > 0 {
                        assert(all.last() == idxs.last());
                    }
                }
            }
        }
    }
}

/// A battle never runs past its last round: a completed round counts once,
/// completing the last round finishes the battle with the healthier player,
/// if any, as winner, and a round that does not complete leaves the round
/// count as it was.
pub proof fn law_round_bounded(pool: EntropyPool, f: Combatants, signer: Pubkey, moves: Seq<TurnMove>, now: i64)
    requires
        f.battle.rounds_completed < u8::MAX,
    ensures
        execute_round_spec(pool, f, signer, moves, now) matches Ok((p2, f2, reps, idxs, lv, completed, limit)) ==> {
            &&& completed ==> f2.battle.rounds_completed == f.battle.rounds_completed + 1
            &&& !completed ==> f2.battle.rounds_completed == f.battle.rounds_completed
            &&& completed && f2.battle.rounds_completed >= MAX_ROUNDS ==> limit
            &&& limit ==> f2.battle.state == BattleState::Finished && f2.battle.winner == spec_winner(f2.battle)
        },
{
    reveal(conclude_spec);
    if let Ok(is_player1) = round_checks(f.battle, pool, signer, moves.len() as int) {
        let f1 = Combatants { battle: Battle { last_action_ts: now, ..f.battle }, ..f };
        law_round_entropy_fresh(pool, f1, signer, is_player1, moves);
    }
}

/// Over a whole round neither player's health ever rises.
pub proof fn law_round_never_heals(
    pool: EntropyPool,
    f: Combatants,
    signer: Pubkey,
    is_player1: bool,
    moves: Seq<TurnMove>,
)
    ensures
        round_turns_spec(pool, f, signer, is_player1, moves) matches Ok((p2, f2, reps, idxs, lv)) ==> {
            &&& f2.battle.player1_health <= f.battle.player1_health
            &&& f2.battle.player2_health <= f.battle.player2_health
        },
    decreases moves.len(),
{
    reveal(round_turns_spec);
    if moves.len() == 0 || f.battle.state == BattleState::Finished {
    } else {
        lemma_round_turn_frame(pool, f, signer, is_player1, moves[0]);
        if let Ok((p2, f2, rep, used)) = round_turn_spec(pool, f, signer, is_player1, moves[0]) {
            if f2.battle.state != BattleState::Finished {
                law_round_never_heals(p2, next_turn(f2), signer, is_player1, moves.drop_first());
            }
        }
    }
}

/// The turns of a round that leave the battle running play every move: the
/// round's turn counter and the turn number go up by one per move, and the
/// turn passes to the other player once per move.
proof fn lemma_round_turns_full(
    pool: EntropyPool,
    f: Combatants,
    signer: Pubkey,
    is_player1: bool,
    moves: Seq<TurnMove>,
)
    requires
        f.battle.turns_in_current_round + moves.len() <= u8::MAX,
        f.battle.turn_number + moves.len() <= u64::MAX,
        f.battle.current_turn == 1 || f.battle.current_turn == 2,
    ensures
        round_turns_spec(pool, f, signer, is_player1, moves) matches Ok((p2, f2, reps, idxs, lv)) ==> {
            &&& f2.battle.rounds_completed == f.battle.rounds_completed
            &&& f2.battle.current_round == f.battle.current_round
            &&& f2.battle.player1 == f.battle.player1
            &&& f2.battle.player2 == f.battle.player2
            &&& f2.battle.state != BattleState::Finished ==> {
                &&& f2.battle.state == f.battle.state
                &&& reps.len() == moves.len()
                &&& f2.battle.turns_in_current_round == f.battle.turns_in_current_round + moves.len()
                &&& f2.battle.turn_number == f.battle.turn_number + moves.len()
                &&& f2.battle.current_turn == if moves.len() % 2 == 0 {
                    f.battle.current_turn as int
                } else {
                    3 - f.battle.current_turn
                }
            }
        },
    decreases moves.len(),
{
    reveal(round_turns_spec);
    if moves.len() == 0 || f.battle.state == BattleState::Finished {
    } else {
        lemma_round_turn_frame(pool, f, signer, is_player1, moves[0]);
        if let Ok((p2, f2, rep, used)) = round_turn_spec(pool, f, signer, is_player1, moves[0]) {
            if f2.battle.state != BattleState::Finished {
                let f3 = next_turn(f2);
                lemma_round_turns_full(p2, f3, signer, is_player1, moves.drop_first());
                assert(moves.drop_first().len() == moves.len() - 1);
                assert(moves.len() % 2 == 0 <==> (moves.len() - 1) % 2 == 1);
            }
        }
    }
}

/// A round that does not end the battle early plays all three turns: the
/// turn number goes up by three, the turn passes to the other player, the
/// round counts as completed, and the battle is finished exactly when that
/// was the last round. A round that does not complete has ended the battle.
pub proof fn law_round_plays_three_turns(pool: EntropyPool, f: Combatants, signer: Pubkey, moves: Seq<TurnMove>, now: i64)
    requires
        f.battle.turns_in_current_round == 0,
        f.battle.rounds_completed < u8::MAX,
        f.battle.current_round < u8::MAX,
        f.battle.turn_number <= u64::MAX - 3,
    ensures
        execute_round_spec(pool, f, signer, moves, now) matches Ok((p2, f2, reps, idxs, lv, completed, limit)) ==> {
            &&& !completed ==> f2.battle.state == BattleState::Finished
            &&& completed ==> {
                &&& reps.len() == 3
                &&& f2.battle.turn_number == f.battle.turn_number + 3
                &&& f2.battle.current_turn == 3 - f.battle.current_turn
                &&& f2.battle.turns_in_current_round == 0
                &&& f2.battle.rounds_completed == f.battle.rounds_completed + 1
                &&& f2.battle.current_round == f.battle.current_round + 1
                &&& f2.battle.player1 == f.battle.player1
                &&& f2.battle.player2 == f.battle.player2
                &&& limit == (f.battle.rounds_completed + 1 >= MAX_ROUNDS)
                &&& f2.battle.state == if limit {
                    BattleState::Finished
                } else {
                    BattleState::Active
                }
            }
        },
{
    reveal(conclude_spec);
    if let Ok(is_player1) = round_checks(f.battle, pool, signer, moves.len() as int) {
        let f1 = Combatants { battle: Battle { last_action_ts: now, ..f.battle }, ..f };
        lemma_round_turns_full(pool, f1, signer, is_player1, moves);
    }
}

/// The player whose turn it is.
pub open spec fn player_on_turn(b: Battle) -> Pubkey {
    if b.current_turn == 1 {
        b.player1
    } else {
        b.player2
    }
}

/// A battle fresh from approval runs exactly three full rounds, nine turns:
/// played in turn by the player on turn (each from its own side), a first
/// and a second round that do not end the battle early leave it active and
/// admit the next round; a third such round finishes it, the healthier
/// player winning, nine turns after the start; and no round is admitted
/// after that.
pub proof fn law_battle_runs_nine_turns(
    pool: EntropyPool,
    f: Combatants,
    m1: Seq<TurnMove>,
    t1: i64,
    m2: Seq<TurnMove>,
    t2: i64,
    m3: Seq<TurnMove>,
    t3: i64,
    m4: Seq<TurnMove>,
    t4: i64,
)
    requires
        f.battle.state == BattleState::Active,
        f.battle.current_round == 1,
        f.battle.rounds_completed == 0,
        f.battle.turns_in_current_round == 0,
        f.battle.player1 != f.battle.player2,
        f.battle.turn_number <= u64::MAX - 9,
    ensures
        match execute_round_spec(pool, f, player_on_turn(f.battle), m1, t1) {
            Ok((q1, g1, r1, i1, l1, c1, x1)) => c1 ==> {
                &&& g1.battle.state == BattleState::Active
                &&& !x1
                &&& q1.total_available >= TURNS_PER_ROUND * 6 ==> round_checks(
                    g1.battle,
                    q1,
                    player_on_turn(g1.battle),
                    3,
                ) is Ok
                &&& match execute_round_spec(q1, swap_sides(g1), player_on_turn(g1.battle), m2, t2) {
                    Ok((q2, g2, r2, i2, l2, c2, x2)) => c2 ==> {
                        &&& g2.battle.state == BattleState::Active
                        &&& !x2
                        &&& q2.total_available >= TURNS_PER_ROUND * 6 ==> round_checks(
                            g2.battle,
                            q2,
                            player_on_turn(g2.battle),
                            3,
                        ) is Ok
                        &&& match execute_round_spec(q2, swap_sides(g2), player_on_turn(g2.battle), m3, t3) {
                            Ok((q3, g3, r3, i3, l3, c3, x3)) => c3 ==> {
                                &&& x3
                                &&& g3.battle.state == BattleState::Finished
                                &&& g3.battle.rounds_completed == MAX_ROUNDS
                                &&& g3.battle.turn_number == f.battle.turn_number + 9
                                &&& g3.battle.winner == spec_winner(g3.battle)
                                &&& execute_round_spec(q3, swap_sides(g3), player_on_turn(g3.battle), m4, t4)
                                    == Err::<
                                    (EntropyPool, Combatants, Seq<TurnReport>, Seq<u64>, Seq<u16>, bool, bool),
                                    GameError,
                                >(GameError::InvalidBattleState)
                            },
                            Err(_) => true,
                        }
                    },
                    Err(_) => true,
                }
            },
            Err(_) => true,
        },
{
    law_round_plays_three_turns(pool, f, player_on_turn(f.battle), m1, t1);
    law_round_bounded(pool, f, player_on_turn(f.battle), m1, t1);
    if let Ok((q1, g1, r1, i1, l1, c1, x1)) = execute_round_spec(pool, f, player_on_turn(f.battle), m1, t1) {
        if c1 {
            let h1 = swap_sides(g1);
            law_round_plays_three_turns(q1, h1, player_on_turn(g1.battle), m2, t2);
            law_round_bounded(q1, h1, player_on_turn(g1.battle), m2, t2);
            if let Ok((q2, g2, r2, i2, l2, c2, x2)) = execute_round_spec(q1, h1, player_on_turn(g1.battle), m2, t2) {
                if c2 {
                    let h2 = swap_sides(g2);
                    law_round_plays_three_turns(q2, h2, player_on_turn(g2.battle), m3, t3);
                    law_round_bounded(q2, h2, player_on_turn(g2.battle), m3, t3);
                }
            }
        }
    }
}

} // verus!
