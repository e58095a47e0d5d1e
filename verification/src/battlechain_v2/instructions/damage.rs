//! Damage of a turn: stance scaling and the cap, the hit itself with its
//! side effects, effects that tick every turn, and the end of the battle.
use vstd::prelude::*;
use crate::battlechain_v2::constants::{FP_SCALE, MAX_TOTAL_MULTIPLIER_FP};
use crate::battlechain_v2::errors::GameError;
use crate::battlechain_v2::state::battle::{Battle, BattleState, StanceType};
use crate::battlechain_v2::state::character::{Character, Progression};
use crate::battlechain_v2::utils::levelup::{level_up_if_needed, level_up_levels, level_up_spec};
use crate::battlechain_v2::utils::math::{fp_mul, fp_to_u64_clamped, mul_fp_checked, saturating_mul_u64};
use crate::battlechain_v2::utils::stance::spec_stance_multipliers;
use crate::battlechain_v2::utils::wildcard::sat_add_u64;
use crate::battlechain_v2::instructions::round_execution::Combatants;
use crate::pubkey::Pubkey;

verus! {

/// `a - b`, or zero when `b` is larger.
pub open spec fn sat_sub(a: u64, b: int) -> u64 {
    if a >= b {
        (a - b) as u64
    } else {
        0
    }
}

/// `a * b`, saturating at the largest 64-bit value.
#[verifier::opaque]
pub open spec fn sat_mul(a: int, b: int) -> int {
    if a * b > u64::MAX {
        u64::MAX as int
    } else {
        a * b
    }
}

/// `x + 1`, saturating at the largest 16-bit value.
pub open spec fn sat_inc_u16(x: u16) -> u16 {
    if x == u16::MAX {
        u16::MAX
    } else {
        (x + 1) as u16
    }
}

/// The fixed-point factor of an attack bonus in basis points:
/// `1 + bps / 10000`, never below zero.
pub open spec fn bonus_factor_fp(bps: i16) -> int {
    if 10000 + bps <= 0 {
        0
    } else {
        (10000 + bps) * 100
    }
}

/// Damage after the stances and the attacker's attack bonus scale it and
/// the cap (ten times the base damage) bounds it, in whole points; and
/// whether the cap applied.
#[verifier::opaque]
pub open spec fn scaled_damage(d: int, base_u: int, att: StanceType, def: StanceType, attack_bps: i16) -> (int, bool) {
    let (att_fp, def_fp, _, _) = spec_stance_multipliers(att, def);
    let d1 = fp_mul(fp_mul(fp_mul(d, att_fp as int), def_fp as int), bonus_factor_fp(attack_bps));
    let cap = base_u * MAX_TOTAL_MULTIPLIER_FP;
    if d1 > cap {
        (cap / (FP_SCALE as int), true)
    } else {
        (d1 / (FP_SCALE as int), false)
    }
}

/// Scales damage by the stances and the attack bonus, caps it at ten times
/// the base damage and converts it to whole points. Returns the damage and
/// whether it was capped.
pub fn scale_damage(damage_fp: u128, base_u: u128, att: StanceType, def: StanceType, attack_bps: i16) -> (r: (
    u64,
    bool,
))
    requires
        damage_fp <= 20_000_000_000_000_000u128,
        base_u <= 196_603,
    ensures
        r.0 == scaled_damage(damage_fp as int, base_u as int, att, def, attack_bps).0,
        r.1 == scaled_damage(damage_fp as int, base_u as int, att, def, attack_bps).1,
        r.0 <= 1_966_030,
{
    proof {
        reveal(scaled_damage);
    }
    let (att_fp, def_fp, _self_bps, _counter_bps) = crate::battlechain_v2::utils::stance::stance_multipliers(
        att,
        def,
    );
    proof {
        lemma_scaled_bound(damage_fp as int, att_fp as int, 20_000_000_000_000_000, 2_000_000);
        lemma_scaled_bound(
            fp_mul(damage_fp as int, att_fp as int),
            def_fp as int,
            40_000_000_000_000_000,
            2_000_000,
        );
    }
    let d1 = match mul_fp_checked(damage_fp, att_fp) {
        Ok(v) => v,
        Err(_) => {
            assert(false);
            0
        },
    };
    let d2 = match mul_fp_checked(d1, def_fp) {
        Ok(v) => v,
        Err(_) => {
            assert(false);
            0
        },
    };
    let pct: i32 = 10000i32 + attack_bps as i32;
    let bonus_fp: u128 = if pct <= 0 {
        0
    } else {
        pct as u128 * 100
    };
    proof {
        crate::battlechain_v2::instructions::round_execution::lemma_fp_mul_bound(
            d2 as int,
            bonus_fp as int,
            80_000_000_000_000_000,
            4_276_700,
        );
    }
    let d2b = match mul_fp_checked(d2, bonus_fp) {
        Ok(v) => v,
        Err(_) => {
            assert(false);
            0
        },
    };
    let max_allowed: u128 = base_u * MAX_TOTAL_MULTIPLIER_FP;
    let clamped = d2b > max_allowed;
    let d3 = if clamped {
        max_allowed
    } else {
        d2b
    };
    let dmg = match fp_to_u64_clamped(d3, GameError::MathOverflow) {
        Ok(v) => v,
        Err(_) => {
            assert(false);
            0
        },
    };
    (dmg, clamped)
}

/// Scaling by a multiplier at most `m_max` stays below `d_max * m_max`.
proof fn lemma_scaled_bound(d: int, m: int, d_max: int, m_max: int)
    requires
        0 <= d <= d_max,
        0 <= m <= m_max,
        m_max <= 2_000_000,
    ensures
        0 <= d * m <= d_max * m_max,
        0 <= fp_mul(d, m) <= 2 * d_max,
{
    assert(0 <= d * m <= d_max * m_max) by (nonlinear_arith)
        requires
            0 <= d <= d_max,
            0 <= m <= m_max,
    ;
    assert(d_max * m_max <= d_max * 2_000_000) by (nonlinear_arith)
        requires
            0 <= d_max,
            m_max <= 2_000_000,
    ;
    vstd::arithmetic::div_mod::lemma_div_is_ordered(d * m, d_max * 2_000_000, 1_000_000);
    vstd::arithmetic::div_mod::lemma_div_pos_is_pos(d * m, 1_000_000);
    assert((d_max * 2_000_000) / 1_000_000 == 2 * d_max) by (nonlinear_arith);
}

/// What one hit did: whether it was dodged, the damage dealt, and what came
/// back to the attacker by reflection, counter and self-damage.
#[derive(Clone, Copy, Debug)]
pub struct Hit {
    pub is_dodge: bool,
    pub dealt: u64,
    pub reflected: u64,
    pub counter: u64,
    pub self_damage: u64,
}

/// The defender's defense raised (or lowered) by its defense bonus in basis
/// points, never below zero.
pub open spec fn effective_defense(c: Character) -> int {
    if 10000 + c.mod_defense_bps <= 0 {
        0
    } else {
        c.defense * (10000 + c.mod_defense_bps) / 10000
    }
}

/// The hit: defense soaks up damage but at least one point gets through; a
/// dodge cancels it; the attacker then takes back the defender's reflection
/// percentage of what was dealt, the defender's counter share, and its
/// stance's self-damage share. A piercing hit meets only half the defense.
pub open spec fn hit_of(
    f: Combatants,
    is_player1: bool,
    dmg: u64,
    dodge_roll: u64,
    self_bps: u16,
    counter_bps: u16,
    pierce: bool,
) -> Hit {
    let defense = if pierce {
        effective_defense(f.defender) / 2
    } else {
        effective_defense(f.defender)
    };
    let soaked = if defense >= dmg {
        1
    } else {
        dmg - defense
    };
    let is_dodge = dodge_roll < f.defender.dodge_bps;
    let dealt: int = if is_dodge {
        0
    } else {
        soaked
    };
    let refl = if is_player1 {
        f.battle.player2_reflection
    } else {
        f.battle.player1_reflection
    };
    Hit {
        is_dodge,
        dealt: dealt as u64,
        reflected: if refl > 0 && dealt > 0 {
            (sat_mul(dealt, refl as int) / 100) as u64
        } else {
            0
        },
        counter: if counter_bps > 0 && dealt > 0 {
            (sat_mul(dealt, counter_bps as int) / 10000) as u64
        } else {
            0
        },
        self_damage: if self_bps > 0 {
            (sat_mul(dealt, self_bps as int) / 10000) as u64
        } else {
            0
        },
    }
}

/// The attacker's health after reflection, counter and self-damage.
pub open spec fn health_after_return(health: u64, h: Hit) -> u64 {
    sat_sub(sat_sub(sat_sub(health, h.reflected as int), h.counter as int), h.self_damage as int)
}

/// The battle after a hit: a dodge counts a miss for the attacker, the
/// defender loses what was dealt and the attacker what came back; the
/// defender's reflection is spent on this attack. Health never drops below
/// zero.
pub open spec fn battle_after_hit(b: Battle, is_player1: bool, h: Hit) -> Battle {
    if is_player1 {
        Battle {
            player1_miss_count: if h.is_dodge {
                sat_inc_u16(b.player1_miss_count)
            } else {
                b.player1_miss_count
            },
            player2_health: sat_sub(b.player2_health, h.dealt as int),
            player1_health: health_after_return(b.player1_health, h),
            player2_reflection: 0,
            ..b
        }
    } else {
        Battle {
            player2_miss_count: if h.is_dodge {
                sat_inc_u16(b.player2_miss_count)
            } else {
                b.player2_miss_count
            },
            player1_health: sat_sub(b.player1_health, h.dealt as int),
            player2_health: health_after_return(b.player2_health, h),
            player1_reflection: 0,
            ..b
        }
    }
}

/// A hit and the combatants after it.
#[verifier::opaque]
pub open spec fn hit_spec(
    f: Combatants,
    is_player1: bool,
    dmg: u64,
    dodge_roll: u64,
    self_bps: u16,
    counter_bps: u16,
    pierce: bool,
) -> (Combatants, Hit) {
    let h = hit_of(f, is_player1, dmg, dodge_roll, self_bps, counter_bps, pierce);
    (Combatants { battle: battle_after_hit(f.battle, is_player1, h), ..f }, h)
}

/// `dealt * rate / per`, the product saturating at the largest 64-bit value.
fn share(dealt: u64, rate: u16, per: u64) -> (r: u64)
    requires
        per > 0,
    ensures
        r == sat_mul(dealt as int, rate as int) / (per as int),
{
    proof {
        reveal(sat_mul);
    }
    saturating_mul_u64(dealt, rate as u64) / per
}

/// Works out what a hit does without landing it.
pub fn measure_hit(
    f: &Combatants,
    is_player1: bool,
    dmg: u64,
    dodge_roll: u64,
    self_bps: u16,
    counter_bps: u16,
    pierce: bool,
) -> (h: Hit)
    ensures
        h == hit_of(*f, is_player1, dmg, dodge_roll, self_bps, counter_bps, pierce),
{
    let pct: i32 = 10000i32 + f.defender.mod_defense_bps as i32;
    let full: u64 = if pct <= 0 {
        0
    } else {
        proof {
            assert(f.defender.defense * pct <= 65535 * 42767) by (nonlinear_arith)
                requires
                    f.defender.defense <= 65535,
                    0 < pct <= 42767,
            ;
        }
        f.defender.defense as u64 * pct as u64 / 10000
    };
    let defense: u64 = if pierce {
        full / 2
    } else {
        full
    };
    let soaked: u64 = if defense >= dmg {
        1
    } else {
        dmg - defense
    };
    let is_dodge = dodge_roll < f.defender.dodge_bps as u64;
    let dealt: u64 = if is_dodge {
        0
    } else {
        soaked
    };
    let refl: u16 = if is_player1 {
        f.battle.player2_reflection
    } else {
        f.battle.player1_reflection
    };
    let reflected: u64 = if refl > 0 && dealt > 0 {
        share(dealt, refl, 100)
    } else {
        0
    };
    let counter: u64 = if counter_bps > 0 && dealt > 0 {
        share(dealt, counter_bps, 10000)
    } else {
        0
    };
    let self_damage: u64 = if self_bps > 0 {
        share(dealt, self_bps, 10000)
    } else {
        0
    };
    Hit { is_dodge, dealt, reflected, counter, self_damage }
}

/// The battle after a hit.
fn land_hit(b: Battle, is_player1: bool, h: Hit) -> (r: Battle)
    ensures
        r == battle_after_hit(b, is_player1, h),
{
    let back = returned_health(if is_player1 {
        b.player1_health
    } else {
        b.player2_health
    }, h);
    if is_player1 {
        Battle {
            player1_miss_count: if h.is_dodge {
                b.player1_miss_count.saturating_add(1)
            } else {
                b.player1_miss_count
            },
            player2_health: b.player2_health.saturating_sub(h.dealt),
            player1_health: back,
            player2_reflection: 0,
            ..b
        }
    } else {
        Battle {
            player2_miss_count: if h.is_dodge {
                b.player2_miss_count.saturating_add(1)
            } else {
                b.player2_miss_count
            },
            player1_health: b.player1_health.saturating_sub(h.dealt),
            player2_health: back,
            player1_reflection: 0,
            ..b
        }
    }
}

/// The attacker's health after reflection, counter and self-damage.
fn returned_health(health: u64, h: Hit) -> (r: u64)
    ensures
        r == health_after_return(health, h),
{
    health.saturating_sub(h.reflected).saturating_sub(h.counter).saturating_sub(h.self_damage)
}

/// Lands a hit of `dmg` points on the defender.
pub fn apply_hit(
    f: &mut Combatants,
    is_player1: bool,
    dmg: u64,
    dodge_roll: u64,
    self_bps: u16,
    counter_bps: u16,
    pierce: bool,
) -> (hit: Hit)
    ensures
        (*final(f), hit) == hit_spec(*old(f), is_player1, dmg, dodge_roll, self_bps, counter_bps, pierce),
{
    proof {
        reveal(hit_spec);
    }
    let h = measure_hit(f, is_player1, dmg, dodge_roll, self_bps, counter_bps, pierce);
    f.battle = land_hit(f.battle, is_player1, h);
    h
}

/// What happens every turn after the hit: the attacker's special cooldown
/// goes down by one, and each player with damage-over-time turns left loses
/// that damage and one such turn.
#[verifier::opaque]
pub open spec fn tick_spec(f: Combatants) -> Combatants {
    let a = f.attacker;
    let b = f.battle;
    let b1 = if b.player1_dot_turns > 0 {
        Battle {
            player1_health: sat_sub(b.player1_health, b.player1_dot_damage as int),
            player1_dot_turns: (b.player1_dot_turns - 1) as u8,
            ..b
        }
    } else {
        b
    };
    let b2 = if b1.player2_dot_turns > 0 {
        Battle {
            player2_health: sat_sub(b1.player2_health, b1.player2_dot_damage as int),
            player2_dot_turns: (b1.player2_dot_turns - 1) as u8,
            ..b1
        }
    } else {
        b1
    };
    Combatants {
        battle: b2,
        attacker: Character {
            special_cooldown: if a.special_cooldown > 0 {
                (a.special_cooldown - 1) as u8
            } else {
                0
            },
            ..a
        },
        ..f
    }
}

/// Runs the effects that tick every turn.
pub fn tick_effects(f: &mut Combatants)
    ensures
        *final(f) == tick_spec(*old(f)),
{
    proof {
        reveal(tick_spec);
    }
    let cooldown: u8 = if f.attacker.special_cooldown > 0 {
        f.attacker.special_cooldown - 1
    } else {
        0
    };
    let b = f.battle;
    let b1 = if b.player1_dot_turns > 0 {
        Battle {
            player1_health: b.player1_health.saturating_sub(b.player1_dot_damage),
            player1_dot_turns: b.player1_dot_turns - 1,
            ..b
        }
    } else {
        b
    };
    let b2 = if b1.player2_dot_turns > 0 {
        Battle {
            player2_health: b1.player2_health.saturating_sub(b1.player2_dot_damage),
            player2_dot_turns: b1.player2_dot_turns - 1,
            ..b1
        }
    } else {
        b1
    };
    f.battle = b2;
    f.attacker.special_cooldown = cooldown;
}

/// The winner of a battle that has ended: the player with more health left,
/// or none on equal health.
pub open spec fn spec_winner(b: Battle) -> Option<Pubkey> {
    if b.player1_health > b.player2_health {
        Some(b.player1)
    } else if b.player2_health > b.player1_health {
        Some(b.player2)
    } else {
        None
    }
}

/// The battle is over once a player's health is zero.
pub open spec fn someone_down(b: Battle) -> bool {
    b.player1_health == 0 || b.player2_health == 0
}

/// Whether the attacker (player 1 when `attacker_is_p1`) has more health.
pub open spec fn attacker_ahead(b: Battle, attacker_is_p1: bool) -> bool {
    if attacker_is_p1 {
        b.player1_health > b.player2_health
    } else {
        b.player2_health > b.player1_health
    }
}

/// One life fewer, never below zero.
pub open spec fn lose_life(c: Character) -> Character {
    Character {
        lifes: if c.lifes > 0 {
            (c.lifes - 1) as u8
        } else {
            0
        },
        ..c
    }
}

/// Concluding a battle: it is finished and the healthier player wins. The
/// winner's progression gains 150 experience and the loser's 50, each
/// followed by leveling up, and the loser's character loses a life; on equal
/// health there is no winner and both progressions gain 25.
#[verifier::opaque]
pub open spec fn conclude_spec(f: Combatants, attacker_is_p1: bool) -> Combatants {
    let b = f.battle;
    let battle = Battle { state: BattleState::Finished, winner: spec_winner(b), ..b };
    if b.player1_health == b.player2_health {
        Combatants {
            battle,
            attacker_prog: Progression { xp: sat_add_u64(f.attacker_prog.xp, 25), ..f.attacker_prog },
            defender_prog: Progression { xp: sat_add_u64(f.defender_prog.xp, 25), ..f.defender_prog },
            ..f
        }
    } else {
        let won = attacker_ahead(b, attacker_is_p1);
        let (ap, ac) = level_up_spec(
            Progression { xp: sat_add_u64(f.attacker_prog.xp, if won { 150 } else { 50 }), ..f.attacker_prog },
            f.attacker,
        );
        let (dp, dc) = level_up_spec(
            Progression { xp: sat_add_u64(f.defender_prog.xp, if won { 50 } else { 150 }), ..f.defender_prog },
            f.defender,
        );
        Combatants {
            battle,
            attacker_prog: ap,
            attacker: if won { ac } else { lose_life(ac) },
            defender_prog: dp,
            defender: if won { lose_life(dc) } else { dc },
        }
    }
}

/// The levels reached when concluding: the attacker's, then the defender's.
#[verifier::opaque]
pub open spec fn conclude_levels(f: Combatants, attacker_is_p1: bool) -> Seq<u16> {
    let b = f.battle;
    if b.player1_health == b.player2_health {
        seq![]
    } else {
        let won = attacker_ahead(b, attacker_is_p1);
        level_up_levels(
            Progression { xp: sat_add_u64(f.attacker_prog.xp, if won { 150 } else { 50 }), ..f.attacker_prog },
            f.attacker,
        ) + level_up_levels(
            Progression { xp: sat_add_u64(f.defender_prog.xp, if won { 50 } else { 150 }), ..f.defender_prog },
            f.defender,
        )
    }
}

/// Ending the battle when a player is down.
pub open spec fn settle_spec(f: Combatants, attacker_is_p1: bool) -> Combatants {
    if someone_down(f.battle) {
        conclude_spec(f, attacker_is_p1)
    } else {
        f
    }
}

/// The levels reached when the battle ends on a turn.
pub open spec fn settle_levels(f: Combatants, attacker_is_p1: bool) -> Seq<u16> {
    if someone_down(f.battle) {
        conclude_levels(f, attacker_is_p1)
    } else {
        seq![]
    }
}

/// Concludes the battle and returns the levels reached, the attacker's
/// first.
pub fn conclude_battle(f: &mut Combatants, attacker_is_p1: bool) -> (levels: Vec<u16>)
    ensures
        *final(f) == conclude_spec(*old(f), attacker_is_p1),
        levels@ == conclude_levels(*old(f), attacker_is_p1),
{
    proof {
        reveal(conclude_spec);
        reveal(conclude_levels);
    }
    let p1_health = f.battle.player1_health;
    let p2_health = f.battle.player2_health;
    f.battle.state = BattleState::Finished;
    f.battle.winner = if p1_health > p2_health {
        Some(f.battle.player1)
    } else if p2_health > p1_health {
        Some(f.battle.player2)
    } else {
        None
    };
    if p1_health == p2_health {
        f.attacker_prog.xp = f.attacker_prog.xp.saturating_add(25);
        f.defender_prog.xp = f.defender_prog.xp.saturating_add(25);
        return Vec::new();
    }
    let won = if attacker_is_p1 {
        p1_health > p2_health
    } else {
        p2_health > p1_health
    };
    let (att_xp, def_xp): (u64, u64) = if won {
        (150, 50)
    } else {
        (50, 150)
    };
    f.attacker_prog.xp = f.attacker_prog.xp.saturating_add(att_xp);
    let mut levels = level_up_if_needed(&mut f.attacker_prog, &mut f.attacker);
    f.defender_prog.xp = f.defender_prog.xp.saturating_add(def_xp);
    let mut more = level_up_if_needed(&mut f.defender_prog, &mut f.defender);
    if won {
        f.defender.lifes = f.defender.lifes.saturating_sub(1);
    } else {
        f.attacker.lifes = f.attacker.lifes.saturating_sub(1);
    }
    levels.append(&mut more);
    levels
}

/// Ends the battle when a player is down, and returns the levels reached.
pub fn settle_turn(f: &mut Combatants, attacker_is_p1: bool) -> (levels: Vec<u16>)
    ensures
        *final(f) == settle_spec(*old(f), attacker_is_p1),
        levels@ == settle_levels(*old(f), attacker_is_p1),
{
    if f.battle.player1_health == 0 || f.battle.player2_health == 0 {
        conclude_battle(f, attacker_is_p1)
    } else {
        Vec::new()
    }
}

/// Other things equal, a stronger attacking stance never deals less damage
/// (Berserker, then Aggressive, Balanced, Counter, Defensive), and a more
/// exposed defending stance never takes less (Aggressive, then Balanced,
/// then Defensive).
pub proof fn law_stance_order(d: int, base_u: int, def: StanceType, att: StanceType, bps: i16)
    requires
        0 <= d,
        0 <= base_u,
    ensures
        scaled_damage(d, base_u, StanceType::Berserker, def, bps).0 >= scaled_damage(d, base_u, StanceType::Aggressive, def, bps).0,
        scaled_damage(d, base_u, StanceType::Aggressive, def, bps).0 >= scaled_damage(d, base_u, StanceType::Balanced, def, bps).0,
        scaled_damage(d, base_u, StanceType::Balanced, def, bps).0 >= scaled_damage(d, base_u, StanceType::Counter, def, bps).0,
        scaled_damage(d, base_u, StanceType::Counter, def, bps).0 >= scaled_damage(d, base_u, StanceType::Defensive, def, bps).0,
        scaled_damage(d, base_u, att, StanceType::Aggressive, bps).0 >= scaled_damage(d, base_u, att, StanceType::Balanced, bps).0,
        scaled_damage(d, base_u, att, StanceType::Balanced, bps).0 >= scaled_damage(d, base_u, att, StanceType::Defensive, bps).0,
{
    lemma_att_order(d, base_u, StanceType::Aggressive, StanceType::Berserker, def, bps);
    lemma_att_order(d, base_u, StanceType::Balanced, StanceType::Aggressive, def, bps);
    lemma_att_order(d, base_u, StanceType::Counter, StanceType::Balanced, def, bps);
    lemma_att_order(d, base_u, StanceType::Defensive, StanceType::Counter, def, bps);
    lemma_def_order(d, base_u, att, StanceType::Balanced, StanceType::Aggressive, bps);
    lemma_def_order(d, base_u, att, StanceType::Defensive, StanceType::Balanced, bps);
}

/// The scaled damage grows with the attacker multiplier.
proof fn lemma_att_order(d: int, base_u: int, a1: StanceType, a2: StanceType, def: StanceType, bps: i16)
    requires
        0 <= d,
        0 <= base_u,
        spec_stance_multipliers(a1, def).0 <= spec_stance_multipliers(a2, def).0,
    ensures
        scaled_damage(d, base_u, a1, def, bps).0 <= scaled_damage(d, base_u, a2, def, bps).0,
{
    reveal(scaled_damage);
    let (m1, def_fp, _, _) = spec_stance_multipliers(a1, def);
    let (m2, _, _, _) = spec_stance_multipliers(a2, def);
    lemma_fp_mul_monotone(d, m1 as int, m2 as int);
    let x1 = fp_mul(d, m1 as int);
    let x2 = fp_mul(d, m2 as int);
    lemma_scale_monotone(x1, x2, def_fp as int, bonus_factor_fp(bps), base_u);
}

/// The scaled damage grows with the defender multiplier.
proof fn lemma_def_order(d: int, base_u: int, att: StanceType, d1: StanceType, d2: StanceType, bps: i16)
    requires
        0 <= d,
        0 <= base_u,
        spec_stance_multipliers(att, d1).1 <= spec_stance_multipliers(att, d2).1,
    ensures
        scaled_damage(d, base_u, att, d1, bps).0 <= scaled_damage(d, base_u, att, d2, bps).0,
{
    reveal(scaled_damage);
    let (att_fp, m1, _, _) = spec_stance_multipliers(att, d1);
    let (_, m2, _, _) = spec_stance_multipliers(att, d2);
    lemma_fp_mul_monotone(d, 0, att_fp as int);
    let x = fp_mul(d, att_fp as int);
    lemma_fp_mul_monotone(x, m1 as int, m2 as int);
    let y1 = fp_mul(x, m1 as int);
    let y2 = fp_mul(x, m2 as int);
    lemma_fp_mul_monotone(y1, 0, bonus_factor_fp(bps));
    lemma_scale_monotone(y1, y2, 1_000_000, bonus_factor_fp(bps), base_u);
    assert(fp_mul(y1, 1_000_000) == y1) by (nonlinear_arith);
    assert(fp_mul(y2, 1_000_000) == y2) by (nonlinear_arith);
}

/// Scaling two ordered values by the same multipliers, capping and
/// converting keeps them ordered.
proof fn lemma_scale_monotone(x1: int, x2: int, m: int, b: int, base_u: int)
    requires
        0 <= x1 <= x2,
        0 <= m,
        0 <= b,
        0 <= base_u,
    ensures
        ({
            let y1 = fp_mul(fp_mul(x1, m), b);
            let y2 = fp_mul(fp_mul(x2, m), b);
            let cap = base_u * MAX_TOTAL_MULTIPLIER_FP;
            (if y1 > cap {
                cap
            } else {
                y1
            }) / (FP_SCALE as int) <= (if y2 > cap {
                cap
            } else {
                y2
            }) / (FP_SCALE as int)
        }),
{
    lemma_fp_mul_monotone_value(x1, x2, m);
    lemma_fp_mul_monotone_value(fp_mul(x1, m), fp_mul(x2, m), b);
    let y1 = fp_mul(fp_mul(x1, m), b);
    let y2 = fp_mul(fp_mul(x2, m), b);
    let cap = base_u * MAX_TOTAL_MULTIPLIER_FP;
    let z1 = if y1 > cap {
        cap
    } else {
        y1
    };
    let z2 = if y2 > cap {
        cap
    } else {
        y2
    };
    vstd::arithmetic::div_mod::lemma_div_is_ordered(z1, z2, 1_000_000);
}

/// Fixed-point scaling keeps non-negative values in order.
proof fn lemma_fp_mul_monotone_value(x1: int, x2: int, m: int)
    requires
        0 <= x1 <= x2,
        0 <= m,
    ensures
        0 <= fp_mul(x1, m) <= fp_mul(x2, m),
{
    assert(0 <= x1 * m <= x2 * m) by (nonlinear_arith)
        requires
            0 <= x1 <= x2,
            0 <= m,
    ;
    vstd::arithmetic::div_mod::lemma_div_is_ordered(x1 * m, x2 * m, 1_000_000);
    vstd::arithmetic::div_mod::lemma_div_pos_is_pos(x1 * m, 1_000_000);
}

/// Concluding a battle takes a life from the loser only: when the attacker
/// (player 1 when `attacker_is_p1`) has more health it keeps its lives and the
/// defender has one fewer (never below zero), and the other way round when
/// the defender has more; on equal health nobody loses a life.
pub proof fn law_conclude_takes_life_from_loser(f: Combatants, attacker_is_p1: bool)
    ensures
        ({
            let g = conclude_spec(f, attacker_is_p1);
            let (mine, theirs) = if attacker_is_p1 {
                (f.battle.player1_health, f.battle.player2_health)
            } else {
                (f.battle.player2_health, f.battle.player1_health)
            };
            let one_fewer = |n: u8|
                if n > 0 {
                    n - 1
                } else {
                    0
                };
            &&& mine > theirs ==> g.attacker.lifes == f.attacker.lifes && g.defender.lifes == one_fewer(
                f.defender.lifes,
            )
            &&& theirs > mine ==> g.defender.lifes == f.defender.lifes && g.attacker.lifes == one_fewer(
                f.attacker.lifes,
            )
            &&& mine == theirs ==> g.attacker.lifes == f.attacker.lifes && g.defender.lifes == f.defender.lifes
        }),
{
    reveal(conclude_spec);
    let b = f.battle;
    let won = attacker_ahead(b, attacker_is_p1);
    let ap = Progression { xp: sat_add_u64(f.attacker_prog.xp, if won { 150 } else { 50 }), ..f.attacker_prog };
    let dp = Progression { xp: sat_add_u64(f.defender_prog.xp, if won { 50 } else { 150 }), ..f.defender_prog };
    crate::battlechain_v2::utils::levelup::lemma_level_up_keeps_lives(ap, f.attacker);
    crate::battlechain_v2::utils::levelup::lemma_level_up_keeps_lives(dp, f.defender);
}

/// Whatever the multipliers and the attack bonus, a turn's damage never
/// exceeds ten times its base damage.
pub proof fn law_damage_capped(d: int, base_u: int, att: StanceType, def: StanceType, attack_bps: i16)
    requires
        0 <= base_u,
    ensures
        scaled_damage(d, base_u, att, def, attack_bps).0 <= base_u * 10,
{
    reveal(scaled_damage);
    let (att_fp, def_fp, _, _) = spec_stance_multipliers(att, def);
    let d1 = fp_mul(fp_mul(fp_mul(d, att_fp as int), def_fp as int), bonus_factor_fp(attack_bps));
    let cap = base_u * 10_000_000;
    assert(cap / 1_000_000 == base_u * 10);
    if d1 <= cap {
        vstd::arithmetic::div_mod::lemma_div_is_ordered(d1, cap, 1_000_000);
    }
}

/// Fixed-point scaling of a non-negative value never shrinks when the
/// multiplier grows.
proof fn lemma_fp_mul_monotone(x: int, m1: int, m2: int)
    requires
        0 <= x,
        0 <= m1 <= m2,
    ensures
        0 <= fp_mul(x, m1) <= fp_mul(x, m2),
{
    assert(0 <= x * m1 <= x * m2) by (nonlinear_arith)
        requires
            0 <= x,
            0 <= m1 <= m2,
    ;
    vstd::arithmetic::div_mod::lemma_div_is_ordered(x * m1, x * m2, 1_000_000);
    vstd::arithmetic::div_mod::lemma_div_pos_is_pos(x * m1, 1_000_000);
}

/// Other things equal, a larger attack bonus never deals less damage.
pub proof fn law_attack_bonus_never_hurts(
    d: int,
    base_u: int,
    att: StanceType,
    def: StanceType,
    bps1: i16,
    bps2: i16,
)
    requires
        0 <= d,
        0 <= base_u,
        bps1 <= bps2,
    ensures
        scaled_damage(d, base_u, att, def, bps1).0 <= scaled_damage(d, base_u, att, def, bps2).0,
{
    reveal(scaled_damage);
    let (att_fp, def_fp, _, _) = spec_stance_multipliers(att, def);
    lemma_fp_mul_monotone(d, 0, att_fp as int);
    let x1 = fp_mul(d, att_fp as int);
    lemma_fp_mul_monotone(x1, 0, def_fp as int);
    let x = fp_mul(x1, def_fp as int);
    lemma_fp_mul_monotone(x, bonus_factor_fp(bps1), bonus_factor_fp(bps2));
    let y1 = fp_mul(x, bonus_factor_fp(bps1));
    let y2 = fp_mul(x, bonus_factor_fp(bps2));
    let cap = base_u * MAX_TOTAL_MULTIPLIER_FP;
    let z1 = if y1 > cap {
        cap
    } else {
        y1
    };
    let z2 = if y2 > cap {
        cap
    } else {
        y2
    };
    vstd::arithmetic::div_mod::lemma_div_is_ordered(z1, z2, 1_000_000);
}

/// A full attack bonus (10000 basis points) at least doubles the damage of
/// no bonus, up to the cap of ten times the base damage; so where doubling
/// stays under the cap, a hit that dealt something deals strictly more.
pub proof fn law_full_bonus_doubles(d: int, base_u: int, att: StanceType, def: StanceType)
    requires
        0 <= d,
        0 <= base_u,
    ensures
        ({
            let a = scaled_damage(d, base_u, att, def, 0).0;
            let b = scaled_damage(d, base_u, att, def, 10000).0;
            &&& b >= 2 * a || b == base_u * 10
            &&& 0 < a && 2 * a <= base_u * 10 ==> b > a
        }),
{
    reveal(scaled_damage);
    let (att_fp, def_fp, _, _) = spec_stance_multipliers(att, def);
    lemma_fp_mul_monotone(d, 0, att_fp as int);
    let x1 = fp_mul(d, att_fp as int);
    lemma_fp_mul_monotone(x1, 0, def_fp as int);
    let x = fp_mul(x1, def_fp as int);
    assert(fp_mul(x, 1_000_000) == x) by (nonlinear_arith);
    assert(fp_mul(x, 2_000_000) == 2 * x) by (nonlinear_arith);
    let cap = base_u * MAX_TOTAL_MULTIPLIER_FP;
    assert(cap / 1_000_000 == base_u * 10);
    let a = scaled_damage(d, base_u, att, def, 0).0;
    if 2 * x <= cap {
        assert(a == x / 1_000_000);
        assert((2 * x) / 1_000_000 >= 2 * (x / 1_000_000)) by (nonlinear_arith)
            requires
                x >= 0,
        ;
    }
}

/// A hit never raises either player's health.
pub proof fn law_hit_never_heals(
    f: Combatants,
    is_player1: bool,
    dmg: u64,
    dodge_roll: u64,
    self_bps: u16,
    counter_bps: u16,
    pierce: bool,
)
    ensures
        hit_spec(f, is_player1, dmg, dodge_roll, self_bps, counter_bps, pierce).0.battle.player1_health
            <= f.battle.player1_health,
        hit_spec(f, is_player1, dmg, dodge_roll, self_bps, counter_bps, pierce).0.battle.player2_health
            <= f.battle.player2_health,
{
    reveal(hit_spec);
}

/// The effects that tick every turn never raise either player's health.
pub proof fn law_tick_never_heals(f: Combatants)
    ensures
        tick_spec(f).battle.player1_health <= f.battle.player1_health,
        tick_spec(f).battle.player2_health <= f.battle.player2_health,
{
    reveal(tick_spec);
}

/// Ending the battle leaves both players and their health as they were; once a player
/// is down the battle is finished and the healthier player, if any, wins,
/// with 150 experience to the winner's progression and 50 to the loser's
/// before leveling up.
pub proof fn law_settle_outcome(f: Combatants, attacker_is_p1: bool)
    ensures
        settle_spec(f, attacker_is_p1).battle.player1_health == f.battle.player1_health,
        settle_spec(f, attacker_is_p1).battle.player2_health == f.battle.player2_health,
        settle_spec(f, attacker_is_p1).battle.player1 == f.battle.player1,
        settle_spec(f, attacker_is_p1).battle.player2 == f.battle.player2,
        someone_down(f.battle) ==> settle_spec(f, attacker_is_p1).battle.state == BattleState::Finished && settle_spec(f, attacker_is_p1).battle.winner == spec_winner(f.battle),
        !someone_down(f.battle) ==> settle_spec(f, attacker_is_p1) == f,
        someone_down(f.battle) && f.battle.player1_health != f.battle.player2_health ==> ({
            let won = attacker_ahead(f.battle, attacker_is_p1);
            &&& settle_spec(f, attacker_is_p1).attacker_prog == level_up_spec(
                Progression { xp: sat_add_u64(f.attacker_prog.xp, if won { 150 } else { 50 }), ..f.attacker_prog },
                f.attacker,
            ).0
            &&& settle_spec(f, attacker_is_p1).defender_prog == level_up_spec(
                Progression { xp: sat_add_u64(f.defender_prog.xp, if won { 50 } else { 150 }), ..f.defender_prog },
                f.defender,
            ).0
        }),
{
    reveal(conclude_spec);
}

} // verus!
