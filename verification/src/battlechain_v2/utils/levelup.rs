//! Experience thresholds and level-ups.
use vstd::prelude::*;
use crate::battlechain_v2::state::character::{Character, Progression};
use crate::battlechain_v2::utils::math::saturating_mul_u64;

verus! {

/// Experience needed to leave `level`: 100 times its square.
pub open spec fn spec_next_level_xp(level: u16) -> int {
    100 * (level * level)
}

/// Bounds of the experience threshold.
pub proof fn lemma_next_level_xp_bounds(level: u16)
    ensures
        0 <= spec_next_level_xp(level) <= 100 * 65535 * 65535,
        level >= 1 ==> spec_next_level_xp(level) >= 100,
{
    assert(0 <= level * level <= 65535 * 65535) by (nonlinear_arith)
        requires
            0 <= level <= 65535,
    ;
    if level >= 1 {
        assert(level * level >= 1) by (nonlinear_arith)
            requires
                level >= 1,
        ;
    }
}

/// Experience needed to leave `level`: 100 times its square.
pub fn next_level_xp(level: u16) -> (r: u64)
    ensures
        r == spec_next_level_xp(level),
{
    proof {
        lemma_next_level_xp_bounds(level);
    }
    let l = level as u64;
    saturating_mul_u64(100u64, saturating_mul_u64(l, l))
}

/// `x` grown by `step`, saturating at the largest 32-bit value.
pub open spec fn grow_u32(x: u32, step: int) -> u32 {
    if x + step > u32::MAX {
        u32::MAX
    } else {
        (x + step) as u32
    }
}

/// `x` grown by `step`, saturating at the largest 16-bit value.
pub open spec fn grow_u16(x: u16, step: int) -> u16 {
    if x + step > u16::MAX {
        u16::MAX
    } else {
        (x + step) as u16
    }
}

/// At least one.
pub open spec fn at_least_one(x: int) -> int {
    if x > 1 {
        x
    } else {
        1
    }
}

/// `pct` percent of `x`, rounded up.
pub open spec fn percent_up(x: int, pct: int) -> int {
    (x * pct + 99) / 100
}

/// A character one level stronger: 5% more hit points, fully healed, and 10%
/// more damage at both ends of its range; each step rounded up and at least one.
pub open spec fn evolve(c: Character) -> Character {
    let hp = grow_u32(c.max_hp, at_least_one(percent_up(c.max_hp as int, 5)));
    Character {
        max_hp: hp,
        current_hp: hp,
        base_damage_min: grow_u16(c.base_damage_min, at_least_one(percent_up(c.base_damage_min as int, 10))),
        base_damage_max: grow_u16(c.base_damage_max, at_least_one(percent_up(c.base_damage_max as int, 10))),
        ..c
    }
}

/// A step of `pct` percent of `x`, rounded up and at least one.
fn growth_step(x: u64, pct: u64) -> (r: u64)
    requires
        x <= u32::MAX,
        1 <= pct <= 100,
    ensures
        r == at_least_one(percent_up(x as int, pct as int)),
{
    assert(x * pct <= u32::MAX * 100) by (nonlinear_arith)
        requires
            x <= u32::MAX,
            pct <= 100,
    ;
    let step = (x * pct + 99) / 100;
    if step > 1 {
        step
    } else {
        1
    }
}

/// Levels gained while the experience covers the next threshold: each level
/// spends its threshold and evolves the character.
pub open spec fn level_up_spec(p: Progression, c: Character) -> (Progression, Character)
    decreases p.xp, u16::MAX - p.level,
{
    let need = spec_next_level_xp(p.level);
    if p.xp >= need {
        proof {
            lemma_next_level_xp_bounds(p.level);
        }
        let level = if p.level == u16::MAX {
            u16::MAX
        } else {
            (p.level + 1) as u16
        };
        level_up_spec(Progression { xp: (p.xp - need) as u64, level, ..p }, evolve(c))
    } else {
        (p, c)
    }
}

/// The levels reached, in order, while leveling up.
pub open spec fn level_up_levels(p: Progression, c: Character) -> Seq<u16>
    decreases p.xp, u16::MAX - p.level,
{
    let need = spec_next_level_xp(p.level);
    if p.xp >= need {
        proof {
            lemma_next_level_xp_bounds(p.level);
        }
        let level = if p.level == u16::MAX {
            u16::MAX
        } else {
            (p.level + 1) as u16
        };
        seq![level] + level_up_levels(Progression { xp: (p.xp - need) as u64, level, ..p }, evolve(c))
    } else {
        seq![]
    }
}

/// Raises the level while the experience covers the next threshold, and
/// returns the levels reached for the caller to announce.
pub fn level_up_if_needed(prog: &mut Progression, ch: &mut Character) -> (levels: Vec<u16>)
    ensures
        (*final(prog), *final(ch)) == level_up_spec(*old(prog), *old(ch)),
        levels@ == level_up_levels(*old(prog), *old(ch)),
{
    let mut levels: Vec<u16> = Vec::new();
    loop
        invariant_except_break
            level_up_spec(*prog, *ch) == level_up_spec(*old(prog), *old(ch)),
            levels@ + level_up_levels(*prog, *ch) == level_up_levels(*old(prog), *old(ch)),
        ensures
            (*prog, *ch) == level_up_spec(*old(prog), *old(ch)),
            levels@ == level_up_levels(*old(prog), *old(ch)),
        decreases prog.xp, u16::MAX - prog.level,
    {
        let need = next_level_xp(prog.level);
        proof {
            lemma_next_level_xp_bounds(prog.level);
        }
        if prog.xp >= need {
            let ghost p0 = *prog;
            let ghost c0 = *ch;
            prog.xp = prog.xp.saturating_sub(need);
            prog.level = prog.level.saturating_add(1);

            let hp_step: u64 = growth_step(ch.max_hp as u64, 5);
            let hp_grown: u64 = ch.max_hp as u64 + hp_step;
            ch.max_hp = if hp_grown > u32::MAX as u64 {
                u32::MAX
            } else {
                hp_grown as u32
            };
            ch.current_hp = ch.max_hp;
            let min_grown: u64 = ch.base_damage_min as u64 + growth_step(ch.base_damage_min as u64, 10);
            ch.base_damage_min = if min_grown > u16::MAX as u64 {
                u16::MAX
            } else {
                min_grown as u16
            };
            let max_grown: u64 = ch.base_damage_max as u64 + growth_step(ch.base_damage_max as u64, 10);
            ch.base_damage_max = if max_grown > u16::MAX as u64 {
                u16::MAX
            } else {
                max_grown as u16
            };
            levels.push(prog.level);
            assert(*ch == evolve(c0));
            assert(level_up_levels(p0, c0) == seq![prog.level] + level_up_levels(*prog, *ch));
            assert(levels@ + level_up_levels(*prog, *ch) =~= (levels@.drop_last() + seq![prog.level])
                + level_up_levels(*prog, *ch));
        } else {
            assert(levels@ + level_up_levels(*prog, *ch) =~= levels@);
            break;
        }
    }
    levels
}

/// After leveling up, the experience left is below the next threshold, the
/// level has not fallen and the experience has not grown.
pub proof fn law_level_up_settles(p: Progression, c: Character)
    ensures
        level_up_spec(p, c).0.xp < spec_next_level_xp(level_up_spec(p, c).0.level),
        level_up_spec(p, c).0.level >= p.level,
        level_up_spec(p, c).0.xp <= p.xp,
    decreases p.xp, u16::MAX - p.level,
{
    let need = spec_next_level_xp(p.level);
    if p.xp >= need {
        lemma_next_level_xp_bounds(p.level);
        let level = if p.level == u16::MAX {
            u16::MAX
        } else {
            (p.level + 1) as u16
        };
        law_level_up_settles(Progression { xp: (p.xp - need) as u64, level, ..p }, evolve(c));
    }
}

/// Leveling up changes a character's stats, never its lives or its class.
pub proof fn lemma_level_up_keeps_lives(p: Progression, c: Character)
    ensures
        level_up_spec(p, c).1.lifes == c.lifes,
        level_up_spec(p, c).1.base_class == c.base_class,
    decreases p.xp, u16::MAX - p.level,
{
    let need = spec_next_level_xp(p.level);
    if p.xp >= need {
        lemma_next_level_xp_bounds(p.level);
        let level = if p.level == u16::MAX {
            u16::MAX
        } else {
            (p.level + 1) as u16
        };
        lemma_level_up_keeps_lives(Progression { xp: (p.xp - need) as u64, level, ..p }, evolve(c));
    }
}

} // verus!
