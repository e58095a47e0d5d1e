//! Stance multipliers and weighted stance sampling.
use vstd::prelude::*;
use crate::battlechain_v2::constants::FP_SCALE;
use crate::battlechain_v2::utils::math::{saturating_add_i32, saturating_mul_u32};
use crate::battlechain_v2::state::battle::StanceType;
use crate::battlechain_v2::state::character::CharacterClass;

verus! {

/// The attacker multiplier, defender multiplier, self-damage basis points and
/// counter basis points of a pair of stances.
pub open spec fn spec_stance_multipliers(att: StanceType, def: StanceType) -> (u128, u128, u16, u16) {
    let (att_fp, self_bps) = match att {
        StanceType::Aggressive => (1_300_000u128, 0u16),
        StanceType::Defensive => (700_000u128, 0u16),
        StanceType::Berserker => (2_000_000u128, 2500u16),
        StanceType::Counter => (900_000u128, 0u16),
        StanceType::Balanced => (1_000_000u128, 0u16),
    };
    let (def_fp, counter_bps) = match def {
        StanceType::Defensive => (500_000u128, 0u16),
        StanceType::Aggressive => (1_500_000u128, 0u16),
        StanceType::Counter => (1_000_000u128, 4000u16),
        _ => (1_000_000u128, 0u16),
    };
    (att_fp, def_fp, self_bps, counter_bps)
}

/// The stances scale damage by the percentages they are known by: a
/// Balanced attacker or defender leaves damage as it is; against that,
/// Aggressive deals 130% and takes 150%, Defensive deals 70% and takes 50%,
/// Berserker deals 200% and takes 100%, Counter deals 90% and takes 100%.
/// Only a Berserker attacker pays self-damage (a quarter of what it deals)
/// and only a Counter defender sends damage back (40%).
pub proof fn law_stance_percentages(att: StanceType, def: StanceType, x: int)
    ensures
        ({
            let (att_fp, def_fp, self_bps, counter_bps) = spec_stance_multipliers(att, def);
            let (bal_att, _, _, _) = spec_stance_multipliers(StanceType::Balanced, def);
            let (_, bal_def, _, _) = spec_stance_multipliers(att, StanceType::Balanced);
            &&& (x * bal_att) / (FP_SCALE as int) == x
            &&& (x * bal_def) / (FP_SCALE as int) == x
            &&& att == StanceType::Aggressive ==> 10 * att_fp == 13 * bal_att
            &&& att == StanceType::Defensive ==> 10 * att_fp == 7 * bal_att
            &&& att == StanceType::Berserker ==> att_fp == 2 * bal_att
            &&& att == StanceType::Counter ==> 10 * att_fp == 9 * bal_att
            &&& def == StanceType::Aggressive ==> 2 * def_fp == 3 * bal_def
            &&& def == StanceType::Defensive ==> 2 * def_fp == bal_def
            &&& (def == StanceType::Berserker || def == StanceType::Counter) ==> def_fp == bal_def
            &&& (att == StanceType::Berserker ==> 4 * self_bps == 10000) && (att != StanceType::Berserker
                ==> self_bps == 0)
            &&& (def == StanceType::Counter ==> 10 * counter_bps == 4 * 10000) && (def != StanceType::Counter
                ==> counter_bps == 0)
        }),
{
    assert((x * 1_000_000) / 1_000_000 == x) by (nonlinear_arith);
}

/// Multipliers of a pair of stances: the attacker's stance scales the damage
/// dealt (Berserker also costs a quarter of it back), the defender's stance
/// scales the damage taken (Counter sends 40% back instead).
pub fn stance_multipliers(att: StanceType, def: StanceType) -> (r: (u128, u128, u16, u16))
    ensures
        r == spec_stance_multipliers(att, def),
{
    let mut att_fp = FP_SCALE;
    let mut def_fp = FP_SCALE;
    let mut self_bps = 0u16;
    let mut counter_bps = 0u16;

    match att {
        StanceType::Aggressive => att_fp = FP_SCALE * 130 / 100,
        StanceType::Defensive => att_fp = FP_SCALE * 70 / 100,
        StanceType::Berserker => {
            att_fp = FP_SCALE * 200 / 100;
            self_bps = 2500;
        },
        StanceType::Counter => att_fp = FP_SCALE * 90 / 100,
        StanceType::Balanced => {},
    }

    match def {
        StanceType::Defensive => def_fp = FP_SCALE * 50 / 100,
        StanceType::Aggressive => def_fp = FP_SCALE * 150 / 100,
        StanceType::Counter => counter_bps = 4000,
        _ => {},
    }

    (att_fp, def_fp, self_bps, counter_bps)
}

/// Baseline weight of a stance: Balanced 40, Aggressive 20, Defensive 20,
/// Berserker 10, Counter 10.
pub open spec fn base_weight(s: StanceType) -> int {
    match s {
        StanceType::Balanced => 40,
        StanceType::Aggressive => 20,
        StanceType::Defensive => 20,
        StanceType::Berserker => 10,
        StanceType::Counter => 10,
    }
}

/// How a class shifts the weight of a stance.
pub open spec fn class_bias(c: CharacterClass, s: StanceType) -> int {
    match (c, s) {
        (CharacterClass::Warrior, StanceType::Berserker) => 5,
        (CharacterClass::Warrior, StanceType::Aggressive) => 3,
        (CharacterClass::Assassin, StanceType::Aggressive) => 6,
        (CharacterClass::Assassin, StanceType::Counter) => 2,
        (CharacterClass::Mage, StanceType::Defensive) => 4,
        (CharacterClass::Mage, StanceType::Balanced) => 3,
        (CharacterClass::Tank, StanceType::Defensive) => 8,
        (CharacterClass::Tank, StanceType::Counter) => 2,
        (CharacterClass::Trickster, StanceType::Aggressive) => 4,
        (CharacterClass::Trickster, StanceType::Balanced) => 4,
        _ => 0,
    }
}

/// The stance a preference code names; unknown codes name Balanced.
pub open spec fn preferred_stance(code: u8) -> StanceType {
    if code == 1 {
        StanceType::Aggressive
    } else if code == 2 {
        StanceType::Defensive
    } else if code == 3 {
        StanceType::Berserker
    } else if code == 4 {
        StanceType::Counter
    } else {
        StanceType::Balanced
    }
}

/// Weight of a stance for a class and a preference: baseline plus class
/// bias, tripled for the preferred stance when a preference is set.
pub open spec fn stance_weight(c: CharacterClass, pref: (bool, u8), s: StanceType) -> int {
    let w = base_weight(s) + class_bias(c, s);
    if pref.0 && preferred_stance(pref.1) == s {
        3 * w
    } else {
        w
    }
}

/// The stances in sampling order.
pub open spec fn stance_at(i: int) -> StanceType {
    if i == 0 {
        StanceType::Balanced
    } else if i == 1 {
        StanceType::Aggressive
    } else if i == 2 {
        StanceType::Defensive
    } else if i == 3 {
        StanceType::Berserker
    } else {
        StanceType::Counter
    }
}

/// Sum of the first `n` weights in sampling order.
pub open spec fn weight_prefix(c: CharacterClass, pref: (bool, u8), n: int) -> int
    decreases n,
{
    if n <= 0 {
        0
    } else {
        weight_prefix(c, pref, n - 1) + stance_weight(c, pref, stance_at(n - 1))
    }
}

/// The stance whose slice of the cumulative weights holds `pick`.
pub open spec fn stance_for_pick(c: CharacterClass, pref: (bool, u8), pick: int) -> StanceType {
    if pick < weight_prefix(c, pref, 1) {
        StanceType::Balanced
    } else if pick < weight_prefix(c, pref, 2) {
        StanceType::Aggressive
    } else if pick < weight_prefix(c, pref, 3) {
        StanceType::Defensive
    } else if pick < weight_prefix(c, pref, 4) {
        StanceType::Berserker
    } else if pick < weight_prefix(c, pref, 5) {
        StanceType::Counter
    } else {
        StanceType::Balanced
    }
}

/// The stance sampled for a class, a preference and a random value.
#[verifier::opaque]
pub open spec fn spec_sample_stance(c: CharacterClass, pref: (bool, u8), rng: u64) -> StanceType {
    stance_for_pick(c, pref, rng as int % weight_prefix(c, pref, 5))
}

/// The weight table holds the baseline weights, in sampling order.
pub open spec fn table_base(weights: Seq<(StanceType, u32)>) -> bool {
    &&& weights.len() == 5
    &&& forall|i: int| 0 <= i < 5 ==> (#[trigger] weights[i]).0 == stance_at(i) && weights[i].1 == base_weight(stance_at(i))
}

/// The weight table holds the baseline weights shifted by the class bias.
pub open spec fn table_biased(weights: Seq<(StanceType, u32)>, c: CharacterClass) -> bool {
    &&& weights.len() == 5
    &&& forall|i: int|
        0 <= i < 5 ==> (#[trigger] weights[i]).0 == stance_at(i) && weights[i].1 == base_weight(stance_at(i))
            + class_bias(c, stance_at(i))
}

/// The weight table holds the final weights for a class and a preference.
pub open spec fn table_final(weights: Seq<(StanceType, u32)>, c: CharacterClass, pref: (bool, u8)) -> bool {
    &&& weights.len() == 5
    &&& forall|i: int|
        0 <= i < 5 ==> (#[trigger] weights[i]).0 == stance_at(i) && weights[i].1 == stance_weight(c, pref, stance_at(i))
}

proof fn lemma_weight_bounds(c: CharacterClass, pref: (bool, u8), s: StanceType)
    ensures
        base_weight(s) <= stance_weight(c, pref, s) <= 150,
{
}

proof fn lemma_weight_prefix(c: CharacterClass, pref: (bool, u8))
    ensures
        weight_prefix(c, pref, 0) == 0,
        forall|n: int| 0 <= n < 5 ==> #[trigger] weight_prefix(c, pref, n + 1) == weight_prefix(c, pref, n)
            + stance_weight(c, pref, stance_at(n)),
        forall|n: int| 0 <= n <= 5 ==> 0 <= #[trigger] weight_prefix(c, pref, n) <= 150 * n,
        weight_prefix(c, pref, 5) >= 100,
{
    lemma_weight_bounds(c, pref, StanceType::Balanced);
    lemma_weight_bounds(c, pref, StanceType::Aggressive);
    lemma_weight_bounds(c, pref, StanceType::Defensive);
    lemma_weight_bounds(c, pref, StanceType::Berserker);
    lemma_weight_bounds(c, pref, StanceType::Counter);
    let w0 = stance_weight(c, pref, stance_at(0));
    let w1 = stance_weight(c, pref, stance_at(1));
    let w2 = stance_weight(c, pref, stance_at(2));
    let w3 = stance_weight(c, pref, stance_at(3));
    let w4 = stance_weight(c, pref, stance_at(4));
    assert(weight_prefix(c, pref, 0) == 0);
    assert(weight_prefix(c, pref, 1) == w0);
    assert(weight_prefix(c, pref, 2) == w0 + w1);
    assert(weight_prefix(c, pref, 3) == w0 + w1 + w2);
    assert(weight_prefix(c, pref, 4) == w0 + w1 + w2 + w3);
    assert(weight_prefix(c, pref, 5) == w0 + w1 + w2 + w3 + w4);
    assert forall|n: int| 0 <= n < 5 implies #[trigger] weight_prefix(c, pref, n + 1) == weight_prefix(c, pref, n)
        + stance_weight(c, pref, stance_at(n)) by {}
    assert forall|n: int| 0 <= n <= 5 implies 0 <= #[trigger] weight_prefix(c, pref, n) <= 150 * n by {
        if n == 0 {} else if n == 1 {} else if n == 2 {} else if n == 3 {} else if n == 4 {} else {}
    }
}

/// Samples a stance: each stance's chance is its weight over the total.
pub fn sample_stance_with_preference(class: CharacterClass, pref: (bool, u8), rng: u64) -> (s: StanceType)
    ensures
        s == spec_sample_stance(class, pref, rng),
{
    let mut weights: Vec<(StanceType, u32)> = Vec::new();
    weights.push((StanceType::Balanced, 40u32));
    weights.push((StanceType::Aggressive, 20u32));
    weights.push((StanceType::Defensive, 20u32));
    weights.push((StanceType::Berserker, 10u32));
    weights.push((StanceType::Counter, 10u32));
    assert(table_base(weights@));

    match class {
        CharacterClass::Warrior => {
            adjust_weight(&mut weights, StanceType::Berserker, 5);
            adjust_weight(&mut weights, StanceType::Aggressive, 3);
        },
        CharacterClass::Assassin => {
            adjust_weight(&mut weights, StanceType::Aggressive, 6);
            adjust_weight(&mut weights, StanceType::Counter, 2);
        },
        CharacterClass::Mage => {
            adjust_weight(&mut weights, StanceType::Defensive, 4);
            adjust_weight(&mut weights, StanceType::Balanced, 3);
        },
        CharacterClass::Tank => {
            adjust_weight(&mut weights, StanceType::Defensive, 8);
            adjust_weight(&mut weights, StanceType::Counter, 2);
        },
        CharacterClass::Trickster => {
            adjust_weight(&mut weights, StanceType::Aggressive, 4);
            adjust_weight(&mut weights, StanceType::Balanced, 4);
        },
    }
    assert(table_biased(weights@, class));

    if pref.0 {
        let pref_st = match pref.1 {
            0 => StanceType::Balanced,
            1 => StanceType::Aggressive,
            2 => StanceType::Defensive,
            3 => StanceType::Berserker,
            4 => StanceType::Counter,
            _ => StanceType::Balanced,
        };
        assert(pref_st == preferred_stance(pref.1));
        multiply_weight(&mut weights, pref_st, 3u32);
    }
    assert(table_final(weights@, class, pref));
    proof {
        lemma_weight_prefix(class, pref);
    }

    let mut total: u128 = 0;
    let mut i: usize = 0;
    while i < weights.len()
        invariant
            table_final(weights@, class, pref),
            i <= 5,
            total == weight_prefix(class, pref, i as int),
            forall|n: int| 0 <= n < 5 ==> #[trigger] weight_prefix(class, pref, n + 1) == weight_prefix(class, pref, n)
                + stance_weight(class, pref, stance_at(n)),
            forall|n: int| 0 <= n <= 5 ==> 0 <= #[trigger] weight_prefix(class, pref, n) <= 150 * n,
        decreases 5 - i,
    {
        assert(weights@[i as int].1 == stance_weight(class, pref, stance_at(i as int)));
        assert(weight_prefix(class, pref, i + 1) == weight_prefix(class, pref, i as int) + stance_weight(class, pref, stance_at(i as int)));
        assert(weight_prefix(class, pref, i + 1) <= 150 * (i + 1));
        total = total + weights[i].1 as u128;
        i = i + 1;
    }
    let pick: u128 = (rng as u128) % total;
    let mut acc: u128 = 0;
    let mut j: usize = 0;
    while j < weights.len()
        invariant
            table_final(weights@, class, pref),
            j <= 5,
            acc == weight_prefix(class, pref, j as int),
            pick == rng as int % weight_prefix(class, pref, 5),
            pick < weight_prefix(class, pref, 5),
            acc <= pick,
            forall|n: int| 0 <= n < 5 ==> #[trigger] weight_prefix(class, pref, n + 1) == weight_prefix(class, pref, n)
                + stance_weight(class, pref, stance_at(n)),
            forall|n: int| 0 <= n <= 5 ==> 0 <= #[trigger] weight_prefix(class, pref, n) <= 150 * n,
            forall|k: int| 0 <= k <= j ==> #[trigger] weight_prefix(class, pref, k) <= pick,
        decreases 5 - j,
    {
        let (st, w) = weights[j];
        assert(weight_prefix(class, pref, j + 1) == weight_prefix(class, pref, j as int) + stance_weight(class, pref, stance_at(j as int)));
        assert(weight_prefix(class, pref, j + 1) <= 150 * (j + 1));
        acc = acc + w as u128;
        if pick < acc {
            assert(st == stance_at(j as int));
            assert(forall|k: int| 1 <= k <= j ==> weight_prefix(class, pref, k) <= pick);
            proof {
                reveal(spec_sample_stance);
            }
            return st;
        }
        j = j + 1;
    }
    proof {
        reveal(spec_sample_stance);
    }
    StanceType::Balanced
}

/// Shifts the weight of `stance` by `delta`, saturating and never below zero.
fn adjust_weight(weights: &mut Vec<(StanceType, u32)>, stance: StanceType, delta: i32)
    requires
        old(weights).len() == 5,
        forall|i: int| 0 <= i < 5 ==> #[trigger] old(weights)@[i].1 <= 1000,
        0 <= delta <= 100,
    ensures
        final(weights).len() == 5,
        forall|i: int|
            0 <= i < 5 ==> #[trigger] final(weights)@[i] == if old(weights)@[i].0 == stance {
                (old(weights)@[i].0, (old(weights)@[i].1 + delta) as u32)
            } else {
                old(weights)@[i]
            },
{
    let mut i: usize = 0;
    while i < weights.len()
        invariant
            weights.len() == 5,
            i <= 5,
            forall|k: int| 0 <= k < 5 ==> #[trigger] old(weights)@[k].1 <= 1000,
            0 <= delta <= 100,
            forall|k: int|
                0 <= k < i ==> #[trigger] weights@[k] == if old(weights)@[k].0 == stance {
                    (old(weights)@[k].0, (old(weights)@[k].1 + delta) as u32)
                } else {
                    old(weights)@[k]
                },
            forall|k: int| i <= k < 5 ==> #[trigger] weights@[k] == old(weights)@[k],
        decreases 5 - i,
    {
        let (st, w) = weights[i];
        if st == stance {
            let nw = saturating_add_i32(w as i32, delta);
            let clamped: i32 = if nw > 0 {
                nw
            } else {
                0
            };
            weights.set(i, (st, clamped as u32));
        }
        i = i + 1;
    }
}

/// Multiplies the weight of `stance` by `factor`, saturating.
fn multiply_weight(weights: &mut Vec<(StanceType, u32)>, stance: StanceType, factor: u32)
    requires
        old(weights).len() == 5,
        forall|i: int| 0 <= i < 5 ==> #[trigger] old(weights)@[i].1 <= 1000,
        factor <= 3,
    ensures
        final(weights).len() == 5,
        forall|i: int|
            0 <= i < 5 ==> #[trigger] final(weights)@[i] == if old(weights)@[i].0 == stance {
                (old(weights)@[i].0, (old(weights)@[i].1 * factor) as u32)
            } else {
                old(weights)@[i]
            },
{
    let mut i: usize = 0;
    while i < weights.len()
        invariant
            weights.len() == 5,
            i <= 5,
            forall|k: int| 0 <= k < 5 ==> #[trigger] old(weights)@[k].1 <= 1000,
            factor <= 3,
            forall|k: int|
                0 <= k < i ==> #[trigger] weights@[k] == if old(weights)@[k].0 == stance {
                    (old(weights)@[k].0, (old(weights)@[k].1 * factor) as u32)
                } else {
                    old(weights)@[k]
                },
            forall|k: int| i <= k < 5 ==> #[trigger] weights@[k] == old(weights)@[k],
        decreases 5 - i,
    {
        let (st, w) = weights[i];
        if st == stance {
            assert(w * factor <= 3000) by (nonlinear_arith)
                requires
                    w <= 1000,
                    factor <= 3,
            ;
            weights.set(i, (st, saturating_mul_u32(w, factor)));
        }
        i = i + 1;
    }
}

} // verus!
