//! A turn as it draws on the entropy pool: the stance preference, one
//! entropy index, the six rolls derived from it, and the turn itself.
use vstd::prelude::*;
use crate::battlechain_v2::errors::GameError;
use crate::battlechain_v2::instructions::round_execution::{
    at_time, keeps_schedule, law_turn_never_heals, lemma_turn_ignores_time, lemma_turn_frame, resolve_turn, step_keeps, turn_levels, turn_spec, Combatants, TurnMove,
    TurnReport, TurnRolls,
};
use crate::battlechain_v2::state::battle::{Battle, BattleState};
use crate::battlechain_v2::state::entropy::{batch_offset, consume_spec, entropy_hash_input, EntropyPool};
use crate::battlechain_v2::utils::math::{derive_u64_from_seed_bytes, sha256_hashv, spec_derive_u64};
use crate::pubkey::Pubkey;

verus! {

/// The tag a turn mixes into its entropy: the bytes of "turn".
pub open spec fn turn_tag_bytes() -> Seq<u8> {
    seq![116u8, 117u8, 114u8, 110u8]
}

/// The bytes of "turn".
pub fn turn_tag() -> (t: [u8; 4])
    ensures
        t@ == turn_tag_bytes(),
{
    let t: [u8; 4] = [116u8, 117u8, 114u8, 110u8];
    assert(t@ =~= turn_tag_bytes());
    t
}

/// The six rolls a seed derives, with tags 0 to 5.
pub open spec fn seed_rolls(seed: Seq<u8>) -> TurnRolls {
    TurnRolls {
        base: spec_derive_u64(seed, 0),
        crit: spec_derive_u64(seed, 1),
        dodge: spec_derive_u64(seed, 2),
        wild: spec_derive_u64(seed, 3),
        attacker_stance: spec_derive_u64(seed, 4),
        defender_stance: spec_derive_u64(seed, 5),
    }
}

/// Derives the six rolls of a turn from its seed.
pub fn rolls_from_seed(seed: &[u8; 32]) -> (r: TurnRolls)
    ensures
        r == seed_rolls(seed@),
{
    TurnRolls {
        base: derive_u64_from_seed_bytes(seed, 0),
        crit: derive_u64_from_seed_bytes(seed, 1),
        dodge: derive_u64_from_seed_bytes(seed, 2),
        wild: derive_u64_from_seed_bytes(seed, 3),
        attacker_stance: derive_u64_from_seed_bytes(seed, 4),
        defender_stance: derive_u64_from_seed_bytes(seed, 5),
    }
}

/// Setting the mover's stance preference: a negative value keeps the old
/// one, 0 to 4 replaces it, anything higher is out of range.
pub open spec fn preference_spec(b: Battle, is_player1: bool, preference: i8) -> Result<Battle, GameError> {
    if preference < 0 {
        Ok(b)
    } else if preference > 4 {
        Err(GameError::InvalidRange)
    } else if is_player1 {
        Ok(Battle { player1_preference: preference as u8, player1_pref_set: true, ..b })
    } else {
        Ok(Battle { player2_preference: preference as u8, player2_pref_set: true, ..b })
    }
}

/// Sets the mover's stance preference. On failure nothing changes.
pub fn set_preference(b: &mut Battle, is_player1: bool, preference: i8) -> (r: Result<(), GameError>)
    ensures
        match preference_spec(*old(b), is_player1, preference) {
            Err(e) => r == Err::<(), _>(e) && *final(b) == *old(b),
            Ok(b2) => r is Ok && *final(b) == b2,
        },
{
    if preference >= 0 {
        let p = preference as u8;
        if p > 4 {
            return Err(GameError::InvalidRange);
        }
        if is_player1 {
            b.player1_preference = p;
            b.player1_pref_set = true;
        } else {
            b.player2_preference = p;
            b.player2_pref_set = true;
        }
    }
    Ok(())
}

/// Drawing a turn's seed: the pool hands out its next entropy index, which
/// must be above the last one the battle used; the seed is the hash of that
/// index's batch seed and index with the signer, "turn" and the turn number.
/// Gives the pool after, the seed and the index.
#[verifier::opaque]
pub open spec fn draw_spec(pool: EntropyPool, b: Battle, signer: Pubkey) -> Result<
    (EntropyPool, Seq<u8>, u64),
    GameError,
> {
    match consume_spec(pool) {
        Err(e) => Err(e),
        Ok((p2, idx)) => {
            let batch = pool.batches@[idx];
            let used = batch_offset(batch);
            if used <= b.last_entropy_index {
                Err(GameError::SeedReplay)
            } else {
                Ok((p2, sha256_hashv(entropy_hash_input(batch, signer, turn_tag_bytes(), b.turn_number as u32)), used))
            }
        },
    }
}

/// Draws a turn's seed from the pool. On failure the pool is unchanged.
pub fn draw_entropy(pool: &mut EntropyPool, b: &Battle, signer: &Pubkey) -> (r: Result<([u8; 32], u64), GameError>)
    ensures
        match draw_spec(*old(pool), *b, *signer) {
            Err(e) => r == Err::<([u8; 32], u64), _>(e) && *final(pool) == *old(pool),
            Ok((p2, seed, used)) => ({
                &&& r matches Ok((h, u)) && h@ == seed && u == used
                &&& *final(pool) == p2
            }),
        },
{
    proof {
        reveal(draw_spec);
    }
    let mut q = *pool;
    let tag = turn_tag();
    let (seed_bytes, used_index) = match q.consume_seed_bytes_return_index(
        signer,
        tag.as_slice(),
        b.turn_number as u32,
    ) {
        Ok(v) => v,
        Err(e) => {
            return Err(e);
        },
    };
    if used_index <= b.last_entropy_index {
        return Err(GameError::SeedReplay);
    }
    *pool = q;
    Ok((seed_bytes, used_index))
}

/// What a turn does with the pool: set the preference, draw the seed, and
/// resolve the turn with the rolls that seed derives, recording the entropy
/// index in the battle. Gives the pool, the combatants, the report and the
/// entropy index used.
#[verifier::opaque]
pub open spec fn pool_turn_spec(
    pool: EntropyPool,
    f: Combatants,
    signer: Pubkey,
    is_player1: bool,
    mv: TurnMove,
) -> Result<(EntropyPool, Combatants, TurnReport, u64), GameError> {
    match preference_spec(f.battle, is_player1, mv.preference) {
        Err(e) => Err(e),
        Ok(b1) => match draw_spec(pool, b1, signer) {
            Err(e) => Err(e),
            Ok((p2, seed, used)) => {
                let f1 = Combatants { battle: Battle { last_entropy_index: used, ..b1 }, ..f };
                match turn_spec(f1, is_player1, mv, seed_rolls(seed)) {
                    Err(e) => Err(e),
                    Ok((f2, rep)) => Ok((p2, f2, rep, used)),
                }
            },
        },
    }
}

/// The levels reached on such a turn.
#[verifier::opaque]
pub open spec fn pool_turn_levels(
    pool: EntropyPool,
    f: Combatants,
    signer: Pubkey,
    is_player1: bool,
    mv: TurnMove,
) -> Seq<u16> {
    match preference_spec(f.battle, is_player1, mv.preference) {
        Err(_) => seq![],
        Ok(b1) => match draw_spec(pool, b1, signer) {
            Err(_) => seq![],
            Ok((_, seed, used)) => {
                let f1 = Combatants { battle: Battle { last_entropy_index: used, ..b1 }, ..f };
                turn_levels(f1, is_player1, mv, seed_rolls(seed))
            },
        },
    }
}

/// Plays a turn on the pool's entropy. On failure neither the pool nor the
/// combatants change. Returns the report, the entropy index used and the
/// levels reached.
#[verifier::rlimit(40)]
pub fn play_turn(pool: &mut EntropyPool, f: &mut Combatants, signer: &Pubkey, is_player1: bool, mv: TurnMove) -> (r:
    Result<(TurnReport, u64, Vec<u16>), GameError>)
    requires
        old(f).attacker.base_damage_max >= old(f).attacker.base_damage_min,
    ensures
        match pool_turn_spec(*old(pool), *old(f), *signer, is_player1, mv) {
            Err(e) => ({
                &&& r == Err::<(TurnReport, u64, Vec<u16>), _>(e)
                &&& *final(pool) == *old(pool)
                &&& *final(f) == *old(f)
            }),
            Ok((p2, f2, rep, used)) => ({
                &&& r matches Ok((rep2, used2, levels)) && rep2 == rep && used2 == used && levels@
                    == pool_turn_levels(*old(pool), *old(f), *signer, is_player1, mv)
                &&& *final(pool) == p2
                &&& *final(f) == f2
            }),
        },
{
    proof {
        reveal(pool_turn_spec);
        reveal(pool_turn_levels);
    }
    let mut g = *f;
    let mut q = *pool;
    match set_preference(&mut g.battle, is_player1, mv.preference) {
        Ok(()) => {},
        Err(e) => {
            return Err(e);
        },
    }
    let (seed_bytes, used_index) = match draw_entropy(&mut q, &g.battle, signer) {
        Ok(v) => v,
        Err(e) => {
            return Err(e);
        },
    };
    g.battle.last_entropy_index = used_index;
    let rolls = rolls_from_seed(&seed_bytes);
    let (report, levels) = match resolve_turn(&mut g, is_player1, mv, rolls) {
        Ok(v) => v,
        Err(e) => {
            return Err(e);
        },
    };
    *f = g;
    *pool = q;
    Ok((report, used_index, levels))
}

/// A pool turn uses an entropy index above the battle's last one and
/// records it; the pool has one index fewer; otherwise the turn keeps the
/// schedule, and it finishes the battle or leaves its state and the
/// attacker's damage range as they were.
pub proof fn lemma_pool_turn_frame(pool: EntropyPool, f: Combatants, signer: Pubkey, is_player1: bool, mv: TurnMove)
    ensures
        pool_turn_spec(pool, f, signer, is_player1, mv) matches Ok((p2, f2, rep, used)) ==> {
            let f1 = Combatants { battle: Battle { last_entropy_index: used, ..f.battle }, ..f };
            &&& used > f.battle.last_entropy_index
            &&& f2.battle.last_entropy_index == used
            &&& p2.total_available == pool.total_available - 1
            &&& keeps_schedule(f1.battle, f2.battle)
            &&& f2.battle.state == BattleState::Finished || step_keeps(f1, f2)
        },
{
    reveal(pool_turn_spec);
    reveal(draw_spec);
    reveal(consume_spec);
    if let Ok(b1) = preference_spec(f.battle, is_player1, mv.preference) {
        if let Ok((p2, seed, used)) = draw_spec(pool, b1, signer) {
            let f1 = Combatants { battle: Battle { last_entropy_index: used, ..b1 }, ..f };
            lemma_turn_frame(f1, is_player1, mv, seed_rolls(seed));
        }
    }
}

/// A turn played on the pool's entropy never raises either player's health.
pub proof fn law_pool_turn_never_heals(pool: EntropyPool, f: Combatants, signer: Pubkey, is_player1: bool, mv: TurnMove)
    ensures
        pool_turn_spec(pool, f, signer, is_player1, mv) matches Ok((p2, f2, rep, used)) ==> {
            &&& f2.battle.player1_health <= f.battle.player1_health
            &&& f2.battle.player2_health <= f.battle.player2_health
        },
{
    reveal(pool_turn_spec);
    if let Ok(b1) = preference_spec(f.battle, is_player1, mv.preference) {
        if let Ok((p2, seed, used)) = draw_spec(pool, b1, signer) {
            let f1 = Combatants { battle: Battle { last_entropy_index: used, ..b1 }, ..f };
            law_turn_never_heals(f1, is_player1, mv, seed_rolls(seed));
        }
    }
}

proof fn lemma_draw_time(pool: EntropyPool, b: Battle, signer: Pubkey, t: i64)
    ensures
        draw_spec(pool, Battle { last_action_ts: t, ..b }, signer) == draw_spec(pool, b, signer),
{
    reveal(draw_spec);
}

/// A pool turn never reads the time of the last action: played at another
/// recorded time, it gives the same outcome with that time kept.
#[verifier::rlimit(60)]
pub proof fn lemma_pool_turn_ignores_time(
    pool: EntropyPool,
    f: Combatants,
    signer: Pubkey,
    is_player1: bool,
    mv: TurnMove,
    t: i64,
)
    ensures
        pool_turn_spec(pool, at_time(f, t), signer, is_player1, mv) == match pool_turn_spec(
            pool,
            f,
            signer,
            is_player1,
            mv,
        ) {
            Err(e) => Err(e),
            Ok((p2, f2, rep, used)) => Ok::<(EntropyPool, Combatants, TurnReport, u64), GameError>(
                (p2, at_time(f2, t), rep, used),
            ),
        },
        pool_turn_levels(pool, at_time(f, t), signer, is_player1, mv) == pool_turn_levels(
            pool,
            f,
            signer,
            is_player1,
            mv,
        ),
{
    reveal(pool_turn_spec);
    reveal(pool_turn_levels);
    let g = at_time(f, t);
    match preference_spec(f.battle, is_player1, mv.preference) {
        Err(e) => {
            assert(preference_spec(g.battle, is_player1, mv.preference) == Err::<Battle, GameError>(e));
        },
        Ok(b1) => {
            let gb1 = Battle { last_action_ts: t, ..b1 };
            assert(preference_spec(g.battle, is_player1, mv.preference) == Ok::<Battle, GameError>(gb1));
            lemma_draw_time(pool, b1, signer, t);
            if let Ok((p2, seed, used)) = draw_spec(pool, b1, signer) {
                let f1 = Combatants { battle: Battle { last_entropy_index: used, ..b1 }, ..f };
                let g1 = Combatants { battle: Battle { last_entropy_index: used, ..gb1 }, ..g };
                assert(g1 == at_time(f1, t));
                lemma_turn_ignores_time(f1, is_player1, mv, seed_rolls(seed), t);
            }
        },
    }
}

} // verus!
