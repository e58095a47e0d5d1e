use anchor_lang::solana_program::hash::hashv;
use battlechain::battlechain_v2::errors::GameError;
use battlechain::battlechain_v2::instructions::damage::scale_damage;
use battlechain::battlechain_v2::instructions::round_execution::{
    execute_round_handler, execute_single_turn, resolve_turn, use_special_move, use_wildcard_move, Combatants, RoundMoves, TurnMove,
    TurnRolls,
};
use battlechain::battlechain_v2::instructions::turn::{rolls_from_seed, set_preference};
use battlechain::battlechain_v2::program::{
    apply_trait_bundle, approve_challenger, build_battle, cancel_offer, create_battle_offer, create_character_from_nft,
    create_config, create_entropy_pool, execute_turn, finalize_battle, forfeit_by_timeout, join_battle_offer,
    refill_seed_batch, start_battle, withdraw_request, NftHolding, Payee,
};
use battlechain::battlechain_v2::state::battle::{Battle, BattleState, StanceType};
use battlechain::battlechain_v2::state::character::{Character, CharacterClass, Progression, TraitBundle};
use battlechain::battlechain_v2::state::config::Config;
use battlechain::battlechain_v2::state::entropy::EntropyPool;
use battlechain::battlechain_v2::state::offer::{Currency, JoinStatus, Offer, Request};
use battlechain::battlechain_v2::utils::levelup::{level_up_if_needed, next_level_xp};
use battlechain::battlechain_v2::utils::math::{derive_u64_from_seed_bytes, saturating_sub_i64};
use battlechain::battlechain_v2::utils::stance::{sample_stance_with_preference, stance_multipliers};
use battlechain::battlechain_v2::utils::wildcard::apply_wildcard_effect;
use battlechain::pubkey::Pubkey;

fn key(b: u8) -> Pubkey {
    Pubkey::new_from_array([b; 32])
}

fn character(class: CharacterClass, mint: u8) -> Character {
    let holding = NftHolding { mint: key(mint), owner: key(100 + mint), amount: 1 };
    let (c, _, _) = create_character_from_nft(key(mint), key(100 + mint), holding, class, 0, 0, None, 0).unwrap();
    c
}

fn progression(mint: u8) -> Progression {
    Progression { nft_mint: key(mint), xp: 0, level: 1, mmr: 100, last_played: 0, bump: 0 }
}

fn config() -> Config {
    create_config(key(9), 250, 600, vec![key(50)], key(8), 0)
}

fn offer() -> Offer {
    create_battle_offer(&config(), key(1), 7, Currency::SOL, 1000, 1, 10, vec![], false, 100, 0, 50, 0).unwrap()
}

fn request() -> Request {
    let o = offer();
    join_battle_offer(&o, key(40), &progression(3), &character(CharacterClass::Tank, 3), key(41), key(2), 500, 60, 0)
        .unwrap()
}

fn battle() -> Battle {
    let mut b = build_battle(&offer(), &request(), 600, 70, 0);
    b.current_turn = 1;
    b
}

/// A Warrior attacking a Tank stripped of its defense and dodge, so that the
/// damage steps show plainly.
fn combatants() -> Combatants {
    let mut defender = character(CharacterClass::Tank, 3);
    defender.defense = 0;
    defender.dodge_bps = 0;
    Combatants {
        battle: battle(),
        attacker: character(CharacterClass::Warrior, 5),
        defender,
        attacker_prog: progression(5),
        defender_prog: progression(3),
    }
}

fn rolls(base: u64, stance: u64) -> TurnRolls {
    TurnRolls { base, crit: 9999, dodge: 9999, wild: 0, attacker_stance: stance, defender_stance: 0 }
}

fn plain() -> TurnMove {
    TurnMove { preference: -1, use_special: false, use_wildcard: false }
}

fn pool_with(count: u32) -> EntropyPool {
    let mut pool = create_entropy_pool(key(20), key(21), 0, 0);
    refill_seed_batch(&mut pool, &key(21), [7u8; 32], 10, count, 5).unwrap();
    pool
}

#[test]
fn stance_multipliers_table() {
    assert_eq!(stance_multipliers(StanceType::Balanced, StanceType::Balanced), (1_000_000, 1_000_000, 0, 0));
    assert_eq!(stance_multipliers(StanceType::Berserker, StanceType::Counter), (2_000_000, 1_000_000, 2500, 4000));
    assert_eq!(stance_multipliers(StanceType::Defensive, StanceType::Aggressive), (700_000, 1_500_000, 0, 0));
}

#[test]
fn stance_sampling_follows_weights() {
    // Warrior weights: Balanced 40, Aggressive 23, Defensive 20, Berserker 15, Counter 10.
    assert_eq!(sample_stance_with_preference(CharacterClass::Warrior, (false, 0), 0), StanceType::Balanced);
    assert_eq!(sample_stance_with_preference(CharacterClass::Warrior, (false, 0), 40), StanceType::Aggressive);
    assert_eq!(sample_stance_with_preference(CharacterClass::Warrior, (false, 0), 83), StanceType::Berserker);
    assert_eq!(sample_stance_with_preference(CharacterClass::Warrior, (false, 0), 107), StanceType::Counter);
    assert_eq!(sample_stance_with_preference(CharacterClass::Warrior, (false, 0), 108), StanceType::Balanced);
    // A Counter preference triples its weight: 40, 23, 20, 15, 30.
    assert_eq!(sample_stance_with_preference(CharacterClass::Warrior, (true, 4), 127), StanceType::Counter);
}

#[test]
fn level_thresholds_and_level_up() {
    assert_eq!(next_level_xp(1), 100);
    assert_eq!(next_level_xp(3), 900);
    let mut p = progression(5);
    p.xp = 550;
    let mut c = character(CharacterClass::Warrior, 5);
    let levels = level_up_if_needed(&mut p, &mut c);
    assert_eq!(levels, vec![2, 3]);
    assert_eq!(p.level, 3);
    assert_eq!(p.xp, 50);
    // 120 -> 126 -> 133; 8 -> 9 -> 10; 15 -> 17 -> 19 (each step rounded up).
    assert_eq!(c.max_hp, 133);
    assert_eq!(c.current_hp, 133);
    assert_eq!(c.base_damage_min, 10);
    assert_eq!(c.base_damage_max, 19);
}

#[test]
fn level_up_rounds_growth_up() {
    let mut p = progression(5);
    p.xp = 100;
    let mut c = character(CharacterClass::Assassin, 5);
    c.current_hp = 40;
    c.base_damage_max = 19;
    assert_eq!(level_up_if_needed(&mut p, &mut c), vec![2]);
    assert_eq!((p.level, p.xp), (2, 0));
    assert_eq!((c.max_hp, c.current_hp, c.base_damage_min, c.base_damage_max), (95, 95, 14, 21));
    let mut tiny = character(CharacterClass::Assassin, 5);
    tiny.max_hp = 0;
    tiny.base_damage_min = 0;
    let mut q = progression(5);
    q.xp = 100;
    level_up_if_needed(&mut q, &mut tiny);
    assert_eq!((tiny.max_hp, tiny.base_damage_min), (1, 1));
}

#[test]
fn wildcard_effects_by_roll() {
    let mut b = battle();
    let mut a = character(CharacterClass::Warrior, 5);
    let d = character(CharacterClass::Tank, 3);
    let mut dmg: u128 = 8_000_000;
    assert_eq!(apply_wildcard_effect(0, &mut dmg, &mut b, &mut a, &d), Ok(1));
    assert_eq!(dmg, 10_000_000);
    let mut dmg: u128 = 8_000_000;
    assert_eq!(apply_wildcard_effect(9999, &mut dmg, &mut b, &mut a, &d), Ok(5));
    assert_eq!(dmg, 16_000_000);
    a.current_hp = 100;
    assert_eq!(apply_wildcard_effect(4000, &mut dmg, &mut b, &mut a, &d), Ok(2));
    assert_eq!(a.current_hp, 110);
    a.current_hp = 118;
    assert_eq!(apply_wildcard_effect(4000, &mut dmg, &mut b, &mut a, &d), Ok(2));
    assert_eq!(a.current_hp, 120);
}

#[test]
fn wildcard_stun_hits_the_opponent() {
    let mut b = battle();
    let mut a = character(CharacterClass::Warrior, 5);
    let d = character(CharacterClass::Tank, 3);
    let mut dmg: u128 = 8_000_000;
    b.current_turn = 1;
    assert_eq!(apply_wildcard_effect(7500, &mut dmg, &mut b, &mut a, &d), Ok(3));
    assert_eq!((b.player2_dot_damage, b.player2_dot_turns), (2, 1));
    assert_eq!((b.player1_dot_damage, b.player1_dot_turns), (0, 0));
    b.current_turn = 2;
    assert_eq!(apply_wildcard_effect(7500, &mut dmg, &mut b, &mut a, &d), Ok(3));
    assert_eq!((b.player1_dot_damage, b.player1_dot_turns), (2, 1));
    assert_eq!(dmg, 8_000_000);
}

#[test]
fn plain_turn_deals_base_damage() {
    let mut f = combatants();
    let (rep, levels) = resolve_turn(&mut f, true, plain(), rolls(0, 0)).unwrap();
    assert_eq!(rep.roll.base_roll, 8);
    assert_eq!(rep.hit.dealt, 8);
    assert!(!rep.roll.is_crit);
    assert!(!rep.clamped);
    assert_eq!(f.battle.player2_health, 92);
    assert_eq!(f.battle.player1_health, 100);
    assert_eq!(f.attacker.last_base_damage, 8);
    assert_eq!(f.attacker.combo_count, 0);
    assert!(!rep.ended);
    assert!(levels.is_empty());
}

#[test]
fn repeated_base_roll_builds_combo() {
    let mut f = combatants();
    f.attacker.last_base_damage = 8;
    let (rep, _) = resolve_turn(&mut f, true, plain(), rolls(0, 0)).unwrap();
    assert!(rep.roll.combo_applied);
    assert_eq!(f.attacker.combo_count, 1);
    // 8 * 1.15 = 9.2 points.
    assert_eq!(rep.hit.dealt, 9);
}

#[test]
fn berserker_pays_self_damage() {
    let mut f = combatants();
    let (rep, _) = resolve_turn(&mut f, true, plain(), rolls(0, 83)).unwrap();
    assert_eq!(rep.roll.att_stance, StanceType::Berserker);
    assert_eq!(rep.hit.dealt, 16);
    assert_eq!(rep.hit.self_damage, 4);
    assert_eq!(f.battle.player1_health, 96);
    assert_eq!(f.battle.player2_health, 84);
}

#[test]
fn wildcard_and_special_scale_damage_once_each() {
    let mut f = combatants();
    let mv = TurnMove { preference: -1, use_special: true, use_wildcard: true };
    let (rep, _) = resolve_turn(&mut f, true, mv, rolls(0, 0)).unwrap();
    assert_eq!(rep.wildcard, Some(1));
    // Battle Fury: 8 * 1.25 * 1.5 = 15.
    assert_eq!(rep.hit.dealt, 15);
    assert!(f.battle.player1_used_wildcard);
    assert!(f.battle.player1_special_used);
    assert_eq!(f.attacker.special_cooldown, 2);
    let before = f;
    let again = TurnMove { preference: -1, use_special: false, use_wildcard: true };
    assert_eq!(resolve_turn(&mut f, true, again, rolls(0, 0)).err(), Some(GameError::InvalidRequestState));
    assert_eq!(f.battle.player2_health, before.battle.player2_health);
    let special = TurnMove { preference: -1, use_special: true, use_wildcard: false };
    assert_eq!(resolve_turn(&mut f, true, special, rolls(0, 0)).err(), Some(GameError::InvalidRequestState));
}

#[test]
fn class_specials() {
    // Shadow Strike makes the hit critical (2.2x for an Assassin) and waits
    // two turns; an already critical hit is not multiplied again.
    let mut f = combatants();
    f.attacker = character(CharacterClass::Assassin, 5);
    let mut g = f;
    assert_eq!(use_special_move(&mut f, true, 8_000_000, 0, false), Ok(17_600_000));
    assert_eq!(f.attacker.special_cooldown, 2);
    assert_eq!(use_special_move(&mut g, true, 17_600_000, 0, true), Ok(17_600_000));
    // Arcane Blast takes 25 health past every defense.
    let mut f = combatants();
    f.attacker = character(CharacterClass::Mage, 5);
    f.defender.defense = 100;
    assert_eq!(use_special_move(&mut f, true, 8_000_000, 0, false), Ok(8_000_000));
    assert_eq!(f.battle.player2_health, 75);
    assert_eq!(f.attacker.special_cooldown, 3);
    // Wild Card sets off the wildcard effect of the roll without spending
    // the wildcard.
    let mut f = combatants();
    f.attacker = character(CharacterClass::Trickster, 5);
    assert_eq!(use_special_move(&mut f, true, 8_000_000, 9999, false), Ok(16_000_000));
    assert!(!f.battle.player1_used_wildcard);
    assert_eq!(f.attacker.special_cooldown, 2);
}

#[test]
fn battle_fury_lasts_two_turns() {
    let mut f = combatants();
    let fury = TurnMove { preference: -1, use_special: true, use_wildcard: false };
    let (rep, _) = resolve_turn(&mut f, true, fury, rolls(0, 0)).unwrap();
    // 8 * 1.5 = 12 on the turn of the special ...
    assert_eq!(rep.hit.dealt, 12);
    assert_eq!(f.attacker.special_cooldown, 2);
    // ... and again on the Warrior's next attack (a different base roll, 9).
    let (rep, _) = resolve_turn(&mut f, true, plain(), rolls(1, 0)).unwrap();
    assert_eq!(rep.roll.base_roll, 9);
    assert_eq!(rep.hit.dealt, 13);
    assert_eq!(f.attacker.special_cooldown, 1);
    // Then it is over.
    let (rep, _) = resolve_turn(&mut f, true, plain(), rolls(2, 0)).unwrap();
    assert_eq!(rep.hit.dealt, 10);
}

#[test]
fn shadow_strike_meets_half_the_defense() {
    let mut f = combatants();
    f.attacker = character(CharacterClass::Assassin, 5);
    f.defender.defense = 10;
    let strike = TurnMove { preference: -1, use_special: true, use_wildcard: false };
    let (rep, _) = resolve_turn(&mut f, true, strike, rolls(0, 0)).unwrap();
    // 12 base, made critical: 26.4 -> 26 points, less half of 10 defense.
    assert!(rep.roll.is_crit == false);
    assert_eq!(rep.hit.dealt, 21);
}

#[test]
fn iron_wall_sends_the_next_attack_back() {
    let mut f = combatants();
    f.attacker = character(CharacterClass::Tank, 5);
    f.attacker.defense = 0;
    f.attacker.dodge_bps = 0;
    let wall = TurnMove { preference: -1, use_special: true, use_wildcard: false };
    resolve_turn(&mut f, true, wall, rolls(0, 0)).unwrap();
    assert_eq!(f.battle.player1_reflection, 100);
    assert_eq!(f.attacker.special_cooldown, 3);
    // Player 2 attacks the Tank: the whole hit comes back, and the wall is spent.
    let mut g = Combatants {
        battle: f.battle,
        attacker: f.defender,
        defender: f.attacker,
        attacker_prog: f.defender_prog,
        defender_prog: f.attacker_prog,
    };
    let p2_before = g.battle.player2_health;
    let (rep, _) = resolve_turn(&mut g, false, plain(), rolls(0, 0)).unwrap();
    assert!(rep.hit.dealt > 0);
    assert_eq!(rep.hit.reflected, rep.hit.dealt);
    assert_eq!(g.battle.player2_health, p2_before - rep.hit.dealt);
    assert_eq!(g.battle.player1_reflection, 0);
}

#[test]
fn special_on_cooldown_is_refused() {
    let mut f = combatants();
    f.attacker.special_cooldown = 1;
    assert_eq!(use_special_move(&mut f, true, 8_000_000, 0, false).err(), Some(GameError::SpecialOnCooldown));
    assert!(!f.battle.player1_special_used);
    let mut g = combatants();
    assert_eq!(use_wildcard_move(&mut g, true, 8_000_000, 0), Ok((10_000_000, 1)));
    assert_eq!(use_wildcard_move(&mut g, true, 8_000_000, 0).err(), Some(GameError::InvalidRequestState));
}

#[test]
fn damage_is_capped_at_ten_times_base() {
    // 8 base after crit and Warrior special (48), Berserker against Aggressive: 48 * 2 * 1.5 = 144 > 80.
    assert_eq!(scale_damage(48_000_000, 8, StanceType::Berserker, StanceType::Aggressive, 0), (80, true));
    assert_eq!(scale_damage(8_000_000, 8, StanceType::Balanced, StanceType::Defensive, 0), (4, false));
}

#[test]
fn attack_bonus_scales_damage() {
    assert_eq!(scale_damage(8_000_000, 8, StanceType::Balanced, StanceType::Balanced, 10_000), (16, false));
    assert_eq!(scale_damage(8_000_000, 8, StanceType::Balanced, StanceType::Balanced, 2_500), (10, false));
    assert_eq!(scale_damage(8_000_000, 8, StanceType::Balanced, StanceType::Balanced, -10_000), (0, false));
    let mut f = combatants();
    f.attacker.mod_attack_bps = 5_000;
    let (rep, _) = resolve_turn(&mut f, true, plain(), rolls(0, 0)).unwrap();
    assert_eq!(rep.hit.dealt, 12);
}

#[test]
fn defense_leaves_at_least_one_point() {
    let mut f = combatants();
    f.defender.defense = 18;
    let (rep, _) = resolve_turn(&mut f, true, plain(), rolls(0, 0)).unwrap();
    assert_eq!(rep.hit.dealt, 1);
    assert_eq!(f.battle.player2_health, 99);
    let mut g = combatants();
    g.defender.defense = 4;
    g.defender.mod_defense_bps = 5_000;
    let (rep, _) = resolve_turn(&mut g, true, plain(), rolls(0, 0)).unwrap();
    assert_eq!(rep.hit.dealt, 2);
    let mut h = combatants();
    h.defender.dodge_bps = 10_000;
    let (rep, _) = resolve_turn(&mut h, true, plain(), rolls(0, 0)).unwrap();
    assert!(rep.hit.is_dodge);
    assert_eq!(rep.hit.dealt, 0);
}

#[test]
fn crit_bonus_and_class_multiplier() {
    let mut f = combatants();
    f.attacker.crit_bps = 0;
    f.attacker.mod_crit_bps = 10_000;
    let (rep, _) = resolve_turn(&mut f, true, plain(), rolls(0, 0)).unwrap();
    assert!(rep.roll.is_crit);
    // A Warrior's critical hit multiplies by 1.8: 8 * 1.8 = 14.4 points.
    assert_eq!(rep.hit.dealt, 14);
}

#[test]
fn knockout_ends_battle_and_awards_winner() {
    let mut f = combatants();
    f.battle.player2_health = 5;
    let (rep, levels) = resolve_turn(&mut f, true, plain(), rolls(0, 0)).unwrap();
    assert!(rep.ended);
    assert_eq!(f.battle.state, BattleState::Finished);
    assert_eq!(f.battle.winner, Some(key(1)));
    assert_eq!(f.battle.player2_health, 0);
    // 150 experience to the winner (a level up, 50 left), 50 to the loser.
    assert_eq!(f.attacker_prog.level, 2);
    assert_eq!(f.attacker_prog.xp, 50);
    assert_eq!((f.defender_prog.level, f.defender_prog.xp), (1, 50));
    assert_eq!(levels, vec![2]);
}

#[test]
fn defender_win_rewards_the_defender() {
    let mut f = combatants();
    f.battle.player1_health = 3;
    f.defender.lifes = 2;
    f.attacker.lifes = 2;
    // Berserker self-damage brings the attacker (player 1) down.
    let (rep, levels) = resolve_turn(&mut f, true, plain(), rolls(0, 83)).unwrap();
    assert!(rep.ended);
    assert_eq!(f.battle.winner, Some(key(2)));
    assert_eq!((f.defender_prog.level, f.defender_prog.xp), (2, 50));
    assert_eq!((f.attacker_prog.level, f.attacker_prog.xp), (1, 50));
    assert_eq!((f.attacker.lifes, f.defender.lifes), (1, 2));
    assert_eq!(levels, vec![2]);
}

#[test]
fn double_knockout_is_a_draw() {
    let mut f = combatants();
    f.battle.player2_health = 5;
    f.battle.player1_health = 3;
    let (rep, levels) = resolve_turn(&mut f, true, plain(), rolls(0, 83)).unwrap();
    assert!(rep.ended);
    assert_eq!(f.battle.winner, None);
    assert_eq!(f.attacker_prog.xp, 25);
    assert_eq!(f.defender_prog.xp, 25);
    assert!(levels.is_empty());
}

#[test]
fn damage_over_time_ticks() {
    let mut f = combatants();
    f.battle.player2_dot_damage = 5;
    f.battle.player2_dot_turns = 2;
    let (_, _) = resolve_turn(&mut f, true, plain(), rolls(0, 0)).unwrap();
    assert_eq!(f.battle.player2_health, 87);
    assert_eq!(f.battle.player2_dot_turns, 1);
}

#[test]
fn health_never_rises_over_turns() {
    let mut f = combatants();
    let mut last = (f.battle.player1_health, f.battle.player2_health);
    for base in 0..6u64 {
        let _ = resolve_turn(&mut f, true, plain(), rolls(base, base * 20)).unwrap();
        assert!(f.battle.player1_health <= last.0 && f.battle.player2_health <= last.1);
        last = (f.battle.player1_health, f.battle.player2_health);
    }
}

#[test]
fn preference_out_of_range_is_refused() {
    let mut b = battle();
    assert_eq!(set_preference(&mut b, true, 5), Err(GameError::InvalidRange));
    assert!(!b.player1_pref_set);
    assert_eq!(set_preference(&mut b, false, 3), Ok(()));
    assert_eq!((b.player2_pref_set, b.player2_preference), (true, 3));
}

#[test]
fn derived_values_are_sha256_of_seed_and_tag() {
    let seed = [3u8; 32];
    let h = hashv(&[&seed, &[2u8]]).to_bytes();
    let mut first = [0u8; 8];
    first.copy_from_slice(&h[0..8]);
    assert_eq!(derive_u64_from_seed_bytes(&seed, 2), u64::from_le_bytes(first));
    let r = rolls_from_seed(&seed);
    assert_eq!(r.dodge, derive_u64_from_seed_bytes(&seed, 2));
    assert_ne!(r.base, r.crit);
}

#[test]
fn pool_hands_out_indices_in_order() {
    let mut pool = pool_with(2);
    let signer = key(1);
    let (h, idx) = pool.consume_seed_bytes_return_index(&signer, b"turn", 4).unwrap();
    assert_eq!(idx, 10);
    let expected = hashv(&[&[7u8; 32], &10u64.to_le_bytes(), &signer.to_bytes(), b"turn", &4u32.to_le_bytes()]);
    assert_eq!(h, expected.to_bytes());
    let (_, idx) = pool.consume_seed_bytes_return_index(&signer, b"turn", 4).unwrap();
    assert_eq!(idx, 11);
    assert_eq!(pool.total_available, 0);
    assert_eq!(pool.head, 1);
    assert_eq!(pool.consume_seed_bytes_return_index(&signer, b"turn", 4).err(), Some(GameError::NoEntropyAvailable));
}

#[test]
fn refill_rules() {
    let mut pool = create_entropy_pool(key(20), key(21), 0, 0);
    assert_eq!(refill_seed_batch(&mut pool, &key(22), [1u8; 32], 0, 5, 1), Err(GameError::UnauthorizedRefill));
    assert_eq!(refill_seed_batch(&mut pool, &key(20), [1u8; 32], 0, 0, 1), Err(GameError::InvalidRange));
    assert_eq!(refill_seed_batch(&mut pool, &key(20), [1u8; 32], 3, 5, 1), Ok(()));
    assert_eq!(pool.global_next_index, 8);
    assert_eq!(pool.tail, 1);
    assert_eq!(pool.total_available, 5);
    assert_eq!(refill_seed_batch(&mut pool, &key(20), [1u8; 32], 7, 5, 1), Err(GameError::SeedReplay));
    assert_eq!(refill_seed_batch(&mut pool, &key(20), [1u8; 32], u64::MAX, 5, 1), Err(GameError::MathOverflow));
    assert_eq!(pool.global_next_index, 8);
}

#[test]
fn single_turn_uses_fresh_entropy() {
    let mut pool = pool_with(3);
    let mut f = combatants();
    let (rep, used, _) = execute_turn(&mut pool, &mut f, &key(1), -1, false, false, 900).unwrap();
    assert_eq!(used, 10);
    assert_eq!(f.battle.last_entropy_index, 10);
    assert_eq!(f.battle.last_action_ts, 900);
    assert_eq!(pool.total_available, 2);
    assert_eq!(f.battle.current_turn, 2);
    assert_eq!(f.battle.turn_number, 1);
    assert!(rep.post_health_p2 < 100);
    // Player 1 may not move twice in a row.
    assert_eq!(execute_turn(&mut pool, &mut f, &key(1), -1, false, false, 901).err(), Some(GameError::NotYourTurn));
    assert_eq!(execute_turn(&mut pool, &mut f, &key(77), -1, false, false, 901).err(), Some(GameError::Unauthorized));
    // An index at or below the last one used is a replay.
    f.battle.last_entropy_index = 50;
    let before = pool;
    assert_eq!(execute_turn(&mut pool, &mut f, &key(2), -1, false, false, 901).err(), Some(GameError::SeedReplay));
    assert_eq!(pool.total_available, before.total_available);
}

#[test]
fn turn_checks_battle_and_entropy() {
    let mut pool = create_entropy_pool(key(20), key(21), 0, 0);
    let mut f = combatants();
    assert_eq!(execute_turn(&mut pool, &mut f, &key(1), -1, false, false, 0).err(), Some(GameError::NoEntropyAvailable));
    f.battle.state = BattleState::Finished;
    assert_eq!(execute_turn(&mut pool, &mut f, &key(1), -1, false, false, 0).err(), Some(GameError::InvalidBattleState));
}

#[test]
fn round_plays_three_turns() {
    let mut pool = pool_with(20);
    let mut f = combatants();
    f.battle.player1_health = 1000;
    f.battle.player2_health = 1000;
    let moves = RoundMoves { moves: vec![plain(), plain(), plain()] };
    let out = execute_round_handler(&mut pool, &mut f, &key(1), &moves, 1000).unwrap();
    assert_eq!(out.reports.len(), 3);
    assert_eq!(out.entropy_indices, vec![10, 11, 12]);
    assert!(out.round_completed);
    assert!(!out.limit_reached);
    assert_eq!(f.battle.rounds_completed, 1);
    assert_eq!(f.battle.current_round, 2);
    assert_eq!(f.battle.turns_in_current_round, 0);
    assert_eq!(f.battle.turn_number, 3);
    assert_eq!(f.battle.current_turn, 2);
    assert_eq!(pool.total_available, 17);
    assert!(f.battle.player1_health <= 1000 && f.battle.player2_health <= 1000);
}

#[test]
fn last_round_ends_with_the_healthier_player() {
    let mut pool = pool_with(20);
    let mut f = combatants();
    f.battle.player1_health = 1000;
    f.battle.player2_health = 1000;
    f.battle.rounds_completed = 2;
    f.battle.current_round = 3;
    // Player 2's one attack of the round never lands; player 1 lands two and
    // gets back less than it deals.
    f.attacker.dodge_bps = 10_000;
    let moves = RoundMoves { moves: vec![plain(), plain(), plain()] };
    let out = execute_round_handler(&mut pool, &mut f, &key(1), &moves, 1000).unwrap();
    assert!(out.limit_reached);
    assert_eq!(f.battle.state, BattleState::Finished);
    assert_eq!(f.battle.rounds_completed, 3);
    let (h1, h2) = (f.battle.player1_health, f.battle.player2_health);
    assert!(h1 > h2);
    assert_eq!(f.battle.winner, Some(key(1)));
    assert_eq!((f.attacker_prog.level, f.attacker_prog.xp), (2, 50));
    assert_eq!(f.defender_prog.xp, 50);
}

#[test]
fn equal_health_at_the_limit_is_a_draw() {
    let mut pool = pool_with(20);
    let mut f = combatants();
    f.battle.player1_health = 1000;
    f.battle.player2_health = 1000;
    f.battle.rounds_completed = 2;
    f.battle.current_round = 3;
    // Attacks that never land leave both players untouched.
    f.attacker.dodge_bps = 10_000;
    f.defender.dodge_bps = 10_000;
    let moves = RoundMoves { moves: vec![plain(), plain(), plain()] };
    let out = execute_round_handler(&mut pool, &mut f, &key(1), &moves, 1000).unwrap();
    assert!(out.limit_reached);
    assert_eq!(f.battle.winner, None);
    assert_eq!(f.attacker_prog.xp, 25);
    assert_eq!(f.defender_prog.xp, 25);
}

#[test]
fn three_rounds_make_nine_turns() {
    let mut pool = pool_with(40);
    let mut f = combatants();
    f.battle.player1_health = 1000;
    f.battle.player2_health = 1000;
    let moves = RoundMoves { moves: vec![plain(), plain(), plain()] };
    let mut signer = 1u8;
    for round in 1..=3u8 {
        assert_eq!(f.battle.current_round, round);
        let out = execute_round_handler(&mut pool, &mut f, &key(signer), &moves, 1000).unwrap();
        assert_eq!(out.reports.len(), 3);
        assert_eq!(out.limit_reached, round == 3);
        // The next round is played by the other player, from its side.
        f = Combatants {
            battle: f.battle,
            attacker: f.defender,
            defender: f.attacker,
            attacker_prog: f.defender_prog,
            defender_prog: f.attacker_prog,
        };
        signer = 3 - signer;
    }
    assert_eq!(f.battle.turn_number, 9);
    assert_eq!(f.battle.rounds_completed, 3);
    assert_eq!(f.battle.state, BattleState::Finished);
    assert_eq!(
        execute_round_handler(&mut pool, &mut f, &key(signer), &moves, 1000).err(),
        Some(GameError::InvalidBattleState)
    );
}

#[test]
fn attacks_alternate_within_a_round() {
    let mut pool = pool_with(20);
    let mut f = combatants();
    f.battle.player1_health = 1000;
    f.battle.player2_health = 1000;
    // The Tank rolls exactly 50, the Warrior 8 to 15: turns 1 and 3 are
    // player 1's, turn 2 is player 2's.
    f.defender.base_damage_min = 50;
    f.defender.base_damage_max = 50;
    let moves = RoundMoves { moves: vec![plain(), plain(), plain()] };
    let out = execute_round_handler(&mut pool, &mut f, &key(1), &moves, 5).unwrap();
    let bases: Vec<u64> = out.reports.iter().map(|r| r.roll.base_roll).collect();
    assert_eq!(bases.len(), 3);
    assert!(bases[0] >= 8 && bases[0] <= 15);
    assert_eq!(bases[1], 50);
    assert!(bases[2] >= 8 && bases[2] <= 15);
    let dealt: Vec<u64> = out.reports.iter().map(|r| r.hit.dealt).collect();
    assert!(f.battle.player2_health <= 1000 - dealt[0] - dealt[2]);
    assert!(f.battle.player1_health <= 1000 - dealt[1]);
}

#[test]
fn round_checks() {
    let mut pool = pool_with(20);
    let mut f = combatants();
    let two = RoundMoves { moves: vec![plain(), plain()] };
    assert_eq!(execute_round_handler(&mut pool, &mut f, &key(1), &two, 0).err(), Some(GameError::InvalidRange));
    let three = RoundMoves { moves: vec![plain(), plain(), plain()] };
    f.battle.current_round = 4;
    assert_eq!(execute_round_handler(&mut pool, &mut f, &key(1), &three, 0).err(), Some(GameError::InvalidRange));
    f.battle.current_round = 1;
    let mut small = pool_with(5);
    assert_eq!(execute_round_handler(&mut small, &mut f, &key(1), &three, 0).err(), Some(GameError::NoEntropyAvailable));
    assert_eq!(execute_round_handler(&mut pool, &mut f, &key(2), &three, 0).err(), Some(GameError::NotYourTurn));
}

#[test]
fn character_creation_checks_the_nft() {
    let holding = NftHolding { mint: key(5), owner: key(6), amount: 1 };
    let r = create_character_from_nft(key(5), key(6), holding, CharacterClass::Assassin, 9, 1, None, 2).unwrap();
    assert_eq!((r.0.max_hp, r.0.base_damage_min, r.0.base_damage_max, r.0.crit_bps), (90, 12, 20, 3500));
    assert_eq!((r.0.crit_multiplier_fp, r.0.dodge_bps, r.0.defense), (2_200_000, 1500, 5));
    let w = character(CharacterClass::Warrior, 5);
    assert_eq!((w.crit_multiplier_fp, w.dodge_bps, w.defense), (1_800_000, 800, 10));
    let t = character(CharacterClass::Tank, 5);
    assert_eq!((t.crit_multiplier_fp, t.dodge_bps, t.defense), (1_500_000, 500, 18));
    assert_eq!((r.1.level, r.1.mmr, r.1.xp), (1, 100, 0));
    assert!(r.2);
    let existing = Progression { nft_mint: key(5), xp: 40, level: 3, mmr: 120, last_played: 0, bump: 0 };
    let r = create_character_from_nft(key(5), key(6), holding, CharacterClass::Mage, 9, 1, Some(existing), 2).unwrap();
    assert_eq!(r.1.level, 3);
    assert!(!r.2);
    let wrong_mint = NftHolding { mint: key(4), owner: key(6), amount: 1 };
    assert_eq!(
        create_character_from_nft(key(5), key(6), wrong_mint, CharacterClass::Mage, 9, 1, None, 2).err(),
        Some(GameError::InvalidNftAta)
    );
    let empty = NftHolding { mint: key(5), owner: key(6), amount: 0 };
    assert_eq!(
        create_character_from_nft(key(5), key(6), empty, CharacterClass::Mage, 9, 1, None, 2).err(),
        Some(GameError::NotNftOwner)
    );
}

#[test]
fn trait_bundle_needs_the_authority() {
    let mut c = character(CharacterClass::Warrior, 5);
    c.mod_attack_bps = i16::MAX - 1;
    let bundle = TraitBundle { rarity: 3, attack_bps: 10, defense_bps: -5, crit_bps: 2, nonce: 0 };
    assert_eq!(apply_trait_bundle(&mut c, &config(), &key(9), bundle), Err(GameError::Unauthorized));
    assert_eq!(apply_trait_bundle(&mut c, &config(), &key(8), bundle), Ok(()));
    assert_eq!((c.mod_attack_bps, c.mod_defense_bps, c.mod_crit_bps, c.rarity), (i16::MAX, -5, 2, 3));
}

#[test]
fn offer_rules() {
    let cfg = config();
    assert_eq!(
        create_battle_offer(&cfg, key(1), 1, Currency::SPL(key(51)), 5, 1, 2, vec![], false, 100, 0, 50, 0).err(),
        Some(GameError::SPLNotWhitelisted)
    );
    assert!(create_battle_offer(&cfg, key(1), 1, Currency::SPL(key(50)), 5, 1, 2, vec![], false, 100, 0, 50, 0).is_ok());
    assert_eq!(
        create_battle_offer(&cfg, key(1), 1, Currency::SOL, 5, 1, 2, vec![], false, 49, 0, 50, 0).err(),
        Some(GameError::InvalidTimestamp)
    );
    let picky = create_battle_offer(&cfg, key(1), 1, Currency::SOL, 5, 2, 4, vec![CharacterClass::Mage], false, 60, 0, 50, 0)
        .unwrap();
    let mut prog = progression(3);
    let mage = character(CharacterClass::Mage, 3);
    assert_eq!(
        join_battle_offer(&picky, key(40), &prog, &mage, key(41), key(2), 5, 55, 0).err(),
        Some(GameError::CharacterConstraint)
    );
    prog.level = 3;
    assert!(join_battle_offer(&picky, key(40), &prog, &mage, key(41), key(2), 5, 55, 0).is_ok());
    let tank = character(CharacterClass::Tank, 3);
    assert_eq!(
        join_battle_offer(&picky, key(40), &prog, &tank, key(41), key(2), 5, 55, 0).err(),
        Some(GameError::CharacterConstraint)
    );
    let mut closed = picky.clone();
    assert_eq!(cancel_offer(&mut closed, &key(2)), Err(GameError::Unauthorized));
    assert_eq!(cancel_offer(&mut closed, &key(1)), Ok(()));
    assert!(!closed.is_active);
    assert_eq!(cancel_offer(&mut closed, &key(1)), Err(GameError::OfferNotActive));
    assert_eq!(
        join_battle_offer(&closed, key(40), &prog, &mage, key(41), key(2), 5, 55, 0).err(),
        Some(GameError::OfferNotActive)
    );
}

#[test]
fn withdraw_rules() {
    let mut req = request();
    assert_eq!(withdraw_request(&mut req, &key(3)), Err(GameError::Unauthorized));
    assert_eq!(withdraw_request(&mut req, &key(2)), Ok(()));
    assert_eq!(req.status, JoinStatus::Withdrawn);
    assert_eq!(withdraw_request(&mut req, &key(2)), Err(GameError::InvalidRequestState));
}

#[test]
fn approval_starts_the_battle() {
    let mut o = offer();
    let mut r = request();
    let mut pool = pool_with(4);
    let cfg = config();
    assert_eq!(approve_challenger(&mut o, &mut r, &mut pool, &cfg, &key(2), 80, 0).err(), Some(GameError::Unauthorized));
    let b = approve_challenger(&mut o, &mut r, &mut pool, &cfg, &key(1), 80, 0).unwrap();
    assert_eq!(b.player1, key(1));
    assert_eq!(b.player2, key(2));
    assert_eq!(b.battle_id, 87);
    assert_eq!(b.inactivity_timeout, 600);
    assert_eq!(b.last_entropy_index, 10);
    assert!(b.current_turn == 1 || b.current_turn == 2);
    assert_eq!(b.state, BattleState::Active);
    assert!(!o.is_active);
    assert_eq!(r.status, JoinStatus::Approved);
    assert_eq!(pool.total_available, 3);
    assert_eq!(approve_challenger(&mut o, &mut r, &mut pool, &cfg, &key(1), 80, 0).err(), Some(GameError::OfferNotActive));
}

#[test]
fn first_mover_follows_the_seed() {
    let seed = [9u8; 32];
    let mut b = battle();
    b.current_turn = 0;
    assert_eq!(start_battle(&mut b, &seed, 4), Ok(()));
    let expected = if derive_u64_from_seed_bytes(&seed, 0) % 2 == 0 { 1 } else { 2 };
    assert_eq!(b.current_turn, expected);
    assert_eq!(b.last_entropy_index, 4);
    assert_eq!(start_battle(&mut b, &seed, 4), Err(GameError::SeedReplay));
    // A fresh battle takes entropy index zero, the start of the first batch.
    let mut fresh = battle();
    assert_eq!(start_battle(&mut fresh, &seed, 0), Ok(()));
    assert_eq!(fresh.last_entropy_index, 0);
}

#[test]
fn approval_takes_entropy_index_zero() {
    let mut o = offer();
    let mut r = request();
    let mut pool = create_entropy_pool(key(20), key(21), 0, 0);
    refill_seed_batch(&mut pool, &key(21), [7u8; 32], 0, 100, 5).unwrap();
    let b = approve_challenger(&mut o, &mut r, &mut pool, &config(), &key(1), 80, 0).unwrap();
    assert_eq!(b.last_entropy_index, 0);
    assert_eq!(pool.total_available, 99);
}

#[test]
fn forfeit_goes_to_the_waiting_player() {
    let mut b = battle();
    assert_eq!(forfeit_by_timeout(&mut b, 670), Err(GameError::TimeoutNotReached));
    assert_eq!(forfeit_by_timeout(&mut b, 671), Ok(key(2)));
    assert_eq!(b.state, BattleState::Finished);
    assert_eq!(b.winner, Some(key(2)));
    assert_eq!(forfeit_by_timeout(&mut b, 10_000), Err(GameError::InvalidBattleState));
    assert_eq!(saturating_sub_i64(i64::MIN, 1), i64::MIN);
}

#[test]
fn settlement_splits_the_pot() {
    let cfg = config();
    let mut b = battle();
    assert_eq!(finalize_battle(&b, &cfg, 10_000, &key(2)).err(), Some(GameError::BattleNotFinished));
    b.state = BattleState::Finished;
    b.winner = Some(key(2));
    assert_eq!(finalize_battle(&b, &cfg, 10_000, &key(1)).err(), Some(GameError::Unauthorized));
    let s = finalize_battle(&b, &cfg, 10_000, &key(2)).unwrap();
    assert_eq!((s.fee, s.payout, s.payee), (250, 9750, Payee::Player2));
    b.winner = None;
    let s = finalize_battle(&b, &cfg, 999, &key(1)).unwrap();
    assert_eq!((s.fee, s.payout, s.payee), (24, 975, Payee::Treasury));
    assert_eq!(s.fee + s.payout, 999);
}

#[test]
fn round_turn_matches_a_single_turn() {
    let mut pool_a = pool_with(3);
    let mut pool_b = pool_a;
    let mut a = combatants();
    a.battle.last_action_ts = 17;
    let mut b = a;
    let (rep_a, used_a, _) = execute_single_turn(&mut pool_a, &mut a, &key(1), true, plain()).unwrap();
    let (rep_b, used_b, _) = execute_turn(&mut pool_b, &mut b, &key(1), -1, false, false, 900).unwrap();
    assert_eq!(used_a, used_b);
    assert_eq!(rep_a.hit.dealt, rep_b.hit.dealt);
    assert_eq!(pool_a.total_available, pool_b.total_available);
    assert_eq!((a.battle.player1_health, a.battle.player2_health), (b.battle.player1_health, b.battle.player2_health));
    assert_eq!(a.battle.turn_number, 1);
    assert_eq!(a.battle.current_turn, 1);
    assert_eq!(a.battle.last_action_ts, 17);
    assert_eq!(b.battle.current_turn, 2);
    assert_eq!(b.battle.last_action_ts, 900);
}
