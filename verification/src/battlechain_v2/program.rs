//! The game's instructions as state transitions over account data. Moving
//! lamports and tokens, emitting events and reading the clock are left to
//! the caller, which passes the time in and acts on what comes back.
use vstd::prelude::*;
use crate::battlechain_v2::constants::{MAX_BATCHES, MIN_ENTROPY_PER_TURN, SEED_LEN};
use crate::battlechain_v2::instructions::round_execution::{round_turn_spec, Combatants, TurnMove, TurnReport};
use crate::battlechain_v2::instructions::turn::{
    lemma_pool_turn_frame, lemma_pool_turn_ignores_time, play_turn, pool_turn_levels, pool_turn_spec,
};
use crate::battlechain_v2::utils::wildcard::sat_add_u64;
use crate::battlechain_v2::errors::GameError;
use crate::battlechain_v2::state::character::{Character, CharacterClass, Progression, TraitBundle};
use crate::battlechain_v2::state::config::Config;
use crate::battlechain_v2::state::entropy::{EntropyPool, SeedBatch};
use crate::battlechain_v2::state::offer::{Currency, JoinStatus, Offer, Request};
use crate::battlechain_v2::state::battle::{Battle, BattleState, StanceType};
use crate::battlechain_v2::state::entropy::{batch_offset, consume_spec, entropy_hash_input};
use crate::battlechain_v2::utils::math::{
    derive_u64_from_seed_bytes, saturating_add_i16, saturating_sub_i64, sha256_hashv, spec_derive_u64,
};
use crate::pubkey::Pubkey;

verus! {

broadcast use vstd::array::group_array_axioms;

/// A new configuration with the given settings.
pub fn create_config(
    admin: Pubkey,
    fee_bps: u16,
    inactivity_timeout: i64,
    spl_whitelist: Vec<Pubkey>,
    trait_authority: Pubkey,
    bump: u8,
) -> (cfg: Config)
    ensures
        cfg.admin == admin,
        cfg.fee_bps == fee_bps,
        cfg.inactivity_timeout == inactivity_timeout,
        cfg.spl_whitelist@ == spl_whitelist@,
        cfg.trait_authority == trait_authority,
        cfg.bump == bump,
{
    Config { admin, fee_bps, inactivity_timeout, spl_whitelist, trait_authority, bump }
}

/// A batch slot with nothing in it.
pub open spec fn batch_is_empty(b: SeedBatch) -> bool {
    &&& b.start == 0
    &&& b.count == 0
    &&& b.consumed == 0
    &&& forall|i: int| 0 <= i < 32 ==> b.seed[i] == 0u8
}

/// A new entropy pool of the authority, fed by `vrf_oracle`, with every
/// batch slot empty and nothing available.
pub fn create_entropy_pool(authority: Pubkey, vrf_oracle: Pubkey, bump: u8, now: i64) -> (pool: EntropyPool)
    ensures
        pool.authority == authority,
        pool.vrf_oracle == vrf_oracle,
        pool.head == 0,
        pool.tail == 0,
        pool.total_available == 0,
        pool.global_next_index == 0,
        pool.bump == bump,
        pool.last_refill_ts == now,
        forall|i: int| 0 <= i < MAX_BATCHES ==> batch_is_empty(#[trigger] pool.batches[i]),
{
    let e = SeedBatch::empty();
    let batches: [SeedBatch; MAX_BATCHES] = [e, e, e, e, e, e, e, e];
    EntropyPool {
        authority,
        vrf_oracle,
        head: 0,
        tail: 0,
        total_available: 0,
        global_next_index: 0,
        bump,
        last_refill_ts: now,
        batches,
    }
}

/// Refilling the pool: only the oracle or the authority may; the batch must
/// be non-empty and start no lower than the next free index. The batch goes
/// into the tail slot, the tail moves on, the indices become available
/// (saturating), and the next free index moves past the batch, which must
/// not overflow.
pub open spec fn refill_spec(
    pool: EntropyPool,
    caller: Pubkey,
    seed: [u8; SEED_LEN],
    start_index: u64,
    count: u32,
    now: i64,
) -> Result<EntropyPool, GameError> {
    if caller != pool.vrf_oracle && caller != pool.authority {
        Err(GameError::UnauthorizedRefill)
    } else if count == 0 {
        Err(GameError::InvalidRange)
    } else if start_index < pool.global_next_index {
        Err(GameError::SeedReplay)
    } else if start_index + count > u64::MAX {
        Err(GameError::MathOverflow)
    } else {
        let idx = pool.tail as int % 8;
        Ok(
            EntropyPool {
                batches: vstd::array::spec_array_update(
                    pool.batches,
                    idx,
                    SeedBatch { seed, start: start_index, count, consumed: 0 },
                ),
                tail: ((pool.tail as int + 1) % 8) as u8,
                total_available: if pool.total_available + count > u64::MAX {
                    u64::MAX
                } else {
                    (pool.total_available + count) as u64
                },
                global_next_index: (start_index + count) as u64,
                last_refill_ts: now,
                ..pool
            },
        )
    }
}

/// Refills the pool with a batch of `count` entropy indices from
/// `start_index`, drawn from `seed`. On failure the pool is unchanged.
pub fn refill_seed_batch(
    pool: &mut EntropyPool,
    caller: &Pubkey,
    seed: [u8; SEED_LEN],
    start_index: u64,
    count: u32,
    now: i64,
) -> (r: Result<(), GameError>)
    ensures
        match refill_spec(*old(pool), *caller, seed, start_index, count, now) {
            Err(e) => r == Err::<(), _>(e) && *final(pool) == *old(pool),
            Ok(p2) => r is Ok && *final(pool) == p2,
        },
{
    if !(*caller == pool.vrf_oracle || *caller == pool.authority) {
        return Err(GameError::UnauthorizedRefill);
    }
    if count == 0 {
        return Err(GameError::InvalidRange);
    }
    if start_index < pool.global_next_index {
        return Err(GameError::SeedReplay);
    }
    let next = match start_index.checked_add(count as u64) {
        Some(v) => v,
        None => {
            return Err(GameError::MathOverflow);
        },
    };
    let idx: usize = pool.tail as usize % MAX_BATCHES;
    pool.batches[idx] = SeedBatch { seed, start: start_index, count, consumed: 0 };
    pool.tail = ((pool.tail as usize + 1) % MAX_BATCHES) as u8;
    pool.total_available = pool.total_available.saturating_add(count as u64);
    pool.global_next_index = next;
    pool.last_refill_ts = now;
    Ok(())
}

/// The account holding a character's NFT: its mint, owner and amount.
#[derive(Clone, Copy, Debug)]
pub struct NftHolding {
    pub mint: Pubkey,
    pub owner: Pubkey,
    pub amount: u64,
}

/// Starting stats of a class: hit points, damage range, critical chance in
/// basis points, critical multiplier in fixed point, dodge chance in basis
/// points and defense.
pub open spec fn class_stats(c: CharacterClass) -> (u32, u16, u16, u16, u32, u16, u16) {
    match c {
        CharacterClass::Warrior => (120, 8, 15, 1500, 1_800_000, 800, 10),
        CharacterClass::Assassin => (90, 12, 20, 3500, 2_200_000, 1500, 5),
        CharacterClass::Mage => (80, 10, 18, 2000, 2_000_000, 1000, 6),
        CharacterClass::Tank => (150, 6, 12, 1000, 1_500_000, 500, 18),
        CharacterClass::Trickster => (100, 8, 16, 2500, 1_900_000, 1200, 8),
    }
}

/// Starting stats of a class.
pub fn class_base_stats(c: CharacterClass) -> (st: (u32, u16, u16, u16, u32, u16, u16))
    ensures
        st == class_stats(c),
{
    match c {
        CharacterClass::Warrior => (120, 8, 15, 1500, 1_800_000, 800, 10),
        CharacterClass::Assassin => (90, 12, 20, 3500, 2_200_000, 1500, 5),
        CharacterClass::Mage => (80, 10, 18, 2000, 2_000_000, 1000, 6),
        CharacterClass::Tank => (150, 6, 12, 1000, 1_500_000, 500, 18),
        CharacterClass::Trickster => (100, 8, 16, 2500, 1_900_000, 1200, 8),
    }
}

/// A fresh character of the class for the NFT.
pub open spec fn new_character(nft_mint: Pubkey, c: CharacterClass, now: i64, bump: u8) -> Character {
    let (hp, dmin, dmax, crit, crit_mult, dodge, defense) = class_stats(c);
    Character {
        nft_mint,
        base_class: c,
        max_hp: hp,
        current_hp: hp,
        base_damage_min: dmin,
        base_damage_max: dmax,
        crit_bps: crit,
        crit_multiplier_fp: crit_mult,
        dodge_bps: dodge,
        defense,
        special_cooldown: 0,
        last_base_damage: 0,
        combo_count: 0,
        lifes: 0,
        mod_attack_bps: 0,
        mod_defense_bps: 0,
        mod_crit_bps: 0,
        rarity: 0,
        created_at: now,
        bump,
    }
}

/// A fresh progression for the NFT: level 1, no experience, rating 100.
pub open spec fn new_progression(nft_mint: Pubkey, bump: u8) -> Progression {
    Progression { nft_mint, xp: 0, level: 1, mmr: 100, last_played: 0, bump }
}

/// Creating a character: the holding must be of the NFT's mint, hold
/// exactly one token and belong to the payer. The character starts from its
/// class; the progression is created only when there is none yet.
pub open spec fn create_character_spec(
    nft_mint: Pubkey,
    payer: Pubkey,
    holding: NftHolding,
    c: CharacterClass,
    now: i64,
    bump: u8,
    progression: Option<Progression>,
    progression_bump: u8,
) -> Result<(Character, Progression), GameError> {
    if holding.mint != nft_mint {
        Err(GameError::InvalidNftAta)
    } else if holding.amount != 1 || holding.owner != payer {
        Err(GameError::NotNftOwner)
    } else {
        Ok(
            (
                new_character(nft_mint, c, now, bump),
                match progression {
                    Some(p) => p,
                    None => new_progression(nft_mint, progression_bump),
                },
            ),
        )
    }
}

/// Creates the character of an NFT the payer holds, and its progression
/// when `progression` is `None`. Returns the character, the progression,
/// and whether the progression is new.
pub fn create_character_from_nft(
    nft_mint: Pubkey,
    payer: Pubkey,
    holding: NftHolding,
    base_class: CharacterClass,
    now: i64,
    bump: u8,
    progression: Option<Progression>,
    progression_bump: u8,
) -> (r: Result<(Character, Progression, bool), GameError>)
    ensures
        match create_character_spec(nft_mint, payer, holding, base_class, now, bump, progression, progression_bump) {
            Err(e) => r == Err::<(Character, Progression, bool), _>(e),
            Ok((c, p)) => r == Ok::<(Character, Progression, bool), GameError>((c, p, progression is None)),
        },
{
    if holding.mint != nft_mint {
        return Err(GameError::InvalidNftAta);
    }
    if holding.amount != 1 {
        return Err(GameError::NotNftOwner);
    }
    if holding.owner != payer {
        return Err(GameError::NotNftOwner);
    }
    let (hp, dmin, dmax, crit, crit_mult, dodge, defense) = class_base_stats(base_class);
    let character = Character {
        nft_mint,
        base_class,
        max_hp: hp,
        current_hp: hp,
        base_damage_min: dmin,
        base_damage_max: dmax,
        crit_bps: crit,
        crit_multiplier_fp: crit_mult,
        dodge_bps: dodge,
        defense,
        special_cooldown: 0,
        last_base_damage: 0,
        combo_count: 0,
        lifes: 0,
        mod_attack_bps: 0,
        mod_defense_bps: 0,
        mod_crit_bps: 0,
        rarity: 0,
        created_at: now,
        bump,
    };
    match progression {
        Some(p) => Ok((character, p, false)),
        None => Ok(
            (
                character,
                Progression { nft_mint, xp: 0, level: 1, mmr: 100, last_played: 0, bump: progression_bump },
                true,
            ),
        ),
    }
}

/// `a + b` for 16-bit signed values, saturating at either end.
pub open spec fn sat_add_i16(a: i16, b: i16) -> i16 {
    if a + b > i16::MAX {
        i16::MAX
    } else if a + b < i16::MIN {
        i16::MIN
    } else {
        (a + b) as i16
    }
}

/// Applies a trait bundle: only the configured trait authority may. The
/// modifiers add up (saturating) and the rarity is replaced. On failure the
/// character is unchanged.
pub fn apply_trait_bundle(ch: &mut Character, config: &Config, trait_authority: &Pubkey, bundle: TraitBundle) -> (r:
    Result<(), GameError>)
    ensures
        *trait_authority != config.trait_authority ==> r == Err::<(), _>(GameError::Unauthorized) && *final(ch)
            == *old(ch),
        *trait_authority == config.trait_authority ==> r is Ok && *final(ch) == (Character {
            mod_attack_bps: sat_add_i16(old(ch).mod_attack_bps, bundle.attack_bps),
            mod_defense_bps: sat_add_i16(old(ch).mod_defense_bps, bundle.defense_bps),
            mod_crit_bps: sat_add_i16(old(ch).mod_crit_bps, bundle.crit_bps),
            rarity: bundle.rarity,
            ..*old(ch)
        }),
{
    if *trait_authority != config.trait_authority {
        return Err(GameError::Unauthorized);
    }
    ch.mod_attack_bps = saturating_add_i16(ch.mod_attack_bps, bundle.attack_bps);
    ch.mod_defense_bps = saturating_add_i16(ch.mod_defense_bps, bundle.defense_bps);
    ch.mod_crit_bps = saturating_add_i16(ch.mod_crit_bps, bundle.crit_bps);
    ch.rarity = bundle.rarity;
    Ok(())
}

/// Whether `key` is in `list`.
pub fn contains_key(list: &Vec<Pubkey>, key: &Pubkey) -> (b: bool)
    ensures
        b == list@.contains(*key),
{
    let mut i: usize = 0;
    while i < list.len()
        invariant
            i <= list.len(),
            forall|j: int| 0 <= j < i ==> list@[j] != *key,
        decreases list.len() - i,
    {
        if list[i] == *key {
            assert(list@[i as int] == *key);
            return true;
        }
        i = i + 1;
    }
    false
}

/// Whether `c` is in `list`.
pub fn contains_class(list: &Vec<CharacterClass>, c: CharacterClass) -> (b: bool)
    ensures
        b == list@.contains(c),
{
    let mut i: usize = 0;
    while i < list.len()
        invariant
            i <= list.len(),
            forall|j: int| 0 <= j < i ==> list@[j] != c,
        decreases list.len() - i,
    {
        if list[i] == c {
            assert(list@[i as int] == c);
            return true;
        }
        i = i + 1;
    }
    false
}

/// Why an offer cannot be made, if it cannot: a token stake must be in a
/// whitelisted mint, and the battle cannot start in the past.
pub open spec fn offer_refusal(whitelist: Seq<Pubkey>, currency: Currency, start_ts: i64, now: i64) -> Option<
    GameError,
> {
    if currency matches Currency::SPL(mint) && !whitelist.contains(mint) {
        Some(GameError::SPLNotWhitelisted)
    } else if start_ts < now {
        Some(GameError::InvalidTimestamp)
    } else {
        None
    }
}

/// Makes a battle offer at time `now`. The stake itself is the caller's to
/// move into the offer when it is positive.
pub fn create_battle_offer(
    config: &Config,
    creator: Pubkey,
    offer_nonce: u64,
    currency: Currency,
    stake_amount: u64,
    min_level: u16,
    max_level: u16,
    allowed_classes: Vec<CharacterClass>,
    auto_approve: bool,
    start_ts: i64,
    inactivity_timeout: i64,
    now: i64,
    bump: u8,
) -> (r: Result<Offer, GameError>)
    ensures
        match offer_refusal(config.spl_whitelist@, currency, start_ts, now) {
            Some(e) => r matches Err(e2) && e2 == e,
            None => r matches Ok(o) && {
                &&& o.creator == creator
                &&& o.offer_nonce == offer_nonce
                &&& o.currency == currency
                &&& o.stake_amount == stake_amount
                &&& o.min_level == min_level
                &&& o.max_level == max_level
                &&& o.allowed_classes@ == allowed_classes@
                &&& o.auto_approve == auto_approve
                &&& o.start_ts == start_ts
                &&& o.inactivity_timeout == inactivity_timeout
                &&& o.created_at == now
                &&& o.is_active
                &&& o.bump == bump
            },
        },
{
    if let Currency::SPL(mint) = currency {
        if !contains_key(&config.spl_whitelist, &mint) {
            return Err(GameError::SPLNotWhitelisted);
        }
    }
    if start_ts < now {
        return Err(GameError::InvalidTimestamp);
    }
    Ok(
        Offer {
            creator,
            offer_nonce,
            currency,
            stake_amount,
            min_level,
            max_level,
            allowed_classes,
            auto_approve,
            start_ts,
            inactivity_timeout,
            created_at: now,
            is_active: true,
            bump,
        },
    )
}

/// Why a character cannot join an offer, if it cannot: the offer must be
/// active, the level within its bounds, and the class among those allowed
/// when the offer names any.
pub open spec fn join_refusal(offer: Offer, level: u16, c: CharacterClass) -> Option<GameError> {
    if !offer.is_active {
        Some(GameError::OfferNotActive)
    } else if level < offer.min_level || level > offer.max_level {
        Some(GameError::CharacterConstraint)
    } else if offer.allowed_classes@.len() > 0 && !offer.allowed_classes@.contains(c) {
        Some(GameError::CharacterConstraint)
    } else {
        None
    }
}

/// Asks to join an offer with a character at time `now`. The stake itself
/// is the caller's to move into the request when it is positive.
pub fn join_battle_offer(
    offer: &Offer,
    offer_key: Pubkey,
    progression: &Progression,
    character: &Character,
    character_key: Pubkey,
    challenger: Pubkey,
    offered_stake: u64,
    now: i64,
    bump: u8,
) -> (r: Result<Request, GameError>)
    ensures
        match join_refusal(*offer, progression.level, character.base_class) {
            Some(e) => r == Err::<Request, _>(e),
            None => r == Ok::<Request, GameError>(
                Request {
                    offer: offer_key,
                    challenger,
                    character: character_key,
                    offered_stake,
                    created_at: now,
                    status: JoinStatus::Pending,
                    bump,
                },
            ),
        },
{
    if !offer.is_active {
        return Err(GameError::OfferNotActive);
    }
    if !(progression.level >= offer.min_level && progression.level <= offer.max_level) {
        return Err(GameError::CharacterConstraint);
    }
    if offer.allowed_classes.len() > 0 {
        if !contains_class(&offer.allowed_classes, character.base_class) {
            return Err(GameError::CharacterConstraint);
        }
    }
    Ok(
        Request {
            offer: offer_key,
            challenger,
            character: character_key,
            offered_stake,
            created_at: now,
            status: JoinStatus::Pending,
            bump,
        },
    )
}

/// Withdraws a pending request; only its challenger may. The caller then
/// refunds what the request holds. On failure the request is unchanged.
pub fn withdraw_request(request: &mut Request, challenger: &Pubkey) -> (r: Result<(), GameError>)
    ensures
        old(request).status != JoinStatus::Pending ==> r == Err::<(), _>(GameError::InvalidRequestState),
        old(request).status == JoinStatus::Pending && *challenger != old(request).challenger ==> r == Err::<(), _>(
            GameError::Unauthorized,
        ),
        r is Err ==> *final(request) == *old(request),
        r is Ok <==> old(request).status == JoinStatus::Pending && *challenger == old(request).challenger,
        r is Ok ==> *final(request) == (Request { status: JoinStatus::Withdrawn, ..*old(request) }),
{
    if request.status != JoinStatus::Pending {
        return Err(GameError::InvalidRequestState);
    }
    if *challenger != request.challenger {
        return Err(GameError::Unauthorized);
    }
    request.status = JoinStatus::Withdrawn;
    Ok(())
}

/// Cancels an active offer; only its creator may. The caller then refunds
/// what the offer holds. On failure the offer is unchanged.
pub fn cancel_offer(offer: &mut Offer, creator: &Pubkey) -> (r: Result<(), GameError>)
    ensures
        *creator != old(offer).creator ==> r == Err::<(), _>(GameError::Unauthorized),
        *creator == old(offer).creator && !old(offer).is_active ==> r == Err::<(), _>(GameError::OfferNotActive),
        r is Ok <==> *creator == old(offer).creator && old(offer).is_active,
        r is Err ==> *final(offer) == *old(offer),
        r is Ok ==> *final(offer) == (Offer { is_active: false, ..*old(offer) }),
{
    if *creator != offer.creator {
        return Err(GameError::Unauthorized);
    }
    if !offer.is_active {
        return Err(GameError::OfferNotActive);
    }
    offer.is_active = false;
    Ok(())
}

/// Why the offer's creator cannot approve a request, if they cannot: the
/// offer must be active, the request pending, and the caller the creator.
pub open spec fn approve_refusal(offer: Offer, request: Request, creator: Pubkey) -> Option<GameError> {
    if !offer.is_active {
        Some(GameError::OfferNotActive)
    } else if request.status != JoinStatus::Pending {
        Some(GameError::InvalidRequestState)
    } else if creator != offer.creator {
        Some(GameError::Unauthorized)
    } else {
        None
    }
}

/// The timeout a battle gets: the offer's when positive, else the
/// configured one.
pub open spec fn battle_timeout(offer: Offer, config_timeout: i64) -> i64 {
    if offer.inactivity_timeout > 0 {
        offer.inactivity_timeout
    } else {
        config_timeout
    }
}

/// A battle between the offer's creator and the challenger, before the
/// first mover is drawn: full health, balanced stances, round 1, nobody's
/// turn yet, and the identifier the nonce plus the time (wrapping).
pub open spec fn new_battle(offer: Offer, request: Request, config_timeout: i64, now: i64, bump: u8) -> Battle {
    Battle {
        battle_id: vstd::wrapping::u64_specs::wrapping_add(offer.offer_nonce, now as u64),
        player1: offer.creator,
        player2: request.challenger,
        start_ts: offer.start_ts,
        current_turn: 0,
        turn_number: 0,
        current_round: 1,
        rounds_completed: 0,
        turns_in_current_round: 0,
        player1_health: 100,
        player2_health: 100,
        state: BattleState::Active,
        player1_stance: StanceType::Balanced,
        player2_stance: StanceType::Balanced,
        created_at: now,
        inactivity_timeout: battle_timeout(offer, config_timeout),
        last_action_ts: now,
        winner: None,
        player1_dot_damage: 0,
        player2_dot_damage: 0,
        player1_dot_turns: 0,
        player2_dot_turns: 0,
        player1_reflection: 0,
        player2_reflection: 0,
        player1_miss_count: 0,
        player2_miss_count: 0,
        last_entropy_index: 0,
        bump,
        player1_used_wildcard: false,
        player2_used_wildcard: false,
        player1_special_used: false,
        player2_special_used: false,
        player1_preference: 0,
        player2_preference: 0,
        player1_pref_set: false,
        player2_pref_set: false,
    }
}

/// Builds the battle of an approved request, before the first mover is
/// drawn.
pub fn build_battle(offer: &Offer, request: &Request, config_timeout: i64, now: i64, bump: u8) -> (b: Battle)
    ensures
        b == new_battle(*offer, *request, config_timeout, now, bump),
{
    let inactivity_timeout = if offer.inactivity_timeout > 0 {
        offer.inactivity_timeout
    } else {
        config_timeout
    };
    Battle {
        battle_id: offer.offer_nonce.wrapping_add(now as u64),
        player1: offer.creator,
        player2: request.challenger,
        start_ts: offer.start_ts,
        current_turn: 0,
        turn_number: 0,
        current_round: 1,
        rounds_completed: 0,
        turns_in_current_round: 0,
        player1_health: 100,
        player2_health: 100,
        state: BattleState::Active,
        player1_stance: StanceType::Balanced,
        player2_stance: StanceType::Balanced,
        created_at: now,
        inactivity_timeout,
        last_action_ts: now,
        winner: None,
        player1_dot_damage: 0,
        player2_dot_damage: 0,
        player1_dot_turns: 0,
        player2_dot_turns: 0,
        player1_reflection: 0,
        player2_reflection: 0,
        player1_miss_count: 0,
        player2_miss_count: 0,
        last_entropy_index: 0,
        bump,
        player1_used_wildcard: false,
        player2_used_wildcard: false,
        player1_special_used: false,
        player2_special_used: false,
        player1_preference: 0,
        player2_preference: 0,
        player1_pref_set: false,
        player2_pref_set: false,
    }
}

/// The tag the first-mover draw mixes into its entropy: the bytes of
/// "first_mover".
pub open spec fn first_mover_tag_bytes() -> Seq<u8> {
    seq![102u8, 105u8, 114u8, 115u8, 116u8, 95u8, 109u8, 111u8, 118u8, 101u8, 114u8]
}

/// The bytes of "first_mover".
pub fn first_mover_tag() -> (t: [u8; 11])
    ensures
        t@ == first_mover_tag_bytes(),
{
    let t: [u8; 11] = [102u8, 105u8, 114u8, 115u8, 116u8, 95u8, 109u8, 111u8, 118u8, 101u8, 114u8];
    assert(t@ =~= first_mover_tag_bytes());
    t
}

/// Drawing the first mover from a seed and the entropy index it came from:
/// a battle that has recorded an index (one above zero) takes only a higher
/// one, while a fresh battle takes any, index zero included; player 1 moves
/// first when the seed's first derived value is even, else player 2.
pub open spec fn first_mover_spec(b: Battle, seed: Seq<u8>, used_index: u64) -> Result<Battle, GameError> {
    if b.last_entropy_index > 0 && used_index <= b.last_entropy_index {
        Err(GameError::SeedReplay)
    } else {
        Ok(
            Battle {
                last_entropy_index: used_index,
                current_turn: if spec_derive_u64(seed, 0) % 2 == 0 {
                    1
                } else {
                    2
                },
                ..b
            },
        )
    }
}

/// Draws the first mover of a battle from a seed and the entropy index it
/// came from. On failure the battle is unchanged.
pub fn start_battle(battle: &mut Battle, seed: &[u8; 32], used_index: u64) -> (r: Result<(), GameError>)
    ensures
        match first_mover_spec(*old(battle), seed@, used_index) {
            Err(e) => r == Err::<(), _>(e) && *final(battle) == *old(battle),
            Ok(b2) => r is Ok && *final(battle) == b2,
        },
{
    let pick = derive_u64_from_seed_bytes(seed, 0) % 2;
    if battle.last_entropy_index > 0 && used_index <= battle.last_entropy_index {
        return Err(GameError::SeedReplay);
    }
    battle.last_entropy_index = used_index;
    battle.current_turn = if pick == 0 {
        1
    } else {
        2
    };
    Ok(())
}

/// Approving a request: the offer and request close, the battle is built,
/// and the first mover is drawn from the pool's next entropy index hashed
/// with the creator, "first_mover" and turn 0. Gives the offer, the
/// request, the pool and the battle after.
#[verifier::opaque]
pub open spec fn approve_spec(
    offer: Offer,
    request: Request,
    pool: EntropyPool,
    config_timeout: i64,
    creator: Pubkey,
    now: i64,
    bump: u8,
) -> Result<(Offer, Request, EntropyPool, Battle), GameError> {
    match approve_refusal(offer, request, creator) {
        Some(e) => Err(e),
        None => {
            let b = new_battle(offer, request, config_timeout, now, bump);
            if pool.total_available < 1 {
                Err(GameError::NoEntropyAvailable)
            } else {
                match consume_spec(pool) {
                    Err(e) => Err(e),
                    Ok((p2, idx)) => {
                        let batch = pool.batches@[idx];
                        let seed = sha256_hashv(
                            entropy_hash_input(batch, creator, first_mover_tag_bytes(), b.turn_number as u32),
                        );
                        match first_mover_spec(b, seed, batch_offset(batch)) {
                            Err(e) => Err(e),
                            Ok(b2) => Ok(
                                (
                                    Offer { is_active: false, ..offer },
                                    Request { status: JoinStatus::Approved, ..request },
                                    p2,
                                    b2,
                                ),
                            ),
                        }
                    },
                }
            }
        },
    }
}

/// Approves a pending request to the creator's active offer and starts the
/// battle. On failure nothing changes. The stakes are the caller's to move
/// into the battle.
pub fn approve_challenger(
    offer: &mut Offer,
    request: &mut Request,
    pool: &mut EntropyPool,
    config: &Config,
    creator: &Pubkey,
    now: i64,
    bump: u8,
) -> (r: Result<Battle, GameError>)
    ensures
        match approve_spec(*old(offer), *old(request), *old(pool), config.inactivity_timeout, *creator, now, bump) {
            Err(e) => ({
                &&& r == Err::<Battle, _>(e)
                &&& *final(offer) == *old(offer)
                &&& *final(request) == *old(request)
                &&& *final(pool) == *old(pool)
            }),
            Ok((o2, q2, p2, b2)) => ({
                &&& r == Ok::<Battle, GameError>(b2)
                &&& *final(offer) == o2
                &&& *final(request) == q2
                &&& *final(pool) == p2
            }),
        },
{
    proof {
        reveal(approve_spec);
    }
    if !offer.is_active {
        return Err(GameError::OfferNotActive);
    }
    if request.status != JoinStatus::Pending {
        return Err(GameError::InvalidRequestState);
    }
    if *creator != offer.creator {
        return Err(GameError::Unauthorized);
    }
    let mut battle = build_battle(offer, request, config.inactivity_timeout, now, bump);
    if pool.total_available < 1 {
        return Err(GameError::NoEntropyAvailable);
    }
    let mut q = *pool;
    let tag = first_mover_tag();
    let (seed_bytes, used_index) = match q.consume_seed_bytes_return_index(
        creator,
        tag.as_slice(),
        battle.turn_number as u32,
    ) {
        Ok(v) => v,
        Err(e) => {
            return Err(e);
        },
    };
    match start_battle(&mut battle, &seed_bytes, used_index) {
        Ok(()) => {},
        Err(e) => {
            return Err(e);
        },
    }
    request.status = JoinStatus::Approved;
    offer.is_active = false;
    *pool = q;
    Ok(battle)
}

/// Who may play a single turn and whether they may now: the battle is
/// active, the signer is a player whose turn it is, and the pool holds
/// entropy for a turn. Gives whether the signer is player 1.
pub open spec fn turn_checks(b: Battle, pool: EntropyPool, signer: Pubkey) -> Result<bool, GameError> {
    if b.state != BattleState::Active {
        Err(GameError::InvalidBattleState)
    } else if signer != b.player1 && signer != b.player2 {
        Err(GameError::Unauthorized)
    } else if signer == b.player1 && b.current_turn != 1 {
        Err(GameError::NotYourTurn)
    } else if signer != b.player1 && b.current_turn != 2 {
        Err(GameError::NotYourTurn)
    } else if pool.total_available < MIN_ENTROPY_PER_TURN {
        Err(GameError::NoEntropyAvailable)
    } else {
        Ok(signer == b.player1)
    }
}

/// Checks who may play a single turn and whether they may now; gives
/// whether the signer is player 1.
pub fn check_turn(b: &Battle, pool: &EntropyPool, signer: &Pubkey) -> (r: Result<bool, GameError>)
    ensures
        r == turn_checks(*b, *pool, *signer),
{
    if b.state != BattleState::Active {
        return Err(GameError::InvalidBattleState);
    }
    let is_player1 = if *signer == b.player1 {
        true
    } else if *signer == b.player2 {
        false
    } else {
        return Err(GameError::Unauthorized);
    };
    if is_player1 {
        if b.current_turn != 1 {
            return Err(GameError::NotYourTurn);
        }
    } else {
        if b.current_turn != 2 {
            return Err(GameError::NotYourTurn);
        }
    }
    if pool.total_available < MIN_ENTROPY_PER_TURN {
        return Err(GameError::NoEntropyAvailable);
    }
    Ok(is_player1)
}

/// The turn passes to the other player and the turn number goes up by one
/// (saturating).
pub open spec fn pass_turn_spec(b: Battle) -> Battle {
    Battle {
        current_turn: if b.current_turn == 1 {
            2
        } else {
            1
        },
        turn_number: sat_add_u64(b.turn_number, 1),
        ..b
    }
}

/// Passes the turn to the other player.
pub fn pass_turn(b: &mut Battle)
    ensures
        *final(b) == pass_turn_spec(*old(b)),
{
    b.current_turn = if b.current_turn == 1 {
        2
    } else {
        1
    };
    b.turn_number = b.turn_number.saturating_add(1);
}

/// A single turn: the checks, the time of the action, the turn on the
/// pool's entropy, and, unless a player went down, the turn passing to the
/// other player with the turn number one higher (saturating).
#[verifier::opaque]
pub open spec fn execute_turn_spec(
    pool: EntropyPool,
    f: Combatants,
    signer: Pubkey,
    mv: TurnMove,
    now: i64,
) -> Result<(EntropyPool, Combatants, TurnReport, u64), GameError> {
    match turn_checks(f.battle, pool, signer) {
        Err(e) => Err(e),
        Ok(is_player1) => {
            let f1 = Combatants { battle: Battle { last_action_ts: now, ..f.battle }, ..f };
            match pool_turn_spec(pool, f1, signer, is_player1, mv) {
                Err(e) => Err(e),
                Ok((p2, f2, rep, used)) => Ok(
                    (
                        p2,
                        if rep.ended {
                            f2
                        } else {
                            Combatants { battle: pass_turn_spec(f2.battle), ..f2 }
                        },
                        rep,
                        used,
                    ),
                ),
            }
        },
    }
}

/// The levels reached on such a turn.
#[verifier::opaque]
pub open spec fn execute_turn_levels(pool: EntropyPool, f: Combatants, signer: Pubkey, mv: TurnMove, now: i64) -> Seq<
    u16,
> {
    match turn_checks(f.battle, pool, signer) {
        Err(_) => seq![],
        Ok(is_player1) => pool_turn_levels(
            pool,
            Combatants { battle: Battle { last_action_ts: now, ..f.battle }, ..f },
            signer,
            is_player1,
            mv,
        ),
    }
}

/// Plays the signer's turn at time `now` with a stance preference (negative
/// for none) and the choice of special and wildcard. On failure neither the
/// pool nor the combatants change. Returns the report, the entropy index
/// used and the levels reached.
pub fn execute_turn(
    pool: &mut EntropyPool,
    f: &mut Combatants,
    signer: &Pubkey,
    preference: i8,
    use_special: bool,
    use_wildcard: bool,
    now: i64,
) -> (r: Result<(TurnReport, u64, Vec<u16>), GameError>)
    requires
        old(f).attacker.base_damage_max >= old(f).attacker.base_damage_min,
    ensures
        ({
            let mv = TurnMove { preference, use_special, use_wildcard };
            match execute_turn_spec(*old(pool), *old(f), *signer, mv, now) {
                Err(e) => ({
                    &&& r == Err::<(TurnReport, u64, Vec<u16>), _>(e)
                    &&& *final(pool) == *old(pool)
                    &&& *final(f) == *old(f)
                }),
                Ok((p2, f2, rep, used)) => ({
                    &&& r matches Ok((rep2, used2, levels)) && rep2 == rep && used2 == used && levels@
                        == execute_turn_levels(*old(pool), *old(f), *signer, mv, now)
                    &&& *final(pool) == p2
                    &&& *final(f) == f2
                }),
            }
        }),
{
    proof {
        reveal(execute_turn_spec);
        reveal(execute_turn_levels);
    }
    let is_player1 = match check_turn(&f.battle, pool, signer) {
        Ok(v) => v,
        Err(e) => {
            return Err(e);
        },
    };
    let mut g = *f;
    g.battle.last_action_ts = now;
    let mv = TurnMove { preference, use_special, use_wildcard };
    let (report, used_index, levels) = match play_turn(pool, &mut g, signer, is_player1, mv) {
        Ok(v) => v,
        Err(e) => {
            return Err(e);
        },
    };
    if !report.ended {
        pass_turn(&mut g.battle);
    }
    *f = g;
    Ok((report, used_index, levels))
}

/// Ending a battle whose player to move has been idle longer than the
/// timeout: the other player wins.
pub open spec fn forfeit_spec(b: Battle, now: i64) -> Result<(Battle, Pubkey), GameError> {
    let idle = if now - b.last_action_ts > i64::MAX {
        i64::MAX as int
    } else if now - b.last_action_ts < i64::MIN {
        i64::MIN as int
    } else {
        now - b.last_action_ts
    };
    if b.state != BattleState::Active {
        Err(GameError::InvalidBattleState)
    } else if idle <= b.inactivity_timeout {
        Err(GameError::TimeoutNotReached)
    } else {
        let winner = if b.current_turn == 1 {
            b.player2
        } else {
            b.player1
        };
        Ok((Battle { state: BattleState::Finished, winner: Some(winner), ..b }, winner))
    }
}

/// Ends an active battle by timeout at time `now` and returns the winner.
/// On failure the battle is unchanged.
pub fn forfeit_by_timeout(battle: &mut Battle, now: i64) -> (r: Result<Pubkey, GameError>)
    ensures
        match forfeit_spec(*old(battle), now) {
            Err(e) => r == Err::<Pubkey, _>(e) && *final(battle) == *old(battle),
            Ok((b2, w)) => r == Ok::<Pubkey, GameError>(w) && *final(battle) == b2,
        },
{
    if battle.state != BattleState::Active {
        return Err(GameError::InvalidBattleState);
    }
    if saturating_sub_i64(now, battle.last_action_ts) <= battle.inactivity_timeout {
        return Err(GameError::TimeoutNotReached);
    }
    let winner = if battle.current_turn == 1 {
        battle.player2
    } else {
        battle.player1
    };
    battle.state = BattleState::Finished;
    battle.winner = Some(winner);
    Ok(winner)
}

/// Who receives the payout of a settled battle.
#[derive(Clone, Copy, Debug, PartialEq, Eq, Structural)]
pub enum Payee {
    Player1,
    Player2,
    Treasury,
}

/// How a finished battle's pot is split: the fee to the treasury and the
/// payout to the payee.
#[derive(Clone, Copy, Debug)]
pub struct Settlement {
    pub fee: u64,
    pub payout: u64,
    pub payee: Payee,
}

/// The fee on a pot: `fee_bps` basis points of it, rounded down and cut to
/// 64 bits.
pub open spec fn settlement_fee(total: u64, fee_bps: u16) -> u64 {
    ((total * fee_bps) / 10_000) as u64
}

/// Settling a finished battle, claimed for `recipient`: a battle with a
/// winner pays only its winner. The fee goes to the treasury; the rest goes
/// to player 1 when the winner is player 1, to player 2 for any other
/// winner, and to the treasury on a draw.
pub open spec fn settle_battle_spec(b: Battle, fee_bps: u16, total: u64, recipient: Pubkey) -> Result<
    Settlement,
    GameError,
> {
    if b.state != BattleState::Finished {
        Err(GameError::BattleNotFinished)
    } else if b.winner matches Some(w) && w != recipient {
        Err(GameError::Unauthorized)
    } else {
        let fee = settlement_fee(total, fee_bps);
        Ok(
            Settlement {
                fee,
                payout: if total >= fee {
                    (total - fee) as u64
                } else {
                    0
                },
                payee: match b.winner {
                    Some(w) => if w == b.player1 {
                        Payee::Player1
                    } else {
                        Payee::Player2
                    },
                    None => Payee::Treasury,
                },
            },
        )
    }
}

/// Works out how a finished battle's pot of `total` is paid out to the
/// claiming `recipient`, which must be the winner when there is one.
pub fn finalize_battle(battle: &Battle, config: &Config, total: u64, recipient: &Pubkey) -> (r: Result<
    Settlement,
    GameError,
>)
    ensures
        r == settle_battle_spec(*battle, config.fee_bps, total, *recipient),
{
    if battle.state != BattleState::Finished {
        return Err(GameError::BattleNotFinished);
    }
    if let Some(w) = battle.winner {
        if w != *recipient {
            return Err(GameError::Unauthorized);
        }
    }
    assert((total as u128) * (config.fee_bps as u128) <= 0xffff_ffff_ffff_ffff * 0xffff) by (nonlinear_arith)
        requires
            total <= 0xffff_ffff_ffff_ffff,
            config.fee_bps <= 0xffff,
    ;
    let fee_wide: u128 = (total as u128) * (config.fee_bps as u128) / 10_000u128;
    let fee = #[verifier::truncate] (fee_wide as u64);
    let payout = total.saturating_sub(fee);
    let payee = match battle.winner {
        Some(w) => if w == battle.player1 {
            Payee::Player1
        } else {
            Payee::Player2
        },
        None => Payee::Treasury,
    };
    Ok(Settlement { fee, payout, payee })
}

/// A refill moves the next free entropy index strictly forward, so no index
/// is handed out twice, and never lowers what is available.
pub proof fn law_refill_advances(
    pool: EntropyPool,
    caller: Pubkey,
    seed: [u8; SEED_LEN],
    start_index: u64,
    count: u32,
    now: i64,
)
    ensures
        refill_spec(pool, caller, seed, start_index, count, now) matches Ok(p2) ==> {
            &&& p2.global_next_index > pool.global_next_index
            &&& p2.global_next_index == start_index + count
            &&& p2.total_available >= pool.total_available
        },
{
}

/// A single turn draws an entropy index above every one the battle used
/// before, records it, and takes exactly one index from the pool.
pub proof fn law_turn_entropy_fresh(pool: EntropyPool, f: Combatants, signer: Pubkey, mv: TurnMove, now: i64)
    ensures
        execute_turn_spec(pool, f, signer, mv, now) matches Ok((p2, f2, rep, used)) ==> {
            &&& used > f.battle.last_entropy_index
            &&& f2.battle.last_entropy_index == used
            &&& p2.total_available == pool.total_available - 1
        },
{
    reveal(execute_turn_spec);
    if let Ok(is_player1) = turn_checks(f.battle, pool, signer) {
        let f1 = Combatants { battle: Battle { last_action_ts: now, ..f.battle }, ..f };
        lemma_pool_turn_frame(pool, f1, signer, is_player1, mv);
    }
}

/// With a fee of at most 100%, settling pays out exactly the pot: the fee
/// and the payout add up to it.
pub proof fn law_settlement_splits_pot(b: Battle, fee_bps: u16, total: u64, recipient: Pubkey)
    requires
        fee_bps <= 10_000,
    ensures
        settle_battle_spec(b, fee_bps, total, recipient) matches Ok(st) ==> st.fee + st.payout == total,
{
    assert(total * fee_bps <= total * 10_000) by (nonlinear_arith)
        requires
            fee_bps <= 10_000,
    ;
    vstd::arithmetic::div_mod::lemma_div_is_ordered(total * fee_bps, total * 10_000, 10_000);
    assert((total * 10_000) / 10_000 == total) by (nonlinear_arith);
    vstd::arithmetic::div_mod::lemma_div_pos_is_pos(total * fee_bps, 10_000);
}

/// A turn of a round played by the player on turn is the single turn that
/// player would play, whatever time of last action the battle records: the
/// same outcome, pool, report, entropy index, characters and progressions,
/// and the same battle apart from three fields. The round's turn moves the
/// turn number on by one (saturating) even when it ends the battle, and
/// leaves the player on turn and the time of last action as they were; the
/// single turn records `now` as that time.
pub proof fn law_round_turn_is_single_turn(pool: EntropyPool, f: Combatants, signer: Pubkey, mv: TurnMove, now: i64)
    requires
        turn_checks(f.battle, pool, signer) is Ok,
    ensures
        ({
            let is_player1 = turn_checks(f.battle, pool, signer)->Ok_0;
            match (round_turn_spec(pool, f, signer, is_player1, mv), execute_turn_spec(pool, f, signer, mv, now)) {
                (Err(e1), Err(e2)) => e1 == e2,
                (Ok((p1, f1, r1, u1)), Ok((p2, f2, r2, u2))) => {
                    &&& p1 == p2
                    &&& r1 == r2
                    &&& u1 == u2
                    &&& f1.attacker == f2.attacker
                    &&& f1.defender == f2.defender
                    &&& f1.attacker_prog == f2.attacker_prog
                    &&& f1.defender_prog == f2.defender_prog
                    &&& Battle { current_turn: 0, turn_number: 0, last_action_ts: 0, ..f1.battle } == Battle {
                        current_turn: 0,
                        turn_number: 0,
                        last_action_ts: 0,
                        ..f2.battle
                    }
                    &&& f1.battle.turn_number == sat_add_u64(f.battle.turn_number, 1)
                    &&& f1.battle.current_turn == f.battle.current_turn
                    &&& f1.battle.last_action_ts == f.battle.last_action_ts
                    &&& f2.battle.last_action_ts == now
                },
                _ => false,
            }
        }),
{
    reveal(execute_turn_spec);
    let is_player1 = turn_checks(f.battle, pool, signer)->Ok_0;
    lemma_pool_turn_ignores_time(pool, f, signer, is_player1, mv, now);
    lemma_pool_turn_frame(pool, f, signer, is_player1, mv);
}

/// A forfeit by timeout hands the battle to the player who is waiting, never
/// to the idle player on turn: with player 1 on turn player 2 wins, with
/// player 2 on turn player 1 wins. The battle is then finished with that
/// winner, and a forfeit happens only on an active battle idle past its
/// timeout.
pub proof fn law_forfeit_rewards_waiting_player(b: Battle, now: i64)
    ensures
        forfeit_spec(b, now) matches Ok((b2, w)) ==> {
            &&& b.current_turn == 1 ==> w == b.player2
            &&& b.current_turn == 2 ==> w == b.player1
            &&& b2.winner == Some(w)
            &&& b2.state == BattleState::Finished
            &&& b.state == BattleState::Active
            &&& now - b.last_action_ts > b.inactivity_timeout
            &&& b2.player1 == b.player1 && b2.player2 == b.player2
            &&& b2.player1_health == b.player1_health && b2.player2_health == b.player2_health
        },
{
}

/// A settlement pays the winner: a battle won by player 1 pays player 1, one
/// won by anyone else pays player 2, and only a draw pays the treasury; the
/// claim must come from the winner, and only a finished battle settles. With
/// a fee of at most 100% the fee is the pot's share rounded down and the
/// payout is the rest.
pub proof fn law_settlement_pays_winner(b: Battle, fee_bps: u16, total: u64, recipient: Pubkey)
    ensures
        settle_battle_spec(b, fee_bps, total, recipient) matches Ok(st) ==> {
            &&& b.state == BattleState::Finished
            &&& b.winner == Some(b.player1) ==> st.payee == Payee::Player1
            &&& (b.winner matches Some(w) && w != b.player1) ==> st.payee == Payee::Player2
            &&& b.winner is None <==> st.payee == Payee::Treasury
            &&& st.payee == Payee::Player1 ==> b.winner == Some(b.player1) && recipient == b.player1
            &&& st.payee == Payee::Player2 ==> b.winner == Some(recipient) && recipient != b.player1
            &&& fee_bps <= 10_000 ==> {
                &&& st.fee * 10_000 <= total * fee_bps < (st.fee + 1) * 10_000
                &&& st.payout == total - st.fee
            }
        },
{
    if fee_bps <= 10_000 {
        let q = (total * fee_bps) / 10_000;
        vstd::arithmetic::div_mod::lemma_fundamental_div_mod(total * fee_bps, 10_000);
        vstd::arithmetic::div_mod::lemma_mod_bound(total * fee_bps, 10_000);
        law_settlement_splits_pot(b, fee_bps, total, recipient);
        assert(total * fee_bps <= total * 10_000) by (nonlinear_arith)
            requires
                fee_bps <= 10_000,
        ;
        vstd::arithmetic::div_mod::lemma_div_is_ordered(total * fee_bps, total * 10_000, 10_000);
        assert((total * 10_000) / 10_000 == total) by (nonlinear_arith);
        vstd::arithmetic::div_mod::lemma_div_pos_is_pos(total * fee_bps, 10_000);
        assert(q as u64 as int == q);
    }
}

} // verus!
