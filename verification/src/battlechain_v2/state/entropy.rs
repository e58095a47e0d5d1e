//! The entropy pool: batches of oracle seeds consumed one index at a time.
use vstd::prelude::*;
use crate::battlechain_v2::constants::{MAX_BATCHES, SEED_LEN};
use crate::battlechain_v2::errors::GameError;
use crate::battlechain_v2::utils::math::{bytes_to_vec, hashv_bytes, sha256_hashv};
use crate::pubkey::Pubkey;

verus! {

/// A batch of `count` entropy indices starting at `start`, drawn from one seed.
#[derive(Clone, Copy, Debug)]
pub struct SeedBatch {
    pub seed: [u8; SEED_LEN],
    pub start: u64,
    pub count: u32,
    pub consumed: u32,
}

impl SeedBatch {
    /// An empty batch with a zero seed.
    pub fn empty() -> (b: SeedBatch)
        ensures
            b.start == 0 && b.count == 0 && b.consumed == 0,
            forall|i: int| 0 <= i < 32 ==> b.seed[i] == 0u8,
    {
        SeedBatch { seed: [0u8; SEED_LEN], start: 0, count: 0, consumed: 0 }
    }
}

/// A ring of seed batches; `head` is where consumption looks first, `tail`
/// where the next refill goes.
#[derive(Clone, Copy, Debug)]
pub struct EntropyPool {
    pub authority: Pubkey,
    pub vrf_oracle: Pubkey,
    pub head: u8,
    pub tail: u8,
    /// Indices left over all batches.
    pub total_available: u64,
    /// Smallest start the next refill may use.
    pub global_next_index: u64,
    pub bump: u8,
    pub last_refill_ts: i64,
    pub batches: [SeedBatch; MAX_BATCHES],
}

/// A batch still has indices to hand out.
pub open spec fn batch_live(b: SeedBatch) -> bool {
    b.count > b.consumed
}

/// The first batch with indices left, looking `k` places past `head` and on
/// around the ring.
pub open spec fn next_live_batch(batches: Seq<SeedBatch>, head: int, k: int) -> Option<int>
    decreases 8 - k,
{
    if k >= 8 || k < 0 {
        None
    } else if batch_live(batches[(head + k) % 8]) {
        Some((head + k) % 8)
    } else {
        next_live_batch(batches, head, k + 1)
    }
}

/// The entropy index a batch hands out next: its start plus what it has
/// consumed, saturating at the largest 64-bit value.
pub open spec fn batch_offset(b: SeedBatch) -> u64 {
    if b.start + b.consumed > u64::MAX {
        u64::MAX
    } else {
        (b.start + b.consumed) as u64
    }
}

/// What is hashed for an entropy value: the seed, the index (little-endian),
/// the signer, the caller's tag and the turn number (little-endian).
pub open spec fn entropy_hash_input(b: SeedBatch, signer: Pubkey, user_tag: Seq<u8>, turn_number: u32) -> Seq<
    Seq<u8>,
> {
    seq![
        b.seed@,
        vstd::bytes::spec_u64_to_le_bytes(batch_offset(b)),
        signer.bytes@,
        user_tag,
        vstd::bytes::spec_u32_to_le_bytes(turn_number),
    ]
}

/// The batch after it handed out one index.
pub open spec fn batch_after_use(b: SeedBatch) -> SeedBatch {
    SeedBatch {
        consumed: if b.consumed == u32::MAX {
            u32::MAX
        } else {
            (b.consumed + 1) as u32
        },
        ..b
    }
}

/// Consuming one entropy index: the first live batch from the head hands out
/// its next index; the head moves on by one once that batch is used up.
#[verifier::opaque]
pub open spec fn consume_spec(pool: EntropyPool) -> Result<(EntropyPool, int), GameError> {
    if pool.total_available == 0 {
        Err(GameError::NoEntropyAvailable)
    } else {
        match next_live_batch(pool.batches@, pool.head as int % 8, 0) {
            None => Err(GameError::NoEntropyAvailable),
            Some(idx) => {
                let b2 = batch_after_use(pool.batches@[idx]);
                let head = if b2.consumed >= b2.count {
                    ((pool.head as int + 1) % 8) as u8
                } else {
                    pool.head
                };
                Ok(
                    (
                        EntropyPool {
                            batches: vstd::array::spec_array_update(pool.batches, idx, b2),
                            total_available: (pool.total_available - 1) as u64,
                            head,
                            ..pool
                        },
                        idx,
                    ),
                )
            },
        }
    }
}

impl EntropyPool {
    /// Hands out the next entropy index and its value: the SHA-256 of the
    /// batch seed, the index, the signer, `user_tag` and `turn_number`.
    /// On failure the pool is unchanged.
    pub fn consume_seed_bytes_return_index(&mut self, signer: &Pubkey, user_tag: &[u8], turn_number: u32) -> (r:
        Result<([u8; 32], u64), GameError>)
        ensures
            match consume_spec(*old(self)) {
                Err(e) => r == Err::<([u8; 32], u64), _>(e) && *final(self) == *old(self),
                Ok((p2, idx)) => ({
                    let b = old(self).batches@[idx];
                    &&& r matches Ok((h, index)) && index == batch_offset(b) && h@ == sha256_hashv(
                        entropy_hash_input(b, *signer, user_tag@, turn_number),
                    )
                    &&& *final(self) == p2
                }),
            },
    {
        proof {
            reveal(consume_spec);
        }
        if self.total_available == 0 {
            return Err(GameError::NoEntropyAvailable);
        }
        let h: usize = (self.head as usize) % MAX_BATCHES;
        let mut idx: usize = h;
        let ghost batches = self.batches@;
        let ghost mut k: int = 0;
        assert(batches.len() == 8);
        while self.batches[idx].count <= self.batches[idx].consumed
            invariant
                self.batches@ == batches,
                batches.len() == 8,
                h < 8,
                h == self.head as int % 8,
                0 <= k < 8,
                idx == (h + k) % 8,
                next_live_batch(batches, h as int, 0) == next_live_batch(batches, h as int, k),
            decreases 8 - k,
        {
            assert(next_live_batch(batches, h as int, k) == next_live_batch(batches, h as int, k + 1));
            idx = (idx + 1) % MAX_BATCHES;
            proof {
                k = k + 1;
            }
            assert(idx == (h + k) % 8);
            if idx == h {
                assert(k == 8);
                proof {
                    reveal(consume_spec);
                }
                return Err(GameError::NoEntropyAvailable);
            }
        }
        assert(next_live_batch(batches, h as int, k) == Some(idx as int));
        let batch = self.batches[idx];
        let offset: u64 = batch.start.saturating_add(batch.consumed as u64);
        let mut parts: Vec<Vec<u8>> = Vec::new();
        parts.push(bytes_to_vec(batch.seed.as_slice()));
        parts.push(vstd::bytes::u64_to_le_bytes(offset));
        parts.push(bytes_to_vec(signer.bytes.as_slice()));
        parts.push(bytes_to_vec(user_tag));
        parts.push(vstd::bytes::u32_to_le_bytes(turn_number));
        proof {
            let input = entropy_hash_input(batch, *signer, user_tag@, turn_number);
            assert forall|i: int| 0 <= i < 5 implies #[trigger] parts@[i].deep_view() =~= input[i] by {}
            assert(parts.deep_view() =~= input);
        }
        let digest = hashv_bytes(&parts);

        let mut updated = batch;
        updated.consumed = batch.consumed.saturating_add(1);
        self.batches[idx] = updated;
        self.total_available = self.total_available - 1;
        if updated.consumed >= updated.count {
            self.head = ((self.head as usize + 1) % MAX_BATCHES) as u8;
        }
        Ok((digest, offset))
    }
}

} // verus!
