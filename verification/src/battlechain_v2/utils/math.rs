//! Fixed-point arithmetic and values derived from seeds.
use vstd::prelude::*;
use crate::battlechain_v2::constants::FP_SCALE;
use crate::battlechain_v2::errors::GameError;

verus! {

/// SHA-256 of the concatenation of `parts`, as `hashv` returns it.
pub uninterp spec fn sha256_hashv(parts: Seq<Seq<u8>>) -> Seq<u8>;

/// Hashes the concatenation of `parts` with the runtime's SHA-256 `hashv`.
///
/// Trusted: `anchor_lang::solana_program::hash::hashv` feeds each part to one
/// SHA-256 hasher in order and returns the 32-byte digest; the contract only
/// ties the result to the parts through `sha256_hashv`.
#[verifier::external_body]
pub(crate) fn hashv_bytes(parts: &Vec<Vec<u8>>) -> (h: [u8; 32])
    ensures
        h@ == sha256_hashv(parts.deep_view()),
{
    let refs: Vec<&[u8]> = parts.iter().map(|p| p.as_slice()).collect();
    anchor_lang::solana_program::hash::hashv(&refs).to_bytes()
}

/// Product of two fixed-point values, when it fits in 128 bits.
pub open spec fn fp_mul(value_fp: int, mul_fp: int) -> int {
    (value_fp * mul_fp) / (FP_SCALE as int)
}

/// Multiplies two fixed-point values; fails when the raw product overflows.
pub fn mul_fp_checked(value_fp: u128, mul_fp: u128) -> (r: Result<u128, GameError>)
    ensures
        value_fp * mul_fp <= u128::MAX ==> r == Ok::<u128, GameError>(fp_mul(value_fp as int, mul_fp as int) as u128),
        value_fp * mul_fp > u128::MAX ==> r == Err::<u128, _>(GameError::MathOverflow),
{
    match value_fp.checked_mul(mul_fp) {
        Some(prod) => Ok(prod / FP_SCALE),
        None => Err(GameError::MathOverflow),
    }
}

/// The integer part of a fixed-point value, or `err` when it exceeds 64 bits.
pub fn fp_to_u64_clamped(value_fp: u128, err: GameError) -> (r: Result<u64, GameError>)
    ensures
        value_fp / FP_SCALE <= u64::MAX ==> r == Ok::<u64, GameError>((value_fp / FP_SCALE) as u64),
        value_fp / FP_SCALE > u64::MAX ==> r == Err::<u64, _>(err),
{
    let val = value_fp / FP_SCALE;
    if val > u64::MAX as u128 {
        return Err(err);
    }
    Ok(val as u64)
}

/// Product of two 32-bit values, saturating at the largest value.
pub fn saturating_mul_u32(a: u32, b: u32) -> (r: u32)
    ensures
        r == if a * b > u32::MAX {
            u32::MAX as int
        } else {
            a * b
        },
{
    match a.checked_mul(b) {
        Some(v) => v,
        None => u32::MAX,
    }
}

/// Product of two 64-bit values, saturating at the largest value.
pub fn saturating_mul_u64(a: u64, b: u64) -> (r: u64)
    ensures
        r == if a * b > u64::MAX {
            u64::MAX as int
        } else {
            a * b
        },
{
    match a.checked_mul(b) {
        Some(v) => v,
        None => u64::MAX,
    }
}

/// Sum of two signed 32-bit values, saturating at either end.
pub fn saturating_add_i32(a: i32, b: i32) -> (r: i32)
    ensures
        r == if a + b > i32::MAX {
            i32::MAX as int
        } else if a + b < i32::MIN {
            i32::MIN as int
        } else {
            a + b
        },
{
    match a.checked_add(b) {
        Some(v) => v,
        None => if b > 0 {
            i32::MAX
        } else {
            i32::MIN
        },
    }
}

/// Sum of two signed 16-bit values, saturating at either end.
pub fn saturating_add_i16(a: i16, b: i16) -> (r: i16)
    ensures
        r == if a + b > i16::MAX {
            i16::MAX as int
        } else if a + b < i16::MIN {
            i16::MIN as int
        } else {
            a + b
        },
{
    match a.checked_add(b) {
        Some(v) => v,
        None => if b > 0 {
            i16::MAX
        } else {
            i16::MIN
        },
    }
}

/// `a - b` for signed 64-bit values, saturating at either end.
pub fn saturating_sub_i64(a: i64, b: i64) -> (r: i64)
    ensures
        r == if a - b > i64::MAX {
            i64::MAX as int
        } else if a - b < i64::MIN {
            i64::MIN as int
        } else {
            a - b
        },
{
    match a.checked_sub(b) {
        Some(v) => v,
        None => if b < 0 {
            i64::MAX
        } else {
            i64::MIN
        },
    }
}

/// The bytes of a slice, copied.
pub fn bytes_to_vec(b: &[u8]) -> (v: Vec<u8>)
    ensures
        v@ == b@,
{
    let mut v: Vec<u8> = Vec::new();
    let mut i: usize = 0;
    while i < b.len()
        invariant
            i <= b@.len(),
            v@ == b@.subrange(0, i as int),
        decreases b@.len() - i,
    {
        v.push(b[i]);
        i = i + 1;
    }
    assert(b@.subrange(0, b@.len() as int) =~= b@);
    v
}

/// The 64-bit value a seed and a tag derive: the first eight bytes, read
/// little-endian, of the SHA-256 of the seed followed by the tag.
pub open spec fn spec_derive_u64(seed: Seq<u8>, tag: u8) -> u64 {
    vstd::bytes::spec_u64_from_le_bytes(sha256_hashv(seq![seed, seq![tag]]).subrange(0, 8))
}

/// Derives a 64-bit value from a seed and a tag.
pub fn derive_u64_from_seed_bytes(seed: &[u8; 32], tag: u8) -> (r: u64)
    ensures
        r == spec_derive_u64(seed@, tag),
{
    let mut parts: Vec<Vec<u8>> = Vec::new();
    parts.push(bytes_to_vec(seed.as_slice()));
    let mut tag_part: Vec<u8> = Vec::new();
    tag_part.push(tag);
    parts.push(tag_part);
    assert(parts@[0].deep_view() =~= seed@);
    assert(parts@[1].deep_view() =~= seq![tag]);
    assert(parts.deep_view() =~= seq![seed@, seq![tag]]);
    let h = hashv_bytes(&parts);
    let first8: [u8; 8] = [h[0], h[1], h[2], h[3], h[4], h[5], h[6], h[7]];
    assert(first8@ =~= h@.subrange(0, 8));
    vstd::bytes::u64_from_le_bytes(first8.as_slice())
}

} // verus!
