//! Account addresses as plain 32-byte values.
use vstd::prelude::*;

verus! {

broadcast use vstd::array::group_array_axioms;

/// A 32-byte account address.
#[derive(Clone, Copy, Debug)]
pub struct Pubkey {
    pub bytes: [u8; 32],
}

impl Pubkey {
    /// Wraps 32 raw bytes.
    pub fn new_from_array(bytes: [u8; 32]) -> (k: Pubkey)
        ensures
            k.bytes == bytes,
    {
        Pubkey { bytes }
    }

    /// The 32 raw bytes of the address.
    pub fn to_bytes(&self) -> (b: [u8; 32])
        ensures
            b == self.bytes,
    {
        self.bytes
    }

    /// The all-zero address.
    pub fn zero() -> (k: Pubkey)
        ensures
            is_zero_key(k),
    {
        Pubkey { bytes: [0u8; 32] }
    }
}

/// The address is the all-zero default.
pub open spec fn is_zero_key(k: Pubkey) -> bool {
    forall|i: int| 0 <= i < 32 ==> k.bytes[i] == 0u8
}

impl Pubkey {
    /// Whether this is the all-zero default address.
    pub fn is_default(&self) -> (b: bool)
        ensures
            b == is_zero_key(*self),
    {
        let mut i: usize = 0;
        while i < 32
            invariant
                i <= 32,
                forall|j: int| 0 <= j < i ==> self.bytes[j] == 0u8,
            decreases 32 - i,
        {
            if self.bytes[i] != 0 {
                return false;
            }
            i = i + 1;
        }
        true
    }
}

impl PartialEq for Pubkey {
    fn eq(&self, other: &Pubkey) -> (r: bool) {
        let mut i: usize = 0;
        while i < 32
            invariant
                i <= 32,
                forall|j: int| 0 <= j < i ==> self.bytes[j] == other.bytes[j],
            decreases 32 - i,
        {
            if self.bytes[i] != other.bytes[i] {
                return false;
            }
            i = i + 1;
        }
        assert(self.bytes =~= other.bytes);
        true
    }
}

impl vstd::std_specs::cmp::PartialEqSpecImpl for Pubkey {
    open spec fn obeys_eq_spec() -> bool {
        true
    }

    open spec fn eq_spec(&self, other: &Pubkey) -> bool {
        *self == *other
    }
}

impl Eq for Pubkey {
}

impl Default for Pubkey {
    fn default() -> (k: Pubkey)
        ensures
            is_zero_key(k),
    {
        Pubkey::zero()
    }
}

} // verus!
