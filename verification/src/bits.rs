//! Facts about masks on machine words, shared by the descriptor code of
//! every architecture.

use vstd::prelude::*;

verus! {

/// Setting the bits of `m` turns them on and keeps the others; clearing
/// them turns them off and keeps the others.
pub proof fn lemma_u64_set_clear(x: u64, m: u64)
    by (bit_vector)
    ensures
        (x | m) & m == m,
        (x | m) & !m == x & !m,
        (x & !m) & m == 0,
        (x & !m) & !m == x & !m,
{
}

/// A masked word is no larger than the mask or the word.
pub proof fn lemma_u64_and_le(x: u64, m: u64)
    by (bit_vector)
    ensures
        x & m <= m,
        x & m <= x,
{
}

/// Replacing the field `m` of `x` by that of `v`.
pub proof fn lemma_u64_field(x: u64, v: u64, m: u64)
    by (bit_vector)
    ensures
        ((x & !m) | (v & m)) & m == v & m,
        ((x & !m) | (v & m)) & !m == x & !m,
{
}

/// Changing bits outside the mask `k` leaves `x & k` alone.
pub proof fn lemma_u64_outside(x: u64, v: u64, m: u64, k: u64)
    by (bit_vector)
    requires
        m & k == 0,
    ensures
        (x | m) & k == x & k,
        (x & !m) & k == x & k,
        ((x & !m) | (v & m)) & k == x & k,
{
}

/// A masked word is no larger than the mask or the word.
pub proof fn lemma_u32_and_le(x: u32, m: u32)
    by (bit_vector)
    ensures
        x & m <= m,
        x & m <= x,
{
}

} // verus!
