//! Narrowing of byte counts into the 32-bit fields of a record.

use vstd::prelude::*;

verus! {

/// Number of distinct values of a 32-bit count field.
pub open spec fn field_span() -> nat {
    0x1_0000_0000
}

/// The value a 32-bit count field holds after the count `n` is stored into
/// it: the low 32 bits of `n`. Counts up to `u32::MAX` are kept; larger ones
/// lose their high-order part.
pub open spec fn narrowed(n: nat) -> u32 {
    (n % field_span()) as u32
}

/// Stores a byte count into a 32-bit field, keeping its low 32 bits.
pub fn narrow_len(n: usize) -> (r: u32)
    ensures
        r == narrowed(n as nat),
{
    let wide: u64 = n as u64;
    assert(wide as u32 == wide % 0x1_0000_0000) by (bit_vector);
    #[verifier::truncate]
    (wide as u32)
}

} // verus!
