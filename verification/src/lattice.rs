//! Lattice coordinates as table indices: every coordinate, negative ones
//! included, is taken modulo 256 before it is looked up.

use vstd::prelude::*;

verus! {

/// A lattice coordinate reduced to a table index.
pub open spec fn wrap(c: int) -> int {
    c % 256
}

/// Reduces a lattice coordinate to a table index by masking its low eight
/// bits, which for negative coordinates too is the coordinate modulo 256.
pub fn wrap_coordinate(c: i64) -> (index: u8)
    ensures
        index as int == wrap(c as int),
{
    let masked: i64 = c & 255;
    assert(0 <= masked < 256 && masked == c % 256) by (bit_vector)
        requires
            masked == c & 255,
    ;
    masked as u8
}

/// The index `step` places after `index`, wrapping from 255 to 0.
pub(crate) fn step_index(index: u8, step: u8) -> (next: u8)
    ensures
        next as int == (index + step) % 256,
{
    ((index as u16 + step as u16) % 256) as u8
}

/// Stepping a coordinate and then reducing it is stepping its index.
pub(crate) proof fn lemma_wrap_step(c: int, step: int)
    ensures
        wrap(c + step) == (wrap(c) + step) % 256,
{
    vstd::arithmetic::div_mod::lemma_add_mod_noop(c, step, 256);
    vstd::arithmetic::div_mod::lemma_add_mod_noop(c % 256, step, 256);
    vstd::arithmetic::div_mod::lemma_mod_twice(c, 256);
}

} // verus!
