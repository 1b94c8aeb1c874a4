//! The Perlin-style engine's lattice: the gradient hashes of the four
//! corners of the unit square that holds a sample point.

use crate::lattice::{lemma_wrap_step, step_index, wrap, wrap_coordinate};
use crate::permutation::{is_permutation, table_for_seed, PermutationTable};
use vstd::prelude::*;

verus! {

/// The hash of lattice point `(x, y)`: the first coordinate is looked up,
/// the second coordinate is added, and the sum, reduced modulo 256, is
/// looked up again.
pub open spec fn perlin_hash(table: Seq<u8>, x: int, y: int) -> u8 {
    table[(table[wrap(x)] + wrap(y)) % 256]
}

/// The hashes of the four corners of a unit square. Field `hXY` belongs to
/// the corner `X` steps along the first axis and `Y` steps along the second.
#[derive(Clone, Copy, Debug, PartialEq, Eq, Structural)]
pub struct SquareHashes {
    pub h00: u8,
    pub h01: u8,
    pub h10: u8,
    pub h11: u8,
}

/// The hashes of the four corners of the cell whose origin is `(x, y)`.
pub open spec fn perlin_corner_hashes(table: Seq<u8>, x: int, y: int) -> SquareHashes {
    SquareHashes {
        h00: perlin_hash(table, x, y),
        h01: perlin_hash(table, x, y + 1),
        h10: perlin_hash(table, x + 1, y),
        h11: perlin_hash(table, x + 1, y + 1),
    }
}

/// The Perlin-style engine: one permutation table, built from a seed.
pub struct PerlinNoise {
    perm: PermutationTable,
}

impl View for PerlinNoise {
    type V = Seq<u8>;

    closed spec fn view(&self) -> Seq<u8> {
        self.perm@
    }
}

impl PerlinNoise {
    /// Builds the engine whose table belongs to `seed`.
    pub fn new(seed: usize) -> (engine: Self)
        ensures
            engine@ == table_for_seed(seed as u64),
            is_permutation(engine@),
    {
        PerlinNoise { perm: PermutationTable::build(seed as u64) }
    }

    /// The engine's permutation table, a bijection on `0..256`.
    pub fn table(&self) -> (table: &PermutationTable)
        ensures
            table@ == self@,
            is_permutation(self@),
    {
        proof {
            use_type_invariant(&self.perm);
        }
        &self.perm
    }

    /// Hash of the lattice point whose coordinates reduce to `x` and `y`.
    /// The sum of the inner hash and `y` is masked to eight bits, so the
    /// outer lookup never leaves the table.
    fn hash_at(&self, x: u8, y: u8) -> (h: u8)
        ensures
            h == self@[(self@[x as int] + y) % 256],
    {
        let inner: u8 = self.perm.get(x);
        let sum: u16 = inner as u16 + y as u16;
        let index: u16 = sum & 255;
        assert(index == sum % 256) by (bit_vector)
            requires
                index == sum & 255,
        ;
        self.perm.get(index as u8)
    }

    /// The hash of lattice point `(x, y)`.
    pub fn hash(&self, x: i64, y: i64) -> (h: u8)
        ensures
            h == perlin_hash(self@, x as int, y as int),
    {
        self.hash_at(wrap_coordinate(x), wrap_coordinate(y))
    }

    /// The hashes of the four corners of the cell whose origin is `(x, y)`.
    pub fn corner_hashes(&self, x: i64, y: i64) -> (hashes: SquareHashes)
        ensures
            hashes == perlin_corner_hashes(self@, x as int, y as int),
    {
        let x0: u8 = wrap_coordinate(x);
        let y0: u8 = wrap_coordinate(y);
        let x1: u8 = step_index(x0, 1);
        let y1: u8 = step_index(y0, 1);
        proof {
            lemma_wrap_step(x as int, 1);
            lemma_wrap_step(y as int, 1);
        }
        SquareHashes {
            h00: self.hash_at(x0, y0),
            h01: self.hash_at(x0, y1),
            h10: self.hash_at(x1, y0),
            h11: self.hash_at(x1, y1),
        }
    }
}

impl Clone for PerlinNoise {
    fn clone(&self) -> (copy: Self)
        ensures
            copy@ == self@,
    {
        PerlinNoise { perm: self.perm.clone() }
    }
}

} // verus!
