//! The simplex-style engine's lattice: the gradient hashes of the three
//! corners of the triangle that holds a sample point.

use crate::lattice::{lemma_wrap_step, step_index, wrap, wrap_coordinate};
use crate::permutation::{is_permutation, table_for_seed, PermutationTable};
use vstd::prelude::*;

verus! {

/// The two triangles that make up a skewed lattice cell.
#[derive(Clone, Copy, Debug, PartialEq, Eq, Structural)]
pub enum Triangle {
    /// The sample's first cell-local offset exceeds its second: the middle
    /// corner is one step along the first axis.
    Lower,
    /// Otherwise, ties included: the middle corner is one step along the
    /// second axis.
    Upper,
}

impl Triangle {
    /// The step from the cell origin to the triangle's middle corner.
    pub open spec fn step(self) -> (int, int) {
        match self {
            Triangle::Lower => (1, 0),
            Triangle::Upper => (0, 1),
        }
    }

    /// The step from the cell origin to the middle corner.
    pub fn middle_step(&self) -> (step: (u8, u8))
        ensures
            (step.0 as int, step.1 as int) == self.step(),
    {
        match self {
            Triangle::Lower => (1, 0),
            Triangle::Upper => (0, 1),
        }
    }
}

/// The hash of lattice point `(i, j)`: the second coordinate is looked up
/// first, the first coordinate is added, and the sum, reduced modulo 256, is
/// looked up again.
pub open spec fn simplex_hash(table: Seq<u8>, i: int, j: int) -> u8 {
    table[(wrap(i) + table[wrap(j)]) % 256]
}

/// The hashes of the three corners of a triangle.
#[derive(Clone, Copy, Debug, PartialEq, Eq, Structural)]
pub struct TriangleHashes {
    /// The cell origin `(i, j)`.
    pub origin: u8,
    /// The origin moved by the triangle's step.
    pub middle: u8,
    /// The corner diagonally opposite the origin, `(i + 1, j + 1)`.
    pub far: u8,
}

/// The hashes of the three corners of `triangle` in cell `(i, j)`.
pub open spec fn simplex_corner_hashes(table: Seq<u8>, i: int, j: int, triangle: Triangle)
    -> TriangleHashes {
    let (di, dj) = triangle.step();
    TriangleHashes {
        origin: simplex_hash(table, i, j),
        middle: simplex_hash(table, i + di, j + dj),
        far: simplex_hash(table, i + 1, j + 1),
    }
}

/// The simplex-style engine: one permutation table, built from a seed.
pub struct OpenSimplexNoise {
    perm: PermutationTable,
}

impl View for OpenSimplexNoise {
    type V = Seq<u8>;

    closed spec fn view(&self) -> Seq<u8> {
        self.perm@
    }
}

impl OpenSimplexNoise {
    /// Builds the engine whose table belongs to `seed`.
    pub fn new(seed: usize) -> (engine: Self)
        ensures
            engine@ == table_for_seed(seed as u64),
            is_permutation(engine@),
    {
        OpenSimplexNoise { perm: PermutationTable::build(seed as u64) }
    }

    /// The engine's permutation table, a bijection on `0..256`.
    pub fn table(&self) -> (table: &PermutationTable)
        ensures
            table@ == self@,
            is_permutation(self@),
    {
        proof {
            use_type_invariant(&self.perm);
        }
        &self.perm
    }

    /// Hash of the lattice point whose coordinates reduce to `x` and `y`.
    fn hash_at(&self, x: u8, y: u8) -> (h: u8)
        ensures
            h == self@[(x + self@[y as int]) % 256],
    {
        let inner: u8 = self.perm.get(y);
        let index: usize = (x as usize + inner as usize) % 256;
        self.perm.get(index as u8)
    }

    /// The hash of lattice point `(i, j)`.
    pub fn hash(&self, i: i64, j: i64) -> (h: u8)
        ensures
            h == simplex_hash(self@, i as int, j as int),
    {
        self.hash_at(wrap_coordinate(i), wrap_coordinate(j))
    }

    /// The hashes of the three corners that contribute to a sample in
    /// `triangle` of cell `(i, j)`.
    pub fn corner_hashes(&self, i: i64, j: i64, triangle: Triangle) -> (hashes: TriangleHashes)
        ensures
            hashes == simplex_corner_hashes(self@, i as int, j as int, triangle),
    {
        let ii: u8 = wrap_coordinate(i);
        let jj: u8 = wrap_coordinate(j);
        let (di, dj) = triangle.middle_step();
        let i_mid: u8 = step_index(ii, di);
        let j_mid: u8 = step_index(jj, dj);
        let i_far: u8 = step_index(ii, 1);
        let j_far: u8 = step_index(jj, 1);
        proof {
            lemma_wrap_step(i as int, di as int);
            lemma_wrap_step(j as int, dj as int);
            lemma_wrap_step(i as int, 1);
            lemma_wrap_step(j as int, 1);
        }
        TriangleHashes {
            origin: self.hash_at(ii, jj),
            middle: self.hash_at(i_mid, j_mid),
            far: self.hash_at(i_far, j_far),
        }
    }
}

impl Clone for OpenSimplexNoise {
    fn clone(&self) -> (copy: Self)
        ensures
            copy@ == self@,
    {
        OpenSimplexNoise { perm: self.perm.clone() }
    }
}

} // verus!
