//! Seeded permutation tables: a shuffle of `0..256` used as a hash over
//! lattice coordinates.

use rand::seq::SliceRandom;
use rand::SeedableRng;
use vstd::prelude::*;

verus! {

/// What shuffling `items` with a generator seeded by `seed` leaves behind.
///
/// The generator is `rand`'s `StdRng`; for a fixed release of `rand` its
/// output stream, and with it the shuffle, depends on nothing but the seed.
pub uninterp spec fn seeded_shuffle(items: Seq<u8>, seed: u64) -> Seq<u8>;

/// The table before shuffling: entry `i` holds `i`.
pub open spec fn identity_table() -> Seq<u8> {
    Seq::new(256, |i: int| i as u8)
}

/// The permutation table that belongs to `seed`.
pub open spec fn table_for_seed(seed: u64) -> Seq<u8> {
    seeded_shuffle(identity_table(), seed)
}

/// `table` is a bijection on `0..256`: it has 256 entries, no value occurs
/// twice, and no value is missing.
pub open spec fn is_permutation(table: Seq<u8>) -> bool {
    &&& table.len() == 256
    &&& table.no_duplicates()
    &&& forall|v: u8| table.contains(v)
}

/// Any rearrangement of the identity table is a bijection on `0..256`.
pub proof fn lemma_rearranged_identity_is_permutation(table: Seq<u8>)
    requires
        table.to_multiset() == identity_table().to_multiset(),
    ensures
        is_permutation(table),
{
    broadcast use vstd::seq_lib::group_to_multiset_ensures;

    let id = identity_table();
    assert(id.no_duplicates());
    id.lemma_multiset_has_no_duplicates();
    table.lemma_multiset_has_no_duplicates_conv();
    assert(table.len() == table.to_multiset().len());
    assert(id.len() == id.to_multiset().len());
    assert forall|v: u8| table.contains(v) by {
        assert(id[v as int] == v);
        assert(id.contains(v));
        assert(id.to_multiset().count(v) > 0);
    }
}

/// In a bijection on `0..256` every value sits at exactly one index.
pub proof fn lemma_each_value_occurs_once(table: Seq<u8>, value: u8)
    requires
        is_permutation(table),
    ensures
        exists|i: int|
            0 <= i < 256 && table[i] == value && forall|j: int|
                0 <= j < 256 && table[j] == value ==> j == i,
{
    assert(table.contains(value));
    let i = choose|i: int| 0 <= i < table.len() && table[i] == value;
    assert(0 <= i < 256 && table[i] == value && forall|j: int|
        0 <= j < 256 && table[j] == value ==> j == i);
}

/// Building is deterministic: two tables built from the same seed are
/// identical, entry for entry.
pub proof fn lemma_same_seed_same_table(first: PermutationTable, second: PermutationTable, seed: u64)
    requires
        first@ == table_for_seed(seed),
        second@ == table_for_seed(seed),
    ensures
        first@ == second@,
{
}

/// Shuffles `items` in place by `rand`'s `SliceRandom::shuffle`, drawing from
/// a `StdRng` made by `SeedableRng::seed_from_u64(seed)`.
///
/// Trusted, not proved: the outcome is determined by the old contents and the
/// seed, and, since the shuffle does nothing but swap elements, it holds
/// exactly the items that were there before.
#[verifier::external_body]
fn shuffle_with_seed(items: &mut Vec<u8>, seed: u64)
    ensures
        final(items)@ == seeded_shuffle(old(items)@, seed),
        final(items)@.to_multiset() == old(items)@.to_multiset(),
{
    let mut rng = rand::rngs::StdRng::seed_from_u64(seed);
    items.shuffle(&mut rng);
}

/// A permutation of `0..256`, fixed once it is built.
pub struct PermutationTable {
    entries: Vec<u8>,
}

impl View for PermutationTable {
    type V = Seq<u8>;

    closed spec fn view(&self) -> Seq<u8> {
        self.entries@
    }
}

impl PermutationTable {
    /// Holds of every table at all times: it is a bijection on `0..256`.
    #[verifier::type_invariant]
    pub open spec fn is_valid(self) -> bool {
        is_permutation(self@)
    }

    /// Builds the table for `seed`: the identity table, shuffled by a
    /// generator whose whole state derives from the seed.
    pub fn build(seed: u64) -> (table: Self)
        ensures
            table@ == table_for_seed(seed),
            is_permutation(table@),
    {
        let mut entries: Vec<u8> = Vec::new();
        let mut i: usize = 0;
        while i < 256
            invariant
                i <= 256,
                entries@.len() == i,
                forall|k: int| 0 <= k < i ==> entries@[k] == k as u8,
            decreases 256 - i,
        {
            entries.push(i as u8);
            i += 1;
        }
        assert(entries@ =~= identity_table());
        shuffle_with_seed(&mut entries, seed);
        proof {
            lemma_rearranged_identity_is_permutation(entries@);
        }
        PermutationTable { entries }
    }

    /// The entry at `index`.
    pub fn get(&self, index: u8) -> (value: u8)
        ensures
            value == self@[index as int],
    {
        proof {
            use_type_invariant(self);
        }
        self.entries[index as usize]
    }
}

impl Clone for PermutationTable {
    fn clone(&self) -> (copy: Self)
        ensures
            copy@ == self@,
    {
        proof {
            use_type_invariant(self);
        }
        let entries: Vec<u8> = self.entries.clone();
        assert(entries@ =~= self.entries@);
        PermutationTable { entries }
    }
}

} // verus!
