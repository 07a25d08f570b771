//! The lattice half of a two-dimensional gradient-noise generator: a doubled
//! permutation table and the hash that picks a gradient for each lattice
//! point.

use crate::permutation::{check_permutation, is_permutation, lemma_one_to_one_is_onto, PERM_SIZE};
use crate::random::random_permutation;
use vstd::prelude::*;

verus! {

/// Number of entries in the doubled table.
pub const TABLE_SIZE: usize = 512;

/// The table that a base permutation gives rise to: the base, twice in a row.
pub open spec fn doubled(base: Seq<usize>) -> Seq<usize> {
    base + base
}

/// The gradient index of lattice point `(x, y)` under the table built from
/// `base`: look up `y` modulo 256, add `x`, and look the sum up modulo 512.
pub open spec fn lattice_hash(base: Seq<usize>, x: int, y: int) -> int
    recommends
        base.len() == PERM_SIZE,
{
    let table = doubled(base);
    table[(x + table[y % 256]) % 512] as int
}

/// The doubled table never reads past the base: the hash is the base looked
/// up at `x` plus the base's entry for `y`, everything modulo 256. So it is a
/// valid gradient index.
pub proof fn lemma_hash_folds(base: Seq<usize>, x: int, y: int)
    requires
        is_permutation(base),
    ensures
        lattice_hash(base, x, y) == base[(x + base[y % 256]) % 256],
        0 <= lattice_hash(base, x, y) < PERM_SIZE,
{
    let table = doubled(base);
    let row = y % 256;
    assert(table[row] == base[row]);
    let at = (x + base[row]) % 512;
    assert(at % 256 == (x + base[row]) % 256);
    if at < 256 {
        assert(table[at] == base[at]);
    } else {
        assert(table[at] == base[at - 256]);
    }
}

/// The hash depends on `x` and `y` only through their residues modulo 256.
pub proof fn lemma_hash_periodic(base: Seq<usize>, x: int, y: int, x2: int, y2: int)
    requires
        is_permutation(base),
        x % 256 == x2 % 256,
        y % 256 == y2 % 256,
    ensures
        lattice_hash(base, x, y) == lattice_hash(base, x2, y2),
{
    lemma_hash_folds(base, x, y);
    lemma_hash_folds(base, x2, y2);
    let shift = base[y % 256] as int;
    assert((x + shift) % 256 == (x2 + shift) % 256);
}

/// The hashes along the lattice row `y`, for `x` from 0 to 255.
pub open spec fn hash_row(base: Seq<usize>, y: int) -> Seq<usize> {
    Seq::new(PERM_SIZE as nat, |x: int| lattice_hash(base, x, y) as usize)
}

/// The hashes along the lattice column `x`, for `y` from 0 to 255.
pub open spec fn hash_column(base: Seq<usize>, x: int) -> Seq<usize> {
    Seq::new(PERM_SIZE as nat, |y: int| lattice_hash(base, x, y) as usize)
}

/// Along a row, one period of the lattice meets every gradient index exactly
/// once: no gradient is favoured.
pub proof fn lemma_row_is_permutation(base: Seq<usize>, y: int)
    requires
        is_permutation(base),
    ensures
        is_permutation(hash_row(base, y)),
{
    let row = hash_row(base, y);
    let shift = base[y % 256] as int;
    assert forall|i: int| 0 <= i < 256 implies #[trigger] row[i] == base[(i + shift) % 256] by {
        lemma_hash_folds(base, i, y);
    }
    assert forall|i: int, j: int| 0 <= i < 256 && 0 <= j < 256 && i != j implies row[i]
        != row[j] by {
        let a = (i + shift) % 256;
        let b = (j + shift) % 256;
        assert(a != b);
        assert(base[a] != base[b]);
    }
    lemma_one_to_one_is_onto(row);
}

/// Along a column, one period of the lattice meets every gradient index
/// exactly once.
pub proof fn lemma_column_is_permutation(base: Seq<usize>, x: int)
    requires
        is_permutation(base),
    ensures
        is_permutation(hash_column(base, x)),
{
    let column = hash_column(base, x);
    assert forall|i: int| 0 <= i < 256 implies #[trigger] column[i] == base[(x + base[i]) % 256] by {
        lemma_hash_folds(base, x, i);
    }
    assert forall|i: int, j: int| 0 <= i < 256 && 0 <= j < 256 && i != j implies column[i]
        != column[j] by {
        assert(base[i] != base[j]);
        assert(base[i] < 256 && base[j] < 256);
        let a = (x + base[i]) % 256;
        let b = (x + base[j]) % 256;
        assert(a != b);
        assert(base[a] != base[b]);
    }
    lemma_one_to_one_is_onto(column);
}

/// The gradient indices of the four corners of a lattice cell, named by the
/// corner's offset from the cell's origin: `h10` is one step along x.
#[derive(Clone, Copy, Debug, PartialEq, Eq)]
pub struct CellHashes {
    pub h00: usize,
    pub h10: usize,
    pub h01: usize,
    pub h11: usize,
}

/// A permutation table for lattice hashing. It is fixed once built.
pub struct Perlin {
    perm: [usize; TABLE_SIZE],
}

impl View for Perlin {
    type V = Seq<usize>;

    /// The base permutation: the first half of the table.
    closed spec fn view(&self) -> Seq<usize> {
        self.perm@.subrange(0, PERM_SIZE as int)
    }
}

/// The residue of `v` modulo 512, in `0..512` also for a negative `v`: the
/// cast to unsigned adds a power of two that 512 divides.
fn residue(v: isize) -> (r: usize)
    ensures
        r == (v as int) % 512,
{
    let bits: usize = #[verifier::truncate] (v as usize);
    assert(bits % 512 == (v as int) % 512) by (bit_vector)
        requires
            bits == v as usize,
    ;
    bits % TABLE_SIZE
}

/// Lays `base` out twice in a row.
fn double(base: &[usize]) -> (table: [usize; TABLE_SIZE])
    requires
        base@.len() == PERM_SIZE,
    ensures
        table@ == doubled(base@),
{
    let mut table: [usize; TABLE_SIZE] = [0; TABLE_SIZE];
    let mut i: usize = 0;
    while i < PERM_SIZE
        invariant
            i <= PERM_SIZE,
            base@.len() == PERM_SIZE,
            forall|j: int| 0 <= j < i ==> table@[j] == base@[j],
            forall|j: int| 0 <= j < i ==> table@[j + PERM_SIZE] == base@[j],
        decreases PERM_SIZE - i,
    {
        table[i] = base[i];
        table[i + PERM_SIZE] = base[i];
        i = i + 1;
    }
    assert(table@ =~= doubled(base@));
    table
}

impl Perlin {
    #[verifier::type_invariant]
    spec fn well_formed(self) -> bool {
        &&& is_permutation(self@)
        &&& self.perm@ == doubled(self@)
    }

    /// Builds a table from a permutation drawn at random. Every draw gives a
    /// permutation of `0..256`; which one is up to the generator.
    pub fn new() -> (p: Perlin)
        ensures
            is_permutation(p@),
    {
        let base = random_permutation();
        let perm = double(base.as_slice());
        assert(perm@.subrange(0, PERM_SIZE as int) =~= base@);
        Perlin { perm }
    }

    /// Builds the table of the given base, if that is a permutation of
    /// `0..256`.
    pub fn from_permutation(base: &[usize]) -> (r: Option<Perlin>)
        ensures
            r is Some <==> is_permutation(base@),
            r matches Some(p) ==> p@ == base@,
    {
        if !check_permutation(base) {
            return None;
        }
        let perm = double(base);
        assert(perm@.subrange(0, PERM_SIZE as int) =~= base@);
        Some(Perlin { perm })
    }

    /// The doubled table: the base permutation in both halves.
    pub fn permutation(&self) -> (table: &[usize; TABLE_SIZE])
        ensures
            table@ == doubled(self@),
            is_permutation(self@),
    {
        proof {
            use_type_invariant(self);
        }
        &self.perm
    }

    /// The gradient index of lattice point `(x, y)`, for every `x` and `y`.
    pub fn hash(&self, x: isize, y: isize) -> (h: usize)
        ensures
            h == lattice_hash(self@, x as int, y as int),
            h < PERM_SIZE,
    {
        proof {
            use_type_invariant(self);
            lemma_hash_folds(self@, x as int, y as int);
        }
        let row: usize = self.perm[residue(y) % PERM_SIZE];
        self.perm[(residue(x) + row) % TABLE_SIZE]
    }

    /// The gradient indices of the four corners of the cell whose origin is
    /// `(x0, y0)`. The far corners are those of `x0 + 1` and `y0 + 1` as
    /// integers, also where the machine integer has no room for them.
    pub fn cell_hashes(&self, x0: isize, y0: isize) -> (c: CellHashes)
        ensures
            c.h00 == lattice_hash(self@, x0 as int, y0 as int),
            c.h10 == lattice_hash(self@, x0 + 1, y0 as int),
            c.h01 == lattice_hash(self@, x0 as int, y0 + 1),
            c.h11 == lattice_hash(self@, x0 + 1, y0 + 1),
            c.h00 < PERM_SIZE,
            c.h10 < PERM_SIZE,
            c.h01 < PERM_SIZE,
            c.h11 < PERM_SIZE,
    {
        let x1: isize = x0.wrapping_add(1);
        let y1: isize = y0.wrapping_add(1);
        proof {
            use_type_invariant(self);
            assert((x1 as int) % 256 == (x0 + 1) % 256);
            assert((y1 as int) % 256 == (y0 + 1) % 256);
            lemma_hash_periodic(self@, x1 as int, y0 as int, x0 + 1, y0 as int);
            lemma_hash_periodic(self@, x0 as int, y1 as int, x0 as int, y0 + 1);
            lemma_hash_periodic(self@, x1 as int, y1 as int, x0 + 1, y0 + 1);
        }
        CellHashes {
            h00: self.hash(x0, y0),
            h10: self.hash(x1, y0),
            h01: self.hash(x0, y1),
            h11: self.hash(x1, y1),
        }
    }
}

} // verus!
