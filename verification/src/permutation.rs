//! Permutations of `0..256`, the raw material of a lattice hash.

use vstd::prelude::*;

verus! {

/// Number of entries in a base permutation, and of distinct hash values.
pub const PERM_SIZE: usize = 256;

/// The sequence `0, 1, ..., 255`.
pub open spec fn identity() -> Seq<usize> {
    Seq::new(PERM_SIZE as nat, |i: int| i as usize)
}

/// `s` is a bijection on `{0, ..., 255}`: it has 256 entries, each below 256,
/// no value occurs at two positions, and every value below 256 occurs.
pub open spec fn is_permutation(s: Seq<usize>) -> bool {
    &&& s.len() == PERM_SIZE
    &&& forall|i: int| 0 <= i < s.len() ==> #[trigger] s[i] < PERM_SIZE
    &&& s.no_duplicates()
    &&& forall|v: usize| v < PERM_SIZE ==> #[trigger] s.contains(v)
}

/// A one-to-one sequence of 256 values below 256 reaches every value below
/// 256: there is no room to leave one out.
pub proof fn lemma_one_to_one_is_onto(s: Seq<usize>)
    requires
        s.len() == PERM_SIZE,
        forall|i: int| 0 <= i < s.len() ==> #[trigger] s[i] < PERM_SIZE,
        s.no_duplicates(),
    ensures
        is_permutation(s),
{
    let hit = s.to_set();
    let all = identity().to_set();
    s.unique_seq_to_set();
    identity().unique_seq_to_set();
    vstd::seq_lib::seq_to_set_is_finite(identity());
    assert(hit.subset_of(all)) by {
        assert forall|v: usize| hit.contains(v) implies all.contains(v) by {
            let i = choose|i: int| 0 <= i < s.len() && s[i] == v;
            assert(identity()[v as int] == v);
        }
    }
    assert forall|v: usize| v < PERM_SIZE implies #[trigger] s.contains(v) by {
        if !s.contains(v) {
            assert(identity()[v as int] == v);
            hit.lemma_subset_not_in_lt(all, v);
        }
    }
}

/// In a permutation every value below 256 occurs exactly once, and nothing
/// else occurs at all.
pub proof fn lemma_every_value_once(s: Seq<usize>)
    requires
        is_permutation(s),
    ensures
        forall|v: usize| v < PERM_SIZE ==> #[trigger] s.to_multiset().count(v) == 1,
        forall|v: usize| v >= PERM_SIZE ==> #[trigger] s.to_multiset().count(v) == 0,
        s.to_multiset() =~= identity().to_multiset(),
{
    s.to_multiset_ensures();
    s.lemma_multiset_has_no_duplicates();
    identity().to_multiset_ensures();
    identity().lemma_multiset_has_no_duplicates();
    assert forall|v: usize| v < PERM_SIZE implies #[trigger] s.to_multiset().count(v) == 1 by {
        assert(s.contains(v));
    }
    assert forall|v: usize| v >= PERM_SIZE implies #[trigger] s.to_multiset().count(v) == 0 by {
        if s.contains(v) {
            let i = choose|i: int| 0 <= i < s.len() && s[i] == v;
            assert(s[i] < PERM_SIZE);
        }
    }
    assert forall|v: usize| s.to_multiset().count(v) == identity().to_multiset().count(v) by {
        if v < PERM_SIZE {
            assert(identity()[v as int] == v);
            assert(identity().contains(v));
        } else {
            if identity().contains(v) {
                let i = choose|i: int| 0 <= i < identity().len() && identity()[i] == v;
                assert(false);
            }
        }
    }
}

/// A sequence with the same entries as `0, 1, ..., 255`, in whatever order,
/// is a permutation.
pub proof fn lemma_rearranged_identity(s: Seq<usize>)
    requires
        s.to_multiset() == identity().to_multiset(),
    ensures
        is_permutation(s),
{
    let id = identity();
    s.to_multiset_ensures();
    id.to_multiset_ensures();
    id.lemma_multiset_has_no_duplicates();
    s.lemma_multiset_has_no_duplicates_conv();
    assert forall|i: int| 0 <= i < s.len() implies #[trigger] s[i] < PERM_SIZE by {
        assert(s.contains(s[i]));
        assert(s.to_multiset().count(s[i]) == id.to_multiset().count(s[i]));
        assert(id.contains(s[i]));
        let j = choose|j: int| 0 <= j < id.len() && id[j] == s[i];
    }
    assert forall|v: usize| v < PERM_SIZE implies #[trigger] s.contains(v) by {
        assert(id[v as int] == v);
        assert(id.contains(v));
        assert(s.to_multiset().count(v) == id.to_multiset().count(v));
    }
}

/// Builds `0, 1, ..., 255`.
pub fn identity_permutation() -> (v: Vec<usize>)
    ensures
        v@ == identity(),
{
    let mut v: Vec<usize> = Vec::new();
    let mut i: usize = 0;
    while i < PERM_SIZE
        invariant
            i <= PERM_SIZE,
            v@.len() == i,
            forall|j: int| 0 <= j < i ==> v@[j] == j,
        decreases PERM_SIZE - i,
    {
        v.push(i);
        i = i + 1;
    }
    assert(v@ =~= identity());
    v
}

/// Decides whether `base` is a permutation of `0..256`.
pub fn check_permutation(base: &[usize]) -> (ok: bool)
    ensures
        ok == is_permutation(base@),
{
    if base.len() != PERM_SIZE {
        return false;
    }
    let mut seen: [bool; PERM_SIZE] = [false; PERM_SIZE];
    let mut i: usize = 0;
    while i < PERM_SIZE
        invariant
            i <= PERM_SIZE,
            base@.len() == PERM_SIZE,
            forall|j: int| 0 <= j < i ==> #[trigger] base@[j] < PERM_SIZE,
            forall|j: int, k: int| 0 <= j < k < i ==> base@[j] != base@[k],
            forall|v: int|
                0 <= v < PERM_SIZE ==> (#[trigger] seen@[v] <==> exists|j: int|
                    0 <= j < i && base@[j] == v),
        decreases PERM_SIZE - i,
    {
        let v: usize = base[i];
        if v >= PERM_SIZE {
            return false;
        }
        if seen[v] {
            proof {
                let j = choose|j: int| 0 <= j < i && base@[j] == v;
                assert(base@[j] == base@[i as int]);
            }
            return false;
        }
        seen[v] = true;
        i = i + 1;
    }
    proof {
        lemma_one_to_one_is_onto(base@);
    }
    true
}

} // verus!
