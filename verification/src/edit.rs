//! Mathematical model of the two edit-distance metrics, the laws that hold
//! of them, and the shared executable pieces the engines are built on.
//!
//! Both metrics are defined over prefix pairs: `lev_at(s, t, i, j)` is the
//! distance between the first `i` characters of `s` and the first `j`
//! characters of `t`, mirroring the dynamic-programming recurrence the
//! engines tabulate.
use vstd::prelude::*;
use vstd::string::StrSliceExecFns;

verus! {

/// The smaller of two integers.
pub open spec fn min2(a: int, b: int) -> int {
    if a <= b {
        a
    } else {
        b
    }
}

/// The larger of two integers.
pub open spec fn max2(a: int, b: int) -> int {
    if a <= b {
        b
    } else {
        a
    }
}

/// Distances are clamped to the 8-bit range: values above 255 saturate.
pub open spec fn sat255(d: int) -> int {
    if d > 255 {
        255
    } else {
        d
    }
}

/// Levenshtein distance between the length-`i` prefix of `s` and the
/// length-`j` prefix of `t`: the least number of single-character
/// insertions, deletions and substitutions turning one into the other.
pub open spec fn lev_at(s: Seq<char>, t: Seq<char>, i: int, j: int) -> int
    recommends
        0 <= i <= s.len(),
        0 <= j <= t.len(),
    decreases i + j,
{
    if i <= 0 {
        if j <= 0 {
            0
        } else {
            j
        }
    } else if j <= 0 {
        i
    } else {
        let cost: int = if s[i - 1] == t[j - 1] {
            0
        } else {
            1
        };
        min2(min2(lev_at(s, t, i - 1, j) + 1, lev_at(s, t, i, j - 1) + 1), lev_at(s, t, i - 1, j - 1) + cost)
    }
}

/// Levenshtein distance between two whole sequences.
pub open spec fn lev(s: Seq<char>, t: Seq<char>) -> int {
    lev_at(s, t, s.len() as int, t.len() as int)
}

/// Optimal-string-alignment distance between the length-`i` prefix of `s`
/// and the length-`j` prefix of `t`: Levenshtein's three operations plus
/// adjacent transposition at cost 1, with each substring edited at most
/// once.
pub open spec fn osa_at(s: Seq<char>, t: Seq<char>, i: int, j: int) -> int
    recommends
        0 <= i <= s.len(),
        0 <= j <= t.len(),
    decreases i + j,
{
    if i <= 0 {
        if j <= 0 {
            0
        } else {
            j
        }
    } else if j <= 0 {
        i
    } else {
        let cost: int = if s[i - 1] == t[j - 1] {
            0
        } else {
            1
        };
        let three = min2(
            min2(osa_at(s, t, i - 1, j) + 1, osa_at(s, t, i, j - 1) + 1),
            osa_at(s, t, i - 1, j - 1) + cost,
        );
        if i >= 2 && j >= 2 && s[i - 1] == t[j - 2] && s[i - 2] == t[j - 1] {
            min2(three, osa_at(s, t, i - 2, j - 2) + 1)
        } else {
            three
        }
    }
}

/// Optimal-string-alignment distance between two whole sequences.
pub open spec fn osa(s: Seq<char>, t: Seq<char>) -> int {
    osa_at(s, t, s.len() as int, t.len() as int)
}

/// The prefix distances are bounded: the difference of the prefix lengths
/// is a lower bound, the larger prefix length an upper bound.
pub proof fn lemma_lev_at_bounds(s: Seq<char>, t: Seq<char>, i: int, j: int)
    requires
        0 <= i <= s.len(),
        0 <= j <= t.len(),
    ensures
        i - j <= lev_at(s, t, i, j),
        j - i <= lev_at(s, t, i, j),
        lev_at(s, t, i, j) <= max2(i, j),
    decreases i + j,
{
    if i > 0 && j > 0 {
        lemma_lev_at_bounds(s, t, i - 1, j);
        lemma_lev_at_bounds(s, t, i, j - 1);
        lemma_lev_at_bounds(s, t, i - 1, j - 1);
    }
}

/// Same bounds for the optimal-string-alignment prefix distance.
pub proof fn lemma_osa_at_bounds(s: Seq<char>, t: Seq<char>, i: int, j: int)
    requires
        0 <= i <= s.len(),
        0 <= j <= t.len(),
    ensures
        i - j <= osa_at(s, t, i, j),
        j - i <= osa_at(s, t, i, j),
        osa_at(s, t, i, j) <= max2(i, j),
    decreases i + j,
{
    if i > 0 && j > 0 {
        lemma_osa_at_bounds(s, t, i - 1, j);
        lemma_osa_at_bounds(s, t, i, j - 1);
        lemma_osa_at_bounds(s, t, i - 1, j - 1);
        if i >= 2 && j >= 2 {
            lemma_osa_at_bounds(s, t, i - 2, j - 2);
        }
    }
}

/// Identity on prefixes: equal prefixes of one sequence are at distance 0.
pub proof fn lemma_lev_at_identity(s: Seq<char>, i: int)
    requires
        0 <= i <= s.len(),
    ensures
        lev_at(s, s, i, i) == 0,
    decreases i,
{
    if i > 0 {
        lemma_lev_at_identity(s, i - 1);
        lemma_lev_at_bounds(s, s, i - 1, i);
        lemma_lev_at_bounds(s, s, i, i - 1);
    }
}

/// Identity on prefixes for the optimal-string-alignment distance.
pub proof fn lemma_osa_at_identity(s: Seq<char>, i: int)
    requires
        0 <= i <= s.len(),
    ensures
        osa_at(s, s, i, i) == 0,
    decreases i,
{
    if i > 0 {
        lemma_osa_at_identity(s, i - 1);
        lemma_osa_at_bounds(s, s, i - 1, i);
        lemma_osa_at_bounds(s, s, i, i - 1);
        if i >= 2 {
            lemma_osa_at_bounds(s, s, i - 2, i - 2);
        }
    }
}

/// Symmetry on prefixes: swapping the sequences and the prefix lengths
/// leaves the distance unchanged.
pub proof fn lemma_lev_at_symmetry(s: Seq<char>, t: Seq<char>, i: int, j: int)
    requires
        0 <= i <= s.len(),
        0 <= j <= t.len(),
    ensures
        lev_at(s, t, i, j) == lev_at(t, s, j, i),
    decreases i + j,
{
    if i > 0 && j > 0 {
        lemma_lev_at_symmetry(s, t, i - 1, j);
        lemma_lev_at_symmetry(s, t, i, j - 1);
        lemma_lev_at_symmetry(s, t, i - 1, j - 1);
    }
}

/// Symmetry on prefixes for the optimal-string-alignment distance.
pub proof fn lemma_osa_at_symmetry(s: Seq<char>, t: Seq<char>, i: int, j: int)
    requires
        0 <= i <= s.len(),
        0 <= j <= t.len(),
    ensures
        osa_at(s, t, i, j) == osa_at(t, s, j, i),
    decreases i + j,
{
    if i > 0 && j > 0 {
        lemma_osa_at_symmetry(s, t, i - 1, j);
        lemma_osa_at_symmetry(s, t, i, j - 1);
        lemma_osa_at_symmetry(s, t, i - 1, j - 1);
        if i >= 2 && j >= 2 {
            lemma_osa_at_symmetry(s, t, i - 2, j - 2);
        }
    }
}

/// Dominance on prefixes: allowing transpositions can only lower the
/// distance, never raise it.
pub proof fn lemma_osa_at_dominance(s: Seq<char>, t: Seq<char>, i: int, j: int)
    requires
        0 <= i <= s.len(),
        0 <= j <= t.len(),
    ensures
        osa_at(s, t, i, j) <= lev_at(s, t, i, j),
    decreases i + j,
{
    if i > 0 && j > 0 {
        lemma_osa_at_dominance(s, t, i - 1, j);
        lemma_osa_at_dominance(s, t, i, j - 1);
        lemma_osa_at_dominance(s, t, i - 1, j - 1);
    }
}

/// Identity: the distance from any sequence to itself is zero, under both
/// metrics.
pub proof fn lemma_identity(s: Seq<char>)
    ensures
        lev(s, s) == 0,
        osa(s, s) == 0,
        sat255(lev(s, s)) == 0,
        sat255(osa(s, s)) == 0,
{
    lemma_lev_at_identity(s, s.len() as int);
    lemma_osa_at_identity(s, s.len() as int);
}

/// Symmetry: both metrics are unchanged when the two sequences swap roles.
pub proof fn lemma_symmetry(s: Seq<char>, t: Seq<char>)
    ensures
        lev(s, t) == lev(t, s),
        osa(s, t) == osa(t, s),
        sat255(lev(s, t)) == sat255(lev(t, s)),
        sat255(osa(s, t)) == sat255(osa(t, s)),
{
    lemma_lev_at_symmetry(s, t, s.len() as int, t.len() as int);
    lemma_osa_at_symmetry(s, t, s.len() as int, t.len() as int);
}

/// Bounds: the difference of the lengths is a lower bound on the
/// Levenshtein distance, and the larger length an upper bound.
pub proof fn lemma_lev_bounds(s: Seq<char>, t: Seq<char>)
    ensures
        s.len() - t.len() <= lev(s, t),
        t.len() - s.len() <= lev(s, t),
        lev(s, t) <= max2(s.len() as int, t.len() as int),
{
    lemma_lev_at_bounds(s, t, s.len() as int, t.len() as int);
}

/// Dominance: the optimal-string-alignment distance never exceeds the
/// Levenshtein distance.
pub proof fn lemma_dominance(s: Seq<char>, t: Seq<char>)
    ensures
        osa(s, t) <= lev(s, t),
        sat255(osa(s, t)) <= sat255(lev(s, t)),
{
    lemma_osa_at_dominance(s, t, s.len() as int, t.len() as int);
}

/// The saturated Levenshtein recurrence: clamping every table entry to 255
/// commutes with one step of the recurrence, so a table of clamped values
/// still yields the clamped distance.
pub proof fn lemma_lev_sat_step(s: Seq<char>, t: Seq<char>, i: int, j: int)
    requires
        1 <= i <= s.len(),
        1 <= j <= t.len(),
    ensures
        ({
            let cost: int = if s[i - 1] == t[j - 1] {
                0
            } else {
                1
            };
            let del = sat255(lev_at(s, t, i - 1, j)) + 1;
            let ins = sat255(lev_at(s, t, i, j - 1)) + 1;
            let sub = sat255(lev_at(s, t, i - 1, j - 1)) + cost;
            sat255(lev_at(s, t, i, j)) == sat255(min2(min2(del, ins), sub))
        }),
{
    lemma_lev_at_bounds(s, t, i - 1, j);
    lemma_lev_at_bounds(s, t, i, j - 1);
    lemma_lev_at_bounds(s, t, i - 1, j - 1);
}

/// The saturated optimal-string-alignment recurrence, including the
/// transposition candidate.
pub proof fn lemma_osa_sat_step(s: Seq<char>, t: Seq<char>, i: int, j: int)
    requires
        1 <= i <= s.len(),
        1 <= j <= t.len(),
    ensures
        ({
            let cost: int = if s[i - 1] == t[j - 1] {
                0
            } else {
                1
            };
            let del = sat255(osa_at(s, t, i - 1, j)) + 1;
            let ins = sat255(osa_at(s, t, i, j - 1)) + 1;
            let sub = sat255(osa_at(s, t, i - 1, j - 1)) + cost;
            let three = min2(min2(del, ins), sub);
            let best = if i >= 2 && j >= 2 && s[i - 1] == t[j - 2] && s[i - 2] == t[j - 1] {
                min2(three, sat255(osa_at(s, t, i - 2, j - 2)) + 1)
            } else {
                three
            };
            sat255(osa_at(s, t, i, j)) == sat255(best)
        }),
{
    lemma_osa_at_bounds(s, t, i - 1, j);
    lemma_osa_at_bounds(s, t, i, j - 1);
    lemma_osa_at_bounds(s, t, i - 1, j - 1);
    if i >= 2 && j >= 2 {
        lemma_osa_at_bounds(s, t, i - 2, j - 2);
    }
}

/// Pairwise Levenshtein results: one saturated distance per position pair,
/// in input order, one result per pair up to the shorter input.
pub open spec fn lev_results(xs: Seq<String>, ys: Seq<String>, v: Seq<u8>) -> bool {
    &&& v.len() == min2(xs.len() as int, ys.len() as int)
    &&& forall|k: int| 0 <= k < v.len() ==> #[trigger] v[k] as int == sat255(lev(xs[k]@, ys[k]@))
}

/// Pairwise optimal-string-alignment results, in input order.
pub open spec fn osa_results(xs: Seq<String>, ys: Seq<String>, v: Seq<u8>) -> bool {
    &&& v.len() == min2(xs.len() as int, ys.len() as int)
    &&& forall|k: int| 0 <= k < v.len() ==> #[trigger] v[k] as int == sat255(osa(xs[k]@, ys[k]@))
}

/// Collect the characters of a string slice into a vector, in order.
pub fn chars_of(s: &str) -> (r: Vec<char>)
    ensures
        r@ == s@,
{
    let n = s.unicode_len();
    let mut r: Vec<char> = Vec::new();
    let mut i: usize = 0;
    while i < n
        invariant
            n == s@.len(),
            i <= n,
            r@.len() == i,
            forall|k: int| 0 <= k < i ==> r@[k] == s@[k],
        decreases n - i,
    {
        r.push(s.get_char(i));
        i = i + 1;
    }
    proof {
        assert(r@ =~= s@);
    }
    r
}

} // verus!
