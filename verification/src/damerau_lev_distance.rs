//! Damerau-Levenshtein distance of strings or vectors of strings.
//!
//! Computes the string difference under the condition that a substring is
//! not edited more than once (optimal string alignment distance): the
//! three Levenshtein operations plus adjacent transposition at cost 1.
//!
//! The distance is tabulated bottom-up over prefix pairs, with a sentinel
//! row and column for the empty prefixes; every entry is clamped to the
//! 8-bit result range.
use vstd::prelude::*;

use crate::edit::chars_of;
use crate::edit::lemma_osa_sat_step;
use crate::edit::min2;
use crate::edit::osa;
use crate::edit::osa_at;
use crate::edit::osa_results;
use crate::edit::sat255;

verus! {

#[derive(Debug)]
pub struct DamerauStrdiff;

/// Function overloading achieved with traits: one entry point over the
/// single-pair and the batch call shape, each impl stating its own
/// postcondition through `entry_ens`.
pub trait Dlv<Args> {
    type Output;

    /// What `entry` promises of its result, for this argument shape.
    spec fn entry_ens(&self, args: Args, r: Self::Output) -> bool;

    fn entry(&self, args: Args) -> (r: Self::Output)
        ensures
            self.entry_ens(args, r),
    ;
}

impl Dlv<(String, String)> for DamerauStrdiff {
    type Output = u8;

    open spec fn entry_ens(&self, args: (String, String), r: u8) -> bool {
        r as int == sat255(osa(args.0@, args.1@))
    }

    fn entry(&self, args: (String, String)) -> u8 {
        dameraudist(args.0, args.1)
    }
}

impl Dlv<(Vec<String>, Vec<String>)> for DamerauStrdiff {
    type Output = Vec<u8>;

    open spec fn entry_ens(&self, args: (Vec<String>, Vec<String>), r: Vec<u8>) -> bool {
        osa_results(args.0@, args.1@, r@)
    }

    fn entry(&self, args: (Vec<String>, Vec<String>)) -> Vec<u8> {
        dameraudist_vec(args.0, args.1)
    }
}

/// Calculate the string difference of two vectors of strings pairwise, one
/// `dameraudist` call per position, in order, up to the shorter vector.
pub fn dameraudist_vec(source: Vec<String>, dest: Vec<String>) -> (r: Vec<u8>)
    ensures
        osa_results(source@, dest@, r@),
{
    let len = if source.len() <= dest.len() {
        source.len()
    } else {
        dest.len()
    };
    let mut results: Vec<u8> = Vec::new();
    let mut k: usize = 0;
    while k < len
        invariant
            len == min2(source@.len() as int, dest@.len() as int),
            k <= len,
            results@.len() == k,
            forall|q: int|
                0 <= q < k ==> #[trigger] results@[q] as int == sat255(osa(source@[q]@, dest@[q]@)),
        decreases len - k,
    {
        let d = dameraudist(source[k].clone(), dest[k].clone());
        results.push(d);
        k = k + 1;
    }
    results
}

/// Calculate the string difference of two strings under the
/// optimal-string-alignment metric, clamped to 255.
pub fn dameraudist(source: String, dest: String) -> (r: u8)
    ensures
        r as int == sat255(osa(source@, dest@)),
{
    let s = chars_of(source.as_str());
    let t = chars_of(dest.as_str());
    let d = helper(&s, &t);
    d as u8
}

/// Tabulate the optimal-string-alignment distance over every prefix pair
/// of the two character vectors; returns the clamped distance between the
/// full vectors.
#[verifier::loop_isolation(false)]
pub fn helper(s: &Vec<char>, t: &Vec<char>) -> (r: usize)
    ensures
        r as int == sat255(osa_at(s@, t@, s@.len() as int, t@.len() as int)),
        r <= 255,
{
    let m = s.len();
    let n = t.len();

    let mut table: Vec<Vec<usize>> = Vec::new();

    // Sentinel row: the distance from the empty source prefix is the
    // length of the destination prefix.
    let mut first: Vec<usize> = Vec::new();
    first.push(0);
    while first.len() <= n
        invariant
            1 <= first@.len() <= n + 1,
            forall|b: int|
                0 <= b < first@.len() ==> #[trigger] first@[b] as int == sat255(osa_at(s@, t@, 0, b)),
        decreases n + 1 - first@.len(),
    {
        let j = first.len();
        let v: usize = if j > 255 {
            255
        } else {
            j
        };
        first.push(v);
    }
    table.push(first);

    while table.len() <= m
        invariant
            1 <= table@.len() <= m + 1,
            forall|a: int| #![trigger table@[a]] 0 <= a < table@.len() ==> table@[a]@.len() == n + 1,
            forall|a: int, b: int|
                #![trigger table@[a]@[b]]
                0 <= a < table@.len() && 0 <= b <= n ==> table@[a]@[b] as int == sat255(
                    osa_at(s@, t@, a, b),
                ),
        decreases m + 1 - table@.len(),
    {
        let i = table.len();
        let mut row: Vec<usize> = Vec::new();
        let v0: usize = if i > 255 {
            255
        } else {
            i
        };
        row.push(v0);
        while row.len() <= n
            invariant
                1 <= row@.len() <= n + 1,
                forall|b: int|
                    0 <= b < row@.len() ==> #[trigger] row@[b] as int == sat255(
                        osa_at(s@, t@, i as int, b),
                    ),
            decreases n + 1 - row@.len(),
        {
            let j = row.len();
            let cost: usize = if s[i - 1] == t[j - 1] {
                0
            } else {
                1
            };
            let del = table[i - 1][j] + 1;
            let ins = row[j - 1] + 1;
            let sub = table[i - 1][j - 1] + cost;
            let mut best = if del <= ins {
                del
            } else {
                ins
            };
            if sub < best {
                best = sub;
            }
            if i >= 2 && j >= 2 && s[i - 1] == t[j - 2] && s[i - 2] == t[j - 1] {
                let transposition = table[i - 2][j - 2] + 1;
                if transposition < best {
                    best = transposition;
                }
            }
            if best > 255 {
                best = 255;
            }
            proof {
                lemma_osa_sat_step(s@, t@, i as int, j as int);
            }
            row.push(best);
        }
        table.push(row);
    }

    table[m][n]
}

} // verus!
