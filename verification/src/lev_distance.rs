//! Classic Levenshtein distance of strings or vectors of strings.
//!
//! The distance is tabulated bottom-up over prefix pairs: a dense table
//! with a leading sentinel row and column holds, for every prefix pair,
//! the distance clamped to the 8-bit result range.
use vstd::prelude::*;

use crate::edit::chars_of;
use crate::edit::lemma_lev_sat_step;
use crate::edit::lev;
use crate::edit::lev_at;
use crate::edit::lev_results;
use crate::edit::min2;
use crate::edit::sat255;

verus! {

#[derive(Debug)]
pub struct LevStrdiff;

/// Function overloading achieved with traits: one entry point over the
/// single-pair and the batch call shape, each impl stating its own
/// postcondition through `entry_ens`.
pub trait Lv<Args> {
    type Output;

    /// What `entry` promises of its result, for this argument shape.
    spec fn entry_ens(&self, args: Args, r: Self::Output) -> bool;

    fn entry(&self, args: Args) -> (r: Self::Output)
        ensures
            self.entry_ens(args, r),
    ;
}

impl Lv<(String, String)> for LevStrdiff {
    type Output = u8;

    open spec fn entry_ens(&self, args: (String, String), r: u8) -> bool {
        r as int == sat255(lev(args.0@, args.1@))
    }

    fn entry(&self, args: (String, String)) -> u8 {
        levdist(args.0, args.1)
    }
}

impl Lv<(Vec<String>, Vec<String>)> for LevStrdiff {
    type Output = Result<Vec<u8>, String>;

    open spec fn entry_ens(&self, args: (Vec<String>, Vec<String>), r: Result<Vec<u8>, String>) -> bool {
        if args.0@.len() == 0 || args.1@.len() == 0 {
            r matches Err(m) && m@ == "Incomplete params"@
        } else if args.0@.len() == args.1@.len() {
            r matches Ok(v) && lev_results(args.0@, args.1@, v@)
        } else {
            r matches Err(m) && m@ == "Param length mismatch"@
        }
    }

    fn entry(&self, args: (Vec<String>, Vec<String>)) -> Result<Vec<u8>, String> {
        if args.0.len() == 0 || args.1.len() == 0 {
            return Err("Incomplete params".to_owned());
        }
        if args.0.len() == 1 && args.1.len() == 1 {
            let result = levdist(args.0[0].clone(), args.1[0].clone());
            let mut results: Vec<u8> = Vec::new();
            results.push(result);
            return Ok(results);
        } else if args.0.len() == args.1.len() {
            let result = levdist_vec(args.0, args.1);
            return Ok(result);
        } else {
            return Err("Param length mismatch".to_owned());
        }
    }
}

/// Calculate the string difference of two vectors of strings pairwise, one
/// `levdist` call per position, in order, up to the shorter vector.
pub fn levdist_vec(source: Vec<String>, dest: Vec<String>) -> (r: Vec<u8>)
    ensures
        lev_results(source@, dest@, r@),
{
    let len = if source.len() <= dest.len() {
        source.len()
    } else {
        dest.len()
    };
    let mut results: Vec<u8> = Vec::new();
    let mut k: usize = 0;
    while k < len
        invariant
            len == min2(source@.len() as int, dest@.len() as int),
            k <= len,
            results@.len() == k,
            forall|q: int|
                0 <= q < k ==> #[trigger] results@[q] as int == sat255(lev(source@[q]@, dest@[q]@)),
        decreases len - k,
    {
        let d = levdist(source[k].clone(), dest[k].clone());
        results.push(d);
        k = k + 1;
    }
    results
}

/// Calculate the string difference of two strings: the least number of
/// single-character insertions, deletions and substitutions turning one
/// into the other, clamped to 255.
#[verifier::loop_isolation(false)]
pub fn levdist(source: String, dest: String) -> (r: u8)
    ensures
        r as int == sat255(lev(source@, dest@)),
{
    let s = chars_of(source.as_str());
    let t = chars_of(dest.as_str());
    let m = s.len();
    let n = t.len();

    let mut table: Vec<Vec<usize>> = Vec::new();

    // Sentinel row: the distance from the empty source prefix is the
    // length of the destination prefix.
    let mut first: Vec<usize> = Vec::new();
    first.push(0);
    while first.len() <= n
        invariant
            1 <= first@.len() <= n + 1,
            forall|b: int|
                0 <= b < first@.len() ==> #[trigger] first@[b] as int == sat255(lev_at(s@, t@, 0, b)),
        decreases n + 1 - first@.len(),
    {
        let j = first.len();
        let v: usize = if j > 255 {
            255
        } else {
            j
        };
        first.push(v);
    }
    table.push(first);

    while table.len() <= m
        invariant
            1 <= table@.len() <= m + 1,
            forall|a: int| #![trigger table@[a]] 0 <= a < table@.len() ==> table@[a]@.len() == n + 1,
            forall|a: int, b: int|
                #![trigger table@[a]@[b]]
                0 <= a < table@.len() && 0 <= b <= n ==> table@[a]@[b] as int == sat255(
                    lev_at(s@, t@, a, b),
                ),
        decreases m + 1 - table@.len(),
    {
        let i = table.len();
        let mut row: Vec<usize> = Vec::new();
        let v0: usize = if i > 255 {
            255
        } else {
            i
        };
        row.push(v0);
        while row.len() <= n
            invariant
                1 <= row@.len() <= n + 1,
                forall|b: int|
                    0 <= b < row@.len() ==> #[trigger] row@[b] as int == sat255(
                        lev_at(s@, t@, i as int, b),
                    ),
        decreases n + 1 - row@.len(),
        {
            let j = row.len();
            let cost: usize = if s[i - 1] == t[j - 1] {
                0
            } else {
                1
            };
            let del = table[i - 1][j] + 1;
            let ins = row[j - 1] + 1;
            let sub = table[i - 1][j - 1] + cost;
            let mut best = if del <= ins {
                del
            } else {
                ins
            };
            if sub < best {
                best = sub;
            }
            if best > 255 {
                best = 255;
            }
            proof {
                lemma_lev_sat_step(s@, t@, i as int, j as int);
            }
            row.push(best);
        }
        table.push(row);
    }

    let d = table[m][n];
    d as u8
}

} // verus!
