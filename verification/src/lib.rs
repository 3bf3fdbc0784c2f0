//! Edit-distance metrics between character sequences: classic Levenshtein
//! distance and the optimal-string-alignment (restricted Damerau-Levenshtein)
//! distance, for single pairs of strings or for equal-length batches.
//!
//! Distances are reported as `u8` values saturated at 255: the metric is
//! clamped to an 8-bit range by design, and inputs whose true distance
//! exceeds 255 yield 255.
use vstd::prelude::*;

pub mod damerau_lev_distance;
pub mod demerau_lev_distance;
pub mod edit;
pub mod lev_distance;

use crate::damerau_lev_distance::DamerauStrdiff;
use crate::damerau_lev_distance::Dlv;
use crate::edit::lev;
use crate::edit::lev_results;
use crate::edit::osa;
use crate::edit::osa_results;
use crate::edit::sat255;
use crate::lev_distance::LevStrdiff;
use crate::lev_distance::Lv;

verus! {

/// One argument of the two entry operations: either a single string or an
/// ordered list of strings. Both arguments of a call must carry the same
/// variant.
#[derive(Debug, PartialEq)]
pub enum Inputs {
    Single(String),
    List(Vec<String>),
}

/// The result shape mirrors the input shape: a single distance for a
/// single pair, an ordered list of distances for a list pair.
#[derive(Debug, PartialEq)]
pub enum Outputs {
    Value(u8),
    Values(Vec<u8>),
}

/// What `Strdiff::lvd` promises: a distance per the input shape, or the
/// error owed to that shape.
pub open spec fn lvd_ens(a: Inputs, b: Inputs, r: Result<Outputs, String>) -> bool {
    match (a, b) {
        (Inputs::Single(x), Inputs::Single(y)) => r matches Ok(o) && o matches Outputs::Value(d)
            && d as int == sat255(lev(x@, y@)),
        (Inputs::List(xs), Inputs::List(ys)) => if xs@.len() == 0 || ys@.len() == 0 {
            r matches Err(m) && m@ == "Incomplete params"@
        } else if xs@.len() == ys@.len() {
            r matches Ok(o) && o matches Outputs::Values(v) && lev_results(xs@, ys@, v@)
        } else {
            r matches Err(m) && m@ == "Param length mismatch"@
        },
        _ => r matches Err(m) && m@ == "Error: source and target should be of same data type"@,
    }
}

/// What `Strdiff::dlvd` promises, with the optimal-string-alignment
/// metric in place of the plain one.
pub open spec fn dlvd_ens(a: Inputs, b: Inputs, r: Result<Outputs, String>) -> bool {
    match (a, b) {
        (Inputs::Single(x), Inputs::Single(y)) => r matches Ok(o) && o matches Outputs::Value(d)
            && d as int == sat255(osa(x@, y@)),
        (Inputs::List(xs), Inputs::List(ys)) => if xs@.len() == 0 || ys@.len() == 0 {
            r matches Err(m) && m@ == "Incomplete params"@
        } else if xs@.len() == ys@.len() {
            r matches Ok(o) && o matches Outputs::Values(v) && osa_results(xs@, ys@, v@)
        } else {
            r matches Err(m) && m@ == "Param length mismatch"@
        },
        _ => r matches Err(m) && m@ == "Error: source and target should be of same data type"@,
    }
}

/// The polymorphic entry point: validates the shape of its two arguments
/// and routes them to the matching engine.
pub struct Strdiff;

impl Strdiff {
    /// Plain Levenshtein distance over either input shape.
    pub fn lvd(a: Inputs, b: Inputs) -> (r: Result<Outputs, String>)
        ensures
            lvd_ens(a, b, r),
    {
        match (a, b) {
            (Inputs::Single(x), Inputs::Single(y)) => {
                let strdiff = LevStrdiff;
                let result = strdiff.entry((x, y));
                Ok(Outputs::Value(result))
            },
            (Inputs::List(xs), Inputs::List(ys)) => {
                let strdiff = LevStrdiff;
                match strdiff.entry((xs, ys)) {
                    Ok(v) => Ok(Outputs::Values(v)),
                    Err(m) => Err(m),
                }
            },
            _ => Err("Error: source and target should be of same data type".to_owned()),
        }
    }

    /// Optimal-string-alignment distance over either input shape.
    pub fn dlvd(a: Inputs, b: Inputs) -> (r: Result<Outputs, String>)
        ensures
            dlvd_ens(a, b, r),
    {
        match (a, b) {
            (Inputs::Single(x), Inputs::Single(y)) => {
                let strdiff = DamerauStrdiff;
                let result = strdiff.entry((x, y));
                Ok(Outputs::Value(result))
            },
            (Inputs::List(xs), Inputs::List(ys)) => {
                if xs.len() == 0 || ys.len() == 0 {
                    Err("Incomplete params".to_owned())
                } else if xs.len() == ys.len() {
                    let strdiff = DamerauStrdiff;
                    let result = strdiff.entry((xs, ys));
                    Ok(Outputs::Values(result))
                } else {
                    Err("Param length mismatch".to_owned())
                }
            },
            _ => Err("Error: source and target should be of same data type".to_owned()),
        }
    }
}

} // verus!
