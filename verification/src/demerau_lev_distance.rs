//! Damerau-Levenshtein distance of strings or vectors of strings, under
//! this module's older spelling: the same optimal-string-alignment metric
//! as `damerau_lev_distance`, kept as a separate entry point; each
//! function delegates to its counterpart there.
use vstd::prelude::*;

use crate::damerau_lev_distance;
use crate::edit::osa;
use crate::edit::osa_at;
use crate::edit::osa_results;
use crate::edit::sat255;

verus! {

#[derive(Debug)]
pub struct DemerauStrdiff;

/// Function overloading achieved with traits: one entry point over the
/// single-pair and the batch call shape, each impl stating its own
/// postcondition through `entry_ens`.
pub trait Dlv<Args> {
    type Output;

    /// What `entry` promises of its result, for this argument shape.
    spec fn entry_ens(&self, args: Args, r: Self::Output) -> bool;

    fn entry(&self, args: Args) -> (r: Self::Output)
        ensures
            self.entry_ens(args, r),
    ;
}

impl Dlv<(String, String)> for DemerauStrdiff {
    type Output = u8;

    open spec fn entry_ens(&self, args: (String, String), r: u8) -> bool {
        r as int == sat255(osa(args.0@, args.1@))
    }

    fn entry(&self, args: (String, String)) -> u8 {
        demeraudist(args.0, args.1)
    }
}

impl Dlv<(Vec<String>, Vec<String>)> for DemerauStrdiff {
    type Output = Vec<u8>;

    open spec fn entry_ens(&self, args: (Vec<String>, Vec<String>), r: Vec<u8>) -> bool {
        osa_results(args.0@, args.1@, r@)
    }

    fn entry(&self, args: (Vec<String>, Vec<String>)) -> Vec<u8> {
        demeraudist_vec(args.0, args.1)
    }
}

/// Calculate the string difference of two vectors of strings pairwise, one
/// `demeraudist` call per position, in order, up to the shorter vector.
pub fn demeraudist_vec(source: Vec<String>, dest: Vec<String>) -> (r: Vec<u8>)
    ensures
        osa_results(source@, dest@, r@),
{
    damerau_lev_distance::dameraudist_vec(source, dest)
}

/// Calculate the string difference of two strings under the
/// optimal-string-alignment metric, clamped to 255.
pub fn demeraudist(source: String, dest: String) -> (r: u8)
    ensures
        r as int == sat255(osa(source@, dest@)),
{
    damerau_lev_distance::dameraudist(source, dest)
}

/// Tabulate the optimal-string-alignment distance over every prefix pair
/// of the two character vectors; returns the clamped distance between the
/// full vectors.
pub fn helper(s: &Vec<char>, t: &Vec<char>) -> (r: usize)
    ensures
        r as int == sat255(osa_at(s@, t@, s@.len() as int, t@.len() as int)),
        r <= 255,
{
    damerau_lev_distance::helper(s, t)
}

} // verus!
