//! The longer of two string slices.
//!
//! Lengths are measured in bytes, the same unit for both operands; on a
//! tie the first argument wins. The result borrows from one of the
//! inputs, so it is valid no longer than the shorter-lived of the two.

use vstd::prelude::*;
use vstd::string::StringSliceAdditionalSpecFns;

verus! {

/// The length of a string slice in bytes, the unit the comparisons use.
pub open spec fn span_len(s: &str) -> usize {
    s.spec_bytes().len() as usize
}

/// The longer of two string slices; on a tie the first argument wins.
pub fn longest<'a>(str1: &'a str, str2: &'a str) -> (r: &'a str)
    ensures
        span_len(str2) > span_len(str1) ==> r == str2,
        span_len(str2) <= span_len(str1) ==> r == str1,
{
    let mut longest = str1;
    if str2.len() > str1.len() {
        longest = str2;
    }
    longest
}

} // verus!
