//! Comparing strings.

use vstd::prelude::*;
use crate::futures::utils::ranking::{text_before, Rank};

verus! {

/// Compares two strings with `str::cmp`. Rust orders strings by their bytes,
/// which for UTF-8 is the order of their code points, a proper prefix
/// first; the contract says so over the strings' characters.
#[verifier::external_body]
pub(crate) fn rank_text(a: &str, b: &str) -> (r: Rank)
    ensures
        (r is Before) == text_before(a@, b@),
        (r is After) == text_before(b@, a@),
{
    match a.cmp(b) {
        std::cmp::Ordering::Less => Rank::Before,
        std::cmp::Ordering::Equal => Rank::Same,
        std::cmp::Ordering::Greater => Rank::After,
    }
}

} // verus!
