//! String helpers: the character views of string slices, and string-slice
//! equality with the contract that std documents.

use vstd::prelude::*;

verus! {

/// The character views of a sequence of string slices.
pub open spec fn str_views(s: Seq<&str>) -> Seq<Seq<char>> {
    s.map_values(|x: &str| x@)
}

/// Compares two string slices with `<str as PartialEq>::eq`.
/// Claimed: the result is true exactly when both hold the same characters,
/// as std documents for string equality.
#[verifier::external_body]
pub(crate) fn str_equal(a: &str, b: &str) -> (r: bool)
    ensures
        r == (a@ == b@),
{
    a == b
}

} // verus!
