//! Text comparison helpers shared by the library.
use vstd::prelude::*;

verus! {

/// `<str as PartialEq>::eq` compares two string slices by their characters.
pub assume_specification[ <str as PartialEq>::eq ](a: &str, b: &str) -> (r: bool)
    ensures
        r == (a@ == b@),
;

/// Compares two string slices by their characters.
pub fn str_equal(a: &str, b: &str) -> (r: bool)
    ensures
        r == (a@ == b@),
{
    <str as PartialEq>::eq(a, b)
}

} // verus!
