//! What verified code may rely on when it compares string slices.

use vstd::prelude::*;

verus! {

/// `str`'s `PartialEq::eq` from the standard library: two string slices are
/// equal exactly when they hold the same characters in the same order.
/// Verified code reaches it as `a.eq(b)`.
pub assume_specification[ <str as PartialEq>::eq ](a: &str, b: &str) -> (same: bool)
    ensures
        same == (a@ == b@),
;

} // verus!
