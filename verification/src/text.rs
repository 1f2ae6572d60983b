//! Exact string comparison, the only operation the global tables and the
//! classifier need on identifier text.

use vstd::prelude::*;

verus! {

/// Case-sensitive equality of two string slices, decided character by
/// character with no locale sensitivity.
pub fn str_eq(a: &str, b: &str) -> (r: bool)
    ensures
        r == (a@ == b@),
{
    let x: String = a.to_owned();
    let y: String = b.to_owned();
    x == y
}

} // verus!
