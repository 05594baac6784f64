//! Small string helpers backed by the standard library.

use vstd::prelude::*;

verus! {

/// Compares two string slices with `<str as PartialEq>::eq`.
///
/// The standard library documents string equality as equality of contents,
/// which is what the contract claims: the result is `true` exactly when the two
/// slices hold the same characters.
#[verifier::external_body]
pub(crate) fn str_eq(a: &str, b: &str) -> (equal: bool)
    ensures
        equal == (a@ == b@),
{
    a == b
}

} // verus!
