//! Glyph indices of the code page 437 font that the terminal draws with.

use vstd::prelude::*;

verus! {

/// The glyph index that `bracket_lib`'s `to_cp437` assigns to a character.
///
/// The assignment is a fixed table of a few hundred entries inside
/// `bracket_lib`; it is named here rather than restated.
pub uninterp spec fn cp437(c: char) -> u16;

/// Calls `bracket_lib::prelude::to_cp437`.
///
/// Trusted: the result is the table entry for `c`, which depends on `c`
/// alone. The outside function is a single `match` and cannot fail.
#[verifier::external_body]
pub(crate) fn to_cp437(c: char) -> (glyph: u16)
    ensures
        glyph == cp437(c),
{
    bracket_lib::prelude::to_cp437(c)
}

} // verus!
