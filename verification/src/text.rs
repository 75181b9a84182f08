//! Case folding of text, as the standard library performs it.

use vstd::prelude::*;

verus! {

/// The lower-case form of a text under Unicode's default case mapping, as
/// `str::to_lowercase` of the standard library computes it. The mapping is a
/// table of the Unicode standard; it depends on the text alone.
pub uninterp spec fn lowercase_of(text: Seq<char>) -> Seq<char>;

/// Calls `str::to_lowercase`.
///
/// Trusted: the returned string is the lower-case form of `text`, which this
/// crate names [`lowercase_of`] and does not define.
#[verifier::external_body]
pub(crate) fn to_lowercase(text: &str) -> (lowered: String)
    ensures
        lowered@ == lowercase_of(text@),
{
    text.to_lowercase()
}

} // verus!
