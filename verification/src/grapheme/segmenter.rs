//! The consumed grapheme-segmentation capability.
//!
//! Splitting a string into extended grapheme clusters (UAX #29) is not
//! reimplemented here: it is taken from the `unicode-segmentation` crate
//! through the one trusted wrapper below. Everything the rest of the crate
//! knows about cluster boundaries is stated in that wrapper's contract.

use unicode_segmentation::UnicodeSegmentation;
use vstd::prelude::*;

use crate::rules::is_ascii_printable_char;
use crate::{singleton_clusters, views_of};

verus! {

/// The extended grapheme clusters of a codepoint sequence, in order, as
/// UAX #29 defines them.
pub uninterp spec fn grapheme_clusters(s: Seq<char>) -> Seq<Seq<char>>;

/// Relies on `unicode_segmentation::UnicodeSegmentation::graphemes` with
/// `is_extended = true`: the iterator yields the extended grapheme
/// clusters of the string, in order; the clusters are nonempty substrings
/// that cover the string with no gaps and no overlaps, so their
/// concatenation is the string itself. A string of printable ASCII
/// codepoints splits into one cluster per codepoint, since no UAX #29
/// rule joins two printable ASCII codepoints.
#[verifier::external_body]
pub(crate) fn split_clusters<'s>(s: &'s str) -> (r: Vec<&'s str>)
    ensures
        views_of(r@) == grapheme_clusters(s@),
        views_of(r@).flatten() == s@,
        forall|i: int| 0 <= i < r@.len() ==> (#[trigger] r@[i])@.len() >= 1,
        (forall|i: int| 0 <= i < s@.len() ==> is_ascii_printable_char(#[trigger] s@[i]))
            ==> views_of(r@) == singleton_clusters(s@),
{
    UnicodeSegmentation::graphemes(s, true).collect()
}

} // verus!
