//! Default-policy measurement and layout over grapheme clusters.
//!
//! These are the everyday entry points; each behaves exactly as its
//! policy-parameterized counterpart called with no policy, that is, under
//! the `terminal` preset.

use vstd::prelude::*;

use crate::grapheme::policy_ext::{
    display_width_with_policy, display_widths_with_policy, fit_count, grapheme_widths_with_policy,
    group_lines, split_by_width_with_policy, truncate_by_width_with_policy, wrap_groups,
};
use crate::grapheme::segmenter::{grapheme_clusters, split_clusters};
use crate::policy::terminal_spec;
use crate::rules::is_ascii_printable_char;
use crate::width::{cluster_width, max_cluster_width, total_width};
use crate::{string_views, views_of};

verus! {

/// Splits a string into its extended grapheme clusters (UAX #29), in
/// order. Concatenating the clusters reconstructs the string exactly.
pub fn graphemes<'s>(s: &'s str) -> (r: Vec<&'s str>)
    ensures
        views_of(r@) == grapheme_clusters(s@),
        grapheme_clusters(s@).flatten() == s@,
{
    split_clusters(s)
}

/// The total display width of a string in columns under the default
/// (`terminal`) policy: the sum of the widths of its grapheme clusters.
///
/// A string of printable ASCII codepoints is exactly as wide as it is
/// long.
pub fn display_width(s: &str) -> (w: usize)
    requires
        s@.len() * max_cluster_width(terminal_spec()) <= usize::MAX,
    ensures
        w == total_width(grapheme_clusters(s@), terminal_spec()),
        (forall|i: int| 0 <= i < s@.len() ==> is_ascii_printable_char(#[trigger] s@[i])) ==> w
            == s@.len(),
{
    display_width_with_policy(s, None)
}

/// The display width of each grapheme cluster of a string, in order,
/// under the default (`terminal`) policy.
pub fn display_widths(s: &str) -> (r: Vec<usize>)
    ensures
        r@.len() == grapheme_clusters(s@).len(),
        forall|i: int|
            0 <= i < r@.len() ==> r@[i] == cluster_width(grapheme_clusters(s@)[i], terminal_spec()),
{
    display_widths_with_policy(s, None)
}

/// Each grapheme cluster of a string paired with its display width, in
/// order, under the default (`terminal`) policy.
pub fn grapheme_widths<'s>(s: &'s str) -> (r: Vec<(&'s str, usize)>)
    ensures
        r@.len() == grapheme_clusters(s@).len(),
        forall|i: int|
            0 <= i < r@.len() ==> (#[trigger] r@[i]).0@ == grapheme_clusters(s@)[i] && r@[i].1
                == cluster_width(grapheme_clusters(s@)[i], terminal_spec()),
{
    grapheme_widths_with_policy(s, None)
}

/// Truncates a string to at most `max_width` columns under the default
/// (`terminal`) policy, never splitting a grapheme cluster: the result is
/// the longest prefix of whole clusters whose widths sum to at most
/// `max_width`.
pub fn truncate_by_width<'s>(s: &'s str, max_width: usize) -> (r: &'s str)
    ensures
        r@ == grapheme_clusters(s@).take(
            fit_count(grapheme_clusters(s@), terminal_spec(), max_width as int),
        ).flatten(),
        r@ == s@.take(r@.len() as int),
        total_width(
            grapheme_clusters(s@).take(
                fit_count(grapheme_clusters(s@), terminal_spec(), max_width as int),
            ),
            terminal_spec(),
        ) <= max_width,
{
    truncate_by_width_with_policy(s, max_width, None)
}

/// Wraps a string into lines of at most `max_width` columns under the
/// default (`terminal`) policy, packing whole grapheme clusters greedily.
/// Concatenating the lines reconstructs the string exactly.
pub fn split_by_width(s: &str, max_width: usize) -> (r: Vec<String>)
    ensures
        string_views(r@) == group_lines(
            wrap_groups(grapheme_clusters(s@), terminal_spec(), max_width as int),
        ),
        string_views(r@).flatten() == s@,
{
    split_by_width_with_policy(s, max_width, None)
}

} // verus!
