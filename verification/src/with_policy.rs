//! Fluent application of a [`WidthPolicy`] to strings.
//!
//! [`WithPolicy`] wraps a policy so that it can be applied to many strings
//! without repeating it at every call; [`AppliedPolicy`] is the resulting
//! width-aware view of one string. Both are borrowed views: neither takes
//! ownership of the policy or the text.

use vstd::prelude::*;

use crate::grapheme::basic::graphemes;
use crate::grapheme::policy_ext::{
    display_width_with_policy, display_widths_with_policy, fit_count, grapheme_widths_with_policy,
    group_lines, split_by_width_with_policy, truncate_by_width_with_policy, wrap_groups,
};
use crate::grapheme::segmenter::grapheme_clusters;
use crate::policy::WidthPolicy;
use crate::width::{cluster_width, max_cluster_width, total_width};
use crate::{string_views, views_of};

verus! {

/// A [`WidthPolicy`] wrapped for fluent reuse across several strings.
pub struct WithPolicy<'a> {
    policy: &'a WidthPolicy,
}

/// A borrowed view of a string with an attached [`WidthPolicy`].
pub struct AppliedPolicy<'a, 's> {
    s: &'s str,
    policy: &'a WidthPolicy,
}

impl<'a> WithPolicy<'a> {
    /// The wrapped policy.
    pub closed spec fn policy_spec(&self) -> WidthPolicy {
        *self.policy
    }

    /// Wraps the given policy.
    pub fn new(policy: &'a WidthPolicy) -> (r: Self)
        ensures
            r.policy_spec() == *policy,
    {
        Self { policy }
    }

    /// Attaches the policy to a string, yielding a width-aware view.
    pub fn apply<'s>(&self, input: &'s str) -> (r: AppliedPolicy<'a, 's>)
        ensures
            r.policy_spec() == self.policy_spec(),
            r.text() == input@,
    {
        AppliedPolicy { s: input, policy: self.policy }
    }
}

impl<'a, 's> AppliedPolicy<'a, 's> {
    /// The attached policy.
    pub closed spec fn policy_spec(&self) -> WidthPolicy {
        *self.policy
    }

    /// The codepoints of the viewed string.
    pub closed spec fn text(&self) -> Seq<char> {
        self.s@
    }

    /// The grapheme clusters of the string, in order; their concatenation
    /// reconstructs the string exactly.
    pub fn grapheme_atoms(&self) -> (r: Vec<&'s str>)
        ensures
            views_of(r@) == grapheme_clusters(self.text()),
            grapheme_clusters(self.text()).flatten() == self.text(),
    {
        graphemes(self.s)
    }

    /// The total display width of the string under the attached policy.
    pub fn display_width(&self) -> (w: usize)
        requires
            self.text().len() * max_cluster_width(self.policy_spec()) <= usize::MAX,
        ensures
            w == total_width(grapheme_clusters(self.text()), self.policy_spec()),
    {
        display_width_with_policy(self.s, Some(self.policy))
    }

    /// The display width of each grapheme cluster, in order, under the
    /// attached policy.
    pub fn display_widths(&self) -> (r: Vec<usize>)
        ensures
            r@.len() == grapheme_clusters(self.text()).len(),
            forall|i: int|
                0 <= i < r@.len() ==> r@[i] == cluster_width(
                    grapheme_clusters(self.text())[i],
                    self.policy_spec(),
                ),
    {
        display_widths_with_policy(self.s, Some(self.policy))
    }

    /// Each grapheme cluster paired with its display width, in order,
    /// under the attached policy.
    pub fn widths_grapheme(&self) -> (r: Vec<(&'s str, usize)>)
        ensures
            r@.len() == grapheme_clusters(self.text()).len(),
            forall|i: int|
                0 <= i < r@.len() ==> (#[trigger] r@[i]).0@ == grapheme_clusters(self.text())[i]
                    && r@[i].1 == cluster_width(
                    grapheme_clusters(self.text())[i],
                    self.policy_spec(),
                ),
    {
        grapheme_widths_with_policy(self.s, Some(self.policy))
    }

    /// Truncates the string to at most `max_width` columns under the
    /// attached policy, never splitting a grapheme cluster.
    pub fn truncate_by_width(&self, max_width: usize) -> (r: &'s str)
        ensures
            r@ == grapheme_clusters(self.text()).take(
                fit_count(grapheme_clusters(self.text()), self.policy_spec(), max_width as int),
            ).flatten(),
            r@ == self.text().take(r@.len() as int),
            total_width(
                grapheme_clusters(self.text()).take(
                    fit_count(
                        grapheme_clusters(self.text()),
                        self.policy_spec(),
                        max_width as int,
                    ),
                ),
                self.policy_spec(),
            ) <= max_width,
    {
        truncate_by_width_with_policy(self.s, max_width, Some(self.policy))
    }

    /// Wraps the string into lines of at most `max_width` columns under
    /// the attached policy. Concatenating the lines reconstructs the
    /// string exactly.
    pub fn split_by_width(&self, max_width: usize) -> (r: Vec<String>)
        ensures
            string_views(r@) == group_lines(
                wrap_groups(grapheme_clusters(self.text()), self.policy_spec(), max_width as int),
            ),
            string_views(r@).flatten() == self.text(),
    {
        split_by_width_with_policy(self.s, max_width, Some(self.policy))
    }

    /// The viewed string itself.
    pub fn as_text(&self) -> (r: &'s str)
        ensures
            r@ == self.text(),
    {
        self.s
    }
}

} // verus!
