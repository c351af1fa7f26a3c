//! Width resolution for grapheme clusters.
//!
//! [`cluster_width`] is the specification of the resolver: an ordered rule
//! chain deciding how many columns one grapheme cluster occupies under a
//! [`WidthPolicy`]. The order is load-bearing: control and ASCII first (fixed
//! widths that no policy touches), then the single-codepoint category sets,
//! and the emoji set last, because only the emoji set holds multi-codepoint
//! members and because it holds ambiguous symbols that an earlier, more
//! specific rule should win over.
//!
//! [`total_width`] sums the resolver over a sequence of clusters; the layout
//! operations state their contracts with it.

use vstd::arithmetic::mul::*;
use vstd::prelude::*;

use crate::policy::{terminal_spec, WidthPolicy};
use crate::rules::{
    ascii_char, cjk_char, control_char, emoji_char, hangul_char, in_emoji_set, in_punct_set,
    in_variant_set, is_ascii_char, is_ascii_printable_char, is_cjk_char, is_control_char, is_emoji,
    is_emoji_char, is_hangul_char, is_kana_char, is_punct_char, is_variant_char, is_zwj_emoji_seq,
    kana_char, punct_char, variant_char,
};

verus! {

/// The width of one grapheme cluster under a policy, by the ordered rules:
/// a lone control codepoint is 0 columns; a lone ASCII codepoint is 1; a
/// lone CJK, kana or Hangul codepoint takes `cjk` columns; a lone
/// fullwidth variant or punctuation codepoint takes `variant`; a member of
/// the emoji set (any codepoint count) takes `emoji`; everything else takes
/// `fallback`.
pub open spec fn cluster_width(g: Seq<char>, p: WidthPolicy) -> usize {
    if g.len() == 1 && is_control_char(g[0]) {
        0
    } else if g.len() == 1 && is_ascii_char(g[0]) {
        1
    } else if g.len() == 1 && (is_cjk_char(g[0]) || is_kana_char(g[0]) || is_hangul_char(g[0])) {
        p.cjk
    } else if g.len() == 1 && (is_variant_char(g[0]) || is_punct_char(g[0])) {
        p.variant
    } else if in_emoji_set(g) {
        p.emoji
    } else {
        p.fallback
    }
}

/// The policy that an optional argument denotes: the given one, or the
/// `terminal` preset when none is given.
pub open spec fn policy_of(p: Option<&WidthPolicy>) -> WidthPolicy {
    match p {
        Some(q) => *q,
        None => terminal_spec(),
    }
}

/// The sum of the widths of a sequence of clusters under a policy.
pub open spec fn total_width(gs: Seq<Seq<char>>, p: WidthPolicy) -> int
    decreases gs.len(),
{
    if gs.len() == 0 {
        0
    } else {
        cluster_width(gs[0], p) + total_width(gs.skip(1), p)
    }
}

/// The larger of two integers.
pub open spec fn wmax(a: int, b: int) -> int {
    if a >= b {
        a
    } else {
        b
    }
}

/// An upper bound on the width of any single cluster under `p`.
pub open spec fn max_cluster_width(p: WidthPolicy) -> int {
    wmax(1, wmax(p.emoji as int, wmax(p.cjk as int, wmax(p.variant as int, p.fallback as int))))
}

/// No cluster is wider than [`max_cluster_width`].
pub(crate) proof fn lemma_cluster_width_le_max(g: Seq<char>, p: WidthPolicy)
    ensures
        cluster_width(g, p) <= max_cluster_width(p),
{
}

/// Total width is never negative.
pub(crate) proof fn lemma_total_width_nonneg(gs: Seq<Seq<char>>, p: WidthPolicy)
    ensures
        total_width(gs, p) >= 0,
    decreases gs.len(),
{
    if gs.len() > 0 {
        lemma_total_width_nonneg(gs.skip(1), p);
    }
}

/// Appending one cluster adds exactly its width to the total.
pub(crate) proof fn lemma_total_width_push(gs: Seq<Seq<char>>, g: Seq<char>, p: WidthPolicy)
    ensures
        total_width(gs.push(g), p) == total_width(gs, p) + cluster_width(g, p),
    decreases gs.len(),
{
    if gs.len() == 0 {
        assert(gs.push(g)[0] == g);
        assert(gs.push(g).skip(1) =~= Seq::<Seq<char>>::empty());
        assert(total_width(gs.push(g).skip(1), p) == 0);
        assert(total_width(gs.push(g), p) == cluster_width(g, p) + total_width(
            gs.push(g).skip(1),
            p,
        ));
        assert(total_width(gs, p) == 0);
    } else {
        assert(gs.push(g)[0] == gs[0]);
        assert(gs.push(g).skip(1) =~= gs.skip(1).push(g));
        lemma_total_width_push(gs.skip(1), g, p);
    }
}

/// When every cluster is nonempty, the total width is at most the number
/// of underlying codepoints times the per-cluster bound.
pub(crate) proof fn lemma_total_width_le_chars(gs: Seq<Seq<char>>, p: WidthPolicy)
    requires
        forall|i: int| 0 <= i < gs.len() ==> (#[trigger] gs[i]).len() >= 1,
    ensures
        total_width(gs, p) <= max_cluster_width(p) * gs.flatten().len(),
    decreases gs.len(),
{
    let m = max_cluster_width(p);
    if gs.len() == 0 {
    } else {
        let rest = gs.skip(1);
        assert(forall|i: int| 0 <= i < rest.len() ==> (#[trigger] rest[i]).len() >= 1);
        lemma_total_width_le_chars(rest, p);
        assert(gs.flatten() == gs[0] + rest.flatten());
        lemma_cluster_width_le_max(gs[0], p);
        assert(gs[0].len() >= 1);
        lemma_mul_inequality(1, gs[0].len() as int, m);
        lemma_mul_is_distributive_add(m, gs[0].len() as int, rest.flatten().len() as int);
    }
}

/// Extending a prefix by its next cluster adds exactly that cluster's
/// width.
pub(crate) proof fn lemma_total_width_take_succ(gs: Seq<Seq<char>>, i: int, p: WidthPolicy)
    requires
        0 <= i < gs.len(),
    ensures
        total_width(gs.take(i + 1), p) == total_width(gs.take(i), p) + cluster_width(gs[i], p),
{
    assert(gs.take(i + 1) =~= gs.take(i).push(gs[i]));
    lemma_total_width_push(gs.take(i), gs[i], p);
}

/// The width of any prefix of a nonempty-cluster sequence is bounded by
/// the number of underlying codepoints times the per-cluster bound.
pub(crate) proof fn lemma_prefix_width_bound(gs: Seq<Seq<char>>, k: int, p: WidthPolicy)
    requires
        0 <= k <= gs.len(),
        forall|j: int| 0 <= j < gs.len() ==> (#[trigger] gs[j]).len() >= 1,
    ensures
        0 <= total_width(gs.take(k), p),
        total_width(gs.take(k), p) <= max_cluster_width(p) * gs.flatten().len(),
        gs.take(k).flatten().len() <= gs.flatten().len(),
    decreases gs.len(),
{
    let pre = gs.take(k);
    assert(forall|j: int| 0 <= j < pre.len() ==> (#[trigger] pre[j]).len() >= 1);
    lemma_total_width_nonneg(pre, p);
    lemma_total_width_le_chars(pre, p);
    assert(gs =~= gs.take(k) + gs.skip(k));
    vstd::seq_lib::lemma_flatten_concat(gs.take(k), gs.skip(k));
    lemma_mul_inequality(pre.flatten().len() as int, gs.flatten().len() as int,
        max_cluster_width(p));
    lemma_mul_is_commutative(pre.flatten().len() as int, max_cluster_width(p));
    lemma_mul_is_commutative(gs.flatten().len() as int, max_cluster_width(p));
}

/// A sequence of printable-ASCII singleton clusters has total width equal
/// to its codepoint count, whatever the policy.
pub(crate) proof fn lemma_total_width_ascii(s: Seq<char>, p: WidthPolicy)
    requires
        forall|i: int| 0 <= i < s.len() ==> is_ascii_printable_char(#[trigger] s[i]),
    ensures
        total_width(crate::singleton_clusters(s), p) == s.len(),
    decreases s.len(),
{
    let gs = crate::singleton_clusters(s);
    if s.len() == 0 {
    } else {
        assert(gs[0] == seq![s[0]]);
        assert(is_ascii_printable_char(s[0]));
        assert(cluster_width(seq![s[0]], p) == 1);
        assert(gs.skip(1) =~= crate::singleton_clusters(s.skip(1)));
        lemma_total_width_ascii(s.skip(1), p);
    }
}

/// Policy sensitivity for emoji: any single-codepoint emoji resolves to
/// 2 columns under the `terminal` preset and to 1 under `markdown` and
/// `compact`.
pub proof fn lemma_policy_sensitivity_emoji(c: char)
    requires
        is_emoji_char(c),
    ensures
        cluster_width(seq![c], crate::policy::terminal_spec()) == 2,
        cluster_width(seq![c], crate::policy::markdown_spec()) == 1,
        cluster_width(seq![c], crate::policy::compact_spec()) == 1,
{
    crate::rules::lemma_emoji_char_unclaimed(c);
    assert(is_zwj_emoji_seq(seq![c]));
}

/// Policy sensitivity for CJK ideographs: any CJK codepoint resolves to
/// 2 columns under the `terminal` and `markdown` presets and to 1 under
/// `compact`.
pub proof fn lemma_policy_sensitivity_cjk(c: char)
    requires
        is_cjk_char(c),
    ensures
        cluster_width(seq![c], crate::policy::terminal_spec()) == 2,
        cluster_width(seq![c], crate::policy::markdown_spec()) == 2,
        cluster_width(seq![c], crate::policy::compact_spec()) == 1,
{
    crate::rules::lemma_single_codepoint_categories_disjoint(c);
}

impl WidthPolicy {
    /// Resolves the display width of one grapheme cluster under this
    /// policy, following the ordered rules of [`cluster_width`].
    pub fn resolve_width(&self, s: &str) -> (w: usize)
        ensures
            w == cluster_width(s@, *self),
    {
        let n = s.unicode_len();
        if n == 1 {
            let c = s.get_char(0);
            if control_char(c) {
                return 0;
            }
            if ascii_char(c) {
                return 1;
            }
            if cjk_char(c) || kana_char(c) || hangul_char(c) {
                return self.cjk;
            }
            if variant_char(c) || punct_char(c) {
                return self.variant;
            }
        }
        if is_emoji(s) {
            return self.emoji;
        }
        self.fallback
    }
}

/// The width of a single codepoint treated as a one-codepoint cluster.
pub(crate) fn char_width(c: char, p: &WidthPolicy) -> (w: usize)
    ensures
        w == cluster_width(seq![c], *p),
{
    proof {
        assert(seq![c].len() == 1);
        assert(seq![c][0] == c);
        assert(is_zwj_emoji_seq(seq![c]) == is_emoji_char(c));
    }
    if control_char(c) {
        return 0;
    }
    if ascii_char(c) {
        return 1;
    }
    if cjk_char(c) || kana_char(c) || hangul_char(c) {
        return p.cjk;
    }
    if variant_char(c) || punct_char(c) {
        return p.variant;
    }
    if emoji_char(c) {
        return p.emoji;
    }
    p.fallback
}

/// The display width of one grapheme cluster under the default
/// (`terminal`) policy.
pub(crate) fn get_display_width(s: &str) -> (w: usize)
    ensures
        w == cluster_width(s@, terminal_spec()),
{
    let p = WidthPolicy::terminal();
    p.resolve_width(s)
}

/// The display width of one grapheme cluster under the given policy, or
/// under the `terminal` preset when none is given.
pub fn get_display_width_with_policy(s: &str, policy: Option<&WidthPolicy>) -> (w: usize)
    ensures
        w == cluster_width(s@, policy_of(policy)),
{
    match policy {
        Some(p) => p.resolve_width(s),
        None => {
            let p = WidthPolicy::terminal();
            p.resolve_width(s)
        },
    }
}

} // verus!
