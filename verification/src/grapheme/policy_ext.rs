//! Policy-parameterized measurement and layout over grapheme clusters.
//!
//! Every function takes an optional [`WidthPolicy`]; passing `None` is
//! exactly the `terminal` preset. The default-policy API in
//! [`crate::grapheme::basic`] delegates here.

use vstd::prelude::*;

use crate::grapheme::segmenter::{grapheme_clusters, split_clusters};
use crate::policy::WidthPolicy;
use crate::rules::is_ascii_printable_char;
use crate::{string_views, views_of};
use crate::width::{
    cluster_width, get_display_width_with_policy, lemma_prefix_width_bound,
    lemma_total_width_ascii, lemma_total_width_push, lemma_total_width_take_succ,
    max_cluster_width, policy_of, total_width,
};

verus! {

/// Same as [`display_width`](crate::display_width), under the given
/// policy: the sum of the widths of the grapheme clusters of `s`.
///
/// A string of printable ASCII codepoints is always exactly as wide as it
/// is long, whatever the policy.
pub fn display_width_with_policy(s: &str, policy: Option<&WidthPolicy>) -> (w: usize)
    requires
        s@.len() * max_cluster_width(policy_of(policy)) <= usize::MAX,
    ensures
        w == total_width(grapheme_clusters(s@), policy_of(policy)),
        (forall|i: int| 0 <= i < s@.len() ==> is_ascii_printable_char(#[trigger] s@[i])) ==> w
            == s@.len(),
{
    let ghost p = policy_of(policy);
    let clusters = split_clusters(s);
    let ghost gs = grapheme_clusters(s@);
    let n = clusters.len();
    let mut total: usize = 0;
    let mut i: usize = 0;
    proof {
        assert(gs.take(0) =~= Seq::<Seq<char>>::empty());
        assert forall|j: int| 0 <= j < gs.len() implies (#[trigger] gs[j]).len() >= 1 by {
            assert(gs[j] == clusters@[j]@);
        }
    }
    while i < n
        invariant
            i <= n,
            n == gs.len(),
            views_of(clusters@) == gs,
            gs.flatten() == s@,
            forall|j: int| 0 <= j < gs.len() ==> (#[trigger] gs[j]).len() >= 1,
            s@.len() * max_cluster_width(p) <= usize::MAX,
            p == policy_of(policy),
            total == total_width(gs.take(i as int), p),
        decreases n - i,
    {
        let g = clusters[i];
        let w = get_display_width_with_policy(g, policy);
        proof {
            assert(g@ == gs[i as int]);
            lemma_total_width_take_succ(gs, i as int, p);
            lemma_prefix_width_bound(gs, i + 1, p);
            assert(total + w == total_width(gs.take(i + 1), p));
            vstd::arithmetic::mul::lemma_mul_is_commutative(s@.len() as int, max_cluster_width(p));
            assert(total_width(gs.take(i + 1), p) <= max_cluster_width(p) * s@.len());
            assert(total + w <= usize::MAX);
        }
        total = total + w;
        i = i + 1;
    }
    proof {
        assert(gs.take(n as int) =~= gs);
        if forall|j: int| 0 <= j < s@.len() ==> is_ascii_printable_char(#[trigger] s@[j]) {
            lemma_total_width_ascii(s@, p);
        }
    }
    total
}

/// How many leading clusters of `gs` greedy truncation keeps within
/// `budget` columns: clusters are taken left to right while they fit, and
/// the walk stops at the first cluster that would overflow.
pub open spec fn fit_count(gs: Seq<Seq<char>>, p: WidthPolicy, budget: int) -> int
    decreases gs.len(),
{
    if gs.len() == 0 {
        0
    } else if cluster_width(gs[0], p) > budget {
        0
    } else {
        1 + fit_count(gs.skip(1), p, budget - cluster_width(gs[0], p))
    }
}

/// The kept prefix is well-formed: its cluster count never exceeds the
/// cluster count of the sequence.
pub proof fn lemma_fit_count_range(gs: Seq<Seq<char>>, p: WidthPolicy, budget: int)
    ensures
        0 <= fit_count(gs, p, budget) <= gs.len(),
    decreases gs.len(),
{
    if gs.len() > 0 && !(cluster_width(gs[0], p) > budget) {
        lemma_fit_count_range(gs.skip(1), p, budget - cluster_width(gs[0], p));
    }
}

/// The clusters that greedy truncation keeps never exceed the budget.
pub proof fn lemma_fit_count_width(gs: Seq<Seq<char>>, p: WidthPolicy, budget: int)
    requires
        budget >= 0,
    ensures
        total_width(gs.take(fit_count(gs, p, budget)), p) <= budget,
    decreases gs.len(),
{
    let k = fit_count(gs, p, budget);
    lemma_fit_count_range(gs, p, budget);
    if gs.len() == 0 || cluster_width(gs[0], p) > budget {
        assert(gs.take(0) =~= Seq::<Seq<char>>::empty());
    } else {
        let w = cluster_width(gs[0], p);
        lemma_fit_count_width(gs.skip(1), p, budget - w);
        lemma_fit_count_range(gs.skip(1), p, budget - w);
        assert(gs.take(k)[0] == gs[0]);
        assert(gs.take(k).skip(1) =~= gs.skip(1).take(k - 1));
        assert(total_width(gs.take(k), p) == w + total_width(gs.skip(1).take(k - 1), p));
    }
}

/// Same as [`display_widths`](crate::display_widths), under the given
/// policy: the width of each grapheme cluster of `s`, in order.
pub fn display_widths_with_policy(s: &str, policy: Option<&WidthPolicy>) -> (r: Vec<usize>)
    ensures
        r@.len() == grapheme_clusters(s@).len(),
        forall|i: int|
            0 <= i < r@.len() ==> r@[i] == cluster_width(
                grapheme_clusters(s@)[i],
                policy_of(policy),
            ),
{
    let ghost p = policy_of(policy);
    let clusters = split_clusters(s);
    let ghost gs = grapheme_clusters(s@);
    let n = clusters.len();
    let mut r: Vec<usize> = Vec::new();
    let mut i: usize = 0;
    while i < n
        invariant
            i <= n,
            n == gs.len(),
            views_of(clusters@) == gs,
            p == policy_of(policy),
            r@.len() == i,
            forall|j: int| 0 <= j < i ==> r@[j] == cluster_width(gs[j], p),
        decreases n - i,
    {
        let g = clusters[i];
        let w = get_display_width_with_policy(g, policy);
        proof {
            assert(g@ == gs[i as int]);
        }
        r.push(w);
        i = i + 1;
    }
    r
}

/// Same as [`grapheme_widths`](crate::grapheme_widths), under the given
/// policy: each grapheme cluster of `s` paired with its width, in order.
pub fn grapheme_widths_with_policy<'s>(s: &'s str, policy: Option<&WidthPolicy>) -> (r: Vec<
    (&'s str, usize),
>)
    ensures
        r@.len() == grapheme_clusters(s@).len(),
        forall|i: int|
            0 <= i < r@.len() ==> (#[trigger] r@[i]).0@ == grapheme_clusters(s@)[i] && r@[i].1
                == cluster_width(grapheme_clusters(s@)[i], policy_of(policy)),
{
    let ghost p = policy_of(policy);
    let clusters = split_clusters(s);
    let ghost gs = grapheme_clusters(s@);
    let n = clusters.len();
    let mut r: Vec<(&'s str, usize)> = Vec::new();
    let mut i: usize = 0;
    while i < n
        invariant
            i <= n,
            n == gs.len(),
            views_of(clusters@) == gs,
            p == policy_of(policy),
            r@.len() == i,
            forall|j: int|
                0 <= j < i ==> (#[trigger] r@[j]).0@ == gs[j] && r@[j].1 == cluster_width(
                    gs[j],
                    p,
                ),
        decreases n - i,
    {
        let g = clusters[i];
        let w = get_display_width_with_policy(g, policy);
        proof {
            assert(g@ == gs[i as int]);
        }
        r.push((g, w));
        i = i + 1;
    }
    r
}

/// Same as [`truncate_by_width`](crate::truncate_by_width), under the
/// given policy: the longest prefix of whole grapheme clusters whose
/// total width stays within `max_width` columns.
///
/// The result is a prefix of `s` aligned on a cluster boundary — no
/// cluster is ever split — and its clusters' widths sum to at most
/// `max_width`. If already the first cluster overflows, the result is
/// empty.
pub fn truncate_by_width_with_policy<'s>(
    s: &'s str,
    max_width: usize,
    policy: Option<&WidthPolicy>,
) -> (r: &'s str)
    ensures
        r@ == grapheme_clusters(s@).take(
            fit_count(grapheme_clusters(s@), policy_of(policy), max_width as int),
        ).flatten(),
        r@ == s@.take(r@.len() as int),
        total_width(
            grapheme_clusters(s@).take(
                fit_count(grapheme_clusters(s@), policy_of(policy), max_width as int),
            ),
            policy_of(policy),
        ) <= max_width,
{
    let ghost p = policy_of(policy);
    let clusters = split_clusters(s);
    let ghost gs = grapheme_clusters(s@);
    let n = clusters.len();
    let slen = s.unicode_len();
    let mut i: usize = 0;
    let mut total: usize = 0;
    let mut end_chars: usize = 0;
    let mut scanning = true;
    proof {
        assert(gs.take(0) =~= Seq::<Seq<char>>::empty());
        assert(gs.skip(0) =~= gs);
        assert forall|j: int| 0 <= j < gs.len() implies (#[trigger] gs[j]).len() >= 1 by {
            assert(gs[j] == clusters@[j]@);
        }
    }
    while i < n && scanning
        invariant
            i <= n,
            n == gs.len(),
            views_of(clusters@) == gs,
            gs.flatten() == s@,
            forall|j: int| 0 <= j < gs.len() ==> (#[trigger] gs[j]).len() >= 1,
            p == policy_of(policy),
            slen == s@.len(),
            total == total_width(gs.take(i as int), p),
            total <= max_width,
            end_chars == gs.take(i as int).flatten().len(),
            scanning ==> fit_count(gs, p, max_width as int) == i + fit_count(
                gs.skip(i as int),
                p,
                max_width - total,
            ),
            !scanning ==> fit_count(gs, p, max_width as int) == i,
        decreases n - i, (if scanning {
            1int
        } else {
            0int
        }),
    {
        let g = clusters[i];
        let w = get_display_width_with_policy(g, policy);
        proof {
            assert(g@ == gs[i as int]);
            assert(gs.skip(i as int)[0] == gs[i as int]);
            assert(gs.skip(i as int).skip(1) =~= gs.skip(i + 1));
        }
        if w > max_width - total {
            scanning = false;
        } else {
            proof {
                lemma_total_width_take_succ(gs, i as int, p);
                assert(gs.take(i + 1) =~= gs.take(i as int).push(gs[i as int]));
                gs.take(i as int).lemma_flatten_push(gs[i as int]);
                lemma_prefix_width_bound(gs, i + 1, p);
                assert(end_chars + g@.len() == gs.take(i + 1).flatten().len());
                assert(end_chars + g@.len() <= s@.len() <= usize::MAX);
            }
            total = total + w;
            let glen = g.unicode_len();
            end_chars = end_chars + glen;
            i = i + 1;
        }
    }
    proof {
        if i == n && scanning {
            assert(gs.skip(n as int) =~= Seq::<Seq<char>>::empty());
        }
        assert(fit_count(gs, p, max_width as int) == i);
        assert(end_chars <= s@.len()) by {
            lemma_prefix_width_bound(gs, i as int, p);
        }
        lemma_fit_count_width(gs, p, max_width as int);
    }
    let r = s.substring_char(0, end_chars);
    proof {
        assert(gs =~= gs.take(i as int) + gs.skip(i as int));
        vstd::seq_lib::lemma_flatten_concat(gs.take(i as int), gs.skip(i as int));
        assert(r@ =~= gs.take(i as int).flatten());
        assert(r@ =~= s@.take(r@.len() as int));
    }
    r
}

/// The clusters of each wrapped line, joined back into one codepoint
/// sequence per line.
pub open spec fn group_lines(groups: Seq<Seq<Seq<char>>>) -> Seq<Seq<char>> {
    groups.map_values(|grp: Seq<Seq<char>>| grp.flatten())
}

/// Greedy wrapping of the clusters `gs` into lines of at most `limit`
/// columns, with the clusters `cur` already on the open line: a cluster
/// that would push a non-empty open line past `limit` closes that line
/// and starts a new one; a non-empty line still open at the end is
/// emitted last. The non-empty guard is what lets a single cluster wider
/// than `limit` stand alone on its own line instead of being dropped.
pub open spec fn wrap_rec(
    gs: Seq<Seq<char>>,
    p: WidthPolicy,
    limit: int,
    cur: Seq<Seq<char>>,
) -> Seq<Seq<Seq<char>>>
    decreases gs.len(),
{
    if gs.len() == 0 {
        if cur.len() > 0 {
            seq![cur]
        } else {
            Seq::<Seq<Seq<char>>>::empty()
        }
    } else {
        let w = cluster_width(gs[0], p);
        if total_width(cur, p) + w > limit && cur.len() > 0 {
            seq![cur] + wrap_rec(gs.skip(1), p, limit, seq![gs[0]])
        } else {
            wrap_rec(gs.skip(1), p, limit, cur.push(gs[0]))
        }
    }
}

/// Greedy wrapping of the clusters `gs` into lines of at most `limit`
/// columns, each line given as the group of clusters it holds.
pub open spec fn wrap_groups(gs: Seq<Seq<char>>, p: WidthPolicy, limit: int) -> Seq<
    Seq<Seq<char>>,
> {
    wrap_rec(gs, p, limit, Seq::<Seq<char>>::empty())
}

proof fn lemma_wrap_rec_reconstruct(gs: Seq<Seq<char>>, p: WidthPolicy, limit: int, cur: Seq<
    Seq<char>,
>)
    ensures
        group_lines(wrap_rec(gs, p, limit, cur)).flatten() == cur.flatten() + gs.flatten(),
    decreases gs.len(),
{
    if gs.len() == 0 {
        if cur.len() > 0 {
            assert(group_lines(seq![cur]) =~= seq![cur.flatten()]);
            seq![cur.flatten()].lemma_flatten_one_element();
        } else {
            assert(cur =~= Seq::<Seq<char>>::empty());
        }
        assert(group_lines(wrap_rec(gs, p, limit, cur)).flatten() =~= cur.flatten()
            + gs.flatten());
    } else {
        let w = cluster_width(gs[0], p);
        assert(gs.drop_first() =~= gs.skip(1));
        assert(gs.first() == gs[0]);
        if total_width(cur, p) + w > limit && cur.len() > 0 {
            let rest = wrap_rec(gs.skip(1), p, limit, seq![gs[0]]);
            lemma_wrap_rec_reconstruct(gs.skip(1), p, limit, seq![gs[0]]);
            assert(group_lines(seq![cur] + rest) =~= seq![cur.flatten()] + group_lines(rest));
            vstd::seq_lib::lemma_flatten_concat(seq![cur.flatten()], group_lines(rest));
            seq![cur.flatten()].lemma_flatten_one_element();
            seq![gs[0]].lemma_flatten_one_element();
            assert(group_lines(wrap_rec(gs, p, limit, cur)).flatten() =~= cur.flatten()
                + gs.flatten());
        } else {
            lemma_wrap_rec_reconstruct(gs.skip(1), p, limit, cur.push(gs[0]));
            cur.lemma_flatten_push(gs[0]);
            assert(group_lines(wrap_rec(gs, p, limit, cur)).flatten() =~= cur.flatten()
                + gs.flatten());
        }
    }
}

/// Same as [`split_by_width`](crate::split_by_width), under the given
/// policy: packs whole grapheme clusters greedily into consecutive lines
/// of at most `max_width` columns.
///
/// Concatenating the lines reconstructs `s` exactly; a line overflows the
/// limit only when it holds a single cluster that alone is wider than the
/// limit ([`lemma_split_line_fits`]); no line is ever blank
/// ([`lemma_split_lines_nonempty`]).
pub fn split_by_width_with_policy(s: &str, max_width: usize, policy: Option<&WidthPolicy>) -> (r:
    Vec<String>)
    ensures
        string_views(r@) == group_lines(
            wrap_groups(grapheme_clusters(s@), policy_of(policy), max_width as int),
        ),
        string_views(r@).flatten() == s@,
{
    let ghost p = policy_of(policy);
    let ghost limit = max_width as int;
    let clusters = split_clusters(s);
    let ghost gs = grapheme_clusters(s@);
    let n = clusters.len();
    let mut result: Vec<String> = Vec::new();
    let mut cur = String::new();
    let mut cur_width: usize = 0;
    let ghost mut cur_grp = Seq::<Seq<char>>::empty();
    let mut i: usize = 0;
    proof {
        assert(gs.skip(0) =~= gs);
        assert forall|j: int| 0 <= j < gs.len() implies (#[trigger] gs[j]).len() >= 1 by {
            assert(gs[j] == clusters@[j]@);
        }
        assert(string_views(result@) =~= Seq::<Seq<char>>::empty());
        assert(cur_grp.flatten() =~= Seq::<char>::empty());
        assert(group_lines(wrap_groups(gs, p, limit)) =~= string_views(result@) + group_lines(
            wrap_rec(gs, p, limit, cur_grp),
        ));
    }
    while i < n
        invariant
            i <= n,
            n == gs.len(),
            views_of(clusters@) == gs,
            forall|j: int| 0 <= j < gs.len() ==> (#[trigger] gs[j]).len() >= 1,
            p == policy_of(policy),
            limit == max_width as int,
            cur@ == cur_grp.flatten(),
            cur_width == total_width(cur_grp, p),
            cur_grp.len() >= 2 ==> cur_width <= max_width,
            forall|j: int| 0 <= j < cur_grp.len() ==> (#[trigger] cur_grp[j]).len() >= 1,
            (cur_grp.len() == 0) == (cur@.len() == 0),
            group_lines(wrap_groups(gs, p, limit)) == string_views(result@) + group_lines(
                wrap_rec(gs.skip(i as int), p, limit, cur_grp),
            ),
        decreases n - i,
    {
        let ghost cs = gs.skip(i as int);
        let ghost res0 = result@;
        let ghost grp0 = cur_grp;
        let g = clusters[i];
        let w = get_display_width_with_policy(g, policy);
        proof {
            assert(g@ == gs[i as int]);
            assert(cs[0] == gs[i as int]);
            assert(cs.skip(1) =~= gs.skip(i + 1));
        }
        let over = if cur_width > max_width {
            true
        } else {
            w > max_width - cur_width
        };
        let cur_empty = cur.as_str().is_empty();
        proof {
            assert(over == (total_width(grp0, p) + cluster_width(cs[0], p) > limit));
            assert(cur_empty == (grp0.len() == 0));
        }
        if over && !cur_empty {
            result.push(cur);
            cur = String::new();
            cur.append(g);
            cur_width = w;
            proof {
                cur_grp = seq![gs[i as int]];
                let rest = wrap_rec(gs.skip(i + 1), p, limit, cur_grp);
                assert(wrap_rec(cs, p, limit, grp0) == seq![grp0] + rest);
                cur_grp.lemma_flatten_one_element();
                assert(cur@ =~= cur_grp.flatten());
                assert(Seq::<Seq<char>>::empty().push(gs[i as int]) =~= cur_grp);
                lemma_total_width_push(Seq::<Seq<char>>::empty(), gs[i as int], p);
                assert(cur_width == total_width(cur_grp, p));
                assert(string_views(result@) =~= string_views(res0) + seq![grp0.flatten()]);
                assert(group_lines(seq![grp0] + rest) =~= seq![grp0.flatten()] + group_lines(
                    rest,
                ));
                assert(string_views(result@) + group_lines(rest) =~= string_views(res0)
                    + group_lines(wrap_rec(cs, p, limit, grp0)));
            }
        } else {
            proof {
                if grp0.len() == 0 {
                    assert(cur_width == 0);
                }
                assert(cur_width + w <= usize::MAX);
            }
            cur.append(g);
            cur_width = cur_width + w;
            proof {
                cur_grp = grp0.push(gs[i as int]);
                assert(wrap_rec(cs, p, limit, grp0) == wrap_rec(
                    gs.skip(i + 1),
                    p,
                    limit,
                    cur_grp,
                ));
                grp0.lemma_flatten_push(gs[i as int]);
                lemma_total_width_push(grp0, gs[i as int], p);
                assert(cur@ == cur_grp.flatten());
                assert(cur@.len() >= gs[i as int].len());
            }
        }
        i = i + 1;
    }
    proof {
        assert(gs.skip(n as int) =~= Seq::<Seq<char>>::empty());
    }
    let cur_empty = cur.as_str().is_empty();
    if !cur_empty {
        let ghost res0 = result@;
        result.push(cur);
        proof {
            assert(cur_grp.len() > 0);
            assert(wrap_rec(Seq::<Seq<char>>::empty(), p, limit, cur_grp) == seq![cur_grp]);
            assert(string_views(result@) =~= string_views(res0) + seq![cur_grp.flatten()]);
            assert(group_lines(seq![cur_grp]) =~= seq![cur_grp.flatten()]);
            assert(string_views(result@) =~= group_lines(wrap_groups(gs, p, limit)));
        }
    } else {
        proof {
            assert(cur_grp.len() == 0);
            assert(wrap_rec(Seq::<Seq<char>>::empty(), p, limit, cur_grp)
                =~= Seq::<Seq<Seq<char>>>::empty());
            assert(group_lines(Seq::<Seq<Seq<char>>>::empty()) =~= Seq::<Seq<char>>::empty());
            assert(string_views(result@) =~= group_lines(wrap_groups(gs, p, limit)));
        }
    }
    proof {
        lemma_split_reconstructs(gs, p, limit);
        assert(gs.flatten() == s@);
    }
    result
}

/// Concatenating the wrapped lines reconstructs the clusters exactly.
pub proof fn lemma_split_reconstructs(gs: Seq<Seq<char>>, p: WidthPolicy, limit: int)
    ensures
        group_lines(wrap_groups(gs, p, limit)).flatten() == gs.flatten(),
{
    lemma_wrap_rec_reconstruct(gs, p, limit, Seq::<Seq<char>>::empty());
    assert(Seq::<char>::empty() + gs.flatten() =~= gs.flatten());
}

proof fn lemma_wrap_rec_line_fits(gs: Seq<Seq<char>>, p: WidthPolicy, limit: int, cur: Seq<
    Seq<char>,
>)
    requires
        cur.len() >= 2 ==> total_width(cur, p) <= limit,
    ensures
        forall|k: int|
            0 <= k < wrap_rec(gs, p, limit, cur).len() ==> ((#[trigger] wrap_rec(
                gs,
                p,
                limit,
                cur,
            )[k]).len() == 1 || total_width(wrap_rec(gs, p, limit, cur)[k], p) <= limit),
    decreases gs.len(),
{
    let res = wrap_rec(gs, p, limit, cur);
    if gs.len() == 0 {
        if cur.len() > 0 {
            assert(res == seq![cur]);
            assert(res[0] == cur);
        }
    } else {
        let w = cluster_width(gs[0], p);
        if total_width(cur, p) + w > limit && cur.len() > 0 {
            let rest = wrap_rec(gs.skip(1), p, limit, seq![gs[0]]);
            lemma_wrap_rec_line_fits(gs.skip(1), p, limit, seq![gs[0]]);
            assert(res == seq![cur] + rest);
            assert forall|k: int|
                0 <= k < res.len() implies ((#[trigger] res[k]).len() == 1 || total_width(
                res[k],
                p,
            ) <= limit) by {
                if k == 0 {
                    assert(res[k] == cur);
                } else {
                    assert(res[k] == rest[k - 1]);
                }
            }
        } else {
            lemma_total_width_push(cur, gs[0], p);
            lemma_wrap_rec_line_fits(gs.skip(1), p, limit, cur.push(gs[0]));
            assert(res == wrap_rec(gs.skip(1), p, limit, cur.push(gs[0])));
        }
    }
}

/// Every wrapped line keeps within the limit, except that a line holding
/// exactly one cluster may overflow when that cluster alone is wider than
/// the limit.
pub proof fn lemma_split_line_fits(gs: Seq<Seq<char>>, p: WidthPolicy, limit: int)
    ensures
        forall|k: int|
            0 <= k < wrap_groups(gs, p, limit).len() ==> ((#[trigger] wrap_groups(
                gs,
                p,
                limit,
            )[k]).len() == 1 || total_width(wrap_groups(gs, p, limit)[k], p) <= limit),
{
    lemma_wrap_rec_line_fits(gs, p, limit, Seq::<Seq<char>>::empty());
}

proof fn lemma_wrap_rec_lines_nonempty(gs: Seq<Seq<char>>, p: WidthPolicy, limit: int, cur: Seq<
    Seq<char>,
>)
    requires
        forall|j: int| 0 <= j < gs.len() ==> (#[trigger] gs[j]).len() >= 1,
        forall|j: int| 0 <= j < cur.len() ==> (#[trigger] cur[j]).len() >= 1,
    ensures
        forall|k: int|
            0 <= k < wrap_rec(gs, p, limit, cur).len() ==> (#[trigger] wrap_rec(
                gs,
                p,
                limit,
                cur,
            )[k]).len() >= 1 && wrap_rec(gs, p, limit, cur)[k].flatten().len() >= 1,
    decreases gs.len(),
{
    let res = wrap_rec(gs, p, limit, cur);
    if gs.len() == 0 {
        if cur.len() > 0 {
            assert(cur.flatten() == cur.first() + cur.drop_first().flatten());
            assert(cur.flatten().len() >= 1);
            assert(res == seq![cur]);
            assert(res[0] == cur);
        }
    } else {
        let w = cluster_width(gs[0], p);
        assert(forall|j: int|
            0 <= j < gs.skip(1).len() ==> (#[trigger] gs.skip(1)[j]).len() >= 1);
        if total_width(cur, p) + w > limit && cur.len() > 0 {
            assert(cur.flatten() == cur.first() + cur.drop_first().flatten());
            assert(cur.flatten().len() >= 1);
            let rest = wrap_rec(gs.skip(1), p, limit, seq![gs[0]]);
            lemma_wrap_rec_lines_nonempty(gs.skip(1), p, limit, seq![gs[0]]);
            assert(res == seq![cur] + rest);
            assert forall|k: int|
                0 <= k < res.len() implies (#[trigger] res[k]).len() >= 1
                && res[k].flatten().len() >= 1 by {
                if k == 0 {
                    assert(res[k] == cur);
                } else {
                    assert(res[k] == rest[k - 1]);
                }
            }
        } else {
            lemma_wrap_rec_lines_nonempty(gs.skip(1), p, limit, cur.push(gs[0]));
            assert(res == wrap_rec(gs.skip(1), p, limit, cur.push(gs[0])));
        }
    }
}

/// No wrapped line is blank: every emitted line holds at least one
/// cluster, and at least one codepoint, provided every cluster is
/// nonempty.
pub proof fn lemma_split_lines_nonempty(gs: Seq<Seq<char>>, p: WidthPolicy, limit: int)
    requires
        forall|j: int| 0 <= j < gs.len() ==> (#[trigger] gs[j]).len() >= 1,
    ensures
        forall|k: int|
            0 <= k < wrap_groups(gs, p, limit).len() ==> (#[trigger] wrap_groups(
                gs,
                p,
                limit,
            )[k]).len() >= 1 && wrap_groups(gs, p, limit)[k].flatten().len() >= 1,
{
    lemma_wrap_rec_lines_nonempty(gs, p, limit, Seq::<Seq<char>>::empty());
}

} // verus!
