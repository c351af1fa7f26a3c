//! Classification sets for the width categories.
//!
//! Each category (CJK ideographs, kana, Hangul syllables, fullwidth symbol
//! variants, fullwidth punctuation, emoji) is an immutable set of grapheme
//! strings; membership is an exact match of the whole grapheme against the
//! set. The single-codepoint sets are curated as codepoint blocks; the emoji
//! set additionally holds multi-codepoint members: variation-selector and
//! skin-tone qualified forms, ZWJ-joined sequences of such elements, and
//! regional-indicator flag pairs.
//!
//! The single-codepoint categories are pairwise disjoint. The emoji set
//! deliberately overlaps with nothing checked earlier by the resolver except
//! a few ambiguous text symbols (copyright, registered, trade mark), which
//! resolve as emoji only because no earlier rule claims them.

use vstd::prelude::*;

verus! {

/// A Unicode control character (general category Cc).
pub open spec fn is_control_char(c: char) -> bool {
    (c as u32) < 0x20 || (0x7F <= (c as u32) && (c as u32) <= 0x9F)
}

/// An ASCII codepoint, U+0000 through U+007F.
pub open spec fn is_ascii_char(c: char) -> bool {
    (c as u32) <= 0x7F
}

/// A printable ASCII codepoint, U+0020 through U+007E.
pub open spec fn is_ascii_printable_char(c: char) -> bool {
    0x20 <= (c as u32) && (c as u32) <= 0x7E
}

/// A CJK Unified Ideograph: the main block, Extension A, or Extension B.
pub open spec fn is_cjk_char(c: char) -> bool {
    let u = c as u32;
    ||| (0x4E00 <= u && u <= 0x9FFF)
    ||| (0x3400 <= u && u <= 0x4DBF)
    ||| (0x20000 <= u && u <= 0x2A6DF)
}

/// Japanese kana: the Hiragana and Katakana blocks.
pub open spec fn is_kana_char(c: char) -> bool {
    let u = c as u32;
    0x3040 <= u && u <= 0x30FF
}

/// A precomposed Hangul syllable.
pub open spec fn is_hangul_char(c: char) -> bool {
    let u = c as u32;
    0xAC00 <= u && u <= 0xD7A3
}

/// A fullwidth variant of an ASCII letter, digit or symbol, or one of the
/// fullwidth currency and sign forms.
pub open spec fn is_variant_char(c: char) -> bool {
    let u = c as u32;
    ||| (0xFF01 <= u && u <= 0xFF5E)
    ||| (0xFFE0 <= u && u <= 0xFFE6)
}

/// East Asian punctuation from the CJK Symbols and Punctuation block.
pub open spec fn is_punct_char(c: char) -> bool {
    let u = c as u32;
    0x3000 <= u && u <= 0x303F
}

/// A single codepoint of the curated emoji data: the pictographic blocks,
/// regional indicators, and a few ambiguous text symbols (copyright,
/// registered, trade mark) that the data resolves as emoji on exact match.
pub open spec fn is_emoji_char(c: char) -> bool {
    let u = c as u32;
    ||| u == 0xA9
    ||| u == 0xAE
    ||| u == 0x2122
    ||| (0x2600 <= u && u <= 0x27BF)
    ||| (0x1F1E6 <= u && u <= 0x1F1FF)
    ||| (0x1F300 <= u && u <= 0x1F5FF)
    ||| (0x1F600 <= u && u <= 0x1F64F)
    ||| (0x1F680 <= u && u <= 0x1F6FF)
    ||| (0x1F900 <= u && u <= 0x1F9FF)
    ||| (0x1FA70 <= u && u <= 0x1FAFF)
}

/// A skin-tone modifier, U+1F3FB through U+1F3FF.
pub open spec fn is_emoji_modifier_char(c: char) -> bool {
    let u = c as u32;
    0x1F3FB <= u && u <= 0x1F3FF
}

/// A regional-indicator symbol, U+1F1E6 through U+1F1FF.
pub open spec fn is_regional_indicator_char(c: char) -> bool {
    let u = c as u32;
    0x1F1E6 <= u && u <= 0x1F1FF
}

/// A ZWJ emoji sequence: one emoji codepoint, optionally qualified by a
/// variation selector (U+FE0F) or a skin-tone modifier, then either nothing
/// or a zero-width joiner (U+200D) followed by another such sequence.
/// A sequence of one bare element covers the single-codepoint emoji.
pub open spec fn is_zwj_emoji_seq(g: Seq<char>) -> bool
    decreases g.len(),
{
    if g.len() == 0 {
        false
    } else if !is_emoji_char(g[0]) {
        false
    } else {
        let k: int = if g.len() >= 2 && (g[1] == '\u{FE0F}' || is_emoji_modifier_char(g[1])) {
            2
        } else {
            1
        };
        if g.len() == k {
            true
        } else if g.len() >= k + 2 && g[k] == '\u{200D}' {
            is_zwj_emoji_seq(g.skip(k + 1))
        } else {
            false
        }
    }
}

/// Membership in the CJK classification set.
pub open spec fn in_cjk_set(g: Seq<char>) -> bool {
    g.len() == 1 && is_cjk_char(g[0])
}

/// Membership in the kana classification set.
pub open spec fn in_kana_set(g: Seq<char>) -> bool {
    g.len() == 1 && is_kana_char(g[0])
}

/// Membership in the Hangul classification set.
pub open spec fn in_hangul_set(g: Seq<char>) -> bool {
    g.len() == 1 && is_hangul_char(g[0])
}

/// Membership in the fullwidth-variant classification set.
pub open spec fn in_variant_set(g: Seq<char>) -> bool {
    g.len() == 1 && is_variant_char(g[0])
}

/// Membership in the fullwidth-punctuation classification set.
pub open spec fn in_punct_set(g: Seq<char>) -> bool {
    g.len() == 1 && is_punct_char(g[0])
}

/// Membership in the emoji classification set: a ZWJ emoji sequence
/// (including bare and qualified single emoji) or a regional-indicator
/// flag pair.
pub open spec fn in_emoji_set(g: Seq<char>) -> bool {
    ||| is_zwj_emoji_seq(g)
    ||| (g.len() == 2 && is_regional_indicator_char(g[0]) && is_regional_indicator_char(g[1]))
}

/// Decides [`is_control_char`].
pub(crate) fn control_char(c: char) -> (b: bool)
    ensures
        b == is_control_char(c),
{
    let u = c as u32;
    u < 0x20 || (0x7F <= u && u <= 0x9F)
}

/// Decides [`is_ascii_char`].
pub(crate) fn ascii_char(c: char) -> (b: bool)
    ensures
        b == is_ascii_char(c),
{
    (c as u32) <= 0x7F
}

/// Decides [`is_cjk_char`].
pub(crate) fn cjk_char(c: char) -> (b: bool)
    ensures
        b == is_cjk_char(c),
{
    let u = c as u32;
    (0x4E00 <= u && u <= 0x9FFF) || (0x3400 <= u && u <= 0x4DBF) || (0x20000 <= u && u <= 0x2A6DF)
}

/// Decides [`is_kana_char`].
pub(crate) fn kana_char(c: char) -> (b: bool)
    ensures
        b == is_kana_char(c),
{
    let u = c as u32;
    0x3040 <= u && u <= 0x30FF
}

/// Decides [`is_hangul_char`].
pub(crate) fn hangul_char(c: char) -> (b: bool)
    ensures
        b == is_hangul_char(c),
{
    let u = c as u32;
    0xAC00 <= u && u <= 0xD7A3
}

/// Decides [`is_variant_char`].
pub(crate) fn variant_char(c: char) -> (b: bool)
    ensures
        b == is_variant_char(c),
{
    let u = c as u32;
    (0xFF01 <= u && u <= 0xFF5E) || (0xFFE0 <= u && u <= 0xFFE6)
}

/// Decides [`is_punct_char`].
pub(crate) fn punct_char(c: char) -> (b: bool)
    ensures
        b == is_punct_char(c),
{
    let u = c as u32;
    0x3000 <= u && u <= 0x303F
}

/// Decides [`is_emoji_char`].
pub(crate) fn emoji_char(c: char) -> (b: bool)
    ensures
        b == is_emoji_char(c),
{
    let u = c as u32;
    u == 0xA9 || u == 0xAE || u == 0x2122 || (0x2600 <= u && u <= 0x27BF) || (0x1F1E6 <= u && u
        <= 0x1F1FF) || (0x1F300 <= u && u <= 0x1F5FF) || (0x1F600 <= u && u <= 0x1F64F) || (0x1F680
        <= u && u <= 0x1F6FF) || (0x1F900 <= u && u <= 0x1F9FF) || (0x1FA70 <= u && u <= 0x1FAFF)
}

/// Decides [`is_emoji_modifier_char`].
pub(crate) fn emoji_modifier_char(c: char) -> (b: bool)
    ensures
        b == is_emoji_modifier_char(c),
{
    let u = c as u32;
    0x1F3FB <= u && u <= 0x1F3FF
}

/// Decides [`is_regional_indicator_char`].
pub(crate) fn regional_indicator_char(c: char) -> (b: bool)
    ensures
        b == is_regional_indicator_char(c),
{
    let u = c as u32;
    0x1F1E6 <= u && u <= 0x1F1FF
}

/// Collects the codepoints of a string into a vector.
pub(crate) fn chars_vec(s: &str) -> (r: Vec<char>)
    ensures
        r@ == s@,
{
    let n = s.unicode_len();
    let mut r: Vec<char> = Vec::new();
    let mut i: usize = 0;
    while i < n
        invariant
            i <= n,
            n == s@.len(),
            r@ == s@.take(i as int),
        decreases n - i,
    {
        r.push(s.get_char(i));
        i = i + 1;
        proof {
            assert(r@ =~= s@.take(i as int));
        }
    }
    proof {
        assert(r@ =~= s@);
    }
    r
}

/// Decides [`is_zwj_emoji_seq`] on the suffix of `cs` that starts at `i`.
fn zwj_emoji_from(cs: &Vec<char>, i: usize) -> (b: bool)
    requires
        i <= cs@.len(),
    ensures
        b == is_zwj_emoji_seq(cs@.skip(i as int)),
    decreases cs@.len() - i,
{
    let n = cs.len();
    if i == n {
        return false;
    }
    if !emoji_char(cs[i]) {
        return false;
    }
    let k: usize = if i + 1 < n && (cs[i + 1] == '\u{FE0F}' || emoji_modifier_char(cs[i + 1])) {
        2
    } else {
        1
    };
    if n - i == k {
        true
    } else if n - i >= k + 2 && cs[i + k] == '\u{200D}' {
        proof {
            assert(cs@.skip(i as int).skip(k + 1) =~= cs@.skip(i + k + 1));
        }
        zwj_emoji_from(cs, i + k + 1)
    } else {
        false
    }
}

/// Exact-match membership of a grapheme in the CJK set.
pub fn is_cjk(g: &str) -> (b: bool)
    ensures
        b == in_cjk_set(g@),
{
    let n = g.unicode_len();
    n == 1 && cjk_char(g.get_char(0))
}

/// Exact-match membership of a grapheme in the kana set.
pub fn is_kana(g: &str) -> (b: bool)
    ensures
        b == in_kana_set(g@),
{
    let n = g.unicode_len();
    n == 1 && kana_char(g.get_char(0))
}

/// Exact-match membership of a grapheme in the Hangul set.
pub fn is_hangul(g: &str) -> (b: bool)
    ensures
        b == in_hangul_set(g@),
{
    let n = g.unicode_len();
    n == 1 && hangul_char(g.get_char(0))
}

/// Exact-match membership of a grapheme in the fullwidth-variant set.
pub fn is_fullwidth_variant(g: &str) -> (b: bool)
    ensures
        b == in_variant_set(g@),
{
    let n = g.unicode_len();
    n == 1 && variant_char(g.get_char(0))
}

/// Exact-match membership of a grapheme in the fullwidth-punctuation set.
pub fn is_fullwidth_punct(g: &str) -> (b: bool)
    ensures
        b == in_punct_set(g@),
{
    let n = g.unicode_len();
    n == 1 && punct_char(g.get_char(0))
}

/// Exact-match membership of a grapheme in the emoji set, covering both
/// single-codepoint emoji and multi-codepoint sequences.
pub fn is_emoji(g: &str) -> (b: bool)
    ensures
        b == in_emoji_set(g@),
{
    let cs = chars_vec(g);
    proof {
        assert(cs@.skip(0) =~= g@);
    }
    if zwj_emoji_from(&cs, 0) {
        true
    } else {
        cs.len() == 2 && regional_indicator_char(cs[0]) && regional_indicator_char(cs[1])
    }
}

/// No codepoint of the emoji data is claimed by an earlier resolver rule:
/// emoji codepoints are neither control, ASCII, CJK, kana, Hangul,
/// fullwidth-variant nor fullwidth-punctuation codepoints.
pub proof fn lemma_emoji_char_unclaimed(c: char)
    requires
        is_emoji_char(c),
    ensures
        !is_control_char(c),
        !is_ascii_char(c),
        !is_cjk_char(c),
        !is_kana_char(c),
        !is_hangul_char(c),
        !is_variant_char(c),
        !is_punct_char(c),
{
}

/// The single-codepoint category blocks are pairwise disjoint, and none of
/// them contains a control or ASCII codepoint.
pub proof fn lemma_single_codepoint_categories_disjoint(c: char)
    ensures
        !(is_cjk_char(c) && is_kana_char(c)),
        !(is_cjk_char(c) && is_hangul_char(c)),
        !(is_cjk_char(c) && is_variant_char(c)),
        !(is_cjk_char(c) && is_punct_char(c)),
        !(is_kana_char(c) && is_hangul_char(c)),
        !(is_kana_char(c) && is_variant_char(c)),
        !(is_kana_char(c) && is_punct_char(c)),
        !(is_hangul_char(c) && is_variant_char(c)),
        !(is_hangul_char(c) && is_punct_char(c)),
        !(is_variant_char(c) && is_punct_char(c)),
        is_cjk_char(c) || is_kana_char(c) || is_hangul_char(c) || is_variant_char(c)
            || is_punct_char(c) ==> !is_control_char(c) && !is_ascii_char(c),
{
}

} // verus!
