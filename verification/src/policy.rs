//! Configurable per-category column widths.
//!
//! A [`WidthPolicy`] says how many columns each category of grapheme cluster
//! occupies: emoji, CJK ideographs (together with kana and Hangul), fullwidth
//! symbol variants and punctuation, and a fallback for everything else.
//! ASCII (width 1) and control characters (width 0) are fixed rules applied
//! before any category lookup and are never part of a policy.
//!
//! Three presets cover the common layout targets: [`WidthPolicy::terminal`],
//! [`WidthPolicy::markdown`] and [`WidthPolicy::compact`]. Whenever an
//! operation is given no explicit policy it behaves exactly as the
//! `terminal` preset.

use vstd::prelude::*;

verus! {

/// Per-category display widths used by the width resolver.
///
/// A policy is an immutable value; callers construct or select one and pass
/// it into resolution and layout operations.
#[derive(Debug, Clone, Copy)]
pub struct WidthPolicy {
    /// Width of emoji clusters, including multi-codepoint ZWJ sequences.
    pub emoji: usize,
    /// Width of CJK ideographs, kana and Hangul syllables.
    pub cjk: usize,
    /// Width of fullwidth symbol variants and fullwidth punctuation.
    pub variant: usize,
    /// Width of clusters that fall into no category.
    pub fallback: usize,
}

/// The `terminal` preset as a specification-level value.
pub open spec fn terminal_spec() -> WidthPolicy {
    WidthPolicy { emoji: 2, cjk: 2, variant: 2, fallback: 1 }
}

/// The `markdown` preset as a specification-level value.
pub open spec fn markdown_spec() -> WidthPolicy {
    WidthPolicy { emoji: 1, cjk: 2, variant: 2, fallback: 1 }
}

/// The `compact` preset as a specification-level value.
pub open spec fn compact_spec() -> WidthPolicy {
    WidthPolicy { emoji: 1, cjk: 1, variant: 1, fallback: 1 }
}

impl WidthPolicy {
    /// Standard terminal preset: emoji = 2, cjk = 2, variant = 2, fallback = 1.
    pub fn terminal() -> (p: Self)
        ensures
            p == terminal_spec(),
    {
        Self { emoji: 2, cjk: 2, variant: 2, fallback: 1 }
    }

    /// Markdown preset: emoji = 1, cjk = 2, variant = 2, fallback = 1.
    pub fn markdown() -> (p: Self)
        ensures
            p == markdown_spec(),
    {
        Self { emoji: 1, cjk: 2, variant: 2, fallback: 1 }
    }

    /// Compact preset: every category resolves to a single column.
    pub fn compact() -> (p: Self)
        ensures
            p == compact_spec(),
    {
        Self { emoji: 1, cjk: 1, variant: 1, fallback: 1 }
    }

    /// Returns the four field values as a tuple, in the order
    /// `(emoji, cjk, variant, fallback)`.
    pub fn as_tuple(&self) -> (t: (usize, usize, usize, usize))
        ensures
            t == ((self.emoji, self.cjk, self.variant, self.fallback)),
    {
        (self.emoji, self.cjk, self.variant, self.fallback)
    }

    /// Reserved hook for per-character width overrides; currently the
    /// policy is returned unchanged.
    pub fn override_char(self, ch: char, w: usize) -> (p: Self)
        ensures
            p == self,
    {
        let _ = ch;
        let _ = w;
        self
    }
}

} // verus!
