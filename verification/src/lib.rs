//! Unicode-aware display width engine for monospaced text layout.
//!
//! The crate measures how many fixed-width terminal columns a piece of text
//! occupies and builds width-aware truncation and line wrapping on top of
//! that measurement. It understands East Asian fullwidth characters, kana,
//! Hangul syllables, fullwidth punctuation and symbol variants, and emoji
//! (including multi-codepoint ZWJ sequences).
//!
//! Measurement works at the grapheme-cluster level: a string is split into
//! extended grapheme clusters (UAX #29, consumed from the
//! `unicode-segmentation` crate) and every cluster is resolved to a column
//! count by an ordered rule chain governed by a [`WidthPolicy`].

use vstd::prelude::*;

mod atom;
mod ext;
mod grapheme;
mod policy;
mod rules;
mod version;
mod width;
mod with_policy;

verus! {

pub use atom::atoms;
pub use ext::RuneDisplayWidth;
pub use grapheme::basic::display_width;
pub use grapheme::basic::display_widths;
pub use grapheme::basic::grapheme_widths;
pub use grapheme::basic::graphemes;
pub use grapheme::basic::split_by_width;
pub use grapheme::basic::truncate_by_width;
pub use grapheme::policy_ext::display_width_with_policy;
pub use grapheme::policy_ext::display_widths_with_policy;
pub use grapheme::policy_ext::grapheme_widths_with_policy;
pub use grapheme::policy_ext::split_by_width_with_policy;
pub use grapheme::policy_ext::truncate_by_width_with_policy;
pub use policy::WidthPolicy;
pub use rules::is_cjk;
pub use rules::is_emoji;
pub use rules::is_fullwidth_punct;
pub use rules::is_fullwidth_variant;
pub use rules::is_hangul;
pub use rules::is_kana;
pub use version::get_char_table_version;
pub use width::get_display_width_with_policy;
pub use with_policy::AppliedPolicy;
pub use with_policy::WithPolicy;

/// The codepoint sequences that a sequence of string slices views as.
pub open spec fn views_of(rs: Seq<&str>) -> Seq<Seq<char>> {
    rs.map_values(|g: &str| g@)
}

/// The codepoint sequences that a sequence of owned strings views as.
pub open spec fn string_views(rs: Seq<String>) -> Seq<Seq<char>> {
    rs.map_values(|g: String| g@)
}

/// Each codepoint of `s` as a cluster of its own.
pub open spec fn singleton_clusters(s: Seq<char>) -> Seq<Seq<char>> {
    s.map_values(|c: char| seq![c])
}

} // verus!
