//! Ergonomic width measurement on `char` and `str`.
//!
//! [`RuneDisplayWidth`] gives both types method-style access to the width
//! engine under the default (`terminal`) policy: `.rune_width()` resolves
//! the value as a single cluster, `.display_width()` and
//! `.display_widths()` measure whole strings with grapheme segmentation
//! applied (on a `char` they degenerate to the single-codepoint width).

use vstd::prelude::*;

use crate::grapheme::basic;
use crate::grapheme::segmenter::grapheme_clusters;
use crate::policy::{terminal_spec, WidthPolicy};
use crate::width::{char_width, cluster_width, get_display_width, max_cluster_width, total_width};

verus! {

/// Display width measurement for runes, graphemes and strings, in
/// terminal columns under the default (`terminal`) policy.
pub trait RuneDisplayWidth {
    /// The codepoints of the value.
    spec fn chars_spec(&self) -> Seq<char>;

    /// What [`RuneDisplayWidth::display_width`] returns.
    spec fn display_width_spec(&self) -> int;

    /// What [`RuneDisplayWidth::display_widths`] returns.
    spec fn display_widths_spec(&self) -> Seq<usize>;

    /// The machine bound under which a total width is representable.
    spec fn width_fits(&self) -> bool;

    /// The display width of the value resolved as one grapheme cluster.
    fn rune_width(&self) -> (w: usize)
        ensures
            w == cluster_width(self.chars_spec(), terminal_spec()),
    ;

    /// The total display width of the value in terminal columns.
    fn display_width(&self) -> (w: usize)
        requires
            self.width_fits(),
        ensures
            w == self.display_width_spec(),
    ;

    /// The display width of each grapheme cluster of the value.
    fn display_widths(&self) -> (ws: Vec<usize>)
        ensures
            ws@ == self.display_widths_spec(),
    ;

    /// The total display width in terminal columns; an alias of
    /// [`RuneDisplayWidth::display_width`].
    fn width(&self) -> (w: usize)
        requires
            self.width_fits(),
        ensures
            w == self.display_width_spec(),
    ;
}

impl RuneDisplayWidth for str {
    open spec fn chars_spec(&self) -> Seq<char> {
        self@
    }

    open spec fn display_width_spec(&self) -> int {
        total_width(grapheme_clusters(self@), terminal_spec())
    }

    open spec fn display_widths_spec(&self) -> Seq<usize> {
        grapheme_clusters(self@).map_values(|g: Seq<char>| cluster_width(g, terminal_spec()))
    }

    open spec fn width_fits(&self) -> bool {
        self@.len() * max_cluster_width(terminal_spec()) <= usize::MAX
    }

    fn rune_width(&self) -> (w: usize) {
        get_display_width(self)
    }

    fn display_width(&self) -> (w: usize) {
        basic::display_width(self)
    }

    fn display_widths(&self) -> (ws: Vec<usize>) {
        let ws = basic::display_widths(self);
        proof {
            assert(ws@ =~= self.display_widths_spec());
        }
        ws
    }

    fn width(&self) -> (w: usize) {
        basic::display_width(self)
    }
}

impl RuneDisplayWidth for char {
    open spec fn chars_spec(&self) -> Seq<char> {
        seq![*self]
    }

    open spec fn display_width_spec(&self) -> int {
        cluster_width(seq![*self], terminal_spec()) as int
    }

    open spec fn display_widths_spec(&self) -> Seq<usize> {
        seq![cluster_width(seq![*self], terminal_spec())]
    }

    open spec fn width_fits(&self) -> bool {
        true
    }

    fn rune_width(&self) -> (w: usize) {
        let p = WidthPolicy::terminal();
        char_width(*self, &p)
    }

    fn display_width(&self) -> (w: usize) {
        self.rune_width()
    }

    fn display_widths(&self) -> (ws: Vec<usize>) {
        let w = self.rune_width();
        let mut ws: Vec<usize> = Vec::new();
        ws.push(w);
        proof {
            assert(ws@ =~= self.display_widths_spec());
        }
        ws
    }

    fn width(&self) -> (w: usize) {
        self.rune_width()
    }
}

} // verus!
