//! Tests for grapheme segmentation, width measurement, truncation and
//! wrapping under the default policy.

use runefix_core::{
    display_width, display_widths, grapheme_widths, graphemes, split_by_width, truncate_by_width,
};

#[test]
fn test_display_widths_per_char() {
    assert_eq!(display_widths("你a1👇"), [2, 1, 1, 2]);
}

#[test]
fn test_display_width_total_sum() {
    assert_eq!(display_width("你a1👇"), 6);
}

#[test]
fn test_split_graphemes() {
    assert_eq!(graphemes("你a1👇"), vec!["你", "a", "1", "👇"]);
}

#[test]
fn test_grapheme_widths() {
    assert_eq!(
        grapheme_widths("你a1👇"),
        vec![("你", 2), ("a", 1), ("1", 1), ("👇", 2)]
    );
}

#[test]
fn test_truncate_by_width() {
    assert_eq!(truncate_by_width("你a1👇", 2), "你");
    assert_eq!(truncate_by_width("你a1👇", 3), "你a");
    assert_eq!(truncate_by_width("你a1👇", 4), "你a1");
    assert_eq!(truncate_by_width("你a1👇", 6), "你a1👇");
}

#[test]
fn test_split_by_width() {
    let s = "你a1👇";
    let parts = split_by_width(s, 4);
    assert_eq!(parts, vec!["你a1", "👇"]);
}
