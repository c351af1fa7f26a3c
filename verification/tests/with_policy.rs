//! Tests for `WithPolicy` and `AppliedPolicy`: policy switching between
//! the presets, width computation, truncation and line splitting.

use runefix_core::{WidthPolicy, WithPolicy};

#[test]
fn test_terminal_policy() {
    let policy = WidthPolicy::terminal();
    let binding = WithPolicy::new(&policy);
    let view = binding.apply("👋");
    assert_eq!(view.display_width(), 2);
    assert_eq!(view.display_widths(), vec![2]);
}

#[test]
fn test_markdown_policy() {
    let policy = WidthPolicy::markdown();
    let binding = WithPolicy::new(&policy);
    let view = binding.apply("👋");
    assert_eq!(view.display_width(), 1);
    assert_eq!(view.display_widths(), vec![1]);
}

#[test]
fn test_compact_policy() {
    let policy = WidthPolicy::compact();
    let binding = WithPolicy::new(&policy);
    let view = binding.apply("👋你好");
    assert_eq!(view.display_width(), 3);
    assert_eq!(view.display_widths(), vec![1, 1, 1]);
}

#[test]
fn test_truncate_behavior() {
    let policy = WidthPolicy::terminal();
    let binding = WithPolicy::new(&policy);
    let view = binding.apply("Hi 👋 世界");
    let truncated = view.truncate_by_width(5);
    assert_eq!(truncated, "Hi 👋");
}

#[test]
fn test_split_behavior() {
    let policy = WidthPolicy::markdown();
    let binding = WithPolicy::new(&policy);
    let view = binding.apply("Hello 👋 世界!");
    let lines = view.split_by_width(5);

    assert_eq!(lines, vec!["Hello", " 👋 世", "界!"]);
}

#[test]
fn test_widths_grapheme_pairs() {
    let policy = WidthPolicy::markdown();
    let binding = WithPolicy::new(&policy);
    let view = binding.apply("a👋你");
    assert_eq!(view.widths_grapheme(), vec![("a", 1), ("👋", 1), ("你", 2)]);
}

#[test]
fn test_grapheme_atoms_clusters() {
    let policy = WidthPolicy::terminal();
    let binding = WithPolicy::new(&policy);
    let view = binding.apply("Love👩‍❤️‍💋‍👨爱");
    assert_eq!(
        view.grapheme_atoms(),
        vec!["L", "o", "v", "e", "👩‍❤️‍💋‍👨", "爱"]
    );
}

#[test]
fn test_as_text_roundtrip() {
    let policy = WidthPolicy::compact();
    let binding = WithPolicy::new(&policy);
    let view = binding.apply("abc");
    assert_eq!(view.as_text(), "abc");
}
