//! A second pass over the `WithPolicy` surface, exercising the same
//! behaviours through freshly constructed policies and strings.

use runefix_core::{WidthPolicy, WithPolicy};

#[test]
fn with_policy_test_test_terminal_policy() {
    let policy = WidthPolicy::terminal();
    let binding = WithPolicy::new(&policy);
    let view = binding.apply("👋");
    assert_eq!(view.display_width(), 2);
    assert_eq!(view.display_widths(), vec![2]);
}

#[test]
fn with_policy_test_test_markdown_policy() {
    let policy = WidthPolicy::markdown();
    let binding = WithPolicy::new(&policy);
    let view = binding.apply("👋");
    assert_eq!(view.display_width(), 1);
    assert_eq!(view.display_widths(), vec![1]);
}

#[test]
fn with_policy_test_test_compact_policy() {
    let policy = WidthPolicy::compact();
    let binding = WithPolicy::new(&policy);
    let view = binding.apply("👋你好");
    assert_eq!(view.display_width(), 3);
    assert_eq!(view.display_widths(), vec![1, 1, 1]);
}

#[test]
fn with_policy_test_test_truncate_behavior() {
    let policy = WidthPolicy::terminal();
    let binding = WithPolicy::new(&policy);
    let view = binding.apply("Hi 👋 世界");
    let truncated = view.truncate_by_width(5);
    assert_eq!(truncated, "Hi 👋");
}

#[test]
fn with_policy_test_test_split_behavior() {
    let policy = WidthPolicy::markdown();
    let binding = WithPolicy::new(&policy);
    let view = binding.apply("Hello 👋 世界!");
    let lines = view.split_by_width(5);

    assert_eq!(lines, vec!["Hello", " 👋 世", "界!"]);
}
