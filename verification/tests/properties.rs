//! Scenario checks for the library's stated properties: truncation never
//! overshoots and never splits a cluster, ASCII text is as wide as it is
//! long, wrapping reconstructs the input, both segmentations reconstruct
//! the input, and the presets disagree exactly where they should.

use runefix_core::{
    atoms, display_width, display_widths, get_char_table_version, get_display_width_with_policy,
    graphemes, split_by_width, split_by_width_with_policy, truncate_by_width,
    truncate_by_width_with_policy, WidthPolicy,
};

#[test]
fn truncate_width_never_exceeds_limit() {
    let samples = ["你a1👇", "Hello 👋 世界!", "👨‍👩‍👧‍👦x", "", "ωωω"];
    for s in samples {
        for max in 0..10usize {
            let t = truncate_by_width(s, max);
            assert!(display_width(t) <= max);
            assert!(s.starts_with(t));
        }
    }
}

#[test]
fn truncate_zero_and_overflowing_first_cluster() {
    assert_eq!(truncate_by_width("你好", 0), "");
    assert_eq!(truncate_by_width("你好", 1), "");
    assert_eq!(truncate_by_width("", 5), "");
}

#[test]
fn ascii_printable_width_is_codepoint_count() {
    let samples = ["", "a", "Hello, World!", "~ !0Zz", "( ) [ ] { }"];
    for s in samples {
        assert_eq!(display_width(s), s.chars().count());
    }
}

#[test]
fn split_reconstructs_input_exactly() {
    let samples = ["你a1👇", "Hello 👋 世界!", "👨‍👩‍👧‍👦", "", "a\u{1}b"];
    for s in samples {
        for max in 1..8usize {
            let joined: String = split_by_width(s, max).concat();
            assert_eq!(joined, *s);
        }
    }
}

#[test]
fn split_line_widths_within_limit_except_singleton() {
    let samples = ["你a1👇", "Hello 👋 世界!", "wwwww你"];
    for s in samples {
        for max in 1..8usize {
            for line in split_by_width(s, max) {
                let w = display_width(&line) as usize;
                assert!(w <= max || graphemes(&line).len() == 1);
                assert!(!line.is_empty());
            }
        }
    }
}

#[test]
fn split_singleton_overflow_kept_on_own_line() {
    // A single cluster wider than the limit still comes out, alone.
    assert_eq!(split_by_width("你", 1), vec!["你"]);
    assert_eq!(split_by_width("a你b", 1), vec!["a", "你", "b"]);
}

#[test]
fn split_empty_input_gives_no_lines() {
    assert_eq!(split_by_width("", 4), Vec::<String>::new());
}

#[test]
fn graphemes_reconstruct_input_exactly() {
    let samples = ["你a1👇", "👩‍❤️‍💋‍👨", "a\u{310}e\u{301}", ""];
    for s in samples {
        let joined: String = graphemes(s).concat();
        assert_eq!(joined, *s);
    }
}

#[test]
fn policy_presets_disagree_on_emoji_and_cjk() {
    let terminal = WidthPolicy::terminal();
    let markdown = WidthPolicy::markdown();
    let compact = WidthPolicy::compact();
    assert_eq!(get_display_width_with_policy("👋", Some(&terminal)), 2);
    assert_eq!(get_display_width_with_policy("👋", Some(&markdown)), 1);
    assert_eq!(get_display_width_with_policy("👋", Some(&compact)), 1);
    assert_eq!(get_display_width_with_policy("汉", Some(&terminal)), 2);
    assert_eq!(get_display_width_with_policy("汉", Some(&markdown)), 2);
    assert_eq!(get_display_width_with_policy("汉", Some(&compact)), 1);
}

#[test]
fn no_policy_means_terminal() {
    assert_eq!(get_display_width_with_policy("👋", None), 2);
    assert_eq!(truncate_by_width_with_policy("你a1👇", 3, None), "你a");
    assert_eq!(
        split_by_width_with_policy("你a1👇", 4, None),
        vec!["你a1", "👇"]
    );
}

#[test]
fn control_characters_have_zero_width() {
    assert_eq!(display_width("\u{0}\u{1F}\u{7F}\u{9F}"), 0);
    assert_eq!(display_widths("a\u{1}b"), [1, 0, 1]);
}

#[test]
fn empty_string_measures_zero() {
    assert_eq!(display_width(""), 0);
    assert_eq!(display_widths(""), Vec::<usize>::new());
    assert_eq!(graphemes(""), Vec::<&str>::new());
    assert_eq!(atoms(""), Vec::<&str>::new());
}

#[test]
fn qualified_and_flag_emoji_are_wide() {
    // variation-selector qualified heart, skin-tone qualified thumbs-up,
    // and a regional-indicator flag pair: one cluster, emoji width each.
    assert_eq!(display_width("❤️"), 2);
    assert_eq!(display_width("👍🏽"), 2);
    assert_eq!(display_width("🇷🇺"), 2);
}

#[test]
fn ambiguous_text_symbols_resolve_as_emoji() {
    // Documented limitation of the curated data: exact-match wins, so the
    // copyright, registered and trade-mark signs take the emoji width
    // even in unqualified text.
    let terminal = WidthPolicy::terminal();
    assert_eq!(get_display_width_with_policy("©", Some(&terminal)), 2);
    assert_eq!(get_display_width_with_policy("®", Some(&terminal)), 2);
    assert_eq!(get_display_width_with_policy("™", Some(&terminal)), 2);
}

#[test]
fn preset_tuples_and_override() {
    assert_eq!(WidthPolicy::terminal().as_tuple(), (2, 2, 2, 1));
    assert_eq!(WidthPolicy::markdown().as_tuple(), (1, 2, 2, 1));
    assert_eq!(WidthPolicy::compact().as_tuple(), (1, 1, 1, 1));
    let p = WidthPolicy::markdown().override_char('x', 9);
    assert_eq!(p.as_tuple(), (1, 2, 2, 1));
}

#[test]
fn char_table_version_reported() {
    assert_eq!(get_char_table_version(), "16.0.0");
}

#[test]
fn fullwidth_punctuation_takes_variant_width() {
    let compact = WidthPolicy::compact();
    assert_eq!(display_widths("，。、"), [2, 2, 2]);
    assert_eq!(get_display_width_with_policy("。", Some(&compact)), 1);
}
