//! Tests for exact-match membership in the classification sets.

use runefix_core::{is_cjk, is_emoji, is_fullwidth_punct, is_fullwidth_variant, is_hangul, is_kana};

#[test]
fn cjk_membership_is_exact() {
    assert!(is_cjk("你"));
    assert!(is_cjk("\u{20000}"));
    assert!(!is_cjk("a"));
    assert!(!is_cjk("你好"));
    assert!(!is_cjk(""));
}

#[test]
fn kana_and_hangul_membership() {
    assert!(is_kana("ツ"));
    assert!(is_kana("ひ"));
    assert!(!is_kana("你"));
    assert!(is_hangul("한"));
    assert!(!is_hangul("ツ"));
}

#[test]
fn fullwidth_membership() {
    assert!(is_fullwidth_variant("Ａ"));
    assert!(is_fullwidth_variant("！"));
    assert!(!is_fullwidth_variant("A"));
    assert!(is_fullwidth_punct("。"));
    assert!(is_fullwidth_punct("\u{3000}"));
    assert!(!is_fullwidth_punct("."));
}

#[test]
fn emoji_membership_single_and_sequence() {
    assert!(is_emoji("😄"));
    assert!(is_emoji("👨‍👩‍👧‍👦"));
    assert!(is_emoji("❤️"));
    assert!(is_emoji("🇸🇹"));
    assert!(!is_emoji("A"));
    assert!(!is_emoji("你"));
    assert!(!is_emoji("\u{200d}"));
    assert!(!is_emoji("😄x"));
}
