//! Tests for single-cluster width resolution through the
//! `RuneDisplayWidth` extension trait: ASCII, Greek, CJK, kana, Hangul,
//! fullwidth variants, emoji (simple and ZWJ), and unknown codepoints.

use runefix_core::RuneDisplayWidth;

#[test]
fn test_ascii_width() {
    assert_eq!('a'.rune_width(), 1);
}

#[test]
fn test_greek_omega_width() {
    assert_eq!('ω'.rune_width(), 1);
}

#[test]
fn test_chinese_width() {
    assert_eq!('你'.rune_width(), 2);
}

#[test]
fn test_japanese_katakana() {
    assert_eq!('ツ'.rune_width(), 2);
}

#[test]
fn test_korean_hangul() {
    assert_eq!('한'.rune_width(), 2);
}

#[test]
fn test_emoji_base() {
    assert_eq!('😂'.rune_width(), 2);
}

#[test]
fn test_emoji_family() {
    assert_eq!("👨‍👩‍👧‍👦".rune_width(), 2);
}

#[test]
fn test_emoji_zwj() {
    let emoji = "\u{1F468}\u{200D}\u{1F469}\u{200D}\u{1F467}\u{200D}\u{1F466}";
    assert_eq!(emoji.rune_width(), 2);
}

#[test]
fn test_fullwidth_latin() {
    assert_eq!("\u{FF21}".rune_width(), 2);
}

#[test]
fn test_cjk_ext_b() {
    assert_eq!("\u{20000}".rune_width(), 2);
}

#[test]
fn test_unknown_char() {
    assert_eq!("\u{10FFFF}".rune_width(), 1);
}

#[test]
fn test_trait_width_alias() {
    assert_eq!("你a".width(), 3);
    assert_eq!("👋".width(), 2);
    assert_eq!('你'.width(), 2);
}

#[test]
fn test_trait_display_widths() {
    assert_eq!("你👋a".display_widths(), vec![2, 2, 1]);
    assert_eq!('你'.display_widths(), vec![2]);
    assert_eq!('你'.display_width(), 2);
    assert_eq!("Hi👋".display_width(), 4);
}
