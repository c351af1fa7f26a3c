//! Tests for atom segmentation: width-driven splitting of emoji ZWJ
//! sequences, variation selectors, and mixed text.

use runefix_core::atoms;

#[test]
fn test_atoms_family() {
    let input = "👨‍👩‍👧‍👦";
    assert_eq!(
        atoms(input),
        vec!["👨", "\u{200d}", "👩", "\u{200d}", "👧", "\u{200d}", "👦"],
    );
}

#[test]
fn test_atoms_couple() {
    let input = "👩‍❤️‍💋‍👨";
    assert_eq!(
        atoms(input),
        vec![
            "👩", "\u{200d}", "❤", "\u{fe0f}", "\u{200d}", "💋", "\u{200d}", "👨"
        ],
    );
}

#[test]
fn test_atoms_heart() {
    let input = "❤️";
    assert_eq!(atoms(input), vec!["❤", "\u{fe0f}"]);
}

#[test]
fn test_atoms_female_programmer() {
    let input = "👩‍💻";
    assert_eq!(atoms(input), vec!["👩", "\u{200d}", "💻"]);
}

#[test]
fn test_atoms_mixed_complex() {
    let input = "123，木头人🪵";
    assert_eq!(
        atoms(input),
        vec!["1", "2", "3", "，", "木", "头", "人", "🪵"]
    );
}

#[test]
fn test_atoms_control_run_groups() {
    // A run of zero-width (control) codepoints forms one atom, attached
    // between the width-bearing neighbours.
    assert_eq!(atoms("a\u{1}\u{2}b"), vec!["a", "\u{1}\u{2}", "b"]);
}

#[test]
fn test_atoms_trailing_zero_width_run() {
    assert_eq!(atoms("a\u{1}"), vec!["a", "\u{1}"]);
}

#[test]
fn test_atoms_empty() {
    assert_eq!(atoms(""), Vec::<&str>::new());
}

#[test]
fn test_atoms_reconstruct() {
    let inputs = ["👩‍❤️‍💋‍👨", "123，木头人🪵", "a\u{1}\u{2}b\u{3}", "", "你好 world"];
    for s in inputs {
        let joined: String = atoms(s).concat();
        assert_eq!(joined, *s);
    }
}
