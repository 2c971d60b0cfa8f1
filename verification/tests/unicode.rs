use mm_model::unicode::{contains_cjk, is_in, HAN, HANGUL, HIRAGANA, KATAKANA};

#[test]
fn the_empty_string_contains_nothing() {
    assert!(!contains_cjk(""));
}

#[test]
fn ascii_is_not_cjk() {
    assert!(!contains_cjk("hello world 0123456789"));
}

#[test]
fn each_of_the_four_scripts_counts() {
    assert!(contains_cjk("你好"), "Han");
    assert!(contains_cjk("ひらがな"), "Hiragana");
    assert!(contains_cjk("カタカナ"), "Katakana");
    assert!(contains_cjk("한국어"), "Hangul");
}

#[test]
fn one_character_decides_the_answer() {
    assert!(contains_cjk("a日b"));
    assert!(contains_cjk("日 followed by ascii"));
    assert!(contains_cjk("ascii followed by 日"));
}

#[test]
fn cjk_punctuation_is_not_cjk() {
    for s in ["。、「」", "\u{3000}", "・ー", "ＡＢＣ"] {
        assert!(!contains_cjk(s), "{s:?}");
    }
}

#[test]
fn the_iteration_marks_are_cjk() {
    for s in ["々", "〻", "ゝ", "ヽ"] {
        assert!(contains_cjk(s), "{s:?}");
    }
}

#[test]
fn a_stride_leaves_a_hole_in_the_middle_of_a_range() {
    assert!(contains_cjk("\u{3005}"), "U+3005 is Han");
    assert!(!contains_cjk("\u{3006}"), "U+3006 is the hole");
    assert!(contains_cjk("\u{3007}"), "U+3007 is Han");
}

#[test]
fn astral_plane_characters_are_reached() {
    assert!(contains_cjk("\u{20000}"), "extension B");
    assert!(contains_cjk("\u{30000}"), "extension G");
    assert!(contains_cjk("\u{1B000}"), "kana supplement");
}

#[test]
fn other_scripts_and_emoji_are_not_cjk() {
    for s in ["🙂🎌", "สวัสดี", "привет", "Ωμέγα"] {
        assert!(!contains_cjk(s), "{s:?}");
    }
}

#[test]
fn the_generated_tables_are_sorted_and_disjoint() {
    for (name, table) in [
        ("HAN", &HAN[..]),
        ("HIRAGANA", &HIRAGANA[..]),
        ("KATAKANA", &KATAKANA[..]),
        ("HANGUL", &HANGUL[..]),
    ] {
        assert!(!table.is_empty(), "{name}");
        for window in table.windows(2) {
            let (lo, hi, _) = window[0];
            let (next_lo, _, _) = window[1];
            assert!(lo <= hi, "{name}: {lo:#X}..{hi:#X} is inverted");
            assert!(hi < next_lo, "{name}: {hi:#X} overlaps {next_lo:#X}");
        }
        for &(lo, hi, stride) in table {
            assert!(stride >= 1, "{name}: {lo:#X} has stride 0");
            assert_eq!(
                (hi - lo) % stride,
                0,
                "{name}: {lo:#X}..{hi:#X} does not land on its stride"
            );
        }
    }
}

#[test]
fn members_of_a_table() {
    let table = [(10, 20, 5), (30, 30, 1)];
    for r in [10, 15, 20, 30] {
        assert!(is_in(&table, r), "{r}");
    }
    for r in [0, 9, 11, 21, 29, 31] {
        assert!(!is_in(&table, r), "{r}");
    }
    assert!(!is_in(&[], 1));
}

#[test]
fn a_text_is_decided_by_its_parts() {
    for (a, b) in [("", ""), ("x", "日"), ("日", "x"), ("x", "y")] {
        let whole = format!("{a}{b}");
        assert_eq!(contains_cjk(&whole), contains_cjk(a) || contains_cjk(b));
    }
}
