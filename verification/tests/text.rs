use sprint_tasks::text::{
    chars_of, contains_ignoring_case, decimal_text, fold_char, is_space_char, same_text, trim,
};

#[test]
fn decimal_text_writes_plain_numerals() {
    assert_eq!(decimal_text(0), "0");
    assert_eq!(decimal_text(7), "7");
    assert_eq!(decimal_text(10), "10");
    assert_eq!(decimal_text(42), "42");
    assert_eq!(decimal_text(1000), "1000");
    assert_eq!(decimal_text(9_007_199_254_740_993), "9007199254740993");
    assert_eq!(decimal_text(u64::MAX), "18446744073709551615");
}

#[test]
fn decimal_text_agrees_with_std_formatting() {
    let samples: [u64; 8] = [0, 1, 9, 99, 100, 123_456_789, 1 << 40, u64::MAX - 1];
    for n in samples {
        assert_eq!(decimal_text(n), format!("{}", n));
    }
}

#[test]
fn chars_of_keeps_every_character() {
    assert_eq!(chars_of(""), Vec::<char>::new());
    assert_eq!(chars_of("aé日🦀"), vec!['a', 'é', '日', '🦀']);
}

#[test]
fn same_text_compares_character_by_character() {
    assert!(same_text("", ""));
    assert!(same_text("values", "values"));
    assert!(!same_text("values", "value"));
    assert!(!same_text("values", "valueS"));
    assert!(!same_text("id", "di"));
}

#[test]
fn fold_char_touches_ascii_capitals_only() {
    assert_eq!(fold_char('A'), 'a');
    assert_eq!(fold_char('Z'), 'z');
    assert_eq!(fold_char('m'), 'm');
    assert_eq!(fold_char('['), '[');
    assert_eq!(fold_char('@'), '@');
    assert_eq!(fold_char('É'), 'É');
    for c in ['\0'..='\u{7f}'].into_iter().flatten() {
        assert_eq!(fold_char(c), c.to_ascii_lowercase());
    }
}

#[test]
fn contains_ignoring_case_finds_any_casing() {
    assert!(contains_ignoring_case("[Done] old", "[done]"));
    assert!(contains_ignoring_case("x [DONE]", "[done]"));
    assert!(contains_ignoring_case("a[dOnE]b", "[done]"));
    assert!(contains_ignoring_case("[CLOSED]", "[closed]"));
    assert!(contains_ignoring_case("anything", ""));
    assert!(contains_ignoring_case("", ""));
    assert!(!contains_ignoring_case("", "[done]"));
    assert!(!contains_ignoring_case("done", "[done]"));
    assert!(!contains_ignoring_case("[done", "[done]"));
    assert!(!contains_ignoring_case("[do ne]", "[done]"));
    assert!(!contains_ignoring_case("[don", "[done]"));
}

#[test]
fn contains_ignoring_case_agrees_with_lowercasing_on_the_markers() {
    let summaries = [
        "Fix bug",
        "[Done] old",
        "Straße [CLOSED] ÄÖÜ",
        "İstanbul [done]",
        "ΣΑΣ [Closed]",
        "ΣΑΣ closed",
        "[done",
        "K [DONE] \u{212a}",
        "[\u{212a}done]",
        "",
    ];
    for summary in summaries {
        for marker in ["[done]", "[closed]"] {
            assert_eq!(
                contains_ignoring_case(summary, marker),
                summary.to_lowercase().contains(marker),
                "{:?} {:?}",
                summary,
                marker
            );
        }
    }
}

#[test]
fn no_character_outside_ascii_lowercases_into_a_marker_letter() {
    let marker_letters = ['[', ']', 'd', 'o', 'n', 'e', 'c', 'l', 's'];
    for c in ['\u{80}'..='\u{d7ff}', '\u{e000}'..='\u{10ffff}'].into_iter().flatten() {
        for lower in c.to_lowercase() {
            assert!(!marker_letters.contains(&lower), "{:?}", c);
        }
    }
}

#[test]
fn is_space_char_is_unicode_white_space() {
    for c in ['\0'..='\u{d7ff}', '\u{e000}'..='\u{10ffff}'].into_iter().flatten() {
        assert_eq!(is_space_char(c), c.is_whitespace(), "{:?}", c);
    }
}

#[test]
fn trim_strips_both_ends_only() {
    assert_eq!(trim("  token \n"), "token");
    assert_eq!(trim("token"), "token");
    assert_eq!(trim("\ta b\r\n"), "a b");
    assert_eq!(trim(""), "");
    assert_eq!(trim(" \t\n"), "");
    assert_eq!(trim("\u{3000}x\u{a0}"), "x");
    assert_eq!(trim("é "), "é");
}

#[test]
fn trim_agrees_with_std_trim() {
    let lines = ["", " ", "a", " a", "a ", " a b ", "\n\na\u{2003}b\u{2028}", "\u{feff}a "];
    for line in lines {
        assert_eq!(trim(line), line.trim());
    }
}
