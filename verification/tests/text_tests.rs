use thide::text::{chars_of, contains, encode_utf16, eq_ignore_ascii_case, to_wide};

#[test]
fn encode_utf16_of_ascii_is_one_unit_per_char() {
    assert_eq!(encode_utf16("Abc"), vec![0x41u16, 0x62, 0x63]);
}

#[test]
fn encode_utf16_of_empty_text_is_empty() {
    assert_eq!(encode_utf16(""), Vec::<u16>::new());
}

#[test]
fn encode_utf16_keeps_basic_plane_values() {
    // U+00E9, U+2713, U+FFFD
    assert_eq!(encode_utf16("\u{e9}\u{2713}\u{fffd}"), vec![0x00E9u16, 0x2713, 0xFFFD]);
}

#[test]
fn encode_utf16_splits_supplementary_chars_into_surrogates() {
    assert_eq!(encode_utf16("\u{1F600}"), vec![0xD83Du16, 0xDE00]);
    assert_eq!(encode_utf16("\u{10000}"), vec![0xD800u16, 0xDC00]);
    assert_eq!(encode_utf16("\u{10FFFF}"), vec![0xDBFFu16, 0xDFFF]);
}

#[test]
fn encode_utf16_agrees_with_std() {
    for text in ["", "Shell_TrayWnd", "gr\u{fc}\u{df}e", "a\u{1F600}b\u{10FFFF}", "\u{ffff}\u{10000}"] {
        let expected: Vec<u16> = text.encode_utf16().collect();
        assert_eq!(encode_utf16(text), expected);
    }
}

#[test]
fn to_wide_appends_one_zero() {
    assert_eq!(to_wide("Hi"), vec![0x48u16, 0x69, 0]);
    assert_eq!(to_wide(""), vec![0u16]);
}

#[test]
fn chars_of_lists_every_char() {
    assert_eq!(chars_of("a\u{e9}\u{1F600}"), vec!['a', '\u{e9}', '\u{1F600}']);
}

#[test]
fn eq_ignore_ascii_case_ignores_ascii_case_only() {
    assert!(eq_ignore_ascii_case("EXPLORER.EXE", "explorer.exe"));
    assert!(eq_ignore_ascii_case("Explorer.Exe", "eXPLORER.eXE"));
    assert!(eq_ignore_ascii_case("", ""));
    assert!(!eq_ignore_ascii_case("explorer.exe", "explorer.ex"));
    assert!(!eq_ignore_ascii_case("explorer.exe", "explorer_exe"));
    // '@' and '`' sit next to the letters and differ by 0x20 as well
    assert!(!eq_ignore_ascii_case("@", "`"));
    assert!(!eq_ignore_ascii_case("[", "{"));
    // non-ASCII letters are compared as they are
    assert!(!eq_ignore_ascii_case("\u{c9}", "\u{e9}"));
    assert!(eq_ignore_ascii_case("\u{e9}A", "\u{e9}a"));
    // the Kelvin sign is not an ASCII letter
    assert!(!eq_ignore_ascii_case("\u{212a}", "k"));
}

#[test]
fn eq_ignore_ascii_case_agrees_with_std() {
    let samples = ["", "a", "A", "Z", "z", "[", "{", "hide", "HIDE", "hid\u{e9}", "HID\u{c9}", "\u{212a}"];
    for a in samples {
        for b in samples {
            assert_eq!(eq_ignore_ascii_case(a, b), a.eq_ignore_ascii_case(b), "{a:?} {b:?}");
        }
    }
}

#[test]
fn contains_finds_runs_of_chars() {
    assert!(contains("ERROR: The system was unable to find the specified registry key", "unable to find"));
    assert!(contains("abc", "abc"));
    assert!(contains("abc", ""));
    assert!(contains("", ""));
    assert!(contains("aab", "ab"));
    assert!(contains("xxabab", "bab"));
    assert!(!contains("abc", "abcd"));
    assert!(!contains("", "a"));
    assert!(!contains("unable  to find", "unable to find"));
    assert!(!contains("Unable To Find", "unable to find"));
}

#[test]
fn contains_agrees_with_std() {
    let hays = ["", "a", "ab", "aab", "abab", "b\u{e9}b\u{e9}a", "does not exist"];
    let needles = ["", "a", "b", "ab", "ba", "bab", "\u{e9}a", "not", "exists"];
    for hay in hays {
        for needle in needles {
            assert_eq!(contains(hay, needle), hay.contains(needle), "{hay:?} {needle:?}");
        }
    }
}
