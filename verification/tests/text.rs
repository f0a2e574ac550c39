use bntui::text::{
    chars_of, contains_text, decimal_string, ends_with_text, fits_bytes, is_text, lower_chars,
    parse_u64_chars, string_of, strip_at, Strip,
};

fn chars(s: &str) -> Vec<char> {
    s.chars().collect()
}

fn parsed(s: &str) -> Option<u64> {
    let v = chars(s);
    parse_u64_chars(&v, 0, v.len())
}

fn stripped(s: &str, k: Strip) -> String {
    let v = chars(s);
    let (a, b) = strip_at(&v, 0, v.len(), k);
    string_of(&v, a, b)
}

#[test]
fn numerals_are_written_without_leading_zeros() {
    assert_eq!(decimal_string(0), "0");
    assert_eq!(decimal_string(7), "7");
    assert_eq!(decimal_string(10), "10");
    assert_eq!(decimal_string(1_000_000), "1000000");
    assert_eq!(decimal_string(u64::MAX), "18446744073709551615");
}

#[test]
fn numerals_are_read_as_the_standard_library_reads_them() {
    for text in [
        "0", "7", "007", "+5", "+0", "18446744073709551615", "18446744073709551616", "", "+",
        "-", "-1", "++1", "1+", " 1", "1 ", "1_000", "0x10", "١", "1.0", "00000000000000000000001",
        "99999999999999999999",
    ] {
        assert_eq!(parsed(text), text.parse::<u64>().ok(), "reading {:?}", text);
    }
}

#[test]
fn a_numeral_is_read_from_the_middle_of_a_text() {
    let v = chars("ab123cd");
    assert_eq!(parse_u64_chars(&v, 2, 5), Some(123));
    assert_eq!(parse_u64_chars(&v, 2, 6), None);
    assert_eq!(parse_u64_chars(&v, 3, 3), None);
}

#[test]
fn trimming_removes_white_space_as_the_standard_library_does() {
    for text in [
        "",
        " ",
        "  a b  ",
        "\t\n\r x \u{b}\u{c}",
        "\u{85}x\u{a0}",
        "\u{1680}\u{2000}\u{200a}x\u{2028}\u{2029}\u{202f}\u{205f}\u{3000}",
        "\u{200b}x\u{200b}",
        "\u{feff}x",
        "x",
    ] {
        assert_eq!(stripped(text, Strip::Whitespace), text.trim(), "trimming {:?}", text);
    }
}

#[test]
fn trimming_one_character_removes_only_that_one() {
    assert_eq!(stripped("\"\"abc\"", Strip::Only('"')), "abc");
    assert_eq!(stripped("\" abc \"", Strip::Only('"')), " abc ");
    assert_eq!(stripped("a\"b", Strip::Only('"')), "a\"b");
    assert_eq!(stripped("\"\"\"", Strip::Only('"')), "");
    assert_eq!(stripped("", Strip::Only('"')), "");
}

#[test]
fn characters_and_strings_convert_both_ways() {
    assert_eq!(chars_of("aé€😀"), vec!['a', 'é', '€', '😀']);
    assert!(chars_of("").is_empty());
    let v = chars("hello");
    assert_eq!(string_of(&v, 1, 4), "ell");
    assert_eq!(string_of(&v, 2, 2), "");
    assert_eq!(string_of(&v, 0, 5), "hello");
}

#[test]
fn lower_case_changes_ascii_letters_only() {
    let lowered: String = lower_chars("Blocknet-LINUX_É.EXE").into_iter().collect();
    assert_eq!(lowered, "Blocknet-LINUX_É.EXE".to_ascii_lowercase());
    assert_eq!(lowered, "blocknet-linux_É.exe");
    let edges: String = lower_chars("@AZ[`az{").into_iter().collect();
    assert_eq!(edges, "@az[`az{");
}

#[test]
fn substrings_are_found_anywhere() {
    let hay = chars("blocknet-darwin-arm64");
    assert!(contains_text(&hay, "darwin"));
    assert!(contains_text(&hay, "win"));
    assert!(contains_text(&hay, "blocknet"));
    assert!(contains_text(&hay, "arm64"));
    assert!(contains_text(&hay, ""));
    assert!(contains_text(&hay, "blocknet-darwin-arm64"));
    assert!(!contains_text(&hay, "blocknet-darwin-arm644"));
    assert!(!contains_text(&hay, "linux"));
    assert!(!contains_text(&hay, "arm65"));
    assert!(contains_text(&vec![], ""));
    assert!(!contains_text(&vec![], "a"));
}

#[test]
fn suffixes_and_whole_texts() {
    let hay = chars("blocknet.exe");
    assert!(ends_with_text(&hay, ".exe"));
    assert!(ends_with_text(&hay, ""));
    assert!(ends_with_text(&hay, "blocknet.exe"));
    assert!(!ends_with_text(&hay, ".exe "));
    assert!(!ends_with_text(&hay, "xblocknet.exe"));
    assert!(!ends_with_text(&hay, "blocknet"));
    assert!(is_text(&hay, "blocknet.exe"));
    assert!(!is_text(&hay, "blocknetxexe"));
    assert!(!is_text(&hay, "blocknet.ex"));
    assert!(is_text(&vec![], ""));
}

#[test]
fn byte_limits_count_every_character_by_its_width() {
    let v = chars("aé€😀");
    assert!(fits_bytes(&v, 0, 4, 10));
    assert!(!fits_bytes(&v, 0, 4, 9));
    assert!(fits_bytes(&v, 1, 3, 5));
    assert!(!fits_bytes(&v, 1, 3, 4));
    assert!(fits_bytes(&v, 2, 2, 0));
    assert!(!fits_bytes(&v, 0, 1, 0));
}
