use booper::pattern::{
    assignment_pattern_text, is_assigned, key_assigned, key_ends, loose_pattern_text, lower,
    precise_pattern_text,
};
use booper::text::{append_bytes, same_bytes};
use booper::rewriter::{
    classify, fit, mentions, pattern_text, plan, rewrite, rewrite_all, sound_span, substitute,
    word_byte,
    FileClassification, RewriteError, SourceFile,
};

fn file(name: &str, contents: &str) -> SourceFile {
    SourceFile { name: name.to_string(), contents: contents.as_bytes().to_vec() }
}

fn rewrite_text(class: FileClassification, from: &str, to: &str, text: &str) -> String {
    String::from_utf8(rewrite(class, from, to, text.as_bytes()).unwrap()).unwrap()
}

#[test]
fn classify_goes_by_the_name() {
    assert_eq!(classify("Cargo.toml"), FileClassification::Precise);
    assert_eq!(classify("Cargo.lock"), FileClassification::Skip);
    assert_eq!(classify(".env"), FileClassification::Loose);
    assert_eq!(classify("README.md"), FileClassification::Loose);
    assert_eq!(classify("cargo.toml"), FileClassification::Loose);
    assert_eq!(classify(""), FileClassification::Loose);
}

#[test]
fn patterns_take_the_version_literally() {
    assert_eq!(precise_pattern_text("1.0.0"), "(?i-u:version) ?= ?\"(1\\.0\\.0)\"");
    assert_eq!(loose_pattern_text("1.0.0"), "\\b(1\\.0\\.0)\\b");
    assert_eq!(loose_pattern_text("1.0.0-a+b"), "\\b(1\\.0\\.0\\-a\\+b)\\b");
    assert_eq!(assignment_pattern_text(), "(?i-u:version) ?= ?\"([^\"]+)\"");
    assert_eq!(pattern_text(FileClassification::Precise, "2.1.0"), precise_pattern_text("2.1.0"));
    assert_eq!(pattern_text(FileClassification::Loose, "2.1.0"), loose_pattern_text("2.1.0"));
}

#[test]
fn precise_replaces_only_the_quoted_value() {
    assert_eq!(
        rewrite_text(FileClassification::Precise, "1.0.0", "1.0.1", "version = \"1.0.0\""),
        "version = \"1.0.1\""
    );
}

#[test]
fn precise_keeps_the_surrounding_text() {
    let before = "[package]\nname = \"demo\"\nversion = \"1.0.0\"\nedition = \"2021\"\n\n[dependencies]\nother = \"1.0.0\"\n";
    let after = "[package]\nname = \"demo\"\nversion = \"1.0.1\"\nedition = \"2021\"\n\n[dependencies]\nother = \"1.0.0\"\n";
    assert_eq!(rewrite_text(FileClassification::Precise, "1.0.0", "1.0.1", before), after);
}

#[test]
fn precise_key_is_matched_in_any_case() {
    assert_eq!(
        rewrite_text(FileClassification::Precise, "1.0.0", "2.0.0", "VERSION=\"1.0.0\"\nVersion =\"1.0.0\""),
        "VERSION=\"2.0.0\"\nVersion =\"2.0.0\""
    );
}

#[test]
fn precise_ignores_another_version() {
    let text = "version = \"1.0.1\"";
    assert!(!mentions(FileClassification::Precise, "1.0.0", text.as_bytes()));
    assert_eq!(rewrite_text(FileClassification::Precise, "1.0.0", "9.9.9", text), text);
}

#[test]
fn loose_replaces_every_whole_word() {
    assert_eq!(
        rewrite_text(
            FileClassification::Loose,
            "1.0.0",
            "1.1.0",
            "release 1.0.0 (was 0.9.0); see docs/1.0.0/index.html and v1.0.0"
        ),
        "release 1.1.0 (was 0.9.0); see docs/1.1.0/index.html and v1.0.0"
    );
}

#[test]
fn loose_does_not_match_inside_a_longer_number() {
    assert!(!mentions(FileClassification::Loose, "1.0.0", b"11.0.0"));
    assert!(!mentions(FileClassification::Loose, "1.0.0", b"1.0.00"));
    assert_eq!(rewrite_text(FileClassification::Loose, "1.0.0", "2.0.0", "11.0.0"), "11.0.0");
    assert_eq!(rewrite_text(FileClassification::Loose, "1.0.0", "2.0.0", "1.0.00"), "1.0.00");
    assert_eq!(
        rewrite_text(FileClassification::Loose, "1.0.0", "2.0.0", "11.0.0 1.0.0 1.0.00"),
        "11.0.0 2.0.0 1.0.00"
    );
}

#[test]
fn dots_of_the_version_are_not_wildcards() {
    assert!(!mentions(FileClassification::Loose, "1.0.0", b"1x0y0"));
    assert!(!mentions(FileClassification::Precise, "1.0.0", b"version = \"1a0b0\""));
    assert!(mentions(FileClassification::Loose, "1.0.0", b"now at 1.0.0."));
}

#[test]
fn mentions_needs_one_match() {
    assert!(mentions(FileClassification::Precise, "1.0.0", b"version = \"1.0.0\""));
    assert!(!mentions(FileClassification::Precise, "1.0.0", b"see 1.0.0"));
    assert!(mentions(FileClassification::Loose, "1.0.0", b"see 1.0.0"));
    assert!(!mentions(FileClassification::Loose, "1.0.0", b""));
}

#[test]
fn lock_file_is_never_touched() {
    assert!(!mentions(FileClassification::Skip, "1.0.0", b"version = \"1.0.0\""));
    assert_eq!(
        rewrite(FileClassification::Skip, "1.0.0", "1.0.1", b"version = \"1.0.0\""),
        Err(RewriteError::Skipped)
    );
}

#[test]
fn rewrite_to_a_longer_and_a_shorter_version() {
    assert_eq!(rewrite_text(FileClassification::Loose, "1.0.0", "10.20.30-pre", "a 1.0.0 b"), "a 10.20.30-pre b");
    assert_eq!(rewrite_text(FileClassification::Loose, "10.20.30-pre", "1.0.0", "a 10.20.30-pre b"), "a 1.0.0 b");
}

#[test]
fn rewrite_to_the_same_version_changes_nothing() {
    let text = "x 1.0.0 y 1.0.0 z";
    assert_eq!(rewrite_text(FileClassification::Loose, "1.0.0", "1.0.0", text), text);
}

#[test]
fn substitute_replaces_spans_in_order() {
    let spans = vec![Some((0, 2)), None, Some((4, 6))];
    assert_eq!(substitute(FileClassification::Loose, b"ab--ab!", &spans, b"ab", b"xyz"), Some(b"xyz--xyz!".to_vec()));
    assert_eq!(substitute(FileClassification::Loose, b"ab--ab!", &Vec::new(), b"ab", b"xyz"), Some(b"ab--ab!".to_vec()));
    assert_eq!(substitute(FileClassification::Loose, b"", &Vec::new(), b"ab", b"xyz"), Some(Vec::new()));
}

#[test]
fn substitute_refuses_spans_that_do_not_fit() {
    assert_eq!(substitute(FileClassification::Loose, b"ab--ab", &vec![Some((4, 6)), Some((0, 2))], b"ab", b"x"), None);
    assert_eq!(substitute(FileClassification::Loose, b"ab--ab", &vec![Some((4, 7))], b"ab", b"x"), None);
    assert_eq!(substitute(FileClassification::Loose, b"ab--ab", &vec![Some((2, 1))], b"ab", b"x"), None);
    assert_eq!(substitute(FileClassification::Loose, b"abab", &vec![Some((0, 2)), Some((1, 3))], b"ab", b"x"), None);
    assert_eq!(substitute(FileClassification::Loose, b"ab--ab", &vec![Some((1, 3))], b"ab", b"x"), None);
}

#[test]
fn plan_lists_the_files_that_mention_the_version() {
    let files = vec![
        file("Cargo.toml", "name = \"demo\"\nversion = \"1.2.3\"\n"),
        file("Cargo.lock", "version = \"1.2.3\"\n"),
        file("README.md", "no version here"),
        file(".env", "VERSION = \"1.2.3\"\n"),
        file("notes.txt", "11.2.3 and 1.2.33"),
        file("CHANGELOG.md", "## 1.2.3\n"),
    ];
    assert_eq!(plan(&files, "1.2.3"), vec![0, 3, 5]);
    assert_eq!(plan(&files, "4.5.6"), Vec::<usize>::new());
    assert_eq!(plan(&Vec::new(), "1.2.3"), Vec::<usize>::new());
}

#[test]
fn plan_changes_nothing() {
    let files = vec![file("Cargo.toml", "version = \"1.2.3\"\n")];
    let _ = plan(&files, "1.2.3");
    assert_eq!(files[0].contents, b"version = \"1.2.3\"\n".to_vec());
}

#[test]
fn manifest_only_counts_assignments() {
    let files = vec![file("Cargo.toml", "demo = \"1.2.3\"\n")];
    assert_eq!(plan(&files, "1.2.3"), Vec::<usize>::new());
}

#[test]
fn byte_helpers() {
    assert!(same_bytes(b"abc", b"abc"));
    assert!(!same_bytes(b"abc", b"abd"));
    assert!(!same_bytes(b"abc", b"ab"));
    assert!(same_bytes(b"", b""));
    let mut out = b"ab".to_vec();
    append_bytes(&mut out, b"cd");
    append_bytes(&mut out, b"");
    assert_eq!(out, b"abcd".to_vec());
}

#[test]
fn rewrite_all_follows_the_list() {
    let files = vec![
        file("Cargo.toml", "version = \"1.2.3\"\nother = \"1.2.3\"\n"),
        file("README.md", "none"),
        file("notes.txt", "1.2.3, 1.2.3 and 1.2.30"),
    ];
    assert_eq!(
        rewrite_all(&files, &vec![2, 0], "1.2.3", "2.0.0"),
        Ok(vec![
            b"2.0.0, 2.0.0 and 1.2.30".to_vec(),
            b"version = \"2.0.0\"\nother = \"1.2.3\"\n".to_vec(),
        ])
    );
    assert_eq!(rewrite_all(&files, &vec![1], "1.2.3", "2.0.0"), Ok(vec![b"none".to_vec()]));
    assert_eq!(rewrite_all(&files, &Vec::new(), "1.2.3", "2.0.0"), Ok(Vec::new()));
}

#[test]
fn rewrite_all_stops_at_the_first_error() {
    let files = vec![file("Cargo.lock", "version = \"1.2.3\""), file("a.txt", "1.2.3")];
    assert_eq!(rewrite_all(&files, &vec![1, 0, 9], "1.2.3", "2.0.0"), Err(RewriteError::Skipped));
    assert_eq!(rewrite_all(&files, &vec![1, 9, 0], "1.2.3", "2.0.0"), Err(RewriteError::Missing));
}

#[test]
fn substitute_replaces_only_whole_words() {
    let loose = FileClassification::Loose;
    assert_eq!(substitute(loose, b"11.0.0", &vec![Some((1, 6))], b"1.0.0", b"2.0.0"), None);
    assert_eq!(substitute(loose, b"1.0.00", &vec![Some((0, 5))], b"1.0.0", b"2.0.0"), None);
    assert_eq!(substitute(loose, b"v1.0.0", &vec![Some((1, 6))], b"1.0.0", b"2.0.0"), None);
    assert_eq!(substitute(loose, b"1.0.0_x", &vec![Some((0, 5))], b"1.0.0", b"2.0.0"), None);
    assert_eq!(
        substitute(loose, b"(1.0.0)", &vec![Some((1, 6))], b"1.0.0", b"2.0.0"),
        Some(b"(2.0.0)".to_vec())
    );
    assert_eq!(
        substitute(loose, b"1.0.0", &vec![Some((0, 5))], b"1.0.0", b"2.0.0"),
        Some(b"2.0.0".to_vec())
    );
    assert_eq!(
        substitute(loose, "\u{e9}1.0.0\u{e9}".as_bytes(), &vec![Some((2, 7))], b"1.0.0", b"2"),
        Some("\u{e9}2\u{e9}".as_bytes().to_vec())
    );
}

#[test]
fn substitute_replaces_only_quoted_values_in_the_manifest() {
    let precise = FileClassification::Precise;
    assert_eq!(
        substitute(precise, b"version = \"1.0.0\"", &vec![Some((11, 16))], b"1.0.0", b"1.0.1"),
        Some(b"version = \"1.0.1\"".to_vec())
    );
    assert_eq!(substitute(precise, b"version = 1.0.0", &vec![Some((10, 15))], b"1.0.0", b"1.0.1"), None);
    assert_eq!(substitute(precise, b"edition = \"1.0.0\"", &vec![Some((11, 16))], b"1.0.0", b"1.0.1"), None);
    assert_eq!(substitute(precise, b"version  = \"1.0.0\"", &vec![Some((12, 17))], b"1.0.0", b"1.0.1"), None);
    assert_eq!(
        substitute(precise, b"rust-VERSION =\"1.0.0\"", &vec![Some((15, 20))], b"1.0.0", b"1.0.1"),
        Some(b"rust-VERSION =\"1.0.1\"".to_vec())
    );
    assert_eq!(substitute(precise, b"\"1.0.0", &vec![Some((1, 6))], b"1.0.0", b"1.0.1"), None);
    assert_eq!(substitute(precise, b"1.0.0\"", &vec![Some((0, 5))], b"1.0.0", b"1.0.1"), None);
}

#[test]
fn sound_span_checks_place_and_content() {
    assert!(sound_span(FileClassification::Loose, b"a 1.0.0 b", 2, 7, b"1.0.0"));
    assert!(!sound_span(FileClassification::Loose, b"a 1.0.0 b", 2, 7, b"1.0.1"));
    assert!(!sound_span(FileClassification::Loose, b"a 1.0.0 b", 2, 10, b"1.0.0"));
    assert!(!sound_span(FileClassification::Loose, b"a 1.0.0 b", 7, 2, b"1.0.0"));
    assert!(!sound_span(FileClassification::Precise, b"a 1.0.0 b", 2, 7, b"1.0.0"));
    assert!(!sound_span(FileClassification::Precise, b"a\"1.0.0\"b", 2, 7, b"1.0.0"));
    assert!(sound_span(FileClassification::Precise, b"version=\"1.0.0\"", 9, 14, b"1.0.0"));
    assert!(sound_span(FileClassification::Loose, b"abc", 1, 1, b""));
    assert!(sound_span(FileClassification::Loose, b"a-x-b", 1, 4, b"-x-"));
}

#[test]
fn word_bytes_are_letters_digits_and_underscore() {
    for b in [b'0', b'9', b'A', b'Z', b'a', b'z', b'_'] {
        assert!(word_byte(b));
    }
    for b in [b'/', b':', b'@', b'[', b'`', b'{', b'.', b'-', b' ', b'"', 0u8, 0x80u8, 0xffu8] {
        assert!(!word_byte(b));
    }
}

#[test]
fn version_that_ends_in_a_hyphen_is_still_found() {
    assert_eq!(
        rewrite_text(FileClassification::Loose, "1.0.0-a-", "2.0.0", "see 1.0.0-a-x"),
        "see 2.0.0x"
    );
}

#[test]
fn assignment_shape_is_checked_byte_by_byte() {
    let text = b"Version = \"1.0.0\"";
    assert!(key_ends(text, 7));
    assert!(!key_ends(text, 6));
    assert!(!key_ends(text, 8));
    assert!(key_assigned(text, 9));
    assert!(!key_assigned(text, 8));
    assert!(is_assigned(text, 11, 16));
    assert!(!is_assigned(text, 11, 15));
    assert!(!is_assigned(text, 12, 16));
    assert!(is_assigned(b"version=\"x\"", 9, 10));
    assert!(is_assigned(b"version =\"x\"", 10, 11));
    assert!(is_assigned(b"version= \"x\"", 10, 11));
    assert!(is_assigned(b"version=\"\"", 9, 9));
    assert!(!is_assigned(b"version  =\"x\"", 11, 12));
    assert!(!is_assigned(b"versio =\"x\"", 9, 10));
    assert!(!is_assigned(b"\"x\"", 1, 2));
    assert!(!is_assigned(b"version=\"x", 9, 10));
    assert_eq!(lower(b'A'), b'a');
    assert_eq!(lower(b'Z'), b'z');
    assert_eq!(lower(b'a'), b'a');
    assert_eq!(lower(b'@'), b'@');
    assert_eq!(lower(b'['), b'[');
}

#[test]
fn key_is_matched_in_ascii_only() {
    let text = "ver\u{17f}ion = \"1.0.0\"";
    assert!(!mentions(FileClassification::Precise, "1.0.0", text.as_bytes()));
}

#[test]
fn fit_agrees_with_substitute() {
    let loose = FileClassification::Loose;
    assert!(fit(loose, b"ab--ab!", &vec![Some((0, 2)), None, Some((4, 6))], b"ab"));
    assert!(fit(loose, b"ab--ab!", &Vec::new(), b"ab"));
    assert!(!fit(loose, b"ab--ab", &vec![Some((4, 6)), Some((0, 2))], b"ab"));
    assert!(!fit(loose, b"ab--ab", &vec![Some((4, 7))], b"ab"));
    assert!(!fit(loose, b"xab", &vec![Some((1, 3))], b"ab"));
    assert!(!fit(FileClassification::Precise, b"ab--ab!", &vec![Some((0, 2))], b"ab"));
}

#[test]
fn every_meta_character_is_escaped() {
    let all = "\\.+*?()|[]{}^$#&-~";
    assert_eq!(
        loose_pattern_text(all),
        "\\b(\\\\\\.\\+\\*\\?\\(\\)\\|\\[\\]\\{\\}\\^\\$\\#\\&\\-\\~)\\b"
    );
    let plain = "aZ09_ %/!\"',:;<=>@`\u{e9}\n";
    let mut expected = String::from("\\b(");
    expected.push_str(plain);
    expected.push_str(")\\b");
    assert_eq!(loose_pattern_text(plain), expected);
    assert_eq!(loose_pattern_text(""), "\\b()\\b");
    assert_eq!(precise_pattern_text("a.b"), "(?i-u:version) ?= ?\"(a\\.b)\"");
}
