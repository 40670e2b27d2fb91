use csv_inserter::paths::{file_name_of, join_path};
use csv_inserter::text::{is_space_char, split_trimmed, trimmed};

#[test]
fn trim_removes_white_space_at_both_ends() {
    assert_eq!(trimmed("  a b \n"), "a b");
    assert_eq!(trimmed("\t\r "), "");
    assert_eq!(trimmed(""), "");
    assert_eq!(trimmed("\u{2003}x\u{205F}"), "x");
}

#[test]
fn white_space_agrees_with_std() {
    for c in ['\t', ' ', '\u{85}', '\u{A0}', '\u{1680}', '\u{2000}', '\u{200A}', '\u{3000}', 'a', '\u{200B}', '_'] {
        assert_eq!(is_space_char(c), c.is_whitespace());
    }
}

#[test]
fn split_keeps_every_piece() {
    assert_eq!(split_trimmed("a, b"), vec!["a".to_string(), "b".to_string()]);
    assert_eq!(split_trimmed(","), vec![String::new(), String::new()]);
}

fn name(p: &str) -> Option<String> {
    file_name_of(p)
}

#[test]
fn file_name_agrees_with_std_path() {
    for p in [
        "/w/a.csv", "a.csv", "/w/", "/w//", "/w/.", "/w/./", "/w/..", "/", "", ".", "./", "..", "./a", "//a", "a/b/.", "/.", "a/./",
    ] {
        let expected = std::path::Path::new(p).file_name().map(|n| n.to_str().unwrap().to_string());
        assert_eq!(name(p), expected, "path {:?}", p);
    }
}

#[test]
fn file_name_of_plain_paths() {
    assert_eq!(name("/w/a.csv"), Some("a.csv".to_string()));
    assert_eq!(name("/w/a.csv/"), Some("a.csv".to_string()));
    assert_eq!(name("/w/.."), None);
    assert_eq!(name("/"), None);
}

#[test]
fn join_puts_one_slash_between() {
    assert_eq!(join_path("/d", "a.csv"), "/d/a.csv");
    assert_eq!(join_path("/d/", "a.csv"), "/d/a.csv");
    assert_eq!(join_path("", "a.csv"), "a.csv");
}
