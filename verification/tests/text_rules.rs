use commanda::text::{join_text, decimal_text, has_prefix, has_suffix, same_text, strip_leading, suffix_from, trim_leading};

#[test]
fn prefix_and_suffix_checks() {
    assert!(has_prefix("static/app.css", "static/"));
    assert!(!has_prefix("stat", "static/"));
    assert!(has_prefix("anything", ""));
    assert!(has_suffix("logo.png", ".png"));
    assert!(!has_suffix("logo.png.txt", ".png"));
    assert!(!has_suffix("g", ".png"));
}

#[test]
fn text_equality_is_exact() {
    assert!(same_text("Playing", "Playing"));
    assert!(!same_text("Playing", "playing"));
    assert!(!same_text("Play", "Playing"));
    assert!(same_text("", ""));
}

#[test]
fn concat_and_suffix() {
    assert_eq!(join_text("ab", "cd"), "abcd");
    assert_eq!(join_text("", ""), "");
    assert_eq!(suffix_from("héllo", 1), "éllo");
    assert_eq!(suffix_from("abc", 3), "");
}

#[test]
fn trim_removes_every_leading_copy() {
    assert_eq!(trim_leading("file://file:///x", "file://"), "/x");
    assert_eq!(trim_leading("abc", "x"), "abc");
    assert_eq!(trim_leading("xxx", "x"), "");
    assert_eq!(trim_leading("abc", ""), "abc");
}

#[test]
fn strip_removes_one_leading_copy() {
    assert_eq!(strip_leading("file://file:///x", "file://"), Some("file:///x".to_string()));
    assert_eq!(strip_leading("/x", "file://"), None);
}

#[test]
fn decimal_text_matches_to_string() {
    for n in [0u64, 7, 9, 10, 42, 8080, 65535, u64::MAX] {
        assert_eq!(decimal_text(n), n.to_string());
    }
}
