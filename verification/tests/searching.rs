use dab::text::{bytes_eq, find, has_prefix, listed, matches_at, str_eq};

#[test]
fn leftmost_occurrence_is_found() {
    assert_eq!(find(b"a*/b*/", b"*/"), Some(1));
    assert_eq!(find(b"*/", b"*/"), Some(0));
    assert_eq!(find(b"ab*/", b"*/"), Some(2));
    assert_eq!(find(b"aaa", b"aa"), Some(0));
    assert_eq!(find(b"abc", b""), Some(0));
    assert_eq!(find(b"", b""), Some(0));
}

#[test]
fn missing_pattern_is_not_found() {
    assert_eq!(find(b"a*b/", b"*/"), None);
    assert_eq!(find(b"*", b"*/"), None);
    assert_eq!(find(b"", b"*/"), None);
    assert_eq!(find(b"/*", b"*/"), None);
}

#[test]
fn pattern_is_matched_at_an_offset() {
    assert!(matches_at(b"/* c */", b"*/", 5));
    assert!(!matches_at(b"/* c */", b"*/", 4));
    assert!(!matches_at(b"/* c */", b"*/", 6));
    assert!(!matches_at(b"/* c */", b"*/", 7));
    assert!(!matches_at(b"/* c */", b"*/", usize::MAX));
    assert!(matches_at(b"abc", b"", 3));
    assert!(!matches_at(b"abc", b"", 4));
}

#[test]
fn prefix_is_recognized() {
    assert!(has_prefix(b"/* c */", b"/*"));
    assert!(has_prefix(b"/*", b"/*"));
    assert!(has_prefix(b"x", b""));
    assert!(!has_prefix(b"/", b"/*"));
    assert!(!has_prefix(b" /*", b"/*"));
    assert!(!has_prefix(b"", b"/*"));
}

#[test]
fn strings_are_compared_byte_by_byte() {
    assert!(bytes_eq(b"", b""));
    assert!(bytes_eq(b"abc", b"abc"));
    assert!(!bytes_eq(b"abc", b"abd"));
    assert!(!bytes_eq(b"abc", b"ab"));
    assert!(str_eq("public", "public"));
    assert!(str_eq("é", "é"));
    assert!(!str_eq("public", "Public"));
    assert!(!str_eq("P", ""));
}

#[test]
fn token_is_looked_up_in_a_list() {
    assert!(listed(&["public", "C"], "C"));
    assert!(listed(&["C", "C"], "C"));
    assert!(!listed(&["public", "C"], "c"));
    assert!(!listed(&[], "C"));
    assert!(listed(&[""], ""));
}
