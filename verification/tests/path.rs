use match_broker::path::parse_match_path;

#[test]
fn path_with_small_letters_names_a_match() {
    assert_eq!(parse_match_path("/match/abc"), Some("abc".to_string()));
}

#[test]
fn path_with_hyphens_names_a_match() {
    assert_eq!(parse_match_path("/match/red-fox-den"), Some("red-fox-den".to_string()));
    assert_eq!(parse_match_path("/match/-"), Some("-".to_string()));
}

#[test]
fn path_without_identifier_names_nothing() {
    assert_eq!(parse_match_path("/match/"), None);
    assert_eq!(parse_match_path("/match"), None);
    assert_eq!(parse_match_path("/"), None);
    assert_eq!(parse_match_path(""), None);
}

#[test]
fn path_with_other_characters_names_nothing() {
    assert_eq!(parse_match_path("/match/Abc"), None);
    assert_eq!(parse_match_path("/match/abc1"), None);
    assert_eq!(parse_match_path("/match/abc/"), None);
    assert_eq!(parse_match_path("/match/a_b"), None);
    assert_eq!(parse_match_path("/match/abc\n"), None);
    assert_eq!(parse_match_path("/match/\u{e9}"), None);
}

#[test]
fn path_with_other_prefix_names_nothing() {
    assert_eq!(parse_match_path("/games/abc"), None);
    assert_eq!(parse_match_path("match/abcd"), None);
    assert_eq!(parse_match_path("x/match/abc"), None);
    assert_eq!(parse_match_path("/Match/abc"), None);
}
