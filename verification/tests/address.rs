use vibebar::address::parse_sni_address;
use vibebar::address::select_full_address;
use vibebar::address::str_starts_with;

#[test]
fn parse_bare_destination() {
    let (dest, path) = parse_sni_address("1.58");
    assert_eq!(dest, "1.58");
    assert_eq!(path, "/StatusNotifierItem");
}

#[test]
fn parse_destination_with_path() {
    let (dest, path) = parse_sni_address("1.58/org/blueman/sni");
    assert_eq!(dest, "1.58");
    assert_eq!(path, "/org/blueman/sni");
}

#[test]
fn parse_empty_address() {
    let (dest, path) = parse_sni_address("");
    assert_eq!(dest, "");
    assert_eq!(path, "/StatusNotifierItem");
}

#[test]
fn parse_leading_slash() {
    let (dest, path) = parse_sni_address("/already/a/path");
    assert_eq!(dest, "");
    assert_eq!(path, "/already/a/path");
}

#[test]
fn starts_with_basics() {
    assert!(str_starts_with(":1.58/org/x", ":1.58"));
    assert!(str_starts_with("abc", ""));
    assert!(!str_starts_with("ab", "abc"));
    assert!(!str_starts_with("xbc", "ab"));
}

#[test]
fn full_address_first_match_wins() {
    let items = vec![
        String::from(":1.7/other"),
        String::from(":1.58/org/blueman/sni"),
        String::from(":1.58/second"),
    ];
    let full = select_full_address(&items, ":1.58");
    assert_eq!(full, ":1.58/org/blueman/sni");
}

#[test]
fn full_address_fallback_when_no_match() {
    let items = vec![String::from(":1.7/other")];
    let full = select_full_address(&items, ":1.58");
    assert_eq!(full, ":1.58/StatusNotifierItem");
}

#[test]
fn full_address_fallback_on_empty_list() {
    let items: Vec<String> = Vec::new();
    let full = select_full_address(&items, ":1.2");
    assert_eq!(full, ":1.2/StatusNotifierItem");
}

#[test]
fn namespace_is_fixed() {
    assert_eq!(vibebar::namespace(), "vibebar");
}
