use libgreetd_stub::parse::parse_credentials;

#[test]
fn splits_at_the_colon() {
    let parsed = parse_credentials("alice:secret");
    assert_eq!(parsed, Some(("alice".to_string(), "secret".to_string())));
}

#[test]
fn splits_at_the_first_colon_only() {
    let parsed = parse_credentials("a:b:c");
    assert_eq!(parsed, Some(("a".to_string(), "b:c".to_string())));
}

#[test]
fn without_a_colon_there_is_no_split() {
    assert_eq!(parse_credentials("alice"), None);
    assert_eq!(parse_credentials(""), None);
}

#[test]
fn multibyte_characters_are_split_correctly() {
    let parsed = parse_credentials("héloïse:pässwörd");
    assert_eq!(parsed, Some(("héloïse".to_string(), "pässwörd".to_string())));
}

#[test]
fn empty_parts_are_kept() {
    assert_eq!(parse_credentials(":pw"), Some(("".to_string(), "pw".to_string())));
    assert_eq!(parse_credentials("user:"), Some(("user".to_string(), "".to_string())));
    assert_eq!(parse_credentials(":"), Some(("".to_string(), "".to_string())));
}
