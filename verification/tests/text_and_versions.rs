use nmos_node::text::{
    copy_ids, copy_optional_text, copy_texts, decimal_text, parse_bool, parse_plain_u8, parse_u8,
    same_text, split_commas,
};
use nmos_node::version::APIVersion;

#[test]
fn decimal_text_writes_numbers() {
    assert_eq!(decimal_text(0), "0");
    assert_eq!(decimal_text(7), "7");
    assert_eq!(decimal_text(1234567890), "1234567890");
    assert_eq!(decimal_text(u64::MAX), "18446744073709551615");
}

#[test]
fn parse_u8_follows_the_integer_grammar() {
    assert_eq!(parse_u8("0"), Some(0));
    assert_eq!(parse_u8("255"), Some(255));
    assert_eq!(parse_u8("+7"), Some(7));
    assert_eq!(parse_u8("007"), Some(7));
    assert_eq!(parse_u8("256"), None);
    assert_eq!(parse_u8(""), None);
    assert_eq!(parse_u8("+"), None);
    assert_eq!(parse_u8("-1"), None);
    assert_eq!(parse_u8(" 1"), None);
    assert_eq!(parse_u8("1a"), None);
    assert_eq!(parse_u8("99999999999999999999999"), None);
}

#[test]
fn parse_u8_agrees_with_std() {
    for s in ["0", "12", "+12", "++1", "300", "", "1 ", "0000000001", "2x5"] {
        assert_eq!(parse_u8(s), s.parse::<u8>().ok());
    }
}

#[test]
fn parse_plain_u8_takes_digits_only() {
    assert_eq!(parse_plain_u8("13"), Some(13));
    assert_eq!(parse_plain_u8("+13"), None);
    assert_eq!(parse_plain_u8(""), None);
}

#[test]
fn parse_bool_takes_two_spellings() {
    assert_eq!(parse_bool("true"), Some(true));
    assert_eq!(parse_bool("false"), Some(false));
    assert_eq!(parse_bool("True"), None);
    assert_eq!(parse_bool("1"), None);
    assert_eq!(parse_bool(""), None);
}

#[test]
fn split_commas_keeps_empty_pieces() {
    assert_eq!(split_commas("v1.0,v1.3"), vec!["v1.0".to_string(), "v1.3".to_string()]);
    assert_eq!(split_commas(""), vec!["".to_string()]);
    assert_eq!(split_commas("a,"), vec!["a".to_string(), "".to_string()]);
    assert_eq!(split_commas(",a"), vec!["".to_string(), "a".to_string()]);
    assert_eq!(split_commas("abc"), vec!["abc".to_string()]);
}

#[test]
fn versions_read_and_write() {
    assert_eq!(APIVersion::parse("v1.3"), Some(APIVersion { major: 1, minor: 3 }));
    assert_eq!(APIVersion::parse("v1.0"), Some(APIVersion::v1_0()));
    assert_eq!(APIVersion::parse("v10.255"), Some(APIVersion { major: 10, minor: 255 }));
    assert_eq!(APIVersion::parse("1.3"), None);
    assert_eq!(APIVersion::parse("v1"), None);
    assert_eq!(APIVersion::parse("v1."), None);
    assert_eq!(APIVersion::parse("v.3"), None);
    assert_eq!(APIVersion::parse("v1.3.1"), None);
    assert_eq!(APIVersion::parse("v1.256"), None);
    assert_eq!(APIVersion::parse(""), None);
    assert_eq!(APIVersion::v1_3().to_text(), "v1.3");
    assert_eq!(APIVersion { major: 12, minor: 0 }.to_text(), "v12.0");
}

#[test]
fn supported_versions_are_two() {
    assert!(APIVersion::v1_0().is_supported());
    assert!(APIVersion::v1_3().is_supported());
    assert!(!APIVersion { major: 1, minor: 1 }.is_supported());
    assert!(!APIVersion { major: 2, minor: 0 }.is_supported());
}

#[test]
fn texts_compare_by_their_characters() {
    assert!(same_text("", ""));
    assert!(same_text("pri", "pri"));
    assert!(!same_text("pri", "pr"));
    assert!(!same_text("pri", "prI"));
    assert!(same_text("näme", "näme"));
}

#[test]
fn copies_of_lists_keep_order_and_content() {
    assert_eq!(copy_texts(&vec!["b".to_string(), "a".to_string()]), vec!["b".to_string(), "a".to_string()]);
    assert_eq!(copy_texts(&vec![]), Vec::<String>::new());
    assert_eq!(copy_ids(&vec![3, 1, 2]), vec![3, 1, 2]);
    assert_eq!(copy_optional_text(&Some("x".to_string())), Some("x".to_string()));
    assert_eq!(copy_optional_text(&None), None);
}
