use flagpole::flag::{Flag, FlagError, FlagField, MAX_LEN, MIN_LEN};
use flagpole::namespace::{Namespace, NamespaceError};
use flagpole::numeral::{decimal, hex};
use flagpole::unstr::UnreservedString;

#[test]
fn unreserved_string_accepts_the_whole_alphabet() {
    let text = "abcdefghijklmnopqrstuvwxyzABCDEFGHIJKLMNOPQRSTUVWXYZ0123456789-._~";
    let s = UnreservedString::new(text).unwrap();
    assert_eq!(s.as_str(), text);
    assert_eq!(s.len(), 66);
}

#[test]
fn unreserved_string_accepts_the_documented_example() {
    let s = UnreservedString::new("Safe-String-123").unwrap();
    assert_eq!(s.len(), 15);
    assert_eq!(s.as_str(), "Safe-String-123");
}

#[test]
fn unreserved_string_accepts_the_empty_text() {
    let s = UnreservedString::new("").unwrap();
    assert_eq!(s.len(), 0);
}

#[test]
fn unreserved_string_reports_the_first_offending_byte() {
    assert_eq!(UnreservedString::new("a b/c").err(), Some(b' '));
    assert_eq!(UnreservedString::new("ab/c d").err(), Some(b'/'));
    assert_eq!(UnreservedString::new("@").err(), Some(64));
}

#[test]
fn unreserved_string_reports_the_lead_byte_of_a_wide_character() {
    assert_eq!(UnreservedString::new("caf\u{e9}").err(), Some(0xc3));
}

#[test]
fn check_knows_the_neighbours_of_each_range() {
    for byte in 0u8..=255 {
        let expected = byte.is_ascii_alphanumeric() || b"-._~".contains(&byte);
        assert_eq!(UnreservedString::check(byte), expected, "byte {}", byte);
    }
    assert!(!UnreservedString::check(b'`'));
    assert!(!UnreservedString::check(b'{'));
    assert!(!UnreservedString::check(b'@'));
    assert!(!UnreservedString::check(b'['));
    assert!(!UnreservedString::check(b'/'));
    assert!(!UnreservedString::check(b':'));
}

#[test]
fn parse_accepts_every_length_from_one_to_the_limit() {
    assert_eq!(MIN_LEN, 1);
    assert_eq!(MAX_LEN, 128);
    for len in 1..=128usize {
        let text = "x".repeat(len);
        let parsed = Flag::parse(&text, FlagField::Key).unwrap();
        assert_eq!(parsed.as_str(), text);
        assert_eq!(parsed.len(), len);
    }
}

#[test]
fn parse_rejects_the_empty_text_by_its_length() {
    assert_eq!(
        Flag::parse("", FlagField::Namespace).err(),
        Some(FlagError::Length(FlagField::Namespace, 0))
    );
}

#[test]
fn parse_rejects_a_text_one_byte_too_long() {
    let text = "y".repeat(129);
    assert_eq!(
        Flag::parse(&text, FlagField::Key).err(),
        Some(FlagError::Length(FlagField::Key, 129))
    );
}

#[test]
fn parse_reports_a_byte_before_a_length() {
    let text = format!("{}!", "z".repeat(200));
    assert_eq!(
        Flag::parse(&text, FlagField::Namespace).err(),
        Some(FlagError::InvalidByte(FlagField::Namespace, b'!'))
    );
}

#[test]
fn parse_names_the_field_it_was_given() {
    assert_eq!(
        Flag::parse("a b", FlagField::Key).err(),
        Some(FlagError::InvalidByte(FlagField::Key, 32))
    );
    assert_eq!(
        Flag::parse("a b", FlagField::Namespace).err(),
        Some(FlagError::InvalidByte(FlagField::Namespace, 32))
    );
}

#[test]
fn flag_new_keeps_both_identifiers() {
    let flag = Flag::new("team-a", "dark-mode").unwrap();
    assert_eq!(flag.namespace(), "team-a");
    assert_eq!(flag.key(), "dark-mode");
    assert_eq!(flag.to_text(), "dark-mode@team-a");
}

#[test]
fn flag_new_judges_the_namespace_first() {
    assert_eq!(
        Flag::new("", "not valid").err(),
        Some(FlagError::Length(FlagField::Namespace, 0))
    );
    assert_eq!(
        Flag::new("team-a", "not valid").err(),
        Some(FlagError::InvalidByte(FlagField::Key, b' '))
    );
    assert_eq!(
        Flag::new("team/a", "").err(),
        Some(FlagError::InvalidByte(FlagField::Namespace, b'/'))
    );
}

#[test]
fn flag_error_messages_are_exact() {
    assert_eq!(
        FlagError::Length(FlagField::Namespace, 0).message(),
        "Namespace had an invalid length: 0. Expected length 1 <= 128"
    );
    assert_eq!(
        FlagError::Length(FlagField::Key, 129).message(),
        "Key had an invalid length: 129. Expected length 1 <= 128"
    );
    assert_eq!(
        FlagError::InvalidByte(FlagField::Key, 32).message(),
        "Key contained an invalid byte: 32"
    );
    assert_eq!(
        FlagError::InvalidByte(FlagField::Namespace, 255).message(),
        "Namespace contained an invalid byte: 255"
    );
}

#[test]
fn field_names_are_those_of_the_variants() {
    assert_eq!(FlagField::Namespace.name(), "Namespace");
    assert_eq!(FlagField::Key.name(), "Key");
}

#[test]
fn namespace_parse_accepts_an_identifier() {
    let ns = Namespace::parse("team-a").unwrap();
    assert_eq!(ns.as_str(), "team-a");
    let by_trait: Namespace = "team_b.1~".parse().unwrap();
    assert_eq!(by_trait.as_str(), "team_b.1~");
}

#[test]
fn namespace_parse_names_each_fault() {
    assert_eq!(Namespace::parse("").err(), Some(NamespaceError::Length));
    assert_eq!(Namespace::parse(&"n".repeat(129)).err(), Some(NamespaceError::Length));
    assert_eq!(Namespace::parse("team a").err(), Some(NamespaceError::Character));
    assert_eq!(
        Namespace::parse(&format!("{}?", "n".repeat(300))).err(),
        Some(NamespaceError::Character)
    );
    assert!(Namespace::parse(&"n".repeat(128)).is_ok());
}

#[test]
fn hex_matches_the_standard_formatting() {
    assert_eq!(hex(0), "0");
    assert_eq!(hex(9), "9");
    assert_eq!(hex(10), "a");
    assert_eq!(hex(15), "f");
    assert_eq!(hex(16), "10");
    assert_eq!(hex(255), "ff");
    assert_eq!(hex(0xdead_beef), "deadbeef");
    assert_eq!(hex(1_700_000_000_000), format!("{:x}", 1_700_000_000_000u128));
    assert_eq!(hex(u128::MAX), "f".repeat(32));
}

#[test]
fn decimal_matches_the_standard_formatting() {
    assert_eq!(decimal(0), "0");
    assert_eq!(decimal(7), "7");
    assert_eq!(decimal(10), "10");
    assert_eq!(decimal(128), "128");
    assert_eq!(decimal(1_000_000), "1000000");
    assert_eq!(decimal(u128::MAX), format!("{}", u128::MAX));
}

#[test]
fn namespace_from_str_judges_as_parse_does() {
    assert_eq!("".parse::<Namespace>().err(), Some(NamespaceError::Length));
    assert_eq!("n".repeat(129).parse::<Namespace>().err(), Some(NamespaceError::Length));
    assert_eq!("team a".parse::<Namespace>().err(), Some(NamespaceError::Character));
    assert_eq!("team-a".parse::<Namespace>().unwrap().as_str(), "team-a");
}
