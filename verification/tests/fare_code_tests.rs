use std::cmp::Ordering;
use std::collections::HashSet;
use std::str::FromStr;

use atpco_codes::fare_code::{FareCode, FareCodeParseError};

#[test]
fn parse_ab_succeeds_and_names_ab() {
    let code = FareCode::from_str("AB").unwrap();
    assert_eq!(code.name(), "AB");
}

#[test]
fn parse_empty_fails_with_length_zero() {
    let err = FareCode::from_str("").unwrap_err();
    assert!(matches!(err, FareCodeParseError::InvalidLength(0)));
}

#[test]
fn parse_toolong_fails_with_length_seven() {
    let err = FareCode::from_str("TOOLONG").unwrap_err();
    assert!(matches!(err, FareCodeParseError::InvalidLength(7)));
}

#[test]
fn parse_six_bytes_fails_with_length_six() {
    let err = FareCode::from_str("ABCDEF").unwrap_err();
    assert!(matches!(err, FareCodeParseError::InvalidLength(6)));
}

#[test]
fn round_trip_every_valid_length() {
    for text in ["A", "XP", "XPN", "ABCD", "ABCDE"] {
        let code = FareCode::from_str(text).unwrap();
        assert_eq!(code.name(), text);
    }
}

#[test]
fn length_is_counted_in_bytes() {
    let code = FareCode::from_str("\u{e9}").unwrap();
    assert_eq!(code.name(), "\u{e9}");
    let code = FareCode::from_str("a\u{e9}b").unwrap();
    assert_eq!(code.name(), "a\u{e9}b");
    // Five characters, six bytes: rejected on the byte count.
    let err = FareCode::from_str("h\u{e9}llo").unwrap_err();
    assert!(matches!(err, FareCodeParseError::InvalidLength(6)));
}

#[test]
fn equality_matches_source_text() {
    let ab1 = FareCode::from_str("AB").unwrap();
    let ab2 = FareCode::from_str("AB").unwrap();
    let ac = FareCode::from_str("AC").unwrap();
    let abc = FareCode::from_str("ABC").unwrap();
    let a = FareCode::from_str("A").unwrap();
    assert_eq!(ab1, ab2);
    assert_ne!(ab1, ac);
    assert_ne!(ab1, abc);
    assert_ne!(a, ab1);
}

#[test]
fn ordering_is_total_and_consistent_with_equality() {
    let texts = ["A", "Z", "AA", "AB", "AC", "ABC", "ABCDE"];
    for t1 in texts {
        for t2 in texts {
            let c1 = FareCode::from_str(t1).unwrap();
            let c2 = FareCode::from_str(t2).unwrap();
            let ord = c1.partial_cmp(&c2).unwrap();
            assert_eq!(ord == Ordering::Equal, c1 == c2);
            assert_eq!(ord == Ordering::Equal, t1 == t2);
            assert_eq!(c1.cmp(&c2), ord);
            assert_eq!(c2.partial_cmp(&c1).unwrap(), ord.reverse());
        }
    }
}

#[test]
fn shorter_codes_order_before_longer_ones() {
    // The length prefix is compared first, so any one-byte code sorts
    // before any two-byte code.
    let z = FareCode::from_str("Z").unwrap();
    let aa = FareCode::from_str("AA").unwrap();
    assert!(z < aa);
    let ab = FareCode::from_str("AB").unwrap();
    let ac = FareCode::from_str("AC").unwrap();
    assert!(ab < ac);
}

#[test]
fn equal_codes_hash_alike() {
    let mut set = HashSet::new();
    set.insert(FareCode::from_str("XPN").unwrap());
    set.insert(FareCode::from_str("XPN").unwrap());
    set.insert(FareCode::from_str("XPV").unwrap());
    assert_eq!(set.len(), 2);
}

#[test]
fn error_message_names_the_length() {
    let err = FareCode::from_str("TOOLONG").unwrap_err();
    assert_eq!(err.message(), "invalid length 7, expected 1-5");
    let err = FareCode::from_str("").unwrap_err();
    assert_eq!(err.message(), "invalid length 0, expected 1-5");
    let err = FareCode::from_str("AAAAAAAAAAAA").unwrap_err();
    assert_eq!(err.message(), "invalid length 12, expected 1-5");
}

#[test]
fn fare_code_parses_through_from_str_trait() {
    let code: FareCode = "XPN".parse().unwrap();
    assert_eq!(code.name(), "XPN");
    assert!("".parse::<FareCode>().is_err());
}

#[test]
fn clone_preserves_the_code() {
    let code = FareCode::from_str("XPN").unwrap();
    let copy = code.clone();
    assert_eq!(code, copy);
    assert_eq!(copy.name(), "XPN");
}
