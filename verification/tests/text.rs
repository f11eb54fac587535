use soc_net::calendar::BirthDate;
use soc_net::config::{AppConfig, Environment};
use soc_net::helpers::with_rejection::WithRejection;
use soc_net::text::{format_i32, parse_i32, strip_prefix};
use soc_net::validation::{field_ok, length_between};
use std::marker::PhantomData;

#[test]
fn parse_i32_reads_what_the_standard_parser_reads() {
    let texts = [
        "", "0", "-0", "+0", "7", "42", "-42", "+42", "007", "-007", "2147483647", "2147483648",
        "-2147483648", "-2147483649", "99999999999999999999", "-99999999999999999999",
        "00000000000000000000000000000000000012", "+", "-", "+-1", "--1", "1-", "1+1", " 1", "1 ",
        "1_000", "1.0", "0x10", "abc", "4a", "a4", "\u{661}\u{662}", "\u{ff11}", "1\u{e9}", "\n",
    ];
    for text in texts {
        assert_eq!(parse_i32(text), text.parse::<i32>().ok(), "{:?}", text);
    }
}

#[test]
fn parse_i32_values() {
    assert_eq!(parse_i32("42"), Some(42));
    assert_eq!(parse_i32("-42"), Some(-42));
    assert_eq!(parse_i32("+42"), Some(42));
    assert_eq!(parse_i32("2147483647"), Some(i32::MAX));
    assert_eq!(parse_i32("-2147483648"), Some(i32::MIN));
    assert_eq!(parse_i32("2147483648"), None);
    assert_eq!(parse_i32("-2147483649"), None);
    assert_eq!(parse_i32(""), None);
    assert_eq!(parse_i32("-"), None);
}

#[test]
fn format_i32_writes_what_the_standard_formatter_writes() {
    let numbers = [
        0, 1, -1, 9, 10, 11, 99, 100, 101, -9, -10, -100, 42, 1234567890, -1234567890, i32::MAX,
        i32::MIN, i32::MAX - 1, i32::MIN + 1,
    ];
    for number in numbers {
        assert_eq!(format_i32(number), number.to_string());
        assert_eq!(parse_i32(&format_i32(number)), Some(number));
    }
    assert_eq!(format_i32(0), "0");
    assert_eq!(format_i32(-2147483648), "-2147483648");
}

#[test]
fn strip_prefix_cuts_what_the_standard_one_cuts() {
    let cases = [
        ("Bearer abc", "Bearer "),
        ("Bearer ", "Bearer "),
        ("Bearer", "Bearer "),
        ("", "Bearer "),
        ("", ""),
        ("abc", ""),
        ("abc", "abc"),
        ("abc", "abcd"),
        ("\u{e9}t\u{e9}", "\u{e9}"),
        ("\u{e9}t\u{e9}", "e"),
        ("\u{1f600}x", "\u{1f600}"),
    ];
    for (value, prefix) in cases {
        assert_eq!(
            strip_prefix(value, prefix),
            value.strip_prefix(prefix).map(|rest| rest.to_string()),
            "{:?} {:?}",
            value,
            prefix
        );
    }
    assert_eq!(strip_prefix("Bearer abc", "Bearer "), Some("abc".to_string()));
    assert_eq!(strip_prefix("bearer abc", "Bearer "), None);
}

#[test]
fn lengths_count_characters() {
    assert!(length_between("123456", 6, 255));
    assert!(!length_between("12345", 6, 255));
    assert!(length_between("\u{e9}\u{e9}", 2, 2));
    assert!(!length_between("\u{e9}\u{e9}", 3, 4));
    assert!(length_between(&"x".repeat(255), 6, 255));
    assert!(!length_between(&"x".repeat(256), 6, 255));
    assert!(length_between("", 0, 0));
    assert!(!length_between("abc", 4, 2));
    assert!(field_ok(&None));
    assert!(field_ok(&Some("ab".to_string())));
    assert!(!field_ok(&Some("a".to_string())));
    assert!(!field_ok(&Some(String::new())));
    assert!(!field_ok(&Some("x".repeat(256))));
}

#[test]
fn birth_dates_are_written_and_read_as_the_calendar_has_them() {
    let date = BirthDate { year: 1990, month: 1, day: 1 };
    assert_eq!(date.text(), Some("1990-01-01".to_string()));
    assert_eq!(BirthDate { year: 2024, month: 2, day: 29 }.text(), Some("2024-02-29".to_string()));
    assert_eq!(BirthDate { year: 2023, month: 2, day: 29 }.text(), None);
    assert_eq!(BirthDate { year: 2023, month: 13, day: 1 }.text(), None);
    assert_eq!(BirthDate { year: 2023, month: 0, day: 1 }.text(), None);
    assert_eq!(BirthDate { year: 2023, month: 4, day: 31 }.text(), None);
    assert_eq!(BirthDate { year: 12345, month: 1, day: 1 }.text(), Some("+12345-01-01".to_string()));
    assert_eq!(BirthDate { year: -4, month: 2, day: 29 }.text(), Some("-0004-02-29".to_string()));
    assert_eq!(BirthDate { year: 400000, month: 1, day: 1 }.text(), None);
    assert_eq!(BirthDate::parse("1990-01-01"), Some(date));
    assert_eq!(BirthDate::parse("1990-1-1"), Some(date));
    assert_eq!(BirthDate::parse("2024-02-29"), Some(BirthDate { year: 2024, month: 2, day: 29 }));
    assert_eq!(BirthDate::parse("2023-02-29"), None);
    assert_eq!(BirthDate::parse("01.01.1990"), None);
    assert_eq!(BirthDate::parse(""), None);
    assert_eq!(BirthDate::parse("foo"), None);
    let read = BirthDate::parse("+12345-1-1").unwrap();
    assert_eq!(read.text(), Some("+12345-01-01".to_string()));
}

#[test]
fn only_production_is_no_developers_deployment() {
    assert!(Environment::Development.is_dev());
    assert!(Environment::Test.is_dev());
    assert!(!Environment::Production.is_dev());
    assert_eq!(Environment::default(), Environment::Development);
}

#[test]
fn default_settings_are_empty() {
    let config = AppConfig::default();
    assert_eq!(config.environment, Environment::Development);
    assert_eq!(config.host, "");
    assert_eq!(config.port, 0);
    assert_eq!(config.database_url, "");
    assert_eq!(config.redis_url, "");
    assert_eq!(config.jwt_secret, "");
    assert_eq!(config.jwt_access_expiration, 0);
    assert_eq!(config.jwt_refresh_expiration, 0);
    let config = AppConfig {
        jwt_access_expiration: soc_net::config::DEFAULT_ACCESS_EXPIRATION,
        jwt_refresh_expiration: soc_net::config::DEFAULT_REFRESH_EXPIRATION,
        port: soc_net::config::DEFAULT_PORT,
        ..config
    };
    assert_eq!(config.jwt_access_expiration, 3600);
    assert_eq!(config.jwt_refresh_expiration, 259200);
    assert_eq!(config.port, 4238);
}

struct TestRejection;

impl From<()> for TestRejection {
    fn from(_: ()) -> Self {
        TestRejection
    }
}

#[test]
fn extractor_rejection_is_transformed() {
    let result = WithRejection::<u8, TestRejection>::from_extraction(Err::<u8, ()>(()));
    assert!(matches!(result, Err(TestRejection)));

    let result = WithRejection::<u8, TestRejection>::from_extraction(Ok::<u8, ()>(7));
    assert!(matches!(result, Ok(WithRejection(7, _))));
}

#[test]
fn with_rejection_wraps_and_unwraps() {
    let wrapped = WithRejection::<String, ()>::new("inner".to_string());
    assert_eq!(wrapped.get_ref(), "inner");
    assert_eq!(wrapped.into_inner(), "inner");
    let wrapped: WithRejection<i32, ()> = WithRejection(5, PhantomData);
    assert_eq!(wrapped.0, 5);
    assert_eq!(wrapped.into_inner(), 5);
}
