use archivr::cmd::{non_empty_string, parse_date, parse_i64, resolve_date, IntErrorKind};
use archivr::text::is_whitespace;

#[test]
fn timestamp_parsing_unix() {
    let input = "@1700000000";
    let expected = Ok(1700000000);
    assert_eq!(parse_date(input), expected);
}

#[test]
fn timestamp_parsing_rfc3339() {
    let input = "2023-11-14T00:00:00Z";
    let expected = Ok(1699920000 as i64);
    assert_eq!(parse_date(input), expected);
}

#[test]
fn timestamp_parsing_invalid() {
    let input = "not-a-date";
    let result = parse_date(input);
    assert!(result.is_err());
    assert!(format!("{}", result.err().unwrap()).contains("invalid date"));
}

#[test]
fn timestamp_parsing_invalid_unix() {
    assert_eq!(
        parse_date("@12x"),
        Err("invalid unix timestamp `@12x`: invalid digit found in string".to_owned())
    );
    assert_eq!(
        parse_date("@"),
        Err("invalid unix timestamp `@`: cannot parse integer from empty string".to_owned())
    );
}

#[test]
fn timestamp_parsing_negative_and_offset() {
    assert_eq!(parse_date("@-5"), Ok(-5));
    assert_eq!(parse_date("2023-11-14T02:00:00+02:00"), Ok(1699920000));
}

#[test]
fn invalid_date_message_is_exact() {
    assert_eq!(
        parse_date("2024-01-32"),
        Err("invalid date `2024-01-32` (expected RFC 3339 like `2024-01-02T03:04:05Z`, a date `2024-01-02`, or `@<unix-seconds>`)".to_owned())
    );
}

#[test]
fn resolve_date_prefers_unix_then_rfc3339_then_plain_date() {
    assert_eq!(resolve_date("@7", Some(1), Some(2)), Ok(7));
    assert_eq!(resolve_date("x", Some(1), Some(2)), Ok(1));
    assert_eq!(resolve_date("x", None, Some(2)), Ok(2));
    assert!(resolve_date("x", None, None).unwrap_err().starts_with("invalid date `x`"));
}

fn chars(s: &str) -> Vec<char> {
    s.chars().collect()
}

#[test]
fn integer_parsing_matches_std() {
    for s in [
        "0", "+12", "-12", "", "+", "-", "12a", "9223372036854775807", "9223372036854775808",
        "-9223372036854775808", "-9223372036854775809", "99999999999999999999x", " 1", "١",
    ] {
        let ours = parse_i64(&chars(s));
        let theirs = s.parse::<i64>();
        match (ours, theirs) {
            (Ok(a), Ok(b)) => assert_eq!(a, b, "{s}"),
            (Err(k), Err(e)) => assert_eq!(k.message(), e.to_string(), "{s}"),
            _ => panic!("mismatch on {s}"),
        }
    }
    assert!(matches!(parse_i64(&chars("")), Err(IntErrorKind::Empty)));
}

#[test]
fn blog_name_must_not_be_blank() {
    assert_eq!(non_empty_string("my-blog"), Ok("my-blog".to_owned()));
    assert_eq!(non_empty_string(" \t\n"), Err("blog name cannot be empty".to_owned()));
    assert_eq!(non_empty_string(""), Err("blog name cannot be empty".to_owned()));
}

#[test]
fn plain_date_is_midnight_utc() {
    assert_eq!(parse_date("2024-01-02"), Ok(1704153600));
    assert_eq!(parse_date("1970-01-01"), Ok(0));
    assert_eq!(parse_date("2024-01-02T00:00:00+01:00"), Ok(1704150000));
    assert!(parse_date("2024-13-02").unwrap_err().starts_with("invalid date `2024-13-02`"));
}

#[test]
fn whitespace_set_matches_char_is_whitespace() {
    for c in (0u32..=0x10FFFF).filter_map(char::from_u32) {
        assert_eq!(is_whitespace(c), c.is_whitespace(), "{:?}", c);
    }
}
