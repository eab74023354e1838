//! Command-line arguments and the parsing of their values.
use vstd::prelude::*;

use crate::text::{chars_of, is_whitespace, white_space, slice_chars};

verus! {

/// The command-line arguments of a backup run.
#[derive(Debug)]
pub struct Args {
    pub blog_name: String,
    pub consumer_key: Option<String>,
    pub consumer_secret: Option<String>,
    pub config_file: Option<String>,
    pub resume: bool,
    pub incremental: bool,
    pub template: Option<String>,
    pub directories: bool,
    pub save_images: bool,
    pub json: bool,
    pub output_dir: Option<String>,
    pub before: Option<i64>,
    pub after: Option<i64>,
    pub quiet: bool,
    pub reauth: bool,
    pub cookies_file: Option<String>,
    pub dashboard: bool,
    pub headless: bool,
}

/// Every character of `s` is whitespace (so `s` trims to nothing).
pub open spec fn all_white_space(s: Seq<char>) -> bool {
    forall|i: int| 0 <= i < s.len() ==> white_space(#[trigger] s[i])
}

/// Accepts a blog name unless it is empty or only whitespace.
pub fn non_empty_string(s: &str) -> (res: Result<String, String>)
    ensures
        match res {
            Ok(v) => !all_white_space(s@) && v@ == s@,
            Err(m) => all_white_space(s@) && m@ == "blog name cannot be empty"@,
        },
{
    let chars = chars_of(s);
    let mut i: usize = 0;
    while i < chars.len()
        invariant
            i <= chars@.len(),
            chars@ == s@,
            forall|t: int| 0 <= t < i ==> white_space(#[trigger] chars@[t]),
        decreases chars@.len() - i,
    {
        if !is_whitespace(chars[i]) {
            return Ok(s.to_owned());
        }
        i = i + 1;
    }
    Err(String::from_str("blog name cannot be empty"))
}

/// Why a decimal integer did not parse.
#[derive(Debug)]
pub enum IntErrorKind {
    Empty,
    InvalidDigit,
    PosOverflow,
    NegOverflow,
}

impl IntErrorKind {
    /// The description of the error, as integer parsing states it.
    pub open spec fn text(self) -> Seq<char> {
        match self {
            IntErrorKind::Empty => "cannot parse integer from empty string"@,
            IntErrorKind::InvalidDigit => "invalid digit found in string"@,
            IntErrorKind::PosOverflow => "number too large to fit in target type"@,
            IntErrorKind::NegOverflow => "number too small to fit in target type"@,
        }
    }

    /// Describes the error.
    pub fn message(&self) -> (res: String)
        ensures
            res@ == self.text(),
    {
        match self {
            IntErrorKind::Empty => String::from_str("cannot parse integer from empty string"),
            IntErrorKind::InvalidDigit => String::from_str("invalid digit found in string"),
            IntErrorKind::PosOverflow => String::from_str("number too large to fit in target type"),
            IntErrorKind::NegOverflow => String::from_str("number too small to fit in target type"),
        }
    }
}

/// The value of a decimal digit.
pub open spec fn digit_value(c: char) -> Option<int> {
    if '0' <= c && c <= '9' {
        Some(c as int - '0' as int)
    } else {
        None
    }
}

/// Reads the digits of `s` from `i` on into `acc` (counting down when `neg`),
/// failing at the first character that is not a digit or that leaves the range
/// of `i64`, whichever comes first.
pub open spec fn scan_digits(s: Seq<char>, i: int, acc: int, neg: bool) -> Result<int, IntErrorKind>
    decreases s.len() - i,
{
    if i < 0 || i >= s.len() {
        Ok(acc)
    } else {
        match digit_value(s[i]) {
            None => Err(IntErrorKind::InvalidDigit),
            Some(d) => {
                let next = if neg {
                    acc * 10 - d
                } else {
                    acc * 10 + d
                };
                if next > i64::MAX {
                    Err(IntErrorKind::PosOverflow)
                } else if next < i64::MIN {
                    Err(IntErrorKind::NegOverflow)
                } else {
                    scan_digits(s, i + 1, next, neg)
                }
            },
        }
    }
}

/// A decimal `i64` with an optional `+` or `-` sign, as `str::parse::<i64>` reads it.
pub open spec fn parse_int(s: Seq<char>) -> Result<int, IntErrorKind> {
    if s.len() == 0 {
        Err(IntErrorKind::Empty)
    } else if s.len() == 1 && (s[0] == '+' || s[0] == '-') {
        Err(IntErrorKind::InvalidDigit)
    } else if s[0] == '+' {
        scan_digits(s, 1, 0, false)
    } else if s[0] == '-' {
        scan_digits(s, 1, 0, true)
    } else {
        scan_digits(s, 0, 0, false)
    }
}

proof fn lemma_scan_digits_range(s: Seq<char>, i: int, acc: int, neg: bool)
    requires
        i64::MIN <= acc <= i64::MAX,
    ensures
        scan_digits(s, i, acc, neg) matches Ok(v) ==> i64::MIN <= v <= i64::MAX,
    decreases s.len() - i,
{
    if 0 <= i < s.len() {
        if let Some(d) = digit_value(s[i]) {
            let next = if neg {
                acc * 10 - d
            } else {
                acc * 10 + d
            };
            if i64::MIN <= next <= i64::MAX {
                lemma_scan_digits_range(s, i + 1, next, neg);
            }
        }
    }
}

/// Parses a decimal `i64` with an optional sign.
pub fn parse_i64(s: &Vec<char>) -> (res: Result<i64, IntErrorKind>)
    ensures
        match res {
            Ok(v) => parse_int(s@) == Ok::<int, IntErrorKind>(v as int),
            Err(k) => parse_int(s@) == Err::<int, IntErrorKind>(k),
        },
{
    if s.len() == 0 {
        return Err(IntErrorKind::Empty);
    }
    if s.len() == 1 && (s[0] == '+' || s[0] == '-') {
        return Err(IntErrorKind::InvalidDigit);
    }
    let neg = s[0] == '-';
    let mut i: usize = if s[0] == '+' || s[0] == '-' { 1 } else { 0 };
    let mut acc: i64 = 0;
    let ghost start = i;
    while i < s.len()
        invariant
            i <= s@.len(),
            start <= i,
            parse_int(s@) == scan_digits(s@, i as int, acc as int, neg),
        decreases s@.len() - i,
    {
        let c = s[i];
        if !('0' <= c && c <= '9') {
            return Err(IntErrorKind::InvalidDigit);
        }
        let d = (c as u32 - '0' as u32) as i128;
        let next: i128 = if neg {
            acc as i128 * 10 - d
        } else {
            acc as i128 * 10 + d
        };
        if next > i64::MAX as i128 {
            return Err(IntErrorKind::PosOverflow);
        }
        if next < i64::MIN as i128 {
            return Err(IntErrorKind::NegOverflow);
        }
        acc = next as i64;
        i = i + 1;
    }
    Ok(acc)
}

/// The whole number of seconds of an RFC 3339 date-time.
pub uninterp spec fn rfc3339_seconds(s: Seq<char>) -> Option<i64>;

/// The whole number of seconds of midnight UTC on a plain `YYYY-MM-DD` date.
pub uninterp spec fn plain_date_seconds(s: Seq<char>) -> Option<i64>;

/// Reads an RFC 3339 date-time with `chrono::DateTime::parse_from_rfc3339` and
/// takes its Unix timestamp. Trusted: the result is the value named
/// `rfc3339_seconds` of the text; nothing more is claimed of it.
#[verifier::external_body]
fn parse_rfc3339(s: &str) -> (res: Option<i64>)
    ensures
        res == rfc3339_seconds(s@),
{
    chrono::DateTime::parse_from_rfc3339(s).ok().map(|dt| dt.timestamp())
}

/// Reads a plain date with `chrono::NaiveDate::parse_from_str` and the format
/// `%Y-%m-%d`, and takes the Unix timestamp of its midnight in UTC. Trusted: the
/// result is the value named `plain_date_seconds` of the text; nothing more is
/// claimed of it.
#[verifier::external_body]
fn parse_plain_date(s: &str) -> (res: Option<i64>)
    ensures
        res == plain_date_seconds(s@),
{
    chrono::NaiveDate::parse_from_str(s, "%Y-%m-%d").ok().map(
        |d| d.and_time(chrono::NaiveTime::MIN).and_utc().timestamp(),
    )
}

/// The message for a date that no form accepts.
pub open spec fn invalid_date_text(s: Seq<char>) -> Seq<char> {
    "invalid date `"@ + s
        + "` (expected RFC 3339 like `2024-01-02T03:04:05Z`, a date `2024-01-02`, or `@<unix-seconds>`)"@
}

/// What a `--before`/`--after` value means, given what the RFC 3339 reading and
/// the plain-date reading of it gave: `@` and a Unix timestamp, else the RFC
/// 3339 reading, else the plain-date reading, else an error.
pub open spec fn date_outcome(s: Seq<char>, rfc3339: Option<i64>, plain_date: Option<i64>) -> Result<i64, Seq<char>> {
    if s.len() > 0 && s[0] == '@' {
        match parse_int(s.drop_first()) {
            Ok(v) => Ok(v as i64),
            Err(k) => Err("invalid unix timestamp `"@ + s + "`: "@ + k.text()),
        }
    } else if rfc3339 is Some {
        Ok(rfc3339->0)
    } else if plain_date is Some {
        Ok(plain_date->0)
    } else {
        Err(invalid_date_text(s))
    }
}

/// Decides a date value from the readings of it that the date library gave.
pub fn resolve_date(s: &str, rfc3339: Option<i64>, plain_date: Option<i64>) -> (res: Result<i64, String>)
    ensures
        match res {
            Ok(t) => date_outcome(s@, rfc3339, plain_date) == Ok::<i64, Seq<char>>(t),
            Err(m) => date_outcome(s@, rfc3339, plain_date) == Err::<i64, Seq<char>>(m@),
        },
{
    let chars = chars_of(s);
    if chars.len() > 0 && chars[0] == '@' {
        let rest = slice_chars(&chars, 1, chars.len());
        assert(rest@ == s@.drop_first());
        return match parse_i64(&rest) {
            Ok(v) => Ok(v),
            Err(k) => {
                proof {
                    lemma_scan_digits_range(rest@, 0, 0, false);
                }
                let mut m = String::from_str("invalid unix timestamp `");
                m.append(s);
                m.append("`: ");
                let km = k.message();
                m.append(km.as_str());
                Err(m)
            },
        };
    }
    if let Some(t) = rfc3339 {
        return Ok(t);
    }
    if let Some(t) = plain_date {
        return Ok(t);
    }
    let mut m = String::from_str("invalid date `");
    m.append(s);
    m.append(
        "` (expected RFC 3339 like `2024-01-02T03:04:05Z`, a date `2024-01-02`, or `@<unix-seconds>`)",
    );
    Err(m)
}

/// Parses a date given as `@<unix-seconds>`, an RFC 3339 date-time or a plain date.
pub fn parse_date(s: &str) -> (res: Result<i64, String>)
    ensures
        match res {
            Ok(t) => date_outcome(s@, rfc3339_seconds(s@), plain_date_seconds(s@)) == Ok::<
                i64,
                Seq<char>,
            >(t),
            Err(m) => date_outcome(s@, rfc3339_seconds(s@), plain_date_seconds(s@)) == Err::<
                i64,
                Seq<char>,
            >(m@),
        },
{
    let chars = chars_of(s);
    if chars.len() > 0 && chars[0] == '@' {
        return resolve_date(s, None, None);
    }
    let rfc = parse_rfc3339(s);
    let plain = parse_plain_date(s);
    resolve_date(s, rfc, plain)
}

} // verus!
