//! A Tumblr backup tool: the verified core of its callback parsing, command-line
//! resolution, job bookkeeping, image handling and post rendering.
use vstd::prelude::*;

pub mod text;
pub mod post;
pub mod images;
pub mod cmd;
pub mod path;
pub mod config;
pub mod job;
pub mod state;
pub mod auth;
pub mod template;
pub mod value;
pub mod context;
pub mod backup;
pub mod render;

pub use cmd::Args;
pub use config::{Config, ResolvedConfig};
pub use job::JobState;
pub use template::DEFAULT_TEMPLATE;

use crate::text::{
    chars_eq, chars_of, find_char_from, find_from, lemma_find_from_bounds, nth_token,
    second_token, slice_chars, split_chars, split_from, string_of, substring,
};
use vstd::utf8::{decode_utf8, encode_utf8, valid_utf8};

verus! {

/// The local port on which the OAuth redirect is received.
pub const DEFAULT_CALLBACK_PORT: u16 = 6263;

/// A post's Unix timestamp in seconds.
pub type PostTimestamp = i64;

/// The errors of the backup tool's own making.
#[derive(Debug)]
pub enum ArchivrError {
    MalformedCallback,
    OAuth(String),
    NoConsumerKey,
    NoConsumerSecret,
    CsrfMismatch { expected: String, actual: String },
    /// A callback parameter whose percent-decoded bytes are not UTF-8, with the
    /// decoder's message.
    UndecodableCallback(String),
}

impl ArchivrError {
    /// The text that describes the error to the user.
    pub open spec fn message_text(self) -> Seq<char> {
        match self {
            ArchivrError::MalformedCallback => "Callback was not in expected format. Please report this bug."@,
            ArchivrError::OAuth(m) => "Error from OAuth: "@ + m@,
            ArchivrError::NoConsumerKey => "Consumer key not specified (use --consumer-key or set it in the config file)"@,
            ArchivrError::NoConsumerSecret => "Consumer secret not specified (use --consumer-secret or set it in the config file)"@,
            ArchivrError::CsrfMismatch { expected, actual } => "CSRF state mismatch: expected "@ + expected@
                + ", got "@ + actual@,
            ArchivrError::UndecodableCallback(m) => m@,
        }
    }

    /// Describes the error to the user.
    pub fn message(&self) -> (res: String)
        ensures
            res@ == self.message_text(),
    {
        match self {
            ArchivrError::MalformedCallback => String::from_str(
                "Callback was not in expected format. Please report this bug.",
            ),
            ArchivrError::OAuth(m) => {
                let mut s = String::from_str("Error from OAuth: ");
                s.append(m.as_str());
                s
            },
            ArchivrError::NoConsumerKey => String::from_str(
                "Consumer key not specified (use --consumer-key or set it in the config file)",
            ),
            ArchivrError::NoConsumerSecret => String::from_str(
                "Consumer secret not specified (use --consumer-secret or set it in the config file)",
            ),
            ArchivrError::CsrfMismatch { expected, actual } => {
                let mut s = String::from_str("CSRF state mismatch: expected ");
                s.append(expected.as_str());
                s.append(", got ");
                s.append(actual.as_str());
                s
            },
            ArchivrError::UndecodableCallback(m) => m.clone(),
        }
    }
}

/// The value of a hexadecimal digit byte.
pub open spec fn hex_value(d: u8) -> Option<u8> {
    if 48 <= d <= 57 {
        Some((d - 48) as u8)
    } else if 65 <= d <= 70 {
        Some((d - 55) as u8)
    } else if 97 <= d <= 102 {
        Some((d - 87) as u8)
    } else {
        None
    }
}

/// Percent-decoding of bytes: each `%` followed by two hexadecimal digits
/// stands for the byte they spell; every other byte stands for itself.
pub open spec fn percent_decoded(b: Seq<u8>) -> Seq<u8>
    decreases b.len(),
{
    if b.len() == 0 {
        Seq::empty()
    } else if b[0] == 37 && b.len() >= 3 && hex_value(b[1]) is Some && hex_value(b[2]) is Some {
        seq![(hex_value(b[1])->0 * 16 + hex_value(b[2])->0) as u8] + percent_decoded(b.skip(3))
    } else {
        seq![b[0]] + percent_decoded(b.skip(1))
    }
}

/// The text that a percent-encoded string decodes to, when the decoded bytes are UTF-8.
pub open spec fn url_decoded(s: Seq<char>) -> Option<Seq<char>> {
    let bytes = percent_decoded(encode_utf8(s));
    if valid_utf8(bytes) {
        Some(decode_utf8(bytes))
    } else {
        None
    }
}

/// The text of the error that `urlencoding::decode` gives for a string whose
/// percent-decoded bytes are not UTF-8.
pub uninterp spec fn decode_error_text(s: Seq<char>) -> Seq<char>;

/// Decodes a percent-encoded string with `urlencoding::decode`. Trusted: the
/// result is the UTF-8 text of the percent-decoded bytes (`+` is left as it is);
/// the error comes exactly when those bytes are not UTF-8, and its text is the
/// value named `decode_error_text` of the string.
#[verifier::external_body]
fn url_decode(s: &str) -> (res: Result<String, String>)
    ensures
        match res {
            Ok(v) => url_decoded(s@) == Some(v@),
            Err(m) => url_decoded(s@) is None && m@ == decode_error_text(s@),
        },
{
    urlencoding::decode(s).map(|c| c.into_owned()).map_err(|e| e.to_string())
}

/// Why a callback request line was refused.
pub enum CallbackFailure {
    Malformed,
    OAuth(Seq<char>),
    Undecodable(Seq<char>),
}

/// `e` is the error that reports `f`.
pub open spec fn reports(e: ArchivrError, f: CallbackFailure) -> bool {
    match f {
        CallbackFailure::Malformed => e is MalformedCallback,
        CallbackFailure::OAuth(m) => e matches ArchivrError::OAuth(s) && s@ == m,
        CallbackFailure::Undecodable(t) => (e matches ArchivrError::UndecodableCallback(m) && m@ == t),
    }
}

/// An optional string by its characters.
pub open spec fn opt_view(o: Option<String>) -> Option<Seq<char>> {
    match o {
        Some(s) => Some(s@),
        None => None,
    }
}

/// Scans the `key=value` pairs of a query from the `i`-th on: the last `code`
/// and the last `state` are kept, and an `error` pair ends the scan with its
/// message; a value that does not decode fails the scan where it stands.
pub open spec fn scan_query(
    pairs: Seq<Seq<char>>,
    i: int,
    code: Option<Seq<char>>,
    state: Option<Seq<char>>,
) -> Result<(Option<Seq<char>>, Option<Seq<char>>), CallbackFailure>
    decreases pairs.len() - i,
{
    if i < 0 || i >= pairs.len() {
        Ok((code, state))
    } else {
        let p = pairs[i];
        let k = find_from(p, '=', 0);
        if k >= p.len() {
            scan_query(pairs, i + 1, code, state)
        } else {
            let key = p.subrange(0, k);
            let value = p.subrange(k + 1, p.len() as int);
            if key == seq!['c', 'o', 'd', 'e'] {
                match url_decoded(value) {
                    Some(v) => scan_query(pairs, i + 1, Some(v), state),
                    None => Err(CallbackFailure::Undecodable(decode_error_text(value))),
                }
            } else if key == seq!['s', 't', 'a', 't', 'e'] {
                match url_decoded(value) {
                    Some(v) => scan_query(pairs, i + 1, code, Some(v)),
                    None => Err(CallbackFailure::Undecodable(decode_error_text(value))),
                }
            } else if key == seq!['e', 'r', 'r', 'o', 'r'] {
                match url_decoded(value) {
                    Some(v) => Err(CallbackFailure::OAuth(v)),
                    None => Err(CallbackFailure::Undecodable(decode_error_text(value))),
                }
            } else {
                scan_query(pairs, i + 1, code, state)
            }
        }
    }
}

/// The query of a request path: what follows its first `?`, or nothing.
pub open spec fn query_of(path: Seq<char>) -> Seq<char> {
    let k = find_from(path, '?', 0);
    if k < path.len() {
        path.subrange(k + 1, path.len() as int)
    } else {
        Seq::empty()
    }
}

/// The outcome of a finished scan: a code is owed.
pub open spec fn finish_scan(
    r: Result<(Option<Seq<char>>, Option<Seq<char>>), CallbackFailure>,
) -> Result<(Seq<char>, Option<Seq<char>>), CallbackFailure> {
    match r {
        Err(f) => Err(f),
        Ok((None, _)) => Err(CallbackFailure::Malformed),
        Ok((Some(c), st)) => Ok((c, st)),
    }
}

/// What a callback request line such as `GET /redirect?code=xyz&state=abc HTTP/1.1`
/// yields: its decoded `code` and optional `state`, or why it is refused.
pub open spec fn callback_outcome(line: Seq<char>) -> Result<(Seq<char>, Option<Seq<char>>), CallbackFailure> {
    match nth_token(line, 0, 1) {
        None => Err(CallbackFailure::Malformed),
        Some((a, b)) => {
            let path = line.subrange(a, b);
            finish_scan(scan_query(split_from(query_of(path), '&', 0), 0, None, None))
        },
    }
}

fn decode_value(v: &Vec<char>) -> (res: Result<String, ArchivrError>)
    ensures
        match res {
            Ok(s) => url_decoded(v@) == Some(s@),
            Err(e) => url_decoded(v@) is None && (e matches ArchivrError::UndecodableCallback(m) && m@
                == decode_error_text(v@)),
        },
{
    let s = string_of(v);
    match url_decode(s.as_str()) {
        Ok(d) => Ok(d),
        Err(m) => Err(ArchivrError::UndecodableCallback(m)),
    }
}

/// Parses the authorization code and optional state from an OAuth callback HTTP request line.
pub fn parse_code_from_request(request_line: &str) -> (res: Result<(String, Option<String>), ArchivrError>)
    ensures
        match res {
            Ok((c, st)) => callback_outcome(request_line@) == Ok::<
                (Seq<char>, Option<Seq<char>>),
                CallbackFailure,
            >((c@, opt_view(st))),
            Err(e) => callback_outcome(request_line@) matches Err(f) && reports(e, f),
        },
{
    let line = chars_of(request_line);
    let (a, b) = match second_token(&line) {
        Some(t) => t,
        None => return Err(ArchivrError::MalformedCallback),
    };
    let path = slice_chars(&line, a, b);
    let k = find_char_from(&path, '?', 0);
    proof {
        lemma_find_from_bounds(path@, '?', 0);
    }
    let query = if k < path.len() {
        slice_chars(&path, k + 1, path.len())
    } else {
        Vec::new()
    };
    assert(query@ == query_of(path@));
    let pairs = split_chars(&query, '&');
    let ghost pd = pairs.deep_view();
    assert(callback_outcome(request_line@) == finish_scan(scan_query(pd, 0, None, None)));
    let code_key: Vec<char> = vec!['c', 'o', 'd', 'e'];
    let state_key: Vec<char> = vec!['s', 't', 'a', 't', 'e'];
    let error_key: Vec<char> = vec!['e', 'r', 'r', 'o', 'r'];
    let mut code: Option<String> = None;
    let mut state: Option<String> = None;
    for i in 0..pairs.len()
        invariant
            pd == pairs.deep_view(),
            callback_outcome(request_line@) == finish_scan(scan_query(pd, 0, None, None)),
            code_key@ == seq!['c', 'o', 'd', 'e'],
            state_key@ == seq!['s', 't', 'a', 't', 'e'],
            error_key@ == seq!['e', 'r', 'r', 'o', 'r'],
            scan_query(pd, 0, None, None) == scan_query(pd, i as int, opt_view(code), opt_view(state)),
    {
        let p = &pairs[i];
        assert(pd[i as int] == p@);
        let eq = find_char_from(p, '=', 0);
        proof {
            lemma_find_from_bounds(p@, '=', 0);
        }
        if eq < p.len() {
            let key = slice_chars(p, 0, eq);
            let value = slice_chars(p, eq + 1, p.len());
            if chars_eq(&key, &code_key) {
                match decode_value(&value) {
                    Ok(v) => {
                        code = Some(v);
                    },
                    Err(e) => {
                        return Err(e);
                    },
                }
            } else if chars_eq(&key, &state_key) {
                match decode_value(&value) {
                    Ok(v) => {
                        state = Some(v);
                    },
                    Err(e) => {
                        return Err(e);
                    },
                }
            } else if chars_eq(&key, &error_key) {
                match decode_value(&value) {
                    Ok(m) => {
                        return Err(ArchivrError::OAuth(m));
                    },
                    Err(e) => {
                        return Err(e);
                    },
                }
            }
        }
    }
    match code {
        Some(c) => Ok((c, state)),
        None => Err(ArchivrError::MalformedCallback),
    }
}

} // verus!
