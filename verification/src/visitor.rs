//! Visitor-session acquisition: the compute half.
//!
//! The visitor endpoint answers not with raw JSON but with a payload
//! wrapped in a fixed JavaScript callback. This module extracts the
//! payload between the fixed prefix `visitor_gray_callback(` and the next
//! `);`, reads the two token fields `sub` and `subp` out of its `data`
//! object, and assembles the session cookie header value
//! `SUB=<sub>; SUBP=<subp>; `.

use vstd::prelude::*;

use crate::error::{CrawlError, ErrorKind};
use crate::json::{json_get, parse_json, spec_get, spec_json_of, JsonValue};
use crate::text::{find_from, spec_digits, spec_find, u64_to_string};

verus! {

/// The payload between the first `visitor_gray_callback(` and the next
/// `);` after it; nothing when either delimiter is missing.
pub open spec fn spec_callback_payload(s: Seq<char>) -> Option<Seq<char>> {
    let pre = "visitor_gray_callback("@;
    match spec_find(s, pre, 0) {
        None => None,
        Some(i) => match spec_find(s, ");"@, i + pre.len()) {
            None => None,
            Some(j) => Some(s.subrange(i + pre.len(), j)),
        },
    }
}

/// Extracts the JSON payload out of the fixed callback wrapper.
pub fn extract_callback_payload<'a>(body: &'a str) -> (r: Option<&'a str>)
    ensures
        match r {
            Some(p) => spec_callback_payload(body@) == Some(p@),
            None => spec_callback_payload(body@) is None,
        },
{
    let pre = "visitor_gray_callback(";
    match find_from(body, pre, 0) {
        None => None,
        Some(i) => {
            let start = i + pre.unicode_len();
            match find_from(body, ");", start) {
                None => None,
                Some(j) => Some(body.substring_char(start, j)),
            }
        },
    }
}

/// The cookie header value read from the parsed payload: both token
/// fields must be strings under `data`; the cause names the first field
/// that is not there.
pub open spec fn spec_cookie_of_json(j: JsonValue) -> Result<Seq<char>, Seq<char>> {
    let data = spec_get(j, "data"@);
    let sub = match data {
        Some(d) => spec_get(d, "sub"@),
        None => None,
    };
    match sub {
        Some(JsonValue::Str(s1)) => {
            let subp = match data {
                Some(d) => spec_get(d, "subp"@),
                None => None,
            };
            match subp {
                Some(JsonValue::Str(s2)) => Ok(
                    "SUB="@ + s1@ + "; SUBP="@ + s2@ + "; "@,
                ),
                _ => Err("failed to get subp"@),
            }
        },
        _ => Err("failed to get sub"@),
    }
}

/// What a success-status visitor response body yields: the cookie value,
/// or the cause of the failure. A missing delimiter and unparsable JSON
/// are both a malformed wrapper.
pub open spec fn spec_visitor_cookie(body: Seq<char>) -> Result<Seq<char>, Seq<char>> {
    match spec_callback_payload(body) {
        None => Err("malformed visitor response"@),
        Some(pl) => match spec_json_of(pl) {
            None => Err("malformed visitor response"@),
            Some(j) => spec_cookie_of_json(j),
        },
    }
}

/// Turns the visitor endpoint's status and body into the session cookie
/// header value. A non-success status is an authentication failure; a
/// malformed wrapper or a missing token field is a parse failure whose
/// cause names what was wrong.
pub fn visitor_cookie_from_response(status: u16, body: &str) -> (r: Result<String, CrawlError>)
    ensures
        200 <= status < 300 ==> match r {
            Ok(c) => spec_visitor_cookie(body@) matches Ok(v) && v == c@,
            Err(e) => e.kind == ErrorKind::Parse && (spec_visitor_cookie(body@) matches Err(c)
                && c == e.cause@),
        },
        !(200 <= status < 300) ==> match r {
            Ok(_) => false,
            Err(e) => e.kind == ErrorKind::Auth && e.cause@ == "bad visitor status "@
                + spec_digits(status as int),
        },
{
    if !(200 <= status && status < 300) {
        let mut cause = String::from_str("bad visitor status ");
        cause.append(u64_to_string(status as u64).as_str());
        return Err(CrawlError { kind: ErrorKind::Auth, cause });
    }
    let payload = match extract_callback_payload(body) {
        Some(p) => p,
        None => {
            return Err(CrawlError::parse("malformed visitor response"));
        },
    };
    let parsed = match parse_json(payload) {
        Some(j) => j,
        None => {
            return Err(CrawlError::parse("malformed visitor response"));
        },
    };
    let data = json_get(&parsed, "data");
    let sub = match data {
        Some(d) => json_get(d, "sub"),
        None => None,
    };
    let s1 = match sub {
        Some(JsonValue::Str(s1)) => s1,
        _ => {
            return Err(CrawlError::parse("failed to get sub"));
        },
    };
    let subp = match data {
        Some(d) => json_get(d, "subp"),
        None => None,
    };
    let s2 = match subp {
        Some(JsonValue::Str(s2)) => s2,
        _ => {
            return Err(CrawlError::parse("failed to get subp"));
        },
    };
    let mut cookie = String::from_str("SUB=");
    cookie.append(s1.as_str());
    cookie.append("; SUBP=");
    cookie.append(s2.as_str());
    cookie.append("; ");
    Ok(cookie)
}

} // verus!
