//! The HTTP response builder: clamps the script's status into a valid
//! protocol status, validates header pairs (dropping invalid ones without
//! failing the request), and emits the body as-is.

use crate::extract::ResponseDescriptor;
use crate::flow::SessionError;
use crate::flow::SessionState;
use crate::flow::error_status;
use crate::flow::error_status_spec;
use crate::extract::body_field;
use crate::extract::extract_response;
use crate::extract::headers_field;
use crate::extract::status_field;
use crate::value::ScriptValue;
use vstd::prelude::*;

verus! {

/// Whether `c` may stand in an HTTP header name: the token characters of
/// the header grammar, letters of either case included.
pub open spec fn header_name_char_ok(c: char) -> bool {
    ('0' <= c && c <= '9') || ('a' <= c && c <= 'z') || ('A' <= c && c <= 'Z') || c == '!' || c
        == '#' || c == '$' || c == '%' || c == '&' || c == '\'' || c == '*' || c == '+' || c == '-'
        || c == '.' || c == '^' || c == '_' || c == '`' || c == '|' || c == '~'
}

/// A legal header name: one to 65535 characters, all token characters.
pub open spec fn valid_header_name(s: Seq<char>) -> bool {
    1 <= s.len() <= 65535 && (forall|i: int| 0 <= i < s.len() ==> header_name_char_ok(s[i]))
}

/// Whether `c` may stand in an HTTP header value: anything but a control
/// character, except that horizontal tab is allowed.
pub open spec fn header_value_char_ok(c: char) -> bool {
    c == '\t' || (32 <= c as u32 && c as u32 != 127)
}

/// A legal header value: every character legal.
pub open spec fn valid_header_value(s: Seq<char>) -> bool {
    forall|i: int| 0 <= i < s.len() ==> header_value_char_ok(s[i])
}

/// Relies on `HeaderName::from_bytes` of the `http` crate (as re-exported
/// by axum): it accepts exactly the non-empty strings of at most 65535
/// bytes whose bytes all map to a token character in its character table.
#[verifier::external_body]
fn header_name_ok(k: &String) -> (r: bool)
    ensures
        r == valid_header_name(k@),
{
    axum::http::header::HeaderName::from_bytes(k.as_bytes()).is_ok()
}

/// Relies on `HeaderValue::from_str` of the `http` crate (as re-exported
/// by axum): it accepts exactly the strings whose bytes `b` all satisfy
/// `b >= 32 && b != 127 || b == 9`.
#[verifier::external_body]
fn header_value_ok(v: &String) -> (r: bool)
    ensures
        r == valid_header_value(v@),
{
    axum::http::header::HeaderValue::from_str(v.as_str()).is_ok()
}

/// The protocol status emitted for the numeric status a script returned:
/// itself when it is a valid HTTP status code, 500 otherwise.
pub open spec fn clamp_status(s: u64) -> u16 {
    if 100 <= s && s <= 999 {
        s as u16
    } else {
        500u16
    }
}

/// Whether a headers-object entry survives validation: its value is a
/// string, its key a legal header name, and the string a legal header
/// value.
pub open spec fn kept_header(e: (String, ScriptValue)) -> bool {
    match e.1 {
        ScriptValue::Text(s) => valid_header_name(e.0@) && valid_header_value(s@),
        _ => false,
    }
}

/// The name/value pair an entry contributes when it is kept.
pub open spec fn kept_pair(e: (String, ScriptValue)) -> (Seq<char>, Seq<char>) {
    match e.1 {
        ScriptValue::Text(s) => (e.0@, s@),
        _ => (e.0@, Seq::<char>::empty()),
    }
}

/// The header pairs that survive validation, in their original order.
pub open spec fn kept_headers(es: Seq<(String, ScriptValue)>) -> Seq<(Seq<char>, Seq<char>)>
    decreases es.len(),
{
    if es.len() == 0 {
        Seq::<(Seq<char>, Seq<char>)>::empty()
    } else {
        kept_headers(es.drop_last()) + (if kept_header(es.last()) {
            seq![kept_pair(es.last())]
        } else {
            Seq::<(Seq<char>, Seq<char>)>::empty()
        })
    }
}

/// The header pairs emitted for a response's headers member: only an
/// object-shaped member contributes, and only its valid entries.
pub open spec fn response_headers(h: Option<ScriptValue>) -> Seq<(Seq<char>, Seq<char>)> {
    match h {
        Some(ScriptValue::Obj(es)) => kept_headers(es@),
        _ => Seq::<(Seq<char>, Seq<char>)>::empty(),
    }
}

/// The views of a vector of name/value string pairs.
pub open spec fn pairs_view(v: Seq<(String, String)>) -> Seq<(Seq<char>, Seq<char>)> {
    v.map_values(|p: (String, String)| (p.0@, p.1@))
}

/// A protocol-level HTTP response: status code, validated header pairs,
/// body bytes.
pub struct HttpOutput {
    pub status: u16,
    pub headers: Vec<(String, String)>,
    pub body: String,
}

/// Maps a response descriptor to the protocol response: status clamped,
/// header entries validated and invalid ones dropped, body as-is.
pub fn build_http(r: ResponseDescriptor) -> (h: HttpOutput)
    ensures
        h.status == clamp_status(r.status),
        h.body == r.body,
        pairs_view(h.headers@) == response_headers(r.headers),
{
    let status: u16 = if 100 <= r.status && r.status <= 999 {
        r.status as u16
    } else {
        500
    };
    let mut kept: Vec<(String, String)> = Vec::new();
    match &r.headers {
        Some(ScriptValue::Obj(es)) => {
            let n: usize = es.len();
            let mut i: usize = 0;
            while i < n
                invariant
                    n == es@.len(),
                    i <= n,
                    pairs_view(kept@) == kept_headers(es@.subrange(0, i as int)),
                decreases n - i,
            {
                let ghost prev: Seq<(String, String)> = kept@;
                match &es[i].1 {
                    ScriptValue::Text(s) => {
                        if header_name_ok(&es[i].0) && header_value_ok(s) {
                            kept.push((es[i].0.clone(), s.clone()));
                        }
                    },
                    _ => {},
                }
                proof {
                    assert(es@.subrange(0, i + 1 as int).drop_last() =~= es@.subrange(0, i as int));
                    assert(es@.subrange(0, i + 1 as int).last() == es@[i as int]);
                    assert(pairs_view(kept@) =~= kept_headers(es@.subrange(0, i + 1 as int)));
                }
                i = i + 1;
            }
            proof {
                assert(es@.subrange(0, n as int) =~= es@);
            }
        },
        _ => {},
    }
    HttpOutput { status, headers: kept, body: r.body }
}

/// The complete successful path from the value the handler produced to
/// the protocol response: extraction with defaulting, then building.
pub fn respond_from_value(v: ScriptValue) -> (h: HttpOutput)
    ensures
        h.status == clamp_status(status_field(v)),
        h.body@ == body_field(v),
        pairs_view(h.headers@) == response_headers(headers_field(v)),
{
    build_http(extract_response(v))
}

/// The response emitted for a failed session: the failure's status, no
/// headers, an empty body.
pub fn respond_failure(e: &SessionError) -> (h: HttpOutput)
    ensures
        h.status == error_status_spec(*e),
        h.body@ == Seq::<char>::empty(),
        h.headers@ == Seq::<(String, String)>::empty(),
{
    HttpOutput { status: error_status(e), headers: Vec::new(), body: String::new() }
}

/// Converts a finished session's result into the outbound protocol
/// response: a handler value goes through extraction and building, a
/// failure becomes a bare status.  No interpreter-internal error shape
/// crosses this boundary.
pub fn respond(outcome: Result<ScriptValue, SessionError>) -> (h: HttpOutput)
    ensures
        match outcome {
            Ok(v) => h.status == clamp_status(status_field(v)) && h.body@ == body_field(v)
                && pairs_view(h.headers@) == response_headers(headers_field(v)),
            Err(e) => h.status == error_status_spec(e) && h.body@ == Seq::<char>::empty()
                && h.headers@ == Seq::<(String, String)>::empty(),
        },
{
    match outcome {
        Ok(v) => respond_from_value(v),
        Err(e) => respond_failure(&e),
    }
}

/// The response a session's final state yields.  A finished session's
/// result goes through `respond`; a session concluded before it finished
/// can only mean the driver around the library broke off, an
/// infrastructure fault answered with a bare 500.
pub fn conclude(s: SessionState) -> (h: HttpOutput)
    ensures
        match s {
            SessionState::Finished(outcome) => match outcome {
                Ok(v) => h.status == clamp_status(status_field(v)) && h.body@ == body_field(v)
                    && pairs_view(h.headers@) == response_headers(headers_field(v)),
                Err(e) => h.status == error_status_spec(e) && h.body@ == Seq::<char>::empty()
                    && h.headers@ == Seq::<(String, String)>::empty(),
            },
            _ => h.status == 500 && h.body@ == Seq::<char>::empty() && h.headers@ == Seq::<
                (String, String),
            >::empty(),
        },
{
    match s {
        SessionState::Finished(outcome) => respond(outcome),
        _ => respond_failure(&SessionError::BridgeFailed),
    }
}

} // verus!
