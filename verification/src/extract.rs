//! Response extraction: reads the structured value the handler stored in
//! the reserved response global and applies the field-level defaulting
//! rules.

use crate::value::ScriptValue;
use crate::value::lookup_index;
use crate::value::spec_lookup;
use vstd::prelude::*;

verus! {

/// The structured response produced by the handler, after defaulting:
/// `status` defaults to 200, `body` to the empty string, and `headers` is
/// passed through verbatim for the response builder to validate.
pub struct ResponseDescriptor {
    pub status: u64,
    pub body: String,
    pub headers: Option<ScriptValue>,
}

/// The status the handler's value carries: the `status` member if the
/// value is an object and that member is an unsigned integer, 200
/// otherwise.
pub open spec fn status_field(v: ScriptValue) -> u64 {
    match v {
        ScriptValue::Obj(es) => match spec_lookup(es@, "status"@) {
            Some(ScriptValue::Uns(s)) => s,
            _ => 200,
        },
        _ => 200,
    }
}

/// The body the handler's value carries: the `body` member if the value
/// is an object and that member is a string, the empty string otherwise.
pub open spec fn body_field(v: ScriptValue) -> Seq<char> {
    match v {
        ScriptValue::Obj(es) => match spec_lookup(es@, "body"@) {
            Some(ScriptValue::Text(b)) => b@,
            _ => Seq::<char>::empty(),
        },
        _ => Seq::<char>::empty(),
    }
}

/// The headers member of the handler's value, verbatim: present exactly
/// when the value is an object with a `headers` member.
pub open spec fn headers_field(v: ScriptValue) -> Option<ScriptValue> {
    match v {
        ScriptValue::Obj(es) => spec_lookup(es@, "headers"@),
        _ => None,
    }
}

/// Deserializes the reserved response global into a response descriptor,
/// defaulting `status` to 200 and `body` to the empty string when absent
/// or of the wrong shape, and passing `headers` through verbatim.
pub fn extract_response(v: ScriptValue) -> (r: ResponseDescriptor)
    ensures
        r.status == status_field(v),
        r.body@ == body_field(v),
        r.headers == headers_field(v),
{
    match v {
        ScriptValue::Obj(mut es) => {
            let status: u64 = match lookup_index(&es, &String::from_str("status")) {
                Some(i) => match &es[i].1 {
                    ScriptValue::Uns(s) => *s,
                    _ => 200,
                },
                None => 200,
            };
            let body: String = match lookup_index(&es, &String::from_str("body")) {
                Some(i) => match &es[i].1 {
                    ScriptValue::Text(b) => b.clone(),
                    _ => String::new(),
                },
                None => String::new(),
            };
            let headers: Option<ScriptValue> = match lookup_index(
                &es,
                &String::from_str("headers"),
            ) {
                Some(i) => Some(es.remove(i).1),
                None => None,
            };
            ResponseDescriptor { status, body, headers }
        },
        _ => ResponseDescriptor { status: 200, body: String::new(), headers: None },
    }
}

} // verus!
