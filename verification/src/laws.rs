//! The properties the gateway promises, stated and proved over the same
//! spec functions the executable contracts use.

use crate::extract::body_field;
use crate::extract::status_field;
use crate::flow::PumpEnd;
use crate::flow::SessionError;
use crate::flow::SessionEvent;
use crate::flow::SessionState;
use crate::flow::error_status_spec;
use crate::flow::spec_advance;
use crate::respond::clamp_status;
use crate::respond::kept_header;
use crate::respond::kept_headers;
use crate::respond::kept_pair;
use crate::value::ScriptValue;
use crate::value::spec_lookup;
use vstd::prelude::*;

verus! {

/// A handler value carrying `status: S` and `body: B` yields a response
/// whose status is `S` clamped to a valid HTTP code and whose body is
/// exactly `B`, whatever else the value holds.
pub proof fn lemma_handler_value_response(v: ScriptValue, s: u64, b: String)
    requires
        v matches ScriptValue::Obj(es) && spec_lookup(es@, "status"@) == Some(
            ScriptValue::Uns(s),
        ) && spec_lookup(es@, "body"@) == Some(ScriptValue::Text(b)),
    ensures
        status_field(v) == s,
        body_field(v) == b@,
        100 <= clamp_status(status_field(v)) <= 999,
        100 <= s <= 999 ==> clamp_status(status_field(v)) == s,
{
}

/// When no handler was registered, the session finishes with the
/// Missing-Handler failure, and that failure maps to 502 — a function of
/// nothing else, hence the same on every request.
pub proof fn lemma_missing_handler()
    ensures
        spec_advance(
            SessionState::AtHandlerCheck,
            SessionEvent::HandlerChecked(false),
        ) == SessionState::Finished(Err(SessionError::MissingHandler)),
        error_status_spec(SessionError::MissingHandler) == 502,
{
}

/// A handler value that omits `status` (or whose `status` is not an
/// unsigned integer) yields exactly status 200.
pub proof fn lemma_default_status(v: ScriptValue)
    requires
        v matches ScriptValue::Obj(es) ==> !(spec_lookup(es@, "status"@) matches Some(
            ScriptValue::Uns(_),
        )),
    ensures
        status_field(v) == 200,
        clamp_status(status_field(v)) == 200,
{
}

/// A handler value that omits `body` (or whose `body` is not a string)
/// yields exactly the empty body.
pub proof fn lemma_default_body(v: ScriptValue)
    requires
        v matches ScriptValue::Obj(es) ==> !(spec_lookup(es@, "body"@) matches Some(
            ScriptValue::Text(_),
        )),
    ensures
        body_field(v) == Seq::<char>::empty(),
{
}

/// Every entry of a headers object that validates still appears among
/// the emitted header pairs.
pub proof fn lemma_valid_header_appears(es: Seq<(String, ScriptValue)>, i: int)
    requires
        0 <= i < es.len(),
        kept_header(es[i]),
    ensures
        kept_headers(es).contains(kept_pair(es[i])),
    decreases es.len(),
{
    if i == es.len() - 1 {
        let k = kept_headers(es);
        assert(k[k.len() - 1] == kept_pair(es[i]));
    } else {
        lemma_valid_header_appears(es.drop_last(), i);
        let p = kept_pair(es[i]);
        let k1 = kept_headers(es.drop_last());
        let j = choose|j: int| 0 <= j < k1.len() && k1[j] == p;
        assert(kept_headers(es)[j] == p);
    }
}

/// Nothing but validated entries is ever emitted: every emitted header
/// pair comes from some entry of the headers object that validated.
/// Entries with an invalid name or value are dropped; the response's
/// status and body never depend on the headers object at all, since
/// `status_field` and `body_field` read only the `status` and `body`
/// members.
pub proof fn lemma_invalid_headers_dropped(es: Seq<(String, ScriptValue)>, j: int)
    requires
        0 <= j < kept_headers(es).len(),
    ensures
        exists|i: int|
            0 <= i < es.len() && kept_header(es[i]) && kept_headers(es)[j] == kept_pair(es[i]),
    decreases es.len(),
{
    if es.len() == 0 {
    } else {
        let dl = es.drop_last();
        let k1 = kept_headers(dl);
        if j < k1.len() {
            lemma_invalid_headers_dropped(dl, j);
            let i = choose|i: int|
                0 <= i < dl.len() && kept_header(dl[i]) && k1[j] == kept_pair(dl[i]);
            assert(es[i] == dl[i]);
            assert(kept_headers(es)[j] == k1[j]);
            assert(kept_header(es[i]) && kept_headers(es)[j] == kept_pair(es[i]));
        } else {
            assert(kept_header(es.last()));
            let i = es.len() - 1;
            assert(kept_headers(es)[j] == kept_pair(es[i]));
        }
    }
}

/// Whatever happens to the headers member — dropped entries, a different
/// object, no object at all — the response's status and body stand:
/// they depend only on the `status` and `body` members.
pub proof fn lemma_headers_do_not_affect_status_body(v1: ScriptValue, v2: ScriptValue)
    requires
        v1 matches ScriptValue::Obj(es1) && v2 matches ScriptValue::Obj(es2) && spec_lookup(
            es1@,
            "status"@,
        ) == spec_lookup(es2@, "status"@) && spec_lookup(es1@, "body"@) == spec_lookup(
            es2@,
            "body"@,
        ),
    ensures
        status_field(v1) == status_field(v2),
        body_field(v1) == body_field(v2),
{
}

/// A handler that throws synchronously — the engine reports a fault from
/// the pump — finishes the session with Script-Fault, which maps to 500.
pub proof fn lemma_script_fault()
    ensures
        spec_advance(
            SessionState::AtPump,
            SessionEvent::Pumped(PumpEnd::Faulted),
        ) == SessionState::Finished(Err(SessionError::ScriptFault)),
        error_status_spec(SessionError::ScriptFault) == 500,
{
}

/// A finished session is terminal: no further event moves it.  Every
/// failure is terminal for its request; nothing is retried.
pub proof fn lemma_finished_is_terminal(s: SessionState, e: SessionEvent)
    requires
        s matches SessionState::Finished(_),
    ensures
        spec_advance(s, e) == s,
{
}

/// Sessions share nothing: the step relation reads only the session it
/// advances, so in a world of two sessions, advancing either leaves the
/// other exactly as it was — registering a handler while serving one
/// request cannot touch another request's session.
pub proof fn lemma_session_isolation(w: (SessionState, SessionState), e: SessionEvent)
    ensures
        (spec_advance(w.0, e), w.1).1 == w.1,
        (w.0, spec_advance(w.1, e)).0 == w.0,
{
}

} // verus!
