//! The per-session control flow: every failure the pipeline can report,
//! the status each maps to, and the state machine that sequences one
//! request's engine session.
//!
//! The engine work itself (creating an interpreter, running scripts,
//! pumping its task queue) is performed by unverified glue, which feeds
//! the observed outcome of each step back as a `SessionEvent`.  All
//! decisions — which step comes next, which failure a bad outcome maps
//! to — are made here.  Each request gets its own `SessionState` value,
//! so no two sessions share any state.
//!
//! Known liveness gap: the pump has no deadline or step budget, so a
//! handler whose asynchronous result never settles keeps its worker
//! pumping and its session waiting at the pump step — it never reports a
//! `Pumped` event.  The session machine stays sound (no response is
//! invented), but that request is never answered.

use crate::value::ScriptValue;
use vstd::prelude::*;

verus! {

/// Every failure a request's pipeline can report.  All are terminal for
/// that request; nothing is retried.
pub enum SessionError {
    /// The engine could not be created, or its bootstrap script failed.
    SetupFailed,
    /// The user's script failed to run.
    UserScriptFailed,
    /// The user's script never registered a handler function.
    MissingHandler,
    /// A runtime exception during handler execution or event-loop
    /// pumping.
    ScriptFault,
    /// The handler ran to completion but never produced the reserved
    /// response global.
    MissingResponse,
    /// The response global was present but not decodable into the
    /// structured response shape.
    DecodeFailed,
    /// The worker task carrying the session failed outside the script.
    BridgeFailed,
}

/// The status a failure maps to: a missing handler is a deployment
/// problem and maps to 502, every other failure to 500.
pub open spec fn error_status_spec(e: SessionError) -> u16 {
    match e {
        SessionError::MissingHandler => 502u16,
        _ => 500u16,
    }
}

/// Maps a failure to its protocol status.
pub fn error_status(e: &SessionError) -> (s: u16)
    ensures
        s == error_status_spec(*e),
{
    match e {
        SessionError::MissingHandler => 502,
        _ => 500,
    }
}

/// How the engine's event loop ended after the handler was invoked.
pub enum PumpEnd {
    /// The pumped work ran to completion.
    Settled,
    /// The queue was exhausted with work still pending; nothing further
    /// will run.
    Exhausted,
    /// The engine reported an unrecoverable execution fault.
    Faulted,
}

/// What reading the reserved response global yielded.
pub enum ReadOutcome {
    /// The global was absent, or the engine's no-value sentinel.
    Absent,
    /// The global was present but could not be decoded.
    Undecodable,
    /// The decoded structured value.
    Decoded(ScriptValue),
}

/// The observed outcome of one pipeline step, reported by the glue that
/// drives the engine.
pub enum SessionEvent {
    /// Engine created and host API installed — or not.
    SetupDone(bool),
    /// User script ran without error — or not.
    UserScriptDone(bool),
    /// Whether a handler function is registered.
    HandlerChecked(bool),
    /// How invoking the handler and pumping the event loop ended.
    Pumped(PumpEnd),
    /// What the reserved response global held.
    ResponseRead(ReadOutcome),
}

/// Where one request's session stands.  The five pipeline steps are
/// strictly sequential; `Finished` carries the session's result.
pub enum SessionState {
    /// Waiting for the engine to be created and the host API installed.
    AtSetup,
    /// Waiting for the user's script to run.
    AtUserScript,
    /// Waiting for the registration check.
    AtHandlerCheck,
    /// Waiting for the handler invocation and the event-loop pump.
    AtPump,
    /// Waiting for the reserved response global to be read.
    AtRead,
    /// The session is over, with the handler's value or a failure.
    Finished(Result<ScriptValue, SessionError>),
}

/// The session state machine: from a state and the event observed there,
/// the next state.  An event that does not belong to the current state
/// changes nothing.
pub open spec fn spec_advance(s: SessionState, e: SessionEvent) -> SessionState {
    match (s, e) {
        (SessionState::AtSetup, SessionEvent::SetupDone(ok)) => if ok {
            SessionState::AtUserScript
        } else {
            SessionState::Finished(Err(SessionError::SetupFailed))
        },
        (SessionState::AtUserScript, SessionEvent::UserScriptDone(ok)) => if ok {
            SessionState::AtHandlerCheck
        } else {
            SessionState::Finished(Err(SessionError::UserScriptFailed))
        },
        (SessionState::AtHandlerCheck, SessionEvent::HandlerChecked(present)) => if present {
            SessionState::AtPump
        } else {
            SessionState::Finished(Err(SessionError::MissingHandler))
        },
        (SessionState::AtPump, SessionEvent::Pumped(end)) => match end {
            PumpEnd::Faulted => SessionState::Finished(Err(SessionError::ScriptFault)),
            _ => SessionState::AtRead,
        },
        (SessionState::AtRead, SessionEvent::ResponseRead(read)) => match read {
            ReadOutcome::Absent => SessionState::Finished(Err(SessionError::MissingResponse)),
            ReadOutcome::Undecodable => SessionState::Finished(Err(SessionError::DecodeFailed)),
            ReadOutcome::Decoded(v) => SessionState::Finished(Ok(v)),
        },
        (other, _) => other,
    }
}

/// A fresh session, before any engine work: each request starts its own.
pub fn new_session() -> (s: SessionState)
    ensures
        s == SessionState::AtSetup,
{
    SessionState::AtSetup
}

/// Advances one session by one observed step outcome.
pub fn advance(s: SessionState, e: SessionEvent) -> (t: SessionState)
    ensures
        t == spec_advance(s, e),
{
    match (s, e) {
        (SessionState::AtSetup, SessionEvent::SetupDone(ok)) => {
            if ok {
                SessionState::AtUserScript
            } else {
                SessionState::Finished(Err(SessionError::SetupFailed))
            }
        },
        (SessionState::AtUserScript, SessionEvent::UserScriptDone(ok)) => {
            if ok {
                SessionState::AtHandlerCheck
            } else {
                SessionState::Finished(Err(SessionError::UserScriptFailed))
            }
        },
        (SessionState::AtHandlerCheck, SessionEvent::HandlerChecked(present)) => {
            if present {
                SessionState::AtPump
            } else {
                SessionState::Finished(Err(SessionError::MissingHandler))
            }
        },
        (SessionState::AtPump, SessionEvent::Pumped(end)) => match end {
            PumpEnd::Faulted => SessionState::Finished(Err(SessionError::ScriptFault)),
            _ => SessionState::AtRead,
        },
        (SessionState::AtRead, SessionEvent::ResponseRead(read)) => match read {
            ReadOutcome::Absent => SessionState::Finished(Err(SessionError::MissingResponse)),
            ReadOutcome::Undecodable => SessionState::Finished(Err(SessionError::DecodeFailed)),
            ReadOutcome::Decoded(v) => SessionState::Finished(Ok(v)),
        },
        (other, _) => other,
    }
}

} // verus!
