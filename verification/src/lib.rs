//! Request-scoped embedded-script execution gateway.
//!
//! Each inbound HTTP request is served by a fresh, isolated script-engine
//! session: the request is marshalled into a JSON value, a user-registered
//! handler is invoked inside the engine, the engine's task queue is pumped
//! until the handler's result settles, and the result is extracted and
//! converted into a protocol-level HTTP response.  This crate holds the
//! verified logic of that pipeline: marshalling, script-text construction,
//! response extraction with defaulting, header validation, status clamping,
//! error classification, and the per-session control flow.  The engine
//! itself and the HTTP listener are driven by unverified glue around this
//! library.

pub mod extract;
pub mod flow;
pub mod laws;
pub mod marshal;
pub mod respond;
pub mod scripts;
pub mod value;
