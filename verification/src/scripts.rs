//! The script texts the host hands to the engine: the host-API bootstrap
//! installed into every fresh context, the handler-call script that
//! injects one request, and the registration-check expression.

use crate::marshal::RequestDescriptor;
use crate::marshal::json_of_request;
use crate::marshal::request_to_json;
use vstd::prelude::*;

verus! {

/// The bootstrap installed into every fresh engine context: one global
/// capability object with one operation, which accepts a function and
/// stores it under the reserved handler binding — and throws inside the
/// engine when handed anything else.
pub open spec fn host_api_script_text() -> Seq<char> {
    "globalThis.Munk = { serve(handler) { if (typeof handler !== 'function') { throw new Error(\"Munk.serve expects a function\"); } globalThis.__munkHandler__ = handler; } };"@
}

/// Writes the host-API bootstrap script.
pub fn host_api_script() -> (s: String)
    ensures
        s@ == host_api_script_text(),
{
    String::from_str(
        "globalThis.Munk = { serve(handler) { if (typeof handler !== 'function') { throw new Error(\"Munk.serve expects a function\"); } globalThis.__munkHandler__ = handler; } };",
    )
}

/// What stands before the injected request JSON in the handler-call
/// script.
pub open spec fn call_script_prefix() -> Seq<char> {
    "(async function() { const req = "@
}

/// What stands after the injected request JSON: the handler is awaited
/// and its value stored into the reserved response global.
pub open spec fn call_script_suffix() -> Seq<char> {
    "; const resp = await globalThis.__munkHandler__(req); globalThis.__response__ = resp; })()"@
}

/// The handler-call script around a given request JSON text.
pub open spec fn call_script_text(json: Seq<char>) -> Seq<char> {
    call_script_prefix() + json + call_script_suffix()
}

/// Builds the handler-call script around an already-written request JSON
/// text.
pub fn build_call_script(req_json: &String) -> (s: String)
    ensures
        s@ == call_script_text(req_json@),
{
    let mut s = String::from_str("(async function() { const req = ");
    s.append(req_json.as_str());
    s.append(
        "; const resp = await globalThis.__munkHandler__(req); globalThis.__response__ = resp; })()",
    );
    s
}

/// The handler-call script for one request descriptor: the descriptor's
/// JSON text spliced into the call script, so the script's `req` argument
/// is exactly the marshalled request.
pub fn invocation_script(r: &RequestDescriptor) -> (s: String)
    ensures
        s@ == call_script_text(json_of_request(*r)),
{
    let json = request_to_json(r);
    build_call_script(&json)
}

/// The expression that tells whether a handler function is registered in
/// the current context.
pub fn handler_check_script() -> (s: String)
    ensures
        s@ == "typeof globalThis.__munkHandler__ === 'function'"@,
{
    String::from_str("typeof globalThis.__munkHandler__ === 'function'")
}

/// The reserved global binding the handler's settled value is read from.
pub fn response_global_name() -> (s: String)
    ensures
        s@ == "__response__"@,
{
    String::from_str("__response__")
}

} // verus!
