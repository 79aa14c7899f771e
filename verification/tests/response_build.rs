use munk_gateway::extract::extract_response;
use munk_gateway::flow::SessionError;
use munk_gateway::respond::build_http;
use munk_gateway::respond::respond;
use munk_gateway::respond::respond_failure;
use munk_gateway::respond::respond_from_value;
use munk_gateway::value::ScriptValue;

fn obj(entries: Vec<(&str, ScriptValue)>) -> ScriptValue {
    ScriptValue::Obj(
        entries
            .into_iter()
            .map(|(k, v)| (k.to_string(), v))
            .collect(),
    )
}

fn text(s: &str) -> ScriptValue {
    ScriptValue::Text(s.to_string())
}

#[test]
fn status_and_body_pass_through() {
    let v = obj(vec![("status", ScriptValue::Uns(201)), ("body", text("made"))]);
    let h = respond_from_value(v);
    assert_eq!(h.status, 201);
    assert_eq!(h.body, "made");
    assert!(h.headers.is_empty());
}

#[test]
fn status_defaults_to_200_when_absent() {
    let v = obj(vec![("body", text("x"))]);
    let h = respond_from_value(v);
    assert_eq!(h.status, 200);
    assert_eq!(h.body, "x");
}

#[test]
fn status_defaults_to_200_when_not_unsigned() {
    let v = obj(vec![("status", text("201")), ("body", text("x"))]);
    let h = respond_from_value(v);
    assert_eq!(h.status, 200);
}

#[test]
fn body_defaults_to_empty_when_absent() {
    let v = obj(vec![("status", ScriptValue::Uns(204))]);
    let h = respond_from_value(v);
    assert_eq!(h.status, 204);
    assert_eq!(h.body, "");
}

#[test]
fn body_defaults_to_empty_when_not_a_string() {
    let v = obj(vec![("body", ScriptValue::Uns(3))]);
    let h = respond_from_value(v);
    assert_eq!(h.body, "");
}

#[test]
fn non_object_value_gets_all_defaults() {
    let h = respond_from_value(text("just a string"));
    assert_eq!(h.status, 200);
    assert_eq!(h.body, "");
    assert!(h.headers.is_empty());
}

#[test]
fn out_of_range_statuses_map_to_500() {
    for s in [0u64, 99, 1000, 65636, u64::MAX] {
        let v = obj(vec![("status", ScriptValue::Uns(s))]);
        let h = respond_from_value(v);
        assert_eq!(h.status, 500);
    }
}

#[test]
fn boundary_statuses_kept() {
    for s in [100u64, 404, 502, 999] {
        let v = obj(vec![("status", ScriptValue::Uns(s))]);
        let h = respond_from_value(v);
        assert_eq!(h.status, s as u16);
    }
}

#[test]
fn first_entry_wins_on_duplicate_keys() {
    let v = obj(vec![
        ("status", ScriptValue::Uns(201)),
        ("status", ScriptValue::Uns(404)),
    ]);
    let h = respond_from_value(v);
    assert_eq!(h.status, 201);
}

#[test]
fn valid_headers_are_emitted() {
    let headers = obj(vec![
        ("X-Custom", text("yes")),
        ("x-token", text("tab\tallowed")),
    ]);
    let v = obj(vec![("headers", headers), ("body", text("b"))]);
    let h = respond_from_value(v);
    assert_eq!(
        h.headers,
        vec![
            ("X-Custom".to_string(), "yes".to_string()),
            ("x-token".to_string(), "tab\tallowed".to_string()),
        ]
    );
    assert_eq!(h.status, 200);
    assert_eq!(h.body, "b");
}

#[test]
fn invalid_header_names_are_dropped_without_harm() {
    let headers = obj(vec![
        ("bad\u{7}name", text("v")),
        ("bad name", text("v")),
        ("héader", text("v")),
        ("", text("v")),
        ("good", text("kept")),
    ]);
    let v = obj(vec![
        ("status", ScriptValue::Uns(201)),
        ("body", text("still here")),
        ("headers", headers),
    ]);
    let h = respond_from_value(v);
    assert_eq!(h.headers, vec![("good".to_string(), "kept".to_string())]);
    assert_eq!(h.status, 201);
    assert_eq!(h.body, "still here");
}

#[test]
fn invalid_header_values_are_dropped_without_harm() {
    let headers = obj(vec![
        ("a", text("line\nbreak")),
        ("b", text("del\u{7f}here")),
        ("c", ScriptValue::Uns(12)),
        ("d", text("non-ascii välue ok")),
    ]);
    let v = obj(vec![("headers", headers)]);
    let h = respond_from_value(v);
    assert_eq!(
        h.headers,
        vec![("d".to_string(), "non-ascii välue ok".to_string())]
    );
    assert_eq!(h.status, 200);
    assert_eq!(h.body, "");
}

#[test]
fn header_name_length_limit() {
    let long_ok = "a".repeat(65535);
    let too_long = "a".repeat(65536);
    let headers = obj(vec![
        (long_ok.as_str(), text("v")),
        (too_long.as_str(), text("v")),
    ]);
    let v = obj(vec![("headers", headers)]);
    let h = respond_from_value(v);
    assert_eq!(h.headers.len(), 1);
    assert_eq!(h.headers[0].0, long_ok);
}

#[test]
fn non_object_headers_member_emits_no_headers() {
    let v = obj(vec![("headers", text("not-an-object"))]);
    let h = respond_from_value(v);
    assert!(h.headers.is_empty());
}

#[test]
fn extraction_passes_headers_through_verbatim() {
    let headers = obj(vec![("bad\nname", text("v"))]);
    let v = obj(vec![("headers", headers)]);
    let r = extract_response(v);
    assert_eq!(r.status, 200);
    assert_eq!(r.body, "");
    match r.headers {
        Some(ScriptValue::Obj(entries)) => {
            assert_eq!(entries.len(), 1);
            assert_eq!(entries[0].0, "bad\nname");
        }
        _ => panic!("headers member should survive extraction untouched"),
    }
}

#[test]
fn build_clamps_and_filters_in_one_pass() {
    let r = extract_response(obj(vec![
        ("status", ScriptValue::Uns(7000)),
        ("headers", obj(vec![("ok", text("1")), ("not ok", text("2"))])),
    ]));
    let h = build_http(r);
    assert_eq!(h.status, 500);
    assert_eq!(h.headers, vec![("ok".to_string(), "1".to_string())]);
}

#[test]
fn failure_responses_by_error() {
    let cases = [
        (SessionError::SetupFailed, 500u16),
        (SessionError::UserScriptFailed, 500),
        (SessionError::MissingHandler, 502),
        (SessionError::ScriptFault, 500),
        (SessionError::MissingResponse, 500),
        (SessionError::DecodeFailed, 500),
        (SessionError::BridgeFailed, 500),
    ];
    for (e, want) in cases {
        let h = respond_failure(&e);
        assert_eq!(h.status, want);
        assert_eq!(h.body, "");
        assert!(h.headers.is_empty());
    }
}

#[test]
fn respond_covers_both_outcomes() {
    let ok = respond(Ok(obj(vec![("status", ScriptValue::Uns(201))])));
    assert_eq!(ok.status, 201);
    let err = respond(Err(SessionError::MissingHandler));
    assert_eq!(err.status, 502);
    assert_eq!(err.body, "");
}
