use otelx::context::{ContextScope, SpanRef, TraceContext};
use otelx::execution::{begin_trace, fail_trace, trace_block, trace_with_adapter};
use otelx::http::{
    begin_request, is_error_status, record_response, request_span_name, HttpOutcome, OtelXLayer,
    MAX_CAPTURED_BODY,
};
use otelx::propagation::{extract_context, inject_context};
use otelx::span::{AttrValue, Span};
use otelx::traceable::{finalize_span, IdentityAdapter, NoRecord};
use otelx::tracer::{create_span, start_child_span, start_span};

const INCOMING: &str = "00-4bf92f3577b34da6a3ce929d0e0e4736-00f067aa0ba902b7-01";

fn pairs(items: &[(&str, &str)]) -> Vec<(String, String)> {
    items.iter().map(|(k, v)| (k.to_string(), v.to_string())).collect()
}

fn str_attr(span: &Span, key: &str) -> Option<String> {
    match span.attribute(key) {
        Some(AttrValue::Str(s)) => Some(s),
        _ => None,
    }
}

fn some_parent() -> TraceContext {
    TraceContext { active: Some(SpanRef { trace_id: 7, span_id: 9 }) }
}

#[test]
fn child_span_is_parented_to_ambient_context() {
    let scope = ContextScope::new(some_parent());
    let before = scope.current_context();
    let (span, parent) = start_span(&scope, "db", "load_user", &Vec::new(), None);
    assert_eq!(parent, before);
    assert_eq!(span.parent, before);
    assert_eq!(span.id.trace_id, 7);
    assert_eq!(scope.current_context(), before);
}

#[test]
fn explicit_parent_overrides_ambient() {
    let scope = ContextScope::new(TraceContext::root());
    let explicit = some_parent();
    let (span, ctx) = create_span(&scope, "db", "q", &Vec::new(), Some(&explicit));
    assert_eq!(span.parent, explicit);
    assert_eq!(ctx, TraceContext { active: Some(span.id) });
}

#[test]
fn call_attributes_hold_semantic_name_and_params() {
    let scope = ContextScope::new(TraceContext::root());
    let params = pairs(&[("user_id", "42"), ("user_id", "43"), ("region", "eu")]);
    let (span, _) = start_span(&scope, "db.query", "load_user", &params, None);
    assert_eq!(span.name, "load_user");
    assert_eq!(str_attr(&span, "otelx.semantic").as_deref(), Some("db.query"));
    assert_eq!(str_attr(&span, "otelx.span_name").as_deref(), Some("load_user"));
    assert_eq!(str_attr(&span, "user_id").as_deref(), Some("43"));
    assert_eq!(str_attr(&span, "region").as_deref(), Some("eu"));
    assert!(span.attribute("missing").is_none());
}

#[test]
fn attach_then_detach_leaves_context_unchanged() {
    let mut scope = ContextScope::new(some_parent());
    let before = scope.current_context();
    let other = TraceContext { active: Some(SpanRef { trace_id: 1, span_id: 2 }) };
    let guard = scope.attach(other);
    assert_eq!(scope.current_context(), other);
    scope.detach(guard);
    assert_eq!(scope.current_context(), before);
    assert_eq!(scope.depth(), 0);
}

#[test]
fn successful_call_records_then_ends_once() {
    let mut scope = ContextScope::new(some_parent());
    let before = scope.current_context();
    let call = begin_trace(&mut scope, "svc", "work", &Vec::new());
    assert_eq!(scope.current_context(), call.span.context());
    assert_eq!(call.span.parent, before);
    let outcome = HttpOutcome {
        status: 200,
        headers: Vec::new(),
        body: b"ok".to_vec(),
        include_client_errors: false,
    };
    let (result, span) = trace_with_adapter::<IdentityAdapter, HttpOutcome>(&mut scope, call, outcome);
    assert!(span.is_ended());
    assert!(span.status.is_ok());
    assert!(matches!(span.attribute("http.status_code"), Some(AttrValue::Int(200))));
    assert_eq!(result.body, b"ok".to_vec());
    assert_eq!(scope.current_context(), before);
}

#[test]
fn no_record_result_leaves_span_attributes() {
    let mut scope = ContextScope::new(TraceContext::root());
    let call = begin_trace(&mut scope, "svc", "work", &Vec::new());
    let (result, span) = trace_block(&mut scope, call, NoRecord(5u32));
    assert_eq!(result.0, 5);
    assert!(span.is_ended());
    assert_eq!(span.attributes.len(), 2);
    assert!(scope.current_context().is_root());
}

#[test]
fn failed_call_ends_span_with_error() {
    let mut scope = ContextScope::new(some_parent());
    let before = scope.current_context();
    let call = begin_trace(&mut scope, "svc", "work", &Vec::new());
    let span = fail_trace(&mut scope, call, "handler failed");
    assert!(span.is_ended());
    assert!(span.status.is_error());
    assert_eq!(scope.current_context(), before);
}

#[test]
fn finalize_no_record_is_noop() {
    let (mut span, _) = start_child_span(&TraceContext::root(), "s", Vec::new());
    finalize_span(&mut span, &NoRecord(()));
    assert!(span.attributes.is_empty());
    assert!(!span.is_ended());
}

#[test]
fn concurrent_scopes_do_not_observe_each_other() {
    let mut a = ContextScope::new(TraceContext::root());
    let mut b = ContextScope::new(TraceContext::root());
    let call_a = begin_trace(&mut a, "svc", "a", &Vec::new());
    assert!(b.current_context().is_root());
    let call_b = begin_trace(&mut b, "svc", "b", &Vec::new());
    assert!(call_b.span.parent.is_root());
    assert_eq!(a.current_context(), call_a.span.context());
    let _ = fail_trace(&mut a, call_a, "cancelled");
    assert_eq!(b.current_context(), call_b.span.context());
    let _ = fail_trace(&mut b, call_b, "cancelled");
    assert!(a.current_context().is_root());
    assert!(b.current_context().is_root());
}

#[test]
fn extract_without_header_gives_root() {
    let headers = pairs(&[("accept", "*/*")]);
    assert!(extract_context(&headers).is_root());
}

#[test]
fn extract_valid_header_gives_incoming_ids() {
    let headers = pairs(&[("traceparent", INCOMING)]);
    let ctx = extract_context(&headers);
    assert_eq!(
        ctx.active,
        Some(SpanRef { trace_id: 0x4bf92f3577b34da6a3ce929d0e0e4736, span_id: 0x00f067aa0ba902b7 })
    );
}

#[test]
fn extract_invalid_header_gives_root() {
    let headers = pairs(&[("traceparent", "00-00000000000000000000000000000000-0000000000000000-01")]);
    assert!(extract_context(&headers).is_root());
}

#[test]
fn inject_replaces_traceparent() {
    let ctx = TraceContext { active: Some(SpanRef { trace_id: 0xab, span_id: 0xcd }) };
    let mut headers = pairs(&[("traceparent", "stale"), ("accept", "*/*")]);
    inject_context(&ctx, &mut headers);
    assert_eq!(
        headers,
        pairs(&[
            ("accept", "*/*"),
            ("traceparent", "00-000000000000000000000000000000ab-00000000000000cd-01"),
        ])
    );
}

#[test]
fn inject_root_leaves_headers() {
    let mut headers = pairs(&[("accept", "*/*")]);
    inject_context(&TraceContext::root(), &mut headers);
    assert_eq!(headers, pairs(&[("accept", "*/*")]));
}

#[test]
fn request_span_name_format() {
    assert_eq!(request_span_name("GET", "/users/1"), "HTTP GET /users/1");
}

#[test]
fn request_without_trace_header_has_root_parent() {
    let mut scope = ContextScope::new(TraceContext::root());
    let mut headers = pairs(&[("accept", "*/*")]);
    let call = begin_request(&mut scope, &mut headers, "GET", "/a", "HTTP/1.1");
    assert!(call.span.parent.is_root());
    assert_eq!(call.span.name, "HTTP GET /a");
    assert_eq!(str_attr(&call.span, "http.method").as_deref(), Some("GET"));
    assert_eq!(str_attr(&call.span, "http.target").as_deref(), Some("/a"));
    assert_eq!(str_attr(&call.span, "http.flavor").as_deref(), Some("HTTP/1.1"));
    assert_eq!(scope.current_context(), call.span.context());
}

#[test]
fn request_with_trace_header_is_child_of_incoming() {
    let mut scope = ContextScope::new(TraceContext::root());
    let mut headers = pairs(&[("traceparent", INCOMING)]);
    let call = begin_request(&mut scope, &mut headers, "POST", "/b", "HTTP/1.1");
    let incoming = SpanRef { trace_id: 0x4bf92f3577b34da6a3ce929d0e0e4736, span_id: 0x00f067aa0ba902b7 };
    assert_eq!(call.span.parent.active, Some(incoming));
    assert_eq!(call.span.id.trace_id, incoming.trace_id);
    // the handler sees the new span as its parent
    let seen = extract_context(&headers);
    assert_eq!(seen.active, Some(call.span.id));
}

fn respond(status: u16, include_client_errors: bool, body: &[u8]) -> (HttpOutcome, Span) {
    let mut scope = ContextScope::new(TraceContext::root());
    let mut headers = Vec::new();
    let call = begin_request(&mut scope, &mut headers, "GET", "/x", "HTTP/1.1");
    let outcome = HttpOutcome {
        status,
        headers: pairs(&[("content-type", "text/plain"), ("x-req", "r1")]),
        body: body.to_vec(),
        include_client_errors,
    };
    trace_with_adapter::<IdentityAdapter, HttpOutcome>(&mut scope, call, outcome)
}

#[test]
fn status_499_is_ok_without_client_errors() {
    let (_, span) = respond(499, false, b"nope");
    assert!(span.status.is_ok());
    assert!(span.attribute("error.body").is_none());
    assert!(matches!(span.attribute("http.status_code"), Some(AttrValue::Int(499))));
}

#[test]
fn status_499_is_error_with_client_errors() {
    let (_, span) = respond(499, true, b"nope");
    assert!(span.status.is_error());
    assert_eq!(str_attr(&span, "error.body").as_deref(), Some("nope"));
}

#[test]
fn status_500_captures_headers_and_body() {
    let body = b"internal \xffboom";
    let (outcome, span) = respond(500, false, body);
    assert!(span.status.is_error());
    assert!(matches!(span.attribute("error"), Some(AttrValue::Bool(true))));
    assert_eq!(str_attr(&span, "error.body").as_deref(), Some("internal \u{fffd}boom"));
    assert_eq!(str_attr(&span, "http.response.header.content-type").as_deref(), Some("text/plain"));
    assert_eq!(str_attr(&span, "http.response.header.x-req").as_deref(), Some("r1"));
    assert_eq!(outcome.body, body.to_vec());
    assert!(span.is_ended());
}

#[test]
fn status_500_plain_body_is_captured_exactly() {
    let (outcome, span) = respond(500, false, b"boom");
    assert_eq!(str_attr(&span, "error.body").as_deref(), Some("boom"));
    assert_eq!(outcome.body, b"boom".to_vec());
}

#[test]
fn large_error_body_is_truncated() {
    let body = vec![b'a'; MAX_CAPTURED_BODY + 10];
    let (outcome, span) = respond(503, false, &body);
    assert_eq!(str_attr(&span, "error.body").map(|s| s.len()), Some(MAX_CAPTURED_BODY));
    assert_eq!(outcome.body.len(), MAX_CAPTURED_BODY + 10);
}

#[test]
fn record_response_on_open_span() {
    let (mut span, _) = start_child_span(&TraceContext::root(), "s", Vec::new());
    record_response(&mut span, 404, &Vec::new(), &b"x".to_vec(), true);
    assert!(span.status.is_error());
    assert!(!span.is_ended());
}

#[test]
fn error_status_boundary() {
    assert!(!is_error_status(399, true));
    assert!(!is_error_status(499, false));
    assert!(is_error_status(499, true));
    assert!(is_error_status(400, true));
    assert!(is_error_status(500, false));
    assert!(is_error_status(500, true));
}

#[test]
fn layer_wraps_inner_with_boundary() {
    let m = OtelXLayer::with_client_errors().layer(3u8);
    assert_eq!(m.inner, 3);
    assert!(m.include_client_errors);
    let o = m.outcome(404, Vec::new(), b"b".to_vec());
    assert!(o.include_client_errors);
    assert!(!OtelXLayer::new().layer(()).include_client_errors);
}

#[test]
fn events_are_added_to_the_call_span() {
    let mut scope = ContextScope::new(TraceContext::root());
    let mut call = begin_trace(&mut scope, "svc", "work", &Vec::new());
    call.add_event("cache miss".to_string(), vec![("key".to_string(), AttrValue::Str("u1".to_string()))]);
    assert_eq!(call.span.events.len(), 1);
    assert_eq!(call.span.events[0].0, "cache miss");
    let (_, span) = trace_block(&mut scope, call, NoRecord(()));
    assert_eq!(span.events.len(), 1);
}

#[test]
fn finalize_no_record_keeps_existing_attributes() {
    let attrs = vec![("k".to_string(), AttrValue::Int(1))];
    let (mut span, _) = start_child_span(&some_parent(), "s", attrs);
    finalize_span(&mut span, &NoRecord("value"));
    assert_eq!(span.attributes.len(), 1);
    assert!(matches!(span.attribute("k"), Some(AttrValue::Int(1))));
    assert!(!span.status.is_ok() && !span.status.is_error());
}

#[test]
fn duplicate_error_headers_keep_last_value() {
    let (mut span, _) = start_child_span(&TraceContext::root(), "s", Vec::new());
    let headers = pairs(&[("set-cookie", "a=1"), ("x-id", "7"), ("set-cookie", "b=2")]);
    record_response(&mut span, 502, &headers, &b"bad gateway".to_vec(), false);
    assert_eq!(str_attr(&span, "http.response.header.set-cookie").as_deref(), Some("b=2"));
    assert_eq!(str_attr(&span, "http.response.header.x-id").as_deref(), Some("7"));
    assert_eq!(str_attr(&span, "error.body").as_deref(), Some("bad gateway"));
}
