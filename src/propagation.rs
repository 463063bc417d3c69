use vstd::prelude::*;
use vstd::string::*;
use std::collections::HashMap;
use opentelemetry::propagation::TextMapPropagator;
use opentelemetry::trace::{SpanContext, SpanId, TraceContextExt, TraceFlags, TraceId, TraceState};
use opentelemetry::Context;
use opentelemetry_sdk::propagation::TraceContextPropagator;
use crate::context::{SpanRef, TraceContext};

verus! {

/// The header that carries the parent span across a process boundary.
pub const TRACEPARENT: &'static str = "traceparent";

/// Header names and values as plain text, in order.
pub open spec fn headers_view(h: Seq<(String, String)>) -> Seq<(Seq<char>, Seq<char>)> {
    h.map_values(|p: (String, String)| (p.0@, p.1@))
}

pub open spec fn has_header(h: Seq<(Seq<char>, Seq<char>)>, name: Seq<char>) -> bool {
    exists|i: int| 0 <= i < h.len() && #[trigger] h[i].0 == name
}

/// The headers without any entry named `name`, the others kept in order.
pub open spec fn without_header(h: Seq<(Seq<char>, Seq<char>)>, name: Seq<char>) -> Seq<
    (Seq<char>, Seq<char>),
>
    decreases h.len(),
{
    if h.len() == 0 {
        h
    } else {
        let rest = without_header(h.drop_last(), name);
        if h.last().0 == name {
            rest
        } else {
            rest.push(h.last())
        }
    }
}

/// The trace id and span id that the W3C trace-context propagator reads from
/// these headers; both are zero where it finds no valid parent.
pub uninterp spec fn extracted_ids(headers: Seq<(Seq<char>, Seq<char>)>) -> (u128, u64);

/// The lowercase hexadecimal digit for `d < 16`.
pub open spec fn hex_digit(d: nat) -> char {
    seq!['0', '1', '2', '3', '4', '5', '6', '7', '8', '9', 'a', 'b', 'c', 'd', 'e', 'f'][d as int]
}

/// The last `width` lowercase hexadecimal digits of `n`, zero-padded.
pub open spec fn hex_fixed(n: nat, width: nat) -> Seq<char>
    decreases width,
{
    if width == 0 {
        Seq::empty()
    } else {
        hex_fixed(n / 16, (width - 1) as nat).push(hex_digit(n % 16))
    }
}

/// The `traceparent` value for a sampled span with these ids: version `00`,
/// 32 hex digits of the trace id, 16 of the span id, flags `01`.
pub open spec fn traceparent_value(trace_id: u128, span_id: u64) -> Seq<char> {
    "00-"@ + hex_fixed(trace_id as nat, 32) + "-"@ + hex_fixed(span_id as nat, 16) + "-01"@
}

/// Relies on opentelemetry_sdk's `TraceContextPropagator::extract_with_context`
/// over a `HashMap` of the headers and an empty context: the ids of the remote
/// span context it yields. It reads only a header named `traceparent`, and the
/// context it yields is either valid (both ids non-zero) or empty (both zero).
#[verifier::external_body]
fn extract_ids(headers: &Vec<(String, String)>) -> (r: (u128, u64))
    ensures
        r == extracted_ids(headers_view(headers@)),
        !has_header(headers_view(headers@), TRACEPARENT@) ==> r == (0u128, 0u64),
        (r.0 == 0) == (r.1 == 0),
{
    let carrier: HashMap<String, String> = headers.iter().cloned().collect();
    let cx = TraceContextPropagator::new().extract_with_context(&Context::new(), &carrier);
    let span = cx.span();
    let sc = span.span_context();
    (u128::from_be_bytes(sc.trace_id().to_bytes()), u64::from_be_bytes(sc.span_id().to_bytes()))
}

/// Relies on opentelemetry_sdk's `TraceContextPropagator::inject_context` over a
/// `HashMap`, for a sampled remote span context with these ids: the value it
/// writes under `traceparent`.
#[verifier::external_body]
fn traceparent_for(trace_id: u128, span_id: u64) -> (r: String)
    requires
        trace_id != 0,
        span_id != 0,
    ensures
        r@ == traceparent_value(trace_id, span_id),
{
    let sc = SpanContext::new(
        TraceId::from(trace_id),
        SpanId::from(span_id),
        TraceFlags::SAMPLED,
        true,
        TraceState::default(),
    );
    let cx = Context::new().with_remote_span_context(sc);
    let mut carrier: HashMap<String, String> = HashMap::new();
    TraceContextPropagator::new().inject_context(&cx, &mut carrier);
    carrier.remove(TRACEPARENT).unwrap_or_default()
}

/// The parent context carried by inbound headers: the remote span that the
/// propagator finds, or a root context where there is none. Never fails.
pub fn extract_context(headers: &Vec<(String, String)>) -> (r: TraceContext)
    ensures
        r == context_of_ids(extracted_ids(headers_view(headers@))),
        !has_header(headers_view(headers@), TRACEPARENT@) ==> r.active is None,
{
    let (trace_id, span_id) = extract_ids(headers);
    if trace_id == 0 {
        TraceContext { active: None }
    } else {
        TraceContext { active: Some(SpanRef { trace_id, span_id }) }
    }
}

/// The context for a pair of extracted ids: a root where they are zero.
pub open spec fn context_of_ids(ids: (u128, u64)) -> TraceContext {
    if ids.0 == 0 {
        TraceContext { active: None }
    } else {
        TraceContext { active: Some(SpanRef { trace_id: ids.0, span_id: ids.1 }) }
    }
}

/// Whether a context names a span that can be propagated.
pub open spec fn propagatable(ctx: TraceContext) -> bool {
    match ctx.active {
        Some(s) => s.trace_id != 0 && s.span_id != 0,
        None => false,
    }
}

/// Writes `ctx` into outbound headers: every `traceparent` entry is replaced by
/// one that names the active span of `ctx`. Headers stay as they are when
/// `ctx` has no span that can be propagated.
pub fn inject_context(ctx: &TraceContext, headers: &mut Vec<(String, String)>)
    ensures
        propagatable(*ctx) ==> headers_view(final(headers)@) == without_header(
            headers_view(old(headers)@),
            TRACEPARENT@,
        ).push((TRACEPARENT@, traceparent_value(ctx.active->0.trace_id, ctx.active->0.span_id))),
        !propagatable(*ctx) ==> final(headers)@ == old(headers)@,
{
    let s = match ctx.active {
        Some(s) => s,
        None => return,
    };
    if s.trace_id == 0 || s.span_id == 0 {
        return;
    }
    let value = traceparent_for(s.trace_id, s.span_id);
    let name = String::from_str(TRACEPARENT);
    let ghost orig = headers_view(headers@);
    let mut kept: Vec<(String, String)> = Vec::new();
    let mut i: usize = 0;
    while i < headers.len()
        invariant
            i <= headers.len(),
            orig == headers_view(headers@),
            name@ == TRACEPARENT@,
            headers_view(kept@) == without_header(orig.take(i as int), TRACEPARENT@),
        decreases headers.len() - i,
    {
        let entry = (headers[i].0.clone(), headers[i].1.clone());
        let ghost before = kept@;
        proof {
            assert(orig.take(i + 1).drop_last() =~= orig.take(i as int));
            assert(orig.take(i + 1).last() == (entry.0@, entry.1@));
        }
        if entry.0 != name {
            kept.push(entry);
            proof {
                assert(headers_view(before.push(entry)) =~= headers_view(before).push(
                    (entry.0@, entry.1@),
                ));
            }
        }
        i = i + 1;
    }
    proof {
        assert(orig.take(i as int) =~= orig);
    }
    let ghost before = kept@;
    let entry = (name, value);
    kept.push(entry);
    proof {
        assert(headers_view(before.push(entry)) =~= headers_view(before).push((entry.0@, entry.1@)));
    }
    *headers = kept;
}

} // verus!
