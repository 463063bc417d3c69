use vstd::prelude::*;
use vstd::string::*;
use crate::context::{ContextScope, SpanRef, TraceContext};
use crate::ids::{random_span_id, random_trace_id};
use crate::span::{log_view, AttrValue, AttrView, Span, SpanEvent};

verus! {

/// The identity a child of `parent` takes: the parent's trace, or a fresh
/// trace under a root context; the span id is always fresh.
pub open spec fn inherits_trace(parent: TraceContext, id: SpanRef) -> bool {
    match parent.active {
        Some(p) => id.trace_id == p.trace_id,
        None => true,
    }
}

/// Starts a span named `name` under `parent` with the given initial attributes,
/// and returns it with the new context in which it is active. `parent` is not
/// changed.
pub fn start_child_span(
    parent: &TraceContext,
    name: &str,
    attributes: Vec<(String, AttrValue)>,
) -> (r: (Span, TraceContext))
    ensures
        r.0.name@ == name@,
        r.0.parent == *parent,
        inherits_trace(*parent, r.0.id),
        r.0.attributes@ == attributes@,
        r.0.status@ is Unset,
        r.0.events@.len() == 0,
        r.0.is_open(),
        r.0.history() == seq![SpanEvent::Started],
        r.1 == r.0.context_spec(),
{
    let trace_id: u128 = match parent.active {
        Some(p) => p.trace_id,
        None => random_trace_id(),
    };
    let id = SpanRef { trace_id, span_id: random_span_id() };
    let span = Span::started(String::from_str(name), id, *parent, attributes);
    let ctx = span.context();
    (span, ctx)
}

/// The attributes every traced call starts with: the semantic key, the span
/// name, then each captured parameter as a string.
pub open spec fn call_attributes(
    semantic: Seq<char>,
    span_name: Seq<char>,
    params: Seq<(Seq<char>, Seq<char>)>,
) -> Seq<(Seq<char>, AttrView)> {
    seq![
        ("otelx.semantic"@, AttrView::Str(semantic)),
        ("otelx.span_name"@, AttrView::Str(span_name)),
    ] + params.map_values(|p: (Seq<char>, Seq<char>)| (p.0, AttrView::Str(p.1)))
}

pub open spec fn params_view(params: Seq<(String, String)>) -> Seq<(Seq<char>, Seq<char>)> {
    params.map_values(|p: (String, String)| (p.0@, p.1@))
}

/// Starts the span of a traced call under `parent`, or under the ambient
/// context of `scope` when no parent is given. Returns the span and the
/// context it was parented to.
pub fn start_span(
    scope: &ContextScope,
    semantic: &str,
    span_name: &str,
    params: &Vec<(String, String)>,
    parent: Option<&TraceContext>,
) -> (r: (Span, TraceContext))
    ensures
        r.1 == (match parent {
            Some(p) => *p,
            None => scope@.current,
        }),
        r.0.parent == r.1,
        r.0.name@ == span_name@,
        inherits_trace(r.1, r.0.id),
        r.0.log() == call_attributes(semantic@, span_name@, params_view(params@)),
        r.0.status@ is Unset,
        r.0.is_open(),
        r.0.history() == seq![SpanEvent::Started],
{
    let parent_cx: TraceContext = match parent {
        Some(p) => *p,
        None => scope.current_context(),
    };
    let mut attrs: Vec<(String, AttrValue)> = Vec::new();
    attrs.push((String::from_str("otelx.semantic"), AttrValue::Str(String::from_str(semantic))));
    attrs.push((String::from_str("otelx.span_name"), AttrValue::Str(String::from_str(span_name))));
    let ghost head = log_view(attrs@);
    assert(head =~= seq![
        ("otelx.semantic"@, AttrView::Str(semantic@)),
        ("otelx.span_name"@, AttrView::Str(span_name@)),
    ]);
    let mut i: usize = 0;
    while i < params.len()
        invariant
            i <= params.len(),
            head.len() == 2,
            log_view(attrs@) == head + params_view(params@).take(i as int).map_values(
                |p: (Seq<char>, Seq<char>)| (p.0, AttrView::Str(p.1)),
            ),
        decreases params.len() - i,
    {
        let key = params[i].0.clone();
        let value = params[i].1.clone();
        let ghost before = attrs@;
        attrs.push((key, AttrValue::Str(value)));
        proof {
            assert(log_view(before.push((key, AttrValue::Str(value)))) =~= log_view(before).push(
                (key@, AttrView::Str(value@)),
            ));
            assert(params_view(params@).take(i + 1) =~= params_view(params@).take(i as int).push(
                (key@, value@),
            ));
            assert(params_view(params@).take(i + 1).map_values(
                |p: (Seq<char>, Seq<char>)| (p.0, AttrView::Str(p.1)),
            ) =~= params_view(params@).take(i as int).map_values(
                |p: (Seq<char>, Seq<char>)| (p.0, AttrView::Str(p.1)),
            ).push((key@, AttrView::Str(value@))));
        }
        i = i + 1;
    }
    proof {
        assert(params_view(params@).take(i as int) =~= params_view(params@));
    }
    let (span, _ctx) = start_child_span(&parent_cx, span_name, attrs);
    (span, parent_cx)
}

/// Starts the span of a traced call and returns it with the new context in
/// which it is active.
pub fn create_span(
    scope: &ContextScope,
    semantic: &str,
    span_name: &str,
    params: &Vec<(String, String)>,
    parent: Option<&TraceContext>,
) -> (r: (Span, TraceContext))
    ensures
        r.0.parent == (match parent {
            Some(p) => *p,
            None => scope@.current,
        }),
        r.0.name@ == span_name@,
        inherits_trace(r.0.parent, r.0.id),
        r.0.log() == call_attributes(semantic@, span_name@, params_view(params@)),
        r.0.status@ is Unset,
        r.0.is_open(),
        r.0.history() == seq![SpanEvent::Started],
        r.1 == r.0.context_spec(),
{
    let (span, _parent) = start_span(scope, semantic, span_name, params, parent);
    let ctx = span.context();
    (span, ctx)
}

} // verus!
