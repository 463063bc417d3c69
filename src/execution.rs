use vstd::prelude::*;
use vstd::string::*;
use crate::context::{attach_spec, detach_spec, ContextGuard, ContextScope, ScopeState};
use crate::span::{AttrValue, Span, SpanEvent, SpanStatus, StatusView};
use crate::traceable::{TraceAdapter, Traceable};
use crate::tracer::{call_attributes, create_span, inherits_trace, params_view};

verus! {

/// A traced call in progress: its open span, and the guard of the attachment
/// that made the span's context ambient.
pub struct TracedCall {
    pub span: Span,
    pub guard: ContextGuard,
}

impl TracedCall {
    /// Adds a named event to the span of the call; the call stays in progress.
    pub fn add_event(&mut self, name: String, attributes: Vec<(String, AttrValue)>)
        requires
            old(self).span.is_open(),
        ensures
            final(self).guard == old(self).guard,
            final(self).span.same_identity_but_events(old(self).span),
            final(self).span.events@ == old(self).span.events@.push((name, attributes)),
    {
        self.span.add_event(name, attributes);
    }

    /// The call is in progress in `scope`: its span is open and started, and
    /// its attachment is the innermost one.
    pub open spec fn in_progress(&self, scope: ScopeState) -> bool {
        &&& self.span.is_open()
        &&& self.span.history() == seq![SpanEvent::Started]
        &&& self.guard.level() == scope.saved.len()
        &&& self.guard.level() > 0
        &&& scope.current == self.span.context_spec()
    }
}

/// The span that a finished call hands back keeps the identity of the span
/// it started with.
pub open spec fn same_span(done: Span, started: Span) -> bool {
    &&& done.name@ == started.name@
    &&& done.id == started.id
    &&& done.parent == started.parent
}

/// Opens the span of a traced call under the ambient context of `scope`, with
/// the semantic key, the span name and every captured parameter as attributes,
/// and makes the span's context ambient.
pub fn begin_trace(
    scope: &mut ContextScope,
    semantic: &str,
    span_name: &str,
    params: &Vec<(String, String)>,
) -> (call: TracedCall)
    ensures
        call.span.parent == old(scope)@.current,
        call.span.name@ == span_name@,
        inherits_trace(old(scope)@.current, call.span.id),
        call.span.log() == call_attributes(semantic@, span_name@, params_view(params@)),
        call.span.status@ is Unset,
        final(scope)@ == attach_spec(old(scope)@, call.span.context_spec()),
        call.in_progress(final(scope)@),
{
    let (span, ctx) = create_span(scope, semantic, span_name, params, None);
    let guard = scope.attach(ctx);
    TracedCall { span, guard }
}

/// Completes a traced call with its result: records the result onto the span,
/// ends the span, and restores the context that was ambient before the call.
/// The result is handed back untouched.
pub fn trace_block<T: Traceable>(scope: &mut ContextScope, call: TracedCall, result: T) -> (r: (
    T,
    Span,
))
    requires
        call.in_progress(old(scope)@),
    ensures
        r.0 == result,
        same_span(r.1, call.span),
        result.records_onto(call.span, r.1.attributes@, r.1.status),
        !r.1.is_open(),
        r.1.history() == seq![SpanEvent::Started, SpanEvent::Recorded, SpanEvent::Ended],
        lifecycle_complete(r.1.history()),
        final(scope)@ == detach_spec(old(scope)@),
{
    proof {
        lemma_completed_lifecycles();
    }
    let TracedCall { mut span, guard } = call;
    result.record_span(&mut span);
    span.note_recorded();
    span.end();
    assert(span.history() =~= seq![SpanEvent::Started, SpanEvent::Recorded, SpanEvent::Ended]);
    scope.detach(guard);
    (result, span)
}

/// Completes a traced call with its result, after passing the result through
/// the adapter `A`; otherwise as `trace_block`.
pub fn trace_with_adapter<A: TraceAdapter<T>, T: Traceable>(
    scope: &mut ContextScope,
    call: TracedCall,
    result: T,
) -> (r: (T, Span))
    requires
        call.in_progress(old(scope)@),
    ensures
        r.0 == A::adapted(result),
        same_span(r.1, call.span),
        A::adapted(result).records_onto(call.span, r.1.attributes@, r.1.status),
        !r.1.is_open(),
        r.1.history() == seq![SpanEvent::Started, SpanEvent::Recorded, SpanEvent::Ended],
        lifecycle_complete(r.1.history()),
        final(scope)@ == detach_spec(old(scope)@),
{
    let adapted = A::adapt(result);
    trace_block(scope, call, adapted)
}

/// Completes a traced call that produced no value (it failed or was
/// cancelled): nothing is recorded, the span gets an error status with
/// `description`, it is ended, and the prior context is restored.
pub fn fail_trace(scope: &mut ContextScope, call: TracedCall, description: &str) -> (r: Span)
    requires
        call.in_progress(old(scope)@),
    ensures
        same_span(r, call.span),
        r.attributes@ == call.span.attributes@,
        r.status@ == StatusView::Error(description@),
        !r.is_open(),
        r.history() == seq![SpanEvent::Started, SpanEvent::Ended],
        lifecycle_complete(r.history()),
        final(scope)@ == detach_spec(old(scope)@),
{
    proof {
        lemma_completed_lifecycles();
    }
    let TracedCall { mut span, guard } = call;
    span.set_status(SpanStatus::Error(String::from_str(description)));
    span.end();
    assert(span.history() =~= seq![SpanEvent::Started, SpanEvent::Ended]);
    scope.detach(guard);
    span
}

/// Number of occurrences of `e` in a span history.
pub open spec fn occurrences(h: Seq<SpanEvent>, e: SpanEvent) -> nat
    decreases h.len(),
{
    if h.len() == 0 {
        0
    } else {
        occurrences(h.drop_last(), e) + if h.last() == e {
            1nat
        } else {
            0nat
        }
    }
}

/// A finished lifecycle: started first, ended last, each exactly once.
pub open spec fn lifecycle_complete(h: Seq<SpanEvent>) -> bool {
    &&& h.len() >= 2
    &&& h[0] == SpanEvent::Started
    &&& h.last() == SpanEvent::Ended
    &&& occurrences(h, SpanEvent::Started) == 1
    &&& occurrences(h, SpanEvent::Ended) == 1
}

/// Every way a traced call completes leaves a finished lifecycle: one start
/// and one end. A call that produced a value is recorded exactly once, and
/// strictly before its span ends; a call that failed is not recorded.
pub proof fn lemma_completed_lifecycles()
    ensures
        lifecycle_complete(seq![SpanEvent::Started, SpanEvent::Recorded, SpanEvent::Ended]),
        occurrences(
            seq![SpanEvent::Started, SpanEvent::Recorded, SpanEvent::Ended],
            SpanEvent::Recorded,
        ) == 1,
        seq![SpanEvent::Started, SpanEvent::Recorded, SpanEvent::Ended][1] == SpanEvent::Recorded,
        lifecycle_complete(seq![SpanEvent::Started, SpanEvent::Ended]),
        occurrences(seq![SpanEvent::Started, SpanEvent::Ended], SpanEvent::Recorded) == 0,
{
    let ok = seq![SpanEvent::Started, SpanEvent::Recorded, SpanEvent::Ended];
    let failed = seq![SpanEvent::Started, SpanEvent::Ended];
    reveal_with_fuel(occurrences, 4);
    assert(ok.drop_last() =~= seq![SpanEvent::Started, SpanEvent::Recorded]);
    assert(ok.drop_last().drop_last() =~= seq![SpanEvent::Started]);
    assert(ok.drop_last().drop_last().drop_last() =~= Seq::<SpanEvent>::empty());
    assert(failed.drop_last() =~= seq![SpanEvent::Started]);
    assert(failed.drop_last().drop_last() =~= Seq::<SpanEvent>::empty());
    assert(occurrences(ok, SpanEvent::Recorded) == 1);
    assert(occurrences(ok, SpanEvent::Started) == 1);
    assert(occurrences(ok, SpanEvent::Ended) == 1);
    assert(occurrences(failed, SpanEvent::Started) == 1);
    assert(occurrences(failed, SpanEvent::Ended) == 1);
    assert(occurrences(failed, SpanEvent::Recorded) == 0);
}

} // verus!
