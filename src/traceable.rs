use vstd::prelude::*;
use crate::span::{AttrValue, Span, SpanStatus};

verus! {

/// A result type that can describe itself onto the still-open span of the
/// call that produced it. It may set attributes and the status; it never ends
/// the span, which stays with the orchestration.
pub trait Traceable {
    /// What recording `self` onto the span `before` leaves as its attributes
    /// and status.
    spec fn records_onto(&self, before: Span, attributes: Seq<(String, AttrValue)>, status: SpanStatus) -> bool;

    fn record_span(&self, span: &mut Span)
        requires
            old(span).is_open(),
        ensures
            final(span).same_identity(*old(span)),
            self.records_onto(*old(span), final(span).attributes@, final(span).status),
    ;
}

/// The finalisation hook run on a result against its span before the span ends.
pub trait SpanFinalizer {
    /// What finalising `self` onto the span `before` leaves as its attributes
    /// and status.
    spec fn finalizes_onto(&self, before: Span, attributes: Seq<(String, AttrValue)>, status: SpanStatus) -> bool;

    fn finalize_span(span: &mut Span, result: &Self)
        requires
            old(span).is_open(),
        ensures
            final(span).same_identity(*old(span)),
            result.finalizes_onto(*old(span), final(span).attributes@, final(span).status),
    ;
}

/// Runs the finalisation hook of `T` on `result`.
pub fn finalize_span<T: SpanFinalizer>(span: &mut Span, result: &T)
    requires
        old(span).is_open(),
    ensures
        final(span).same_identity(*old(span)),
        result.finalizes_onto(*old(span), final(span).attributes@, final(span).status),
{
    T::finalize_span(span, result);
}

/// A result that carries nothing worth recording: recording it is a no-op.
pub struct NoRecord<T>(pub T);

impl<T> Traceable for NoRecord<T> {
    open spec fn records_onto(&self, before: Span, attributes: Seq<(String, AttrValue)>, status: SpanStatus) -> bool {
        attributes == before.attributes@ && status == before.status
    }

    fn record_span(&self, span: &mut Span) {
    }
}

impl<T> SpanFinalizer for NoRecord<T> {
    open spec fn finalizes_onto(&self, before: Span, attributes: Seq<(String, AttrValue)>, status: SpanStatus) -> bool {
        attributes == before.attributes@ && status == before.status
    }

    fn finalize_span(span: &mut Span, result: &Self) {
    }
}

/// Transforms the outcome of an operation before it is recorded, without
/// changing its type. `adapted` says what the transformation yields.
pub trait TraceAdapter<T> {
    spec fn adapted(value: T) -> T;

    fn adapt(value: T) -> (r: T)
        ensures
            r == Self::adapted(value),
    ;
}

/// The adapter that hands every outcome on unchanged.
pub struct IdentityAdapter;

impl<T> TraceAdapter<T> for IdentityAdapter {
    open spec fn adapted(value: T) -> T {
        value
    }

    fn adapt(value: T) -> (r: T) {
        value
    }
}

} // verus!
