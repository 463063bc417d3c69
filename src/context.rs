use vstd::prelude::*;

verus! {

/// Identity of one span inside one trace.
#[derive(Clone, Copy, PartialEq, Eq, Debug, Structural)]
pub struct SpanRef {
    pub trace_id: u128,
    pub span_id: u64,
}

/// An immutable trace context: the active span, or none for a root context.
#[derive(Clone, Copy, PartialEq, Eq, Debug, Structural)]
pub struct TraceContext {
    pub active: Option<SpanRef>,
}

impl TraceContext {
    /// A context with no active span.
    pub fn root() -> (r: TraceContext)
        ensures
            r.active is None,
    {
        TraceContext { active: None }
    }

    pub fn is_root(&self) -> (r: bool)
        ensures
            r == (self.active is None),
    {
        self.active.is_none()
    }

    /// A new context with `span` active; `self` is left as it is.
    pub fn with_span(&self, span: SpanRef) -> (r: TraceContext)
        ensures
            r.active == Some(span),
    {
        TraceContext { active: Some(span) }
    }
}

/// The abstract state of a scope: the ambient context and the contexts that
/// the open attachments will restore, innermost last.
pub ghost struct ScopeState {
    pub current: TraceContext,
    pub saved: Seq<TraceContext>,
}

pub open spec fn attach_spec(s: ScopeState, ctx: TraceContext) -> ScopeState {
    ScopeState { current: ctx, saved: s.saved.push(s.current) }
}

pub open spec fn detach_spec(s: ScopeState) -> ScopeState {
    ScopeState { current: s.saved.last(), saved: s.saved.drop_last() }
}

/// Receipt for one attachment; handing it back to `detach` restores the context
/// that was ambient before the attachment.
pub struct ContextGuard {
    depth: usize,
}

impl ContextGuard {
    /// How many attachments are open while this one is the innermost.
    pub closed spec fn level(&self) -> nat {
        self.depth as nat
    }
}

/// The ambient trace context of one logical task. Each task owns its scope, so
/// an attachment in one task is never observable from another.
pub struct ContextScope {
    pub current: TraceContext,
    pub saved: Vec<TraceContext>,
}

impl View for ContextScope {
    type V = ScopeState;

    open spec fn view(&self) -> ScopeState {
        ScopeState { current: self.current, saved: self.saved@ }
    }
}

impl ContextScope {
    /// A scope whose ambient context is `initial`, with nothing attached.
    pub fn new(initial: TraceContext) -> (r: ContextScope)
        ensures
            r@.current == initial,
            r@.saved.len() == 0,
    {
        ContextScope { current: initial, saved: Vec::new() }
    }

    /// The ambient context; no side effects.
    pub fn current_context(&self) -> (r: TraceContext)
        ensures
            r == self@.current,
    {
        self.current
    }

    /// Number of attachments still open.
    pub fn depth(&self) -> (r: usize)
        ensures
            r == self@.saved.len(),
    {
        self.saved.len()
    }

    /// Makes `ctx` ambient until the returned guard is handed to `detach`.
    pub fn attach(&mut self, ctx: TraceContext) -> (g: ContextGuard)
        ensures
            final(self)@ == attach_spec(old(self)@, ctx),
            g.level() == final(self)@.saved.len(),
    {
        let prev = self.current;
        self.saved.push(prev);
        self.current = ctx;
        ContextGuard { depth: self.saved.len() }
    }

    /// Ends the innermost attachment and restores the context it displaced.
    pub fn detach(&mut self, guard: ContextGuard)
        requires
            guard.level() == old(self)@.saved.len(),
            guard.level() > 0,
        ensures
            final(self)@ == detach_spec(old(self)@),
    {
        let prev = self.saved.pop().unwrap();
        self.current = prev;
    }
}

/// Attaching a context and detaching it at once, with nothing in between,
/// leaves the scope exactly as it was.
pub proof fn lemma_attach_detach_identity(s: ScopeState, ctx: TraceContext)
    ensures
        detach_spec(attach_spec(s, ctx)) == s,
{
    assert(s.saved.push(s.current).drop_last() =~= s.saved);
}

/// After an attachment, the context that is ambient is the attached one, and
/// detaching restores exactly the context that was ambient before it, however
/// many attachments were open already.
pub proof fn lemma_nested_restore(s: ScopeState, outer: TraceContext, inner: TraceContext)
    ensures
        attach_spec(attach_spec(s, outer), inner).current == inner,
        detach_spec(attach_spec(attach_spec(s, outer), inner)) == attach_spec(s, outer),
        detach_spec(detach_spec(attach_spec(attach_spec(s, outer), inner))) == s,
{
    lemma_attach_detach_identity(s, outer);
    lemma_attach_detach_identity(attach_spec(s, outer), inner);
}

} // verus!
