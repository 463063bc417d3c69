use vstd::prelude::*;
use vstd::string::*;
use crate::context::{SpanRef, TraceContext};

verus! {

/// A typed attribute value.
pub enum AttrValue {
    Str(String),
    Int(i64),
    Bool(bool),
}

pub enum AttrView {
    Str(Seq<char>),
    Int(i64),
    Bool(bool),
}

impl View for AttrValue {
    type V = AttrView;

    open spec fn view(&self) -> AttrView {
        match self {
            AttrValue::Str(s) => AttrView::Str(s@),
            AttrValue::Int(i) => AttrView::Int(*i),
            AttrValue::Bool(b) => AttrView::Bool(*b),
        }
    }
}

impl AttrValue {
    /// A copy that holds the same value.
    pub fn duplicate(&self) -> (r: AttrValue)
        ensures
            r@ == self@,
    {
        match self {
            AttrValue::Str(s) => AttrValue::Str(s.clone()),
            AttrValue::Int(i) => AttrValue::Int(*i),
            AttrValue::Bool(b) => AttrValue::Bool(*b),
        }
    }
}

/// The status of a span.
pub enum SpanStatus {
    Unset,
    Succeeded,
    Error(String),
}

pub enum StatusView {
    Unset,
    Succeeded,
    Error(Seq<char>),
}

impl View for SpanStatus {
    type V = StatusView;

    open spec fn view(&self) -> StatusView {
        match self {
            SpanStatus::Unset => StatusView::Unset,
            SpanStatus::Succeeded => StatusView::Succeeded,
            SpanStatus::Error(d) => StatusView::Error(d@),
        }
    }
}

impl SpanStatus {
    pub fn is_ok(&self) -> (r: bool)
        ensures
            r == (self@ is Succeeded),
    {
        match self {
            SpanStatus::Succeeded => true,
            _ => false,
        }
    }

    pub fn is_error(&self) -> (r: bool)
        ensures
            r == (self@ is Error),
    {
        match self {
            SpanStatus::Error(_) => true,
            _ => false,
        }
    }
}

/// What happened to a span, in order.
pub ghost enum SpanEvent {
    Started,
    Recorded,
    Ended,
}

/// The attribute log as plain values.
pub open spec fn log_view(log: Seq<(String, AttrValue)>) -> Seq<(Seq<char>, AttrView)> {
    log.map_values(|p: (String, AttrValue)| (p.0@, p.1@))
}

/// The value of `key` in an attribute log: the last write wins.
pub open spec fn last_write(log: Seq<(Seq<char>, AttrView)>, key: Seq<char>) -> Option<AttrView>
    decreases log.len(),
{
    if log.len() == 0 {
        None
    } else if log.last().0 == key {
        Some(log.last().1)
    } else {
        last_write(log.drop_last(), key)
    }
}

/// Writes of other keys after the last write of `key` do not change its value.
pub proof fn lemma_last_write_skip(
    a: Seq<(Seq<char>, AttrView)>,
    b: Seq<(Seq<char>, AttrView)>,
    key: Seq<char>,
)
    requires
        forall|j: int| 0 <= j < b.len() ==> #[trigger] b[j].0 != key,
    ensures
        last_write(a + b, key) == last_write(a, key),
    decreases b.len(),
{
    if b.len() == 0 {
        assert(a + b =~= a);
    } else {
        assert((a + b).drop_last() =~= a + b.drop_last());
        assert((a + b).last() == b[b.len() - 1]);
        lemma_last_write_skip(a, b.drop_last(), key);
    }
}

/// A write of `key` followed only by writes of other keys gives its value.
pub proof fn lemma_last_write_hit(
    a: Seq<(Seq<char>, AttrView)>,
    value: AttrView,
    b: Seq<(Seq<char>, AttrView)>,
    key: Seq<char>,
)
    requires
        forall|j: int| 0 <= j < b.len() ==> #[trigger] b[j].0 != key,
    ensures
        last_write(a.push((key, value)) + b, key) == Some(value),
{
    lemma_last_write_skip(a.push((key, value)), b, key);
}

/// One unit of work within a trace. Attributes are kept as a log in order of
/// writing; `lifecycle` records where the span stands.
pub struct Span {
    pub name: String,
    pub id: SpanRef,
    pub parent: TraceContext,
    pub attributes: Vec<(String, AttrValue)>,
    pub status: SpanStatus,
    pub events: Vec<(String, Vec<(String, AttrValue)>)>,
    pub lifecycle: Lifecycle,
}

/// Where a span stands in its lifecycle. Its fields are private, so only the
/// methods of `Span` can move it forward, and an ended span stays ended.
pub struct Lifecycle {
    ended: bool,
    history: Ghost<Seq<SpanEvent>>,
}

impl Lifecycle {
    pub closed spec fn is_open(&self) -> bool {
        !self.ended
    }

    pub closed spec fn history(&self) -> Seq<SpanEvent> {
        self.history@
    }

    fn started() -> (r: Lifecycle)
        ensures
            r.is_open(),
            r.history() == seq![SpanEvent::Started],
    {
        let ghost h = seq![SpanEvent::Started];
        Lifecycle { ended: false, history: Ghost(h) }
    }

    fn is_ended(&self) -> (r: bool)
        ensures
            r == !self.is_open(),
    {
        self.ended
    }

    fn note_recorded(&mut self)
        requires
            old(self).is_open(),
        ensures
            final(self).is_open(),
            final(self).history() == old(self).history().push(SpanEvent::Recorded),
    {
        let ghost h = self.history@.push(SpanEvent::Recorded);
        self.history = Ghost(h);
    }

    fn end(&mut self)
        requires
            old(self).is_open(),
        ensures
            !final(self).is_open(),
            final(self).history() == old(self).history().push(SpanEvent::Ended),
    {
        self.ended = true;
        let ghost h = self.history@.push(SpanEvent::Ended);
        self.history = Ghost(h);
    }
}

impl Span {
    /// The attributes written so far, in order, as plain values.
    pub open spec fn log(&self) -> Seq<(Seq<char>, AttrView)> {
        log_view(self.attributes@)
    }

    /// The current value of attribute `key`.
    pub open spec fn attr(&self, key: Seq<char>) -> Option<AttrView> {
        last_write(self.log(), key)
    }

    pub open spec fn is_open(&self) -> bool {
        self.lifecycle.is_open()
    }

    /// The lifecycle events of the span so far.
    pub open spec fn history(&self) -> Seq<SpanEvent> {
        self.lifecycle.history()
    }

    /// Whether the span has been ended.
    pub fn is_ended(&self) -> (r: bool)
        ensures
            r == !self.is_open(),
    {
        self.lifecycle.is_ended()
    }

    /// Everything but the attributes, the status and the lifecycle is kept.
    pub open spec fn same_identity(&self, other: Span) -> bool {
        &&& self.name@ == other.name@
        &&& self.id == other.id
        &&& self.parent == other.parent
        &&& self.is_open() == other.is_open()
        &&& self.history() == other.history()
        &&& self.events@ == other.events@
    }

    /// Everything but the events is kept.
    pub open spec fn same_identity_but_events(&self, other: Span) -> bool {
        &&& self.name@ == other.name@
        &&& self.id == other.id
        &&& self.parent == other.parent
        &&& self.is_open() == other.is_open()
        &&& self.history() == other.history()
        &&& self.attributes@ == other.attributes@
        &&& self.status == other.status
    }

    /// The context in which this span is the active one.
    pub open spec fn context_spec(&self) -> TraceContext {
        TraceContext { active: Some(self.id) }
    }

    /// A started span with the given attributes and an unset status.
    pub fn started(
        name: String,
        id: SpanRef,
        parent: TraceContext,
        attributes: Vec<(String, AttrValue)>,
    ) -> (r: Span)
        ensures
            r.name@ == name@,
            r.id == id,
            r.parent == parent,
            r.attributes@ == attributes@,
            r.status@ is Unset,
            r.events@.len() == 0,
            r.is_open(),
            r.history() == seq![SpanEvent::Started],
    {
        Span {
            name,
            id,
            parent,
            attributes,
            status: SpanStatus::Unset,
            events: Vec::new(),
            lifecycle: Lifecycle::started(),
        }
    }

    /// The context in which this span is the active one.
    pub fn context(&self) -> (r: TraceContext)
        ensures
            r == self.context_spec(),
    {
        TraceContext { active: Some(self.id) }
    }

    /// Writes attribute `key`; a later write of the same key wins.
    pub fn set_attribute(&mut self, key: String, value: AttrValue)
        requires
            old(self).is_open(),
        ensures
            final(self).same_identity(*old(self)),
            final(self).status == old(self).status,
            final(self).attributes@ == old(self).attributes@.push((key, value)),
            final(self).log() == old(self).log().push((key@, value@)),
            final(self).attr(key@) == Some(value@),
    {
        self.attributes.push((key, value));
        proof {
            let p = (key, value);
            assert(log_view(old(self).attributes@.push(p)) =~= log_view(old(self).attributes@).push(
                (key@, value@),
            ));
        }
    }

    /// Sets the status of the span.
    pub fn set_status(&mut self, status: SpanStatus)
        requires
            old(self).is_open(),
        ensures
            final(self).same_identity(*old(self)),
            final(self).attributes@ == old(self).attributes@,
            final(self).status == status,
    {
        self.status = status;
    }

    /// Adds a named event with its attributes to the open span.
    pub fn add_event(&mut self, name: String, attributes: Vec<(String, AttrValue)>)
        requires
            old(self).is_open(),
        ensures
            final(self).name@ == old(self).name@,
            final(self).id == old(self).id,
            final(self).parent == old(self).parent,
            final(self).is_open() == old(self).is_open(),
            final(self).history() == old(self).history(),
            final(self).attributes@ == old(self).attributes@,
            final(self).status == old(self).status,
            final(self).events@ == old(self).events@.push((name, attributes)),
    {
        self.events.push((name, attributes));
    }

    /// Notes in the lifecycle that the result of the traced work was recorded.
    pub(crate) fn note_recorded(&mut self)
        requires
            old(self).is_open(),
        ensures
            final(self).name@ == old(self).name@,
            final(self).id == old(self).id,
            final(self).parent == old(self).parent,
            final(self).attributes@ == old(self).attributes@,
            final(self).status == old(self).status,
            final(self).events@ == old(self).events@,
            final(self).is_open(),
            final(self).history() == old(self).history().push(SpanEvent::Recorded),
    {
        self.lifecycle.note_recorded();
    }

    /// Ends the span; a span is ended once.
    pub fn end(&mut self)
        requires
            old(self).is_open(),
        ensures
            final(self).name@ == old(self).name@,
            final(self).id == old(self).id,
            final(self).parent == old(self).parent,
            final(self).attributes@ == old(self).attributes@,
            final(self).status == old(self).status,
            final(self).events@ == old(self).events@,
            !final(self).is_open(),
            final(self).history() == old(self).history().push(SpanEvent::Ended),
    {
        self.lifecycle.end();
    }

    /// The current value of attribute `key`: the last one written.
    pub fn attribute(&self, key: &str) -> (r: Option<AttrValue>)
        ensures
            match r {
                None => self.attr(key@) is None,
                Some(v) => self.attr(key@) == Some(v@),
            },
    {
        let want = String::from_str(key);
        let mut i: usize = self.attributes.len();
        assert(self.log().take(i as int) =~= self.log());
        while i > 0
            invariant
                i <= self.attributes.len(),
                want@ == key@,
                last_write(self.log(), key@) == last_write(self.log().take(i as int), key@),
            decreases i,
        {
            let k = &self.attributes[i - 1].0;
            proof {
                assert(self.log().take(i as int).last() == (k@, self.attributes@[i - 1].1@));
                assert(self.log().take(i as int).drop_last() =~= self.log().take(i - 1));
            }
            if *k == want {
                return Some(self.attributes[i - 1].1.duplicate());
            }
            i = i - 1;
        }
        proof {
            assert(self.log().take(0) =~= Seq::<(Seq<char>, AttrView)>::empty());
        }
        None
    }
}

} // verus!
