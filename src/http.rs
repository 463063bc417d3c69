use vstd::prelude::*;
use vstd::string::*;
use crate::context::{attach_spec, ContextScope, TraceContext};
use crate::execution::TracedCall;
use crate::propagation::{
    context_of_ids, extract_context, extracted_ids, has_header, headers_view, inject_context, propagatable,
    traceparent_value, without_header, TRACEPARENT,
};
use crate::span::{last_write, lemma_last_write_hit, log_view, AttrValue, AttrView, Span, SpanStatus, StatusView};
use crate::traceable::Traceable;
use crate::tracer::{inherits_trace, start_child_span};

verus! {

/// The most bytes of an error response body that are copied onto a span.
pub const MAX_CAPTURED_BODY: usize = 65536;

/// Whether a response status marks the span as failed: a server error always,
/// a client error only when the boundary includes client errors.
pub fn is_error_status(status: u16, include_client_errors: bool) -> (r: bool)
    ensures
        r == (status >= 500 || (include_client_errors && status >= 400)),
{
    status >= 500 || (include_client_errors && status >= 400)
}

/// The name of the span of an inbound request.
pub open spec fn request_span_name_spec(method: Seq<char>, target: Seq<char>) -> Seq<char> {
    "HTTP "@ + method + " "@ + target
}

/// `HTTP {method} {target}`.
pub fn request_span_name(method: &str, target: &str) -> (r: String)
    ensures
        r@ == request_span_name_spec(method@, target@),
{
    let mut name = String::from_str("HTTP ");
    name.append(method);
    name.append(" ");
    name.append(target);
    name
}

/// The attributes the span of an inbound request starts with.
pub open spec fn request_attributes(method: Seq<char>, target: Seq<char>, version: Seq<char>) -> Seq<
    (Seq<char>, AttrView),
> {
    seq![
        ("http.method"@, AttrView::Str(method)),
        ("http.target"@, AttrView::Str(target)),
        ("http.flavor"@, AttrView::Str(version)),
    ]
}

/// Opens the span of an inbound request: its parent is extracted from the
/// request headers (a root where they carry none), it is named after the
/// method and target and tagged with them and the protocol version, its
/// context is injected back into the headers for the handler, and it is made
/// ambient in `scope`.
pub fn begin_request(
    scope: &mut ContextScope,
    headers: &mut Vec<(String, String)>,
    method: &str,
    target: &str,
    version: &str,
) -> (call: TracedCall)
    ensures
        call.span.parent == context_of_ids(extracted_ids(headers_view(old(headers)@))),
        !has_header(headers_view(old(headers)@), TRACEPARENT@) ==> call.span.parent.active is None,
        inherits_trace(call.span.parent, call.span.id),
        call.span.name@ == request_span_name_spec(method@, target@),
        call.span.log() == request_attributes(method@, target@, version@),
        call.span.status@ is Unset,
        propagatable(call.span.context_spec()) ==> headers_view(final(headers)@) == without_header(
            headers_view(old(headers)@),
            TRACEPARENT@,
        ).push((TRACEPARENT@, traceparent_value(call.span.id.trace_id, call.span.id.span_id))),
        !propagatable(call.span.context_spec()) ==> final(headers)@ == old(headers)@,
        final(scope)@ == attach_spec(old(scope)@, call.span.context_spec()),
        call.in_progress(final(scope)@),
{
    let parent: TraceContext = extract_context(headers);
    let name = request_span_name(method, target);
    let mut attrs: Vec<(String, AttrValue)> = Vec::new();
    attrs.push((String::from_str("http.method"), AttrValue::Str(String::from_str(method))));
    attrs.push((String::from_str("http.target"), AttrValue::Str(String::from_str(target))));
    attrs.push((String::from_str("http.flavor"), AttrValue::Str(String::from_str(version))));
    assert(log_view(attrs@) =~= request_attributes(method@, target@, version@));
    let (span, ctx) = start_child_span(&parent, name.as_str(), attrs);
    inject_context(&ctx, headers);
    let guard = scope.attach(ctx);
    TracedCall { span, guard }
}

/// The part of a response body that is captured: at most `MAX_CAPTURED_BODY`
/// bytes from its start.
pub open spec fn captured_body(body: Seq<u8>) -> Seq<u8> {
    if body.len() <= MAX_CAPTURED_BODY {
        body
    } else {
        body.take(MAX_CAPTURED_BODY as int)
    }
}

/// The text of a byte string, with each invalid UTF-8 sequence replaced by
/// U+FFFD, as `String::from_utf8_lossy` gives it.
pub uninterp spec fn utf8_lossy(bytes: Seq<u8>) -> Seq<char>;

/// Relies on std's `String::from_utf8_lossy`: the text of the bytes, invalid
/// sequences replaced; valid UTF-8, and so ASCII, comes back as it is.
#[verifier::external_body]
fn lossy_text(bytes: &[u8]) -> (r: String)
    ensures
        r@ == utf8_lossy(bytes@),
        ascii_bytes(bytes@) ==> r@ == ascii_text(bytes@),
{
    String::from_utf8_lossy(bytes).into_owned()
}

pub open spec fn ascii_bytes(bytes: Seq<u8>) -> bool {
    forall|i: int| 0 <= i < bytes.len() ==> #[trigger] bytes[i] < 128
}

/// ASCII bytes read as characters, one for one.
pub open spec fn ascii_text(bytes: Seq<u8>) -> Seq<char> {
    bytes.map_values(|b: u8| b as char)
}

pub open spec fn header_attribute_key(name: Seq<char>) -> Seq<char> {
    "http.response.header."@ + name
}

/// One attribute per response header, in order.
pub open spec fn header_attributes(headers: Seq<(Seq<char>, Seq<char>)>) -> Seq<
    (Seq<char>, AttrView),
> {
    headers.map_values(
        |p: (Seq<char>, Seq<char>)| (header_attribute_key(p.0), AttrView::Str(p.1)),
    )
}

/// Header `i` is the last one with its name.
pub open spec fn last_of_name(headers: Seq<(Seq<char>, Seq<char>)>, i: int) -> bool {
    &&& 0 <= i < headers.len()
    &&& forall|j: int| i < j < headers.len() ==> #[trigger] headers[j].0 != headers[i].0
}

/// Of the attributes an error response adds, the header attribute of the last
/// header with a given name holds that header's value.
pub proof fn lemma_error_header_attribute(
    before: Seq<(Seq<char>, AttrView)>,
    status: u16,
    headers: Seq<(Seq<char>, Seq<char>)>,
    body: Seq<u8>,
    i: int,
)
    requires
        last_of_name(headers, i),
    ensures
        last_write(before + response_attributes(status, headers, body, true), header_attribute_key(headers[i].0))
            == Some(AttrView::Str(headers[i].1)),
{
    let key = header_attribute_key(headers[i].0);
    let prefix = "http.response.header."@;
    reveal_strlit("http.response.header.");
    reveal_strlit("error");
    reveal_strlit("error.body");
    reveal_strlit("http.status_code");
    let h = header_attributes(headers);
    let code = seq![("http.status_code"@, AttrView::Int(status as i64))];
    let tail = seq![
        ("error"@, AttrView::Bool(true)),
        ("error.body"@, AttrView::Str(utf8_lossy(captured_body(body)))),
    ];
    let a = before + code + h.take(i);
    let rest = h.skip(i + 1) + tail;
    assert(before + response_attributes(status, headers, body, true) =~= a.push(h[i]) + rest);
    assert forall|j: int| 0 <= j < rest.len() implies #[trigger] rest[j].0 != key by {
        if j < h.len() - i - 1 {
            let other = headers[i + 1 + j].0;
            assert(rest[j].0 == prefix + other);
            if prefix + other == key {
                assert((prefix + other).skip(prefix.len() as int) =~= other);
                assert(key.skip(prefix.len() as int) =~= headers[i].0);
            }
        } else {
            assert(rest[j].0.len() < key.len());
        }
    }
    lemma_last_write_hit(a, AttrView::Str(headers[i].1), rest, key);
}

/// What a response adds to its span's attributes: the status code, and for an
/// error status every header, an error flag and the captured body.
pub open spec fn response_attributes(
    status: u16,
    headers: Seq<(Seq<char>, Seq<char>)>,
    body: Seq<u8>,
    is_error: bool,
) -> Seq<(Seq<char>, AttrView)> {
    let code = seq![("http.status_code"@, AttrView::Int(status as i64))];
    if is_error {
        code + header_attributes(headers) + seq![
            ("error"@, AttrView::Bool(true)),
            ("error.body"@, AttrView::Str(utf8_lossy(captured_body(body)))),
        ]
    } else {
        code
    }
}

pub open spec fn error_description() -> Seq<char> {
    "HTTP error response"@
}

/// Records a response onto the open span of its request: see
/// `response_attributes`; the status is OK below the error boundary and an
/// error at or above it. The span stays open.
pub fn record_response(
    span: &mut Span,
    status: u16,
    headers: &Vec<(String, String)>,
    body: &Vec<u8>,
    include_client_errors: bool,
)
    requires
        old(span).is_open(),
    ensures
        final(span).same_identity(*old(span)),
        final(span).log() == old(span).log() + response_attributes(
            status,
            headers_view(headers@),
            body@,
            status >= 500 || (include_client_errors && status >= 400),
        ),
        final(span).status@ == (if status >= 500 || (include_client_errors && status >= 400) {
            StatusView::Error(error_description())
        } else {
            StatusView::Succeeded
        }),
        (status >= 500 || (include_client_errors && status >= 400)) && ascii_bytes(
            captured_body(body@),
        ) ==> final(span).attr("error.body"@) == Some(AttrView::Str(ascii_text(captured_body(body@)))),
        status >= 500 || (include_client_errors && status >= 400) ==> forall|i: int|
            last_of_name(headers_view(headers@), i) ==> final(span).attr(
                header_attribute_key(#[trigger] headers_view(headers@)[i].0),
            ) == Some(AttrView::Str(headers_view(headers@)[i].1)),
{
    let ghost start = span.log();
    span.set_attribute(String::from_str("http.status_code"), AttrValue::Int(status as i64));
    let is_error = is_error_status(status, include_client_errors);
    if !is_error {
        span.set_status(SpanStatus::Succeeded);
        assert(span.log() =~= start + response_attributes(
            status,
            headers_view(headers@),
            body@,
            false,
        ));
        return;
    }
    let ghost hv = headers_view(headers@);
    let ghost with_code = span.log();
    let mut i: usize = 0;
    while i < headers.len()
        invariant
            i <= headers.len(),
            hv == headers_view(headers@),
            span.is_open(),
            span.same_identity(*old(span)),
            span.log() == with_code + header_attributes(hv.take(i as int)),
        decreases headers.len() - i,
    {
        let mut key = String::from_str("http.response.header.");
        key.append(headers[i].0.as_str());
        let value = headers[i].1.clone();
        let ghost prev = span.log();
        span.set_attribute(key, AttrValue::Str(value));
        proof {
            assert(hv.take(i + 1) =~= hv.take(i as int).push(hv[i as int]));
            assert(header_attributes(hv.take(i + 1)) =~= header_attributes(hv.take(i as int)).push(
                (key@, AttrView::Str(value@)),
            ));
        }
        i = i + 1;
    }
    proof {
        assert(hv.take(i as int) =~= hv);
    }
    span.set_attribute(String::from_str("error"), AttrValue::Bool(true));
    let n: usize = if body.len() <= MAX_CAPTURED_BODY {
        body.len()
    } else {
        MAX_CAPTURED_BODY
    };
    let text = lossy_text(vstd::slice::slice_subrange(body.as_slice(), 0, n));
    proof {
        assert(body@.take(n as int) =~= captured_body(body@));
    }
    span.set_attribute(String::from_str("error.body"), AttrValue::Str(text));
    span.set_status(SpanStatus::Error(String::from_str("HTTP error response")));
    assert(span.log() =~= start + response_attributes(status, hv, body@, true));
    assert forall|i: int| last_of_name(hv, i) implies span.attr(
        header_attribute_key(#[trigger] hv[i].0),
    ) == Some(AttrView::Str(hv[i].1)) by {
        lemma_error_header_attribute(start, status, hv, body@, i);
    }
}

/// The outcome of a request as the handler produced it, with the boundary
/// that decides which statuses are errors. It records itself with
/// `record_response`; its headers and body are left exactly as they came.
pub struct HttpOutcome {
    pub status: u16,
    pub headers: Vec<(String, String)>,
    pub body: Vec<u8>,
    pub include_client_errors: bool,
}

/// The attributes and status that a response leaves on a span that held
/// `before`.
pub open spec fn response_recorded(
    before: Span,
    status: u16,
    headers: Seq<(Seq<char>, Seq<char>)>,
    body: Seq<u8>,
    include_client_errors: bool,
    attributes: Seq<(String, AttrValue)>,
    span_status: SpanStatus,
) -> bool {
    let is_error = status >= 500 || (include_client_errors && status >= 400);
    &&& log_view(attributes) == before.log() + response_attributes(status, headers, body, is_error)
    &&& span_status@ == (if is_error {
        StatusView::Error(error_description())
    } else {
        StatusView::Succeeded
    })
}

impl Traceable for HttpOutcome {
    open spec fn records_onto(&self, before: Span, attributes: Seq<(String, AttrValue)>, status: SpanStatus) -> bool {
        response_recorded(
            before,
            self.status,
            headers_view(self.headers@),
            self.body@,
            self.include_client_errors,
            attributes,
            status,
        )
    }

    fn record_span(&self, span: &mut Span) {
        record_response(span, self.status, &self.headers, &self.body, self.include_client_errors);
    }
}

/// The middleware in front of a handler, with its error boundary.
pub struct OtelXMiddleware<S> {
    pub inner: S,
    pub include_client_errors: bool,
}

impl<S> OtelXMiddleware<S> {
    /// The outcome of a handler's response, under this middleware's boundary.
    pub fn outcome(&self, status: u16, headers: Vec<(String, String)>, body: Vec<u8>) -> (r:
        HttpOutcome)
        ensures
            r.status == status,
            r.headers@ == headers@,
            r.body@ == body@,
            r.include_client_errors == self.include_client_errors,
    {
        HttpOutcome { status, headers, body, include_client_errors: self.include_client_errors }
    }
}

/// Builds the middleware around a handler.
pub struct OtelXLayer {
    pub include_client_errors: bool,
}

impl OtelXLayer {
    /// A layer whose boundary counts server errors (5xx) only.
    pub fn new() -> (r: OtelXLayer)
        ensures
            !r.include_client_errors,
    {
        OtelXLayer { include_client_errors: false }
    }

    /// A layer whose boundary counts client errors (4xx) too.
    pub fn with_client_errors() -> (r: OtelXLayer)
        ensures
            r.include_client_errors,
    {
        OtelXLayer { include_client_errors: true }
    }

    /// Wraps `inner`.
    pub fn layer<S>(&self, inner: S) -> (r: OtelXMiddleware<S>)
        ensures
            r.inner == inner,
            r.include_client_errors == self.include_client_errors,
    {
        OtelXMiddleware { inner, include_client_errors: self.include_client_errors }
    }
}

} // verus!
