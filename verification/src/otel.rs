//! The tracing layer of the service: what is set up at start, what happens
//! to each request, and what the two sinks get to see of it.

use vstd::prelude::*;
use crate::carrier::lookup;
use crate::context::{view_of, TraceContext, TraceContextView};
use crate::error::TelemetryError;
use crate::ids::{fresh_span_id, fresh_trace_id};
use crate::propagator::{extract, extracted, is_w3c_traceparent, names_parent, trace_id_in};
use crate::registry::{settled_by, Registry, Subscriber, SubscriberView};
use crate::request::{Request, RequestView};
use crate::sink::{record_of, Sink, SinkView};
use crate::span::{
    field_value,
    optional_text,
    usable_parent,
    FieldValue,
    FieldValueView,
    FieldView,
    Phase,
    Span,
    SpanView,
    Status,
};

verus! {

/// What an installation may choose: the name of every request span, and
/// the text that stands for a missing correlation header.
#[derive(Debug)]
pub struct Config {
    pub span_name: String,
    pub sentinel: String,
}

/// A configuration as a mathematical value.
pub struct ConfigView {
    pub span_name: Seq<char>,
    pub sentinel: Seq<char>,
}

impl View for Config {
    type V = ConfigView;

    open spec fn view(&self) -> ConfigView {
        ConfigView { span_name: self.span_name@, sentinel: self.sentinel@ }
    }
}

impl Config {
    pub fn new(span_name: String, sentinel: String) -> (r: Config)
        ensures
            r@ == (ConfigView { span_name: span_name@, sentinel: sentinel@ }),
    {
        Config { span_name, sentinel }
    }
}

impl Default for Config {
    fn default() -> (r: Config)
        ensures
            r@ == (ConfigView { span_name: "a request"@, sentinel: "who are you?"@ }),
    {
        Config { span_name: "a request".to_owned(), sentinel: "who are you?".to_owned() }
    }
}

/// The keys that the log does not show.
pub open spec fn log_deny() -> Seq<Seq<char>> {
    seq!["not_shown"@, "att"@]
}

/// The exporter before it is handed to a subscriber.
#[derive(Debug)]
pub struct Tracer {
    exporter: Sink,
}

impl View for Tracer {
    type V = SinkView;

    closed spec fn view(&self) -> SinkView {
        self.exporter@
    }
}

impl Tracer {
    pub fn exporter(&self) -> (r: &Sink)
        ensures
            r@ == self@,
    {
        &self.exporter
    }
}

/// The subscriber that `setup_subscriber` makes of a tracer: the tracer's
/// exporter, and a new log that hides the keys of `log_deny`.
pub open spec fn subscriber_for(tracer: SinkView) -> SubscriberView {
    SubscriberView { exporter: tracer, log: SinkView::fresh(log_deny()) }
}

/// Makes the exporter: open, with nothing written, showing every field.
pub fn init_tracer() -> (tracer: Tracer)
    ensures
        tracer@ == SinkView::fresh(Seq::empty()),
{
    let deny: Vec<String> = Vec::new();
    assert(crate::sink::texts_view(deny@) =~= Seq::empty());
    Tracer { exporter: Sink::new(deny) }
}

/// Installs the subscriber that routes span events to `tracer`'s exporter
/// and to the log. It can be done once: a second call fails with
/// `SubscriberAlreadySet` and changes nothing.
pub fn setup_subscriber(registry: &mut Registry, tracer: Tracer) -> (r: Result<(), TelemetryError>)
    ensures
        r == old(registry)@.install_verdict(),
        final(registry)@ == old(registry)@.installed(subscriber_for(tracer@)),
{
    let mut deny: Vec<String> = Vec::new();
    deny.push("not_shown".to_owned());
    deny.push("att".to_owned());
    assert(crate::sink::texts_view(deny@) =~= log_deny());
    registry.install(Subscriber::new(tracer.exporter, Sink::new(deny)))
}

/// The fields that a request span has at its creation, in their order:
/// the request line, then the reserved key `request_id` without a value, then
/// the attribute `att`. A part that the request lacks is there as absent.
pub open spec fn request_fields(req: RequestView) -> Seq<FieldView> {
    seq![
        ("method"@, FieldValueView::Text(req.method)),
        ("path"@, FieldValueView::Text(req.path)),
        ("version"@, FieldValueView::Text(req.version)),
        ("host"@, optional_text(req.host)),
        ("scheme"@, optional_text(req.scheme)),
        ("query"@, optional_text(req.query)),
        ("request_id"@, FieldValueView::Empty),
        ("att"@, FieldValueView::Text("you show me!"@)),
    ]
}

/// The span of a request, with `parent` as its parent.
pub open spec fn span_under(
    config: ConfigView,
    req: RequestView,
    parent: Option<TraceContextView>,
    trace_id: u128,
    span_id: u64,
    now: u64,
) -> SpanView {
    SpanView { fields: request_fields(req), ..SpanView::opened(config.span_name, parent, trace_id, span_id, now) }
}

/// The span of a request whose parent is the one that its headers name.
pub open spec fn span_for(config: ConfigView, req: RequestView, trace_id: u128, span_id: u64, now: u64) -> SpanView {
    span_under(config, req, extracted(req.headers), trace_id, span_id, now)
}

/// Opens the span of a request under a parent that is already known.
pub fn build_span(
    config: &Config,
    req: &Request,
    parent: Option<TraceContext>,
    trace_id: u128,
    span_id: u64,
    now: u64,
) -> (span: Span)
    ensures
        span@ == span_under(config@, req@, view_of(parent), trace_id, span_id, now),
        span@.wf(),
        span@.phase == Phase::Open,
        span@.parent == usable_parent(view_of(parent)),
{
    let mut span = Span::open(config.span_name.clone(), parent, trace_id, span_id, now);
    span.declare("method", FieldValue::Text(req.method.clone()));
    span.declare("path", FieldValue::Text(req.path.clone()));
    span.declare("version", FieldValue::Text(req.version.clone()));
    span.declare("host", FieldValue::of(&req.host));
    span.declare("scheme", FieldValue::of(&req.scheme));
    span.declare("query", FieldValue::of(&req.query));
    span.declare("request_id", FieldValue::Empty);
    span.declare("att", FieldValue::Text("you show me!".to_owned()));
    proof {
        crate::laws::lemma_fields_at_creation(
            SpanView::opened(config@.span_name, view_of(parent), trace_id, span_id, now),
            req@,
        );
    }
    span
}

/// Opens the span of a request at `now`. The parent is read from the
/// request's headers; a request that names none starts a trace of its own
/// under a fresh identifier. This never fails, whatever the request lacks.
pub fn make_span(config: &Config, req: &Request, now: u64) -> (span: Span)
    ensures
        span@ == span_for(config@, req@, span@.context.trace_id, span@.context.span_id, now),
        span@.wf(),
        span@.phase == Phase::Open,
        span@.parent == extracted(req@.headers),
        lookup(req@.headers, "traceparent"@) is None ==> span@.parent is None,
        span@.parent matches Some(p) ==> p.is_valid() && span@.context.trace_id == p.trace_id,
        lookup(req@.headers, "traceparent"@) matches Some(value) ==> (is_w3c_traceparent(value) ==> names_parent(
            span@.parent,
            value,
        ) && span@.context.trace_id == trace_id_in(value)),
        span@.start_time == now,
        span@.end_time is None,
{
    let parent = extract(&req.headers);
    build_span(config, req, parent, fresh_trace_id(), fresh_span_id(), now)
}

/// The correlation identifier of a request: the value of its first
/// `x-request-id` header, or the configured sentinel where it has none.
pub open spec fn correlation(config: ConfigView, req: RequestView) -> Seq<char> {
    match lookup(req.headers, "x-request-id"@) {
        Some(v) => v,
        None => config.sentinel,
    }
}

/// The span after the request began to be handled.
pub open spec fn enriched(config: ConfigView, req: RequestView, span: SpanView) -> SpanView {
    span.recorded("request_id"@, FieldValueView::Text(correlation(config, req))).recorded(
        "not_shown"@,
        FieldValueView::Text("not shown"@),
    )
}

/// Records what is known only once handling begins: the correlation
/// identifier under `request_id`, and the field `not_shown`, which the
/// exporter shows and the log does not.
pub fn on_request(config: &Config, req: &Request, span: &mut Span)
    ensures
        final(span)@ == enriched(config@, req@, old(span)@),
        old(span)@.wf() ==> final(span)@.wf(),
        old(span)@.is_live() ==> field_value(final(span)@.fields, "request_id"@) == Some(
            FieldValueView::Text(correlation(config@, req@)),
        ),
        !old(span)@.is_live() ==> final(span)@ == old(span)@,
{
    let id: String = match req.headers.get("x-request-id") {
        Some(v) => v.clone(),
        None => config.sentinel.clone(),
    };
    span.record("request_id", FieldValue::Text(id));
    span.record("not_shown", FieldValue::Text("not shown".to_owned()));
    proof {
        if old(span)@.is_live() {
            crate::laws::lemma_request_id_is_recorded(config@, req@, old(span)@);
        }
    }
}

/// Ends the span of a request whose handler ran to its end at `now`, and
/// sends it to the registry.
pub fn on_response(registry: &mut Registry, span: &mut Span, now: u64) -> (r: Result<(), TelemetryError>)
    ensures
        r == old(registry)@.verdict(old(span)@.ended(now, Status::Completed)),
        final(registry)@ == old(registry)@.dispatched(old(span)@.ended(now, Status::Completed)),
        final(span)@ == settled_by(old(span)@.ended(now, Status::Completed), r),
        old(span)@.wf() ==> final(span)@.wf(),
{
    span.close(now);
    registry.dispatch(span)
}

/// Ends the span of a request that was given up at `now`, and sends it
/// to the registry all the same, with the fields recorded so far.
pub fn on_abort(registry: &mut Registry, span: &mut Span, now: u64) -> (r: Result<(), TelemetryError>)
    ensures
        r == old(registry)@.verdict(old(span)@.ended(now, Status::Cancelled)),
        final(registry)@ == old(registry)@.dispatched(old(span)@.ended(now, Status::Cancelled)),
        final(span)@ == settled_by(old(span)@.ended(now, Status::Cancelled), r),
        old(span)@.wf() ==> final(span)@.wf(),
{
    span.cancel(now);
    registry.dispatch(span)
}

/// The body of the one route.
pub fn root() -> (body: &'static str)
    ensures
        body@ == "Hello, World!"@,
{
    "Hello, World!"
}

/// What the service answers.
#[derive(Debug)]
pub struct Response {
    pub status: u16,
    pub body: &'static str,
}

/// What became of one request.
#[derive(Debug)]
pub struct Handled {
    /// The answer to the client. Telemetry has no part in it.
    pub response: Response,
    /// The request's span, settled.
    pub span: Span,
    /// Whether the span was exported.
    pub telemetry: Result<(), TelemetryError>,
}

/// The span of a request at the moment it is sent to the registry.
pub open spec fn finished(config: ConfigView, req: RequestView, trace_id: u128, span_id: u64, start: u64, end: u64) -> SpanView {
    enriched(config, req, span_for(config, req, trace_id, span_id, start)).ended(end, Status::Completed)
}

/// Handles one request from `start` to `end`: opens its span, enriches
/// it, runs the handler, closes the span and sends it to the registry. The
/// answer is the handler's, whatever becomes of the span.
pub fn handle_request(registry: &mut Registry, config: &Config, req: &Request, start: u64, end: u64) -> (r: Handled)
    ensures
        r.response.status == 200,
        r.response.body@ == "Hello, World!"@,
        ({
            let sent = finished(config@, req@, r.span@.context.trace_id, r.span@.context.span_id, start, end);
            &&& sent.phase == Phase::Closed
            &&& r.telemetry == old(registry)@.verdict(sent)
            &&& final(registry)@ == old(registry)@.dispatched(sent)
            &&& r.span@ == settled_by(sent, r.telemetry)
            &&& old(registry)@.is_exporting() ==> r.telemetry is Ok && final(registry)@.exported() == old(
                registry,
            )@.exported().push(record_of(sent, old(registry)@.subscriber->0.exporter.deny))
            &&& !old(registry)@.is_exporting() ==> r.telemetry is Err && final(registry)@.exported() == old(
                registry,
            )@.exported()
        }),
        r.span@.wf(),
{
    let mut span = make_span(config, req, start);
    on_request(config, req, &mut span);
    let body = root();
    let telemetry = on_response(registry, &mut span, end);
    Handled { response: Response { status: 200, body }, span, telemetry }
}

} // verus!
