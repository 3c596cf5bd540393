//! What holds of the tracing layer as a whole, proved from the models of
//! its parts.

use vstd::prelude::*;
use crate::carrier::lookup;
use crate::context::TraceContextView;
use crate::error::TelemetryError;
use crate::otel::{correlation, enriched, finished, log_deny, request_fields, span_for, span_under, ConfigView};
use crate::propagator::extracted;
use crate::registry::{settled_by, RegistryView, SubscriberView};
use crate::request::RequestView;
use crate::search::{first_index, lemma_first_index_is_first, lemma_first_index_none};
use crate::sink::{record_of, shown, shown_by, visible, SinkView};
use crate::span::{
    distinct_keys,
    field_value,
    key_hits,
    lemma_field_value_after_put,
    lemma_put_field_keeps_distinct,
    lemma_put_field_keeps_other,
    optional_text,
    put_field,
    FieldValueView,
    FieldView,
    Phase,
    SpanView,
    Status,
};

verus! {

/// The keys that this crate writes: those of the request fields, then the
/// two that only the exporter shows.
pub open spec fn known_keys() -> Seq<Seq<char>> {
    seq![
        "method"@,
        "path"@,
        "version"@,
        "host"@,
        "scheme"@,
        "query"@,
        "request_id"@,
        "att"@,
        "not_shown"@,
    ]
}

/// The known keys are nine different texts.
pub proof fn lemma_keys_differ()
    ensures
        forall|i: int, j: int| 0 <= i < j < 9 ==> #[trigger] known_keys()[i] != #[trigger] known_keys()[j],
{
    reveal_strlit("method");
    reveal_strlit("path");
    reveal_strlit("version");
    reveal_strlit("host");
    reveal_strlit("scheme");
    reveal_strlit("query");
    reveal_strlit("request_id");
    reveal_strlit("att");
    reveal_strlit("not_shown");
    let k = known_keys();
    assert(k[0].len() == 6 && k[1].len() == 4 && k[2].len() == 7 && k[3].len() == 4 && k[4].len() == 6);
    assert(k[5].len() == 5 && k[6].len() == 10 && k[7].len() == 3 && k[8].len() == 9);
    assert(k[1][0] == 'p' && k[3][0] == 'h');
    assert(k[0][0] == 'm' && k[4][0] == 's');
}

/// A key that does not stand in a span yet is declared at the end.
pub proof fn lemma_declared_new_key(span: SpanView, key: Seq<char>, value: FieldValueView)
    requires
        span.phase == Phase::Open,
        forall|i: int| 0 <= i < span.fields.len() ==> (#[trigger] span.fields[i]).0 != key,
    ensures
        span.declared(key, value).fields == span.fields.push((key, value)),
        span.declared(key, value) == (SpanView { fields: span.fields.push((key, value)), ..span }),
{
    lemma_first_index_none(key_hits(span.fields, key));
}

/// Declaring the fields of a request one by one on a span that was just
/// opened gives the request's fields, in their order, with no key twice.
pub proof fn lemma_fields_at_creation(opened: SpanView, req: RequestView)
    requires
        opened.phase == Phase::Open,
        opened.fields.len() == 0,
    ensures
        opened.declared("method"@, FieldValueView::Text(req.method)).declared(
            "path"@,
            FieldValueView::Text(req.path),
        ).declared("version"@, FieldValueView::Text(req.version)).declared(
            "host"@,
            optional_text(req.host),
        ).declared("scheme"@, optional_text(req.scheme)).declared("query"@, optional_text(req.query)).declared(
            "request_id"@,
            FieldValueView::Empty,
        ).declared("att"@, FieldValueView::Text("you show me!"@)) == (SpanView {
            fields: request_fields(req),
            ..opened
        }),
        distinct_keys(request_fields(req)),
{
    lemma_keys_differ();
    let keys = known_keys();
    assert(keys[0] == "method"@ && keys[1] == "path"@ && keys[2] == "version"@ && keys[3] == "host"@
        && keys[4] == "scheme"@ && keys[5] == "query"@ && keys[6] == "request_id"@ && keys[7] == "att"@);
    let s0 = opened;
    lemma_declared_new_key(s0, "method"@, FieldValueView::Text(req.method));
    let s1 = s0.declared("method"@, FieldValueView::Text(req.method));
    lemma_declared_new_key(s1, "path"@, FieldValueView::Text(req.path));
    let s2 = s1.declared("path"@, FieldValueView::Text(req.path));
    lemma_declared_new_key(s2, "version"@, FieldValueView::Text(req.version));
    let s3 = s2.declared("version"@, FieldValueView::Text(req.version));
    lemma_declared_new_key(s3, "host"@, optional_text(req.host));
    let s4 = s3.declared("host"@, optional_text(req.host));
    lemma_declared_new_key(s4, "scheme"@, optional_text(req.scheme));
    let s5 = s4.declared("scheme"@, optional_text(req.scheme));
    lemma_declared_new_key(s5, "query"@, optional_text(req.query));
    let s6 = s5.declared("query"@, optional_text(req.query));
    lemma_declared_new_key(s6, "request_id"@, FieldValueView::Empty);
    let s7 = s6.declared("request_id"@, FieldValueView::Empty);
    lemma_declared_new_key(s7, "att"@, FieldValueView::Text("you show me!"@));
    let s8 = s7.declared("att"@, FieldValueView::Text("you show me!"@));
    assert(s8.fields =~= request_fields(req));
    assert(distinct_keys(s8.fields)) by {
        assert forall|i: int, j: int| 0 <= i < j < s8.fields.len() implies (#[trigger] s8.fields[i]).0 != (
        #[trigger] s8.fields[j]).0 by {
            assert(s8.fields[i].0 == keys[i]);
            assert(s8.fields[j].0 == keys[j]);
        }
    }
}

/// A new request span is well-formed, open, and holds the request's fields.
pub proof fn lemma_new_span_is_wf(
    config: ConfigView,
    req: RequestView,
    parent: Option<TraceContextView>,
    trace_id: u128,
    span_id: u64,
    now: u64,
)
    ensures
        span_under(config, req, parent, trace_id, span_id, now).wf(),
        span_under(config, req, parent, trace_id, span_id, now).phase == Phase::Open,
        field_value(span_under(config, req, parent, trace_id, span_id, now).fields, "request_id"@) == Some(
            FieldValueView::Empty,
        ),
{
    let opened = SpanView::opened(config.span_name, parent, trace_id, span_id, now);
    lemma_fields_at_creation(opened, req);
    lemma_keys_differ();
    let keys = known_keys();
    assert(keys[0] == "method"@ && keys[1] == "path"@ && keys[2] == "version"@ && keys[3] == "host"@
        && keys[4] == "scheme"@ && keys[5] == "query"@ && keys[6] == "request_id"@);
    let fields = request_fields(req);
    let hits = key_hits(fields, "request_id"@);
    assert(hits[6]);
    assert forall|j: int| 0 <= j < 6 implies !hits[j] by {
        assert(fields[j].0 == keys[j]);
    }
    assert(crate::search::is_first(hits, 6));
    crate::search::lemma_first_index_found(hits, 6);
}

/// Once a request began to be handled, its span holds the correlation
/// identifier under `request_id`: the header's value, or the sentinel where
/// the header is missing, and never no value at all.
pub proof fn lemma_request_id_is_recorded(config: ConfigView, req: RequestView, span: SpanView)
    requires
        span.is_live(),
    ensures
        field_value(enriched(config, req, span).fields, "request_id"@) == Some(
            FieldValueView::Text(correlation(config, req)),
        ),
        field_value(enriched(config, req, span).fields, "not_shown"@) == Some(
            FieldValueView::Text("not shown"@),
        ),
        lookup(req.headers, "x-request-id"@) matches Some(id) ==> correlation(config, req) == id,
        lookup(req.headers, "x-request-id"@) is None ==> correlation(config, req) == config.sentinel,
        enriched(config, req, span).phase == Phase::Enriched,
{
    lemma_keys_differ();
    assert(known_keys()[6] == "request_id"@ && known_keys()[8] == "not_shown"@);
    let id = FieldValueView::Text(correlation(config, req));
    let first = put_field(span.fields, "request_id"@, id);
    lemma_field_value_after_put(span.fields, "request_id"@, id);
    lemma_put_field_keeps_other(first, "not_shown"@, FieldValueView::Text("not shown"@), "request_id"@);
    lemma_field_value_after_put(first, "not_shown"@, FieldValueView::Text("not shown"@));
}

/// A sink shows no field under a key that it denies.
pub proof fn lemma_denied_key_is_hidden(fields: Seq<FieldView>, deny: Seq<Seq<char>>, key: Seq<char>)
    requires
        deny.contains(key),
    ensures
        forall|i: int| 0 <= i < visible(fields, deny).len() ==> (#[trigger] visible(fields, deny)[i]).0 != key,
        field_value(visible(fields, deny), key) is None,
{
    let shown_fields = visible(fields, deny);
    assert forall|i: int| 0 <= i < shown_fields.len() implies (#[trigger] shown_fields[i]).0 != key by {
        fields.lemma_filter_pred(shown_by(deny), i);
        assert(shown(shown_fields[i], deny));
    }
    lemma_first_index_none(key_hits(shown_fields, key));
}

/// A sink shows every field that has a value and whose key it does not deny.
pub proof fn lemma_allowed_field_is_shown(
    fields: Seq<FieldView>,
    deny: Seq<Seq<char>>,
    key: Seq<char>,
    value: FieldValueView,
)
    requires
        field_value(fields, key) == Some(value),
        !(value is Empty),
        !deny.contains(key),
    ensures
        visible(fields, deny).contains((key, value)),
{
    lemma_first_index_is_first(key_hits(fields, key));
    let i = first_index(key_hits(fields, key))->0;
    assert(key_hits(fields, key)[i]);
    assert(fields[i] == (key, value));
    assert(shown(fields[i], deny));
    fields.lemma_filter_contains(shown_by(deny), i);
}

/// What a sink shows keeps the keys distinct.
pub proof fn lemma_visible_keeps_distinct(fields: Seq<FieldView>, deny: Seq<Seq<char>>)
    requires
        distinct_keys(fields),
    ensures
        distinct_keys(visible(fields, deny)),
    decreases fields.len(),
{
    reveal(Seq::filter);
    if fields.len() > 0 {
        let rest = fields.drop_last();
        let last = fields.last();
        assert(distinct_keys(rest)) by {
            assert forall|i: int, j: int| 0 <= i < j < rest.len() implies (#[trigger] rest[i]).0 != (
            #[trigger] rest[j]).0 by {
                assert(rest[i] == fields[i] && rest[j] == fields[j]);
            }
        }
        lemma_visible_keeps_distinct(rest, deny);
        let sub = visible(rest, deny);
        let out = visible(fields, deny);
        if shown(last, deny) {
            assert(out == sub.push(last));
            assert forall|i: int, j: int| 0 <= i < j < out.len() implies (#[trigger] out[i]).0 != (
            #[trigger] out[j]).0 by {
                if j == sub.len() {
                    assert(sub.contains(sub[i]));
                    rest.lemma_filter_contains_rev(shown_by(deny), sub[i]);
                    let k = choose|k: int| 0 <= k < rest.len() && rest[k] == sub[i];
                    assert(fields[k] == sub[i]);
                    assert(fields[k].0 != fields[fields.len() - 1].0);
                } else {
                    assert(out[i] == sub[i] && out[j] == sub[j]);
                }
            }
        } else {
            assert(out == sub);
        }
    }
}

/// Where no key stands twice, a field that is in the list is the value
/// under its key.
pub proof fn lemma_value_of_contained(fields: Seq<FieldView>, key: Seq<char>, value: FieldValueView)
    requires
        distinct_keys(fields),
        fields.contains((key, value)),
    ensures
        field_value(fields, key) == Some(value),
{
    let k = choose|k: int| 0 <= k < fields.len() && fields[k] == (key, value);
    let hits = key_hits(fields, key);
    assert(hits[k]);
    lemma_first_index_is_first(hits);
    let i = first_index(hits)->0;
    assert(hits[i]);
    if i < k {
        assert(fields[i].0 != fields[k].0);
    }
}

/// What a sink shows under a key: the value that the span holds under it,
/// unless the sink denies the key or the key still waits for its value.
pub proof fn lemma_sink_shows_what_was_recorded(fields: Seq<FieldView>, deny: Seq<Seq<char>>, key: Seq<char>)
    requires
        distinct_keys(fields),
    ensures
        field_value(visible(fields, deny), key) == match field_value(fields, key) {
            Some(value) => if deny.contains(key) || value is Empty {
                None
            } else {
                Some(value)
            },
            None => None,
        },
{
    let out = visible(fields, deny);
    lemma_visible_keeps_distinct(fields, deny);
    lemma_first_index_is_first(key_hits(fields, key));
    lemma_first_index_is_first(key_hits(out, key));
    if deny.contains(key) {
        lemma_denied_key_is_hidden(fields, deny, key);
    } else {
        match field_value(fields, key) {
            Some(value) => {
                if !(value is Empty) {
                    lemma_allowed_field_is_shown(fields, deny, key, value);
                    lemma_value_of_contained(out, key, value);
                } else {
                    let at = first_index(key_hits(fields, key))->0;
                    assert(key_hits(fields, key)[at]);
                    if first_index(key_hits(out, key)) is Some {
                        let i = first_index(key_hits(out, key))->0;
                        assert(key_hits(out, key)[i]);
                        assert(out.contains(out[i]));
                        fields.lemma_filter_contains_rev(shown_by(deny), out[i]);
                        let k = choose|k: int| 0 <= k < fields.len() && fields[k] == out[i];
                        if k < at {
                            assert(fields[k].0 != fields[at].0);
                        }
                        if at < k {
                            assert(fields[at].0 != fields[k].0);
                        }
                        assert(shown(out[i], deny));
                    }
                }
            },
            None => {
                if first_index(key_hits(out, key)) is Some {
                    let i = first_index(key_hits(out, key))->0;
                    assert(key_hits(out, key)[i]);
                    assert(out.contains(out[i]));
                    fields.lemma_filter_contains_rev(shown_by(deny), out[i]);
                    let k = choose|k: int| 0 <= k < fields.len() && fields[k] == out[i];
                    assert(key_hits(fields, key)[k]);
                }
            },
        }
    }
}

/// One span, two sinks: a field under a key that the log denies and the
/// exporter does not is in what the exporter keeps of the span, and is not
/// in what the log keeps of it.
pub proof fn lemma_sinks_diverge(
    span: SpanView,
    exporter: SinkView,
    log: SinkView,
    key: Seq<char>,
    value: FieldValueView,
)
    requires
        field_value(span.fields, key) == Some(value),
        !(value is Empty),
        log.deny.contains(key),
        !exporter.deny.contains(key),
    ensures
        record_of(span, exporter.deny).fields.contains((key, value)),
        forall|i: int|
            0 <= i < record_of(span, log.deny).fields.len() ==> (#[trigger] record_of(
                span,
                log.deny,
            ).fields[i]).0 != key,
{
    lemma_allowed_field_is_shown(span.fields, exporter.deny, key, value);
    lemma_denied_key_is_hidden(span.fields, log.deny, key);
}

/// For every request, what the subscriber of `setup_subscriber` keeps of
/// its span: the exporter's record holds `not_shown` and the correlation
/// identifier, the log's record holds the correlation identifier and nothing
/// under `not_shown`.
pub proof fn lemma_not_shown_is_exported_not_logged(
    config: ConfigView,
    req: RequestView,
    trace_id: u128,
    span_id: u64,
    start: u64,
    end: u64,
)
    ensures
        ({
            let sent = finished(config, req, trace_id, span_id, start, end);
            let exported = record_of(sent, Seq::empty());
            let logged = record_of(sent, log_deny());
            let id = FieldValueView::Text(correlation(config, req));
            &&& field_value(exported.fields, "not_shown"@) == Some(FieldValueView::Text("not shown"@))
            &&& field_value(exported.fields, "request_id"@) == Some(id)
            &&& field_value(logged.fields, "request_id"@) == Some(id)
            &&& field_value(logged.fields, "not_shown"@) is None
            &&& forall|i: int| 0 <= i < logged.fields.len() ==> (#[trigger] logged.fields[i]).0 != "not_shown"@
        }),
{
    let made = span_for(config, req, trace_id, span_id, start);
    lemma_new_span_is_wf(config, req, extracted(req.headers), trace_id, span_id, start);
    lemma_request_id_is_recorded(config, req, made);
    let sent = finished(config, req, trace_id, span_id, start, end);
    assert(sent.fields == enriched(config, req, made).fields);
    let none: Seq<Seq<char>> = Seq::empty();
    let id = FieldValueView::Text(correlation(config, req));
    reveal_strlit("not_shown");
    reveal_strlit("att");
    reveal_strlit("request_id");
    assert(log_deny()[0] == "not_shown"@);
    assert(!log_deny().contains("request_id"@));
    lemma_span_steps_keep_wf(made, "request_id"@, id, end, Status::Completed, true);
    lemma_span_steps_keep_wf(
        made.recorded("request_id"@, id),
        "not_shown"@,
        FieldValueView::Text("not shown"@),
        end,
        Status::Completed,
        true,
    );
    assert(distinct_keys(sent.fields));
    lemma_sink_shows_what_was_recorded(sent.fields, none, "not_shown"@);
    lemma_sink_shows_what_was_recorded(sent.fields, none, "request_id"@);
    lemma_sink_shows_what_was_recorded(sent.fields, log_deny(), "request_id"@);
    lemma_denied_key_is_hidden(sent.fields, log_deny(), "not_shown"@);
}

/// A closed span that is sent to a subscriber whose exporter is open is
/// exported once: the exporter's output grows by exactly the record of that
/// span, after all earlier records, and nothing is counted as lost. The span
/// is then settled, and sending it again adds nothing.
pub proof fn lemma_one_record_per_span(subscriber: SubscriberView, span: SpanView)
    requires
        subscriber.exporter.open,
        span.phase == Phase::Closed,
    ensures
        subscriber.verdict(span) is Ok,
        subscriber.dispatched(span).exporter.records == subscriber.exporter.records.push(
            record_of(span, subscriber.exporter.deny),
        ),
        subscriber.dispatched(span).exporter.records.len() == subscriber.exporter.records.len() + 1,
        subscriber.dispatched(span).exporter.dropped == subscriber.exporter.dropped,
        settled_by(span, subscriber.verdict(span)).phase == Phase::Exported,
        subscriber.dispatched(span).dispatched(settled_by(span, subscriber.verdict(span))).exporter
            == subscriber.dispatched(span).exporter,
{
}

/// Every request ends in a span that is closed when it is sent, so with an
/// installed subscriber and an open exporter every request adds exactly one
/// record to the exporter's output.
pub proof fn lemma_one_span_per_request(
    registry: RegistryView,
    config: ConfigView,
    req: RequestView,
    trace_id: u128,
    span_id: u64,
    start: u64,
    end: u64,
)
    requires
        registry.subscriber matches Some(s) && s.exporter.open,
    ensures
        ({
            let sent = finished(config, req, trace_id, span_id, start, end);
            let before = registry.subscriber->0.exporter;
            let after = registry.dispatched(sent).subscriber->0.exporter;
            &&& sent.phase == Phase::Closed
            &&& sent.end_time == Some(end)
            &&& sent.status == Status::Completed
            &&& registry.verdict(sent) is Ok
            &&& after.records == before.records.push(record_of(sent, before.deny))
            &&& after.dropped == before.dropped
        }),
{
}

/// A subscriber is installed at most once: after one attempt, whatever
/// its outcome, every further attempt fails with `SubscriberAlreadySet` and
/// leaves the registry as it is.
pub proof fn lemma_second_install_fails(registry: RegistryView, first: SubscriberView, second: SubscriberView)
    ensures
        registry.installed(first).is_installed(),
        registry.installed(first).install_verdict() == Err::<(), TelemetryError>(
            TelemetryError::SubscriberAlreadySet,
        ),
        registry.installed(first).installed(second) == registry.installed(first),
        !registry.is_installed() ==> registry.installed(first).subscriber == Some(first),
{
}

/// Shutdown keeps what was exported and ends the taking of spans: every
/// record written before the shutdown is in the output after it, in its
/// place, and a span offered afterwards is refused with `ExporterClosed`,
/// adds no record, and is counted as lost.
pub proof fn lemma_shutdown_keeps_and_refuses(sink: SinkView, span: SpanView)
    ensures
        sink.shut().records == sink.records,
        !sink.shut().open,
        sink.shut().verdict(span) == Err::<(), TelemetryError>(TelemetryError::ExporterClosed),
        sink.shut().offered(span).records == sink.records,
        sink.dropped < u64::MAX ==> sink.shut().offered(span).dropped == sink.dropped + 1,
        sink.shut().shut() == sink.shut(),
{
}

/// The same at the registry: after its shutdown no span is exported, and
/// the exporter's output is what it was.
pub proof fn lemma_registry_shutdown(registry: RegistryView, span: SpanView)
    requires
        registry.is_installed(),
    ensures
        registry.shut().verdict(span) == Err::<(), TelemetryError>(TelemetryError::ExporterClosed),
        registry.shut().subscriber->0.exporter.records == registry.subscriber->0.exporter.records,
        registry.shut().dispatched(span).subscriber->0.exporter.records
            == registry.subscriber->0.exporter.records,
        span.phase != Phase::Exported ==> settled_by(span, registry.shut().verdict(span)).phase
            != Phase::Exported,
{
}

/// A span that was closed takes no more fields, and its end time stays:
/// recording, declaring and closing again all leave it as it is.
pub proof fn lemma_closed_span_is_fixed(span: SpanView, key: Seq<char>, value: FieldValueView, now: u64, status: Status)
    requires
        !span.is_live(),
    ensures
        span.recorded(key, value) == span,
        span.declared(key, value) == span,
        span.ended(now, status) == span,
{
}

/// The life of a span runs one way: every step keeps a well-formed span
/// well-formed, and none leads back to an earlier phase.
pub proof fn lemma_span_steps_keep_wf(span: SpanView, key: Seq<char>, value: FieldValueView, now: u64, status: Status, delivered: bool)
    requires
        span.wf(),
        status != Status::Unset,
    ensures
        span.declared(key, value).wf(),
        span.recorded(key, value).wf(),
        span.ended(now, status).wf(),
        span.settled(delivered).wf(),
        !span.ended(now, status).is_live(),
        !span.is_live() ==> !span.settled(delivered).is_live(),
{
    lemma_put_field_keeps_distinct(span.fields, key, value);
}

} // verus!
