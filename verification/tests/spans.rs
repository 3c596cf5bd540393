use request_tracing::context::TraceContext;
use request_tracing::error::TelemetryError;
use request_tracing::sink::Sink;
use request_tracing::span::{FieldValue, Phase, Span, Status};

fn text_of(span: &Span, key: &str) -> Option<String> {
    match span.get(key) {
        Some(FieldValue::Text(t)) => Some(t.clone()),
        _ => None,
    }
}

fn keys_of(span: &Span) -> Vec<String> {
    span.fields().iter().map(|f| f.key.clone()).collect()
}

fn parent() -> TraceContext {
    TraceContext::new(0xabc, 0xdef, 0, "k=v".to_string())
}

#[test]
fn a_root_span_starts_its_own_trace() {
    let span = Span::open("work".to_string(), None, 11, 22, 100);
    assert_eq!(span.name(), "work");
    assert!(span.parent().is_none());
    assert_eq!(span.context().trace_id(), 11);
    assert_eq!(span.context().span_id(), 22);
    assert_eq!(span.context().trace_flags(), 1);
    assert_eq!(span.context().trace_state(), "");
    assert_eq!(span.start_time(), 100);
    assert_eq!(span.end_time(), None);
    assert_eq!(span.status(), Status::Unset);
    assert_eq!(span.phase(), Phase::Open);
    assert!(span.is_live());
    assert!(span.fields().is_empty());
}

#[test]
fn a_child_span_joins_the_trace_of_its_parent() {
    let span = Span::open("work".to_string(), Some(parent()), 11, 22, 100);
    let kept = span.parent().as_ref().expect("a parent");
    assert_eq!((kept.trace_id(), kept.span_id(), kept.trace_flags()), (0xabc, 0xdef, 0));
    assert_eq!(span.context().trace_id(), 0xabc);
    assert_eq!(span.context().span_id(), 22);
    assert_eq!(span.context().trace_flags(), 1);
    assert_eq!(span.context().trace_state(), "k=v");
}

#[test]
fn an_invalid_parent_counts_as_none() {
    let span = Span::open("work".to_string(), Some(TraceContext::new(0, 5, 1, String::new())), 11, 22, 100);
    assert!(span.parent().is_none());
    assert_eq!(span.context().trace_id(), 11);
}

#[test]
fn declare_sets_and_replaces_in_place() {
    let mut span = Span::open("work".to_string(), None, 1, 2, 0);
    span.declare("a", FieldValue::Text("1".to_string()));
    span.declare("b", FieldValue::Empty);
    span.declare("a", FieldValue::Absent);
    assert_eq!(keys_of(&span), vec!["a", "b"]);
    assert!(matches!(span.get("a"), Some(FieldValue::Absent)));
    assert!(matches!(span.get("b"), Some(FieldValue::Empty)));
    assert!(span.get("c").is_none());
    assert_eq!(span.phase(), Phase::Open);
}

#[test]
fn declare_is_for_creation_only() {
    let mut span = Span::open("work".to_string(), None, 1, 2, 0);
    span.record("a", FieldValue::Text("1".to_string()));
    span.declare("b", FieldValue::Text("2".to_string()));
    assert_eq!(keys_of(&span), vec!["a"]);
    assert_eq!(span.phase(), Phase::Enriched);
}

#[test]
fn record_fills_a_reserved_key_and_adds_new_ones() {
    let mut span = Span::open("work".to_string(), None, 1, 2, 0);
    span.declare("request_id", FieldValue::Empty);
    span.declare("path", FieldValue::Text("/".to_string()));
    span.record("request_id", FieldValue::Text("abc123".to_string()));
    span.record("extra", FieldValue::Text("x".to_string()));
    span.record("request_id", FieldValue::Text("again".to_string()));
    assert_eq!(keys_of(&span), vec!["request_id", "path", "extra"]);
    assert_eq!(text_of(&span, "request_id").as_deref(), Some("again"));
    assert_eq!(text_of(&span, "extra").as_deref(), Some("x"));
    assert_eq!(span.phase(), Phase::Enriched);
}

#[test]
fn keys_are_matched_exactly() {
    let mut span = Span::open("work".to_string(), None, 1, 2, 0);
    span.record("Key", FieldValue::Text("1".to_string()));
    span.record("key", FieldValue::Text("2".to_string()));
    assert_eq!(keys_of(&span), vec!["Key", "key"]);
    assert_eq!(text_of(&span, "Key").as_deref(), Some("1"));
}

#[test]
fn close_sets_the_end_time_once() {
    let mut span = Span::open("work".to_string(), None, 1, 2, 10);
    span.close(20);
    assert_eq!(span.end_time(), Some(20));
    assert_eq!(span.status(), Status::Completed);
    assert_eq!(span.phase(), Phase::Closed);
    assert!(!span.is_live());
    span.close(30);
    span.cancel(40);
    assert_eq!(span.end_time(), Some(20));
    assert_eq!(span.status(), Status::Completed);
}

#[test]
fn nothing_is_recorded_after_close() {
    let mut span = Span::open("work".to_string(), None, 1, 2, 10);
    span.record("a", FieldValue::Text("1".to_string()));
    span.close(20);
    span.record("a", FieldValue::Text("2".to_string()));
    span.record("b", FieldValue::Text("3".to_string()));
    span.declare("c", FieldValue::Text("4".to_string()));
    assert_eq!(keys_of(&span), vec!["a"]);
    assert_eq!(text_of(&span, "a").as_deref(), Some("1"));
    assert_eq!(span.phase(), Phase::Closed);
}

#[test]
fn cancel_keeps_what_was_recorded() {
    let mut span = Span::open("work".to_string(), None, 1, 2, 10);
    span.record("a", FieldValue::Text("1".to_string()));
    span.cancel(15);
    assert_eq!(span.end_time(), Some(15));
    assert_eq!(span.status(), Status::Cancelled);
    assert_eq!(span.phase(), Phase::Closed);
    assert_eq!(text_of(&span, "a").as_deref(), Some("1"));
}

#[test]
fn settle_acts_on_a_closed_span_only() {
    let mut span = Span::open("work".to_string(), None, 1, 2, 10);
    span.settle(true);
    assert_eq!(span.phase(), Phase::Open);
    span.close(11);
    span.settle(false);
    assert_eq!(span.phase(), Phase::Dropped);
    span.settle(true);
    assert_eq!(span.phase(), Phase::Dropped);
    let mut other = Span::open("work".to_string(), None, 1, 2, 10);
    other.close(11);
    other.settle(true);
    assert_eq!(other.phase(), Phase::Exported);
}

#[test]
fn field_value_of_an_optional_part() {
    assert!(matches!(FieldValue::of(&None), FieldValue::Absent));
    assert!(matches!(FieldValue::of(&Some("q=1".to_string())), FieldValue::Text(t) if t == "q=1"));
    assert!(FieldValue::Empty.is_empty());
    assert!(!FieldValue::Absent.is_empty());
    assert!(!FieldValue::Text(String::new()).is_empty());
    assert_eq!(FieldValue::Empty.shown_text(), None);
    assert_eq!(FieldValue::Absent.shown_text().as_deref(), Some("None"));
    assert_eq!(FieldValue::Text("x".to_string()).shown_text().as_deref(), Some("x"));
}

#[test]
fn a_sink_writes_closed_spans_in_order() {
    let mut sink = Sink::new(Vec::new());
    assert!(sink.is_open());
    for i in 0..3u64 {
        let mut span = Span::open(format!("s{i}"), None, 1, i + 1, i);
        span.close(i + 10);
        assert_eq!(sink.export(&span), Ok(()));
    }
    let names: Vec<&str> = sink.records().iter().map(|r| r.name.as_str()).collect();
    assert_eq!(names, vec!["s0", "s1", "s2"]);
    assert_eq!(sink.records()[2].start_time, 2);
    assert_eq!(sink.records()[2].end_time, 12);
    assert_eq!(sink.records()[2].status, Status::Completed);
    assert_eq!(sink.records()[2].context.span_id(), 3);
    assert_eq!(sink.dropped(), 0);
}

#[test]
fn a_sink_refuses_a_span_that_is_not_closed() {
    let mut sink = Sink::new(Vec::new());
    let mut span = Span::open("work".to_string(), None, 1, 2, 0);
    assert_eq!(sink.export(&span), Err(TelemetryError::SpanNotClosed));
    span.record("a", FieldValue::Text("1".to_string()));
    assert_eq!(sink.export(&span), Err(TelemetryError::SpanNotClosed));
    span.close(1);
    span.settle(true);
    assert_eq!(sink.export(&span), Err(TelemetryError::SpanNotClosed));
    assert!(sink.records().is_empty());
    assert_eq!(sink.dropped(), 0);
}

#[test]
fn a_sink_hides_denied_keys_and_empty_fields() {
    let mut span = Span::open("work".to_string(), Some(parent()), 1, 2, 0);
    span.declare("shown", FieldValue::Text("1".to_string()));
    span.declare("reserved", FieldValue::Empty);
    span.declare("secret", FieldValue::Text("2".to_string()));
    span.declare("missing", FieldValue::Absent);
    span.close(5);
    let mut open_sink = Sink::new(Vec::new());
    let mut strict = Sink::new(vec!["secret".to_string(), "other".to_string()]);
    assert_eq!(open_sink.export(&span), Ok(()));
    assert_eq!(strict.export(&span), Ok(()));
    let all: Vec<&str> = open_sink.records()[0].fields.iter().map(|f| f.key.as_str()).collect();
    let some: Vec<&str> = strict.records()[0].fields.iter().map(|f| f.key.as_str()).collect();
    assert_eq!(all, vec!["shown", "secret", "missing"]);
    assert_eq!(some, vec!["shown", "missing"]);
    assert!(matches!(&strict.records()[0].fields[1].value, FieldValue::Absent));
    assert_eq!(strict.deny(), &vec!["secret".to_string(), "other".to_string()]);
    assert!(strict.denies("secret") && strict.denies("other"));
    assert!(!strict.denies("shown") && !strict.denies("Secret") && !open_sink.denies("secret"));
    let kept = strict.records()[0].parent.as_ref().expect("a parent");
    assert_eq!(kept.span_id(), 0xdef);
}

#[test]
fn a_sink_takes_nothing_after_shutdown() {
    let mut sink = Sink::new(Vec::new());
    let mut first = Span::open("first".to_string(), None, 1, 2, 0);
    first.close(1);
    assert_eq!(sink.export(&first), Ok(()));
    sink.shutdown();
    assert!(!sink.is_open());
    assert_eq!(sink.records().len(), 1);
    let mut late = Span::open("late".to_string(), None, 1, 3, 2);
    late.close(3);
    assert_eq!(sink.export(&late), Err(TelemetryError::ExporterClosed));
    let open = Span::open("open".to_string(), None, 1, 4, 2);
    assert_eq!(sink.export(&open), Err(TelemetryError::ExporterClosed));
    assert_eq!(sink.records().len(), 1);
    assert_eq!(sink.records()[0].name, "first");
    assert_eq!(sink.dropped(), 2);
    sink.shutdown();
    assert_eq!(sink.records().len(), 1);
}

#[test]
fn every_error_has_its_sentence() {
    assert_eq!(TelemetryError::SubscriberAlreadySet.message(), "a subscriber is already installed");
    assert_eq!(TelemetryError::SubscriberNotSet.message(), "no subscriber is installed");
    assert_eq!(TelemetryError::ExporterClosed.message(), "the exporter is shut down");
    assert_eq!(TelemetryError::SpanNotClosed.message(), "the span is not closed");
}
