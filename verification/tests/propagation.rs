use request_tracing::carrier::Carrier;
use request_tracing::context::TraceContext;
use request_tracing::propagator::{extract, inject, parent_from, select_fields, write_fields};
use request_tracing::text::{eq_ignore_case, eq_text};

const PARENT: &str = "00-4bf92f3577b34da6a3ce929d0e0e4736-00f067aa0ba902b7-01";
const TRACE_ID: u128 = 0x4bf92f3577b34da6a3ce929d0e0e4736;
const SPAN_ID: u64 = 0x00f067aa0ba902b7;

fn carrier_of(pairs: &[(&str, &str)]) -> Carrier {
    let mut carrier = Carrier::new();
    for (name, value) in pairs {
        carrier.push(name.to_string(), value.to_string());
    }
    carrier
}

#[test]
fn names_are_compared_without_case() {
    assert!(eq_ignore_case("traceparent", "TraceParent"));
    assert!(eq_ignore_case("X-REQUEST-ID", "x-request-id"));
    assert!(eq_ignore_case("", ""));
    assert!(!eq_ignore_case("traceparent", "tracestate"));
    assert!(!eq_ignore_case("trace", "tracestate"));
    assert!(!eq_ignore_case("a[", "a{"));
    assert!(!eq_ignore_case("a@", "a`"));
}

#[test]
fn texts_are_compared_exactly() {
    assert!(eq_text("request_id", "request_id"));
    assert!(!eq_text("request_id", "Request_id"));
    assert!(!eq_text("att", "at"));
    assert!(eq_text("", ""));
}

#[test]
fn carrier_reads_the_first_entry_of_a_name() {
    let carrier = carrier_of(&[("Accept", "a"), ("X-Request-Id", "one"), ("x-request-id", "two")]);
    assert_eq!(carrier.len(), 3);
    assert_eq!(carrier.get("x-request-id").map(|v| v.as_str()), Some("one"));
    assert_eq!(carrier.position("X-REQUEST-ID"), Some(1));
    assert_eq!(carrier.get("accept").map(|v| v.as_str()), Some("a"));
    assert!(carrier.get("host").is_none());
    assert_eq!(carrier.position("host"), None);
}

#[test]
fn carrier_set_replaces_in_place_or_appends() {
    let mut carrier = carrier_of(&[("Accept", "a"), ("Traceparent", "old")]);
    carrier.set("traceparent", "new".to_string());
    assert_eq!(carrier.len(), 2);
    assert_eq!(carrier.entries[1], ("Traceparent".to_string(), "new".to_string()));
    carrier.set("tracestate", "k=v".to_string());
    assert_eq!(carrier.len(), 3);
    assert_eq!(carrier.entries[2], ("tracestate".to_string(), "k=v".to_string()));
    assert_eq!(carrier.get("TRACESTATE").map(|v| v.as_str()), Some("k=v"));
    assert_eq!(carrier.get("accept").map(|v| v.as_str()), Some("a"));
}

#[test]
fn extract_reads_a_well_formed_traceparent() {
    let carrier = carrier_of(&[("traceparent", PARENT)]);
    let parent = extract(&carrier).expect("a parent");
    assert_eq!(parent.trace_id(), TRACE_ID);
    assert_eq!(parent.span_id(), SPAN_ID);
    assert_eq!(parent.trace_flags(), 1);
    assert_eq!(parent.trace_state(), "");
    assert!(parent.is_valid());
    assert!(parent.is_sampled());
}

#[test]
fn extract_finds_the_header_under_any_case() {
    let carrier = carrier_of(&[("Host", "example.org"), ("TraceParent", PARENT), ("TraceState", "foo=bar")]);
    let parent = extract(&carrier).expect("a parent");
    assert_eq!(parent.trace_id(), TRACE_ID);
    assert_eq!(parent.span_id(), SPAN_ID);
    assert_eq!(parent.trace_state(), "foo=bar");
}

#[test]
fn extract_keeps_an_unsampled_parent() {
    let carrier = carrier_of(&[("traceparent", "00-4bf92f3577b34da6a3ce929d0e0e4736-00f067aa0ba902b7-00")]);
    let parent = extract(&carrier).expect("a parent");
    assert_eq!(parent.trace_flags(), 0);
    assert!(!parent.is_sampled());
}

#[test]
fn extract_without_the_header_names_no_parent() {
    assert!(extract(&Carrier::new()).is_none());
    assert!(extract(&carrier_of(&[("x-request-id", "abc123")])).is_none());
    assert!(extract(&carrier_of(&[("tracestate", "foo=bar")])).is_none());
}

#[test]
fn extract_degrades_on_a_malformed_header() {
    let bad = [
        "",
        "garbage",
        "00-4bf92f3577b34da6a3ce929d0e0e4736-00f067aa0ba902b7",
        "00-00000000000000000000000000000000-00f067aa0ba902b7-01",
        "00-4bf92f3577b34da6a3ce929d0e0e4736-0000000000000000-01",
        "00-4BF92F3577B34DA6A3CE929D0E0E4736-00f067aa0ba902b7-01",
        "qw-4bf92f3577b34da6a3ce929d0e0e4736-00f067aa0ba902b7-01",
        "00-4bf92f3577b34da6a3ce929d0e0e4736-00f067aa0ba902b7-01-extra",
    ];
    for value in bad {
        assert!(extract(&carrier_of(&[("traceparent", value)])).is_none(), "{value:?}");
    }
}

#[test]
fn extract_uses_the_first_traceparent() {
    let carrier = carrier_of(&[("traceparent", "garbage"), ("traceparent", PARENT)]);
    assert!(extract(&carrier).is_none());
    let carrier = carrier_of(&[("traceparent", PARENT), ("traceparent", "garbage")]);
    assert_eq!(extract(&carrier).expect("a parent").trace_id(), TRACE_ID);
}

#[test]
fn select_fields_hands_over_the_two_headers_only() {
    let carrier = carrier_of(&[("Host", "h"), ("TraceState", "a=b"), ("TraceParent", PARENT)]);
    let fields = select_fields(&carrier);
    assert_eq!(
        fields.entries,
        vec![
            ("traceparent".to_string(), PARENT.to_string()),
            ("tracestate".to_string(), "a=b".to_string()),
        ]
    );
    let fields = select_fields(&carrier_of(&[("tracestate", "a=b")]));
    assert!(fields.entries.is_empty());
}

#[test]
fn parent_from_rejects_zero_identifiers() {
    assert!(parent_from(TraceContext::new(0, 0, 0, String::new())).is_none());
    assert!(parent_from(TraceContext::new(0, 7, 1, String::new())).is_none());
    assert!(parent_from(TraceContext::new(7, 0, 1, String::new())).is_none());
    let kept = parent_from(TraceContext::new(7, 9, 1, "k=v".to_string())).expect("valid");
    assert_eq!((kept.trace_id(), kept.span_id(), kept.trace_flags()), (7, 9, 1));
    assert_eq!(kept.trace_state(), "k=v");
}

#[test]
fn inject_writes_the_w3c_headers() {
    let context = TraceContext::new(TRACE_ID, SPAN_ID, 1, "foo=bar".to_string());
    let mut carrier = carrier_of(&[("accept", "*/*")]);
    inject(&context, &mut carrier);
    assert_eq!(carrier.len(), 3);
    assert_eq!(carrier.get("traceparent").map(|v| v.as_str()), Some(PARENT));
    assert_eq!(carrier.get("tracestate").map(|v| v.as_str()), Some("foo=bar"));
    assert_eq!(carrier.get("accept").map(|v| v.as_str()), Some("*/*"));
}

#[test]
fn inject_replaces_what_was_there() {
    let context = TraceContext::new(TRACE_ID, SPAN_ID, 0, String::new());
    let mut carrier = carrier_of(&[("TraceParent", "stale"), ("accept", "*/*")]);
    inject(&context, &mut carrier);
    assert_eq!(carrier.len(), 3);
    assert_eq!(
        carrier.entries[0],
        ("TraceParent".to_string(), "00-4bf92f3577b34da6a3ce929d0e0e4736-00f067aa0ba902b7-00".to_string())
    );
    assert_eq!(carrier.get("tracestate").map(|v| v.as_str()), Some(""));
}

#[test]
fn inject_leaves_the_carrier_alone_for_an_invalid_context() {
    let mut carrier = carrier_of(&[("accept", "*/*")]);
    inject(&TraceContext::new(0, SPAN_ID, 1, String::new()), &mut carrier);
    inject(&TraceContext::new(TRACE_ID, 0, 1, String::new()), &mut carrier);
    assert_eq!(carrier.entries, vec![("accept".to_string(), "*/*".to_string())]);
}

#[test]
fn inject_then_extract_gives_the_context_back() {
    let context = TraceContext::new(TRACE_ID, SPAN_ID, 1, "foo=bar,baz=1".to_string());
    let mut carrier = Carrier::new();
    inject(&context, &mut carrier);
    let back = extract(&carrier).expect("a parent");
    assert_eq!(back.trace_id(), context.trace_id());
    assert_eq!(back.span_id(), context.span_id());
    assert_eq!(back.trace_flags(), context.trace_flags());
    assert_eq!(back.trace_state(), context.trace_state());
}

#[test]
fn write_fields_writes_only_what_it_is_given() {
    let mut carrier = Carrier::new();
    write_fields(&mut carrier, None, None);
    assert!(carrier.entries.is_empty());
    write_fields(&mut carrier, Some("p".to_string()), None);
    assert_eq!(carrier.entries, vec![("traceparent".to_string(), "p".to_string())]);
    write_fields(&mut carrier, None, Some("s".to_string()));
    assert_eq!(
        carrier.entries,
        vec![("traceparent".to_string(), "p".to_string()), ("tracestate".to_string(), "s".to_string())]
    );
}

#[test]
fn a_context_clone_is_equal_field_by_field() {
    let context = TraceContext::new(TRACE_ID, SPAN_ID, 1, "foo=bar".to_string());
    let copy = context.clone();
    assert_eq!(copy.trace_id(), TRACE_ID);
    assert_eq!(copy.span_id(), SPAN_ID);
    assert_eq!(copy.trace_flags(), 1);
    assert_eq!(copy.trace_state(), "foo=bar");
}

#[test]
fn inject_writes_every_identifier_in_32_and_16_lower_case_digits() {
    let cases: [(u128, u64, u8, &str); 4] = [
        (1, 1, 0, "00-00000000000000000000000000000001-0000000000000001-00"),
        (u128::MAX, u64::MAX, 1, "00-ffffffffffffffffffffffffffffffff-ffffffffffffffff-01"),
        (0xABCDEF, 0x10, 3, "00-00000000000000000000000000abcdef-0000000000000010-01"),
        (TRACE_ID, SPAN_ID, 0xfe, "00-4bf92f3577b34da6a3ce929d0e0e4736-00f067aa0ba902b7-00"),
    ];
    for (trace_id, span_id, flags, want) in cases {
        let mut carrier = Carrier::new();
        inject(&TraceContext::new(trace_id, span_id, flags, String::new()), &mut carrier);
        assert_eq!(carrier.get("traceparent").map(|v| v.as_str()), Some(want));
        let back = extract(&carrier).expect("a parent");
        assert_eq!(back.trace_id(), trace_id);
        assert_eq!(back.span_id(), span_id);
        assert_eq!(back.trace_flags(), flags & 1);
    }
}

#[test]
fn inject_drops_a_trace_state_that_is_not_well_formed() {
    let mut carrier = Carrier::new();
    inject(&TraceContext::new(1, 2, 1, "no equals sign".to_string()), &mut carrier);
    assert_eq!(carrier.get("tracestate").map(|v| v.as_str()), Some(""));
    assert_eq!(extract(&carrier).expect("a parent").trace_state(), "");
}

#[test]
fn extract_ignores_a_trace_state_that_is_not_well_formed() {
    let carrier = carrier_of(&[("traceparent", PARENT), ("tracestate", "no equals sign")]);
    let parent = extract(&carrier).expect("a parent");
    assert_eq!(parent.trace_id(), TRACE_ID);
    assert_eq!(parent.trace_state(), "");
}
