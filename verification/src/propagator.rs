//! Carrying a trace context across a process boundary in the W3C
//! `traceparent` and `tracestate` headers.
//!
//! The header grammar belongs to the OpenTelemetry SDK. This module decides
//! which headers the SDK gets to see, and what becomes of its answer.

use vstd::prelude::*;
use crate::carrier::{entries_view, lookup, put, Carrier, Entry};
use crate::context::{view_of, TraceContext, TraceContextView, SAMPLED};
use crate::text::text_view;
use opentelemetry::propagation::TextMapPropagator;
use opentelemetry::trace::{SpanContext, SpanId, TraceContextExt, TraceFlags, TraceId, TraceState};
use opentelemetry::Context;
use opentelemetry_sdk::propagation::TraceContextPropagator;
use std::collections::HashMap;
use std::str::FromStr;

verus! {

/// The span context that the SDK's W3C propagator extracts, starting from
/// an empty context, out of a carrier that holds exactly `fields`. Where the
/// propagator finds no usable `traceparent`, both identifiers are zero.
pub uninterp spec fn propagated_context(fields: Seq<Entry>) -> TraceContextView;

/// The values that the SDK's W3C propagator writes under `traceparent` and
/// under `tracestate` for a remote span with this context.
pub uninterp spec fn injected_fields(context: TraceContextView) -> (
    Option<Seq<char>>,
    Option<Seq<char>>,
);

/// The value of a lower-case hexadecimal digit; 16 for every other character.
pub open spec fn hex_digit(c: char) -> nat {
    let code = c as u32;
    if 48 <= code && code <= 57 {
        (code - 48) as nat
    } else if 97 <= code && code <= 102 {
        (code - 87) as nat
    } else {
        16
    }
}

/// Every character is a lower-case hexadecimal digit.
pub open spec fn is_lower_hex(digits: Seq<char>) -> bool {
    forall|i: int| 0 <= i < digits.len() ==> hex_digit(#[trigger] digits[i]) < 16
}

/// The number that hexadecimal digits denote, the first digit weighing most.
pub open spec fn hex_value(digits: Seq<char>) -> nat
    decreases digits.len(),
{
    if digits.len() == 0 {
        0
    } else {
        16 * hex_value(digits.drop_last()) + hex_digit(digits.last())
    }
}

/// Digits of which one is not zero denote a number that is not zero.
pub proof fn lemma_hex_value_nonzero(digits: Seq<char>, i: int)
    requires
        is_lower_hex(digits),
        0 <= i < digits.len(),
        hex_digit(digits[i]) != 0,
    ensures
        hex_value(digits) != 0,
    decreases digits.len(),
{
    if i < digits.len() - 1 {
        lemma_hex_value_nonzero(digits.drop_last(), i);
    }
}

/// A `traceparent` of version 00 in its canonical form: `00`, 32 digits of
/// trace identifier, 16 digits of span identifier and the flags `00` or `01`,
/// joined by hyphens, all digits lower-case, neither identifier zero.
pub open spec fn is_w3c_traceparent(value: Seq<char>) -> bool {
    &&& value.len() == 55
    &&& value[0] == '0' && value[1] == '0' && value[2] == '-'
    &&& is_lower_hex(value.subrange(3, 35)) && hex_value(value.subrange(3, 35)) != 0
    &&& value[35] == '-'
    &&& is_lower_hex(value.subrange(36, 52)) && hex_value(value.subrange(36, 52)) != 0
    &&& value[52] == '-' && value[53] == '0' && (value[54] == '0' || value[54] == '1')
}

/// The trace identifier that a canonical `traceparent` names.
pub open spec fn trace_id_in(value: Seq<char>) -> nat {
    hex_value(value.subrange(3, 35))
}

/// The span identifier that a canonical `traceparent` names.
pub open spec fn span_id_in(value: Seq<char>) -> nat {
    hex_value(value.subrange(36, 52))
}

/// The flags that a canonical `traceparent` names.
pub open spec fn flags_in(value: Seq<char>) -> nat {
    hex_digit(value[54])
}

/// The fields are a `traceparent`, alone or followed by a `tracestate`,
/// under exactly these names.
pub open spec fn is_selection(fields: Seq<Entry>) -> bool {
    ||| fields.len() == 1 && fields[0].0 == "traceparent"@
    ||| fields.len() == 2 && fields[0].0 == "traceparent"@ && fields[1].0 == "tracestate"@
}

/// The fields are such a selection, and the `traceparent` is canonical.
pub open spec fn is_canonical_selection(fields: Seq<Entry>) -> bool {
    is_selection(fields) && is_w3c_traceparent(fields[0].1)
}

/// The context made of these four values.
pub open spec fn context_of(trace_id: u128, span_id: u64, trace_flags: u8, trace_state: Seq<char>) -> TraceContextView {
    TraceContextView { trace_id, span_id, trace_flags, trace_state }
}

/// `parent` is the context that the canonical `traceparent` `value` names.
pub open spec fn names_parent(parent: Option<TraceContextView>, value: Seq<char>) -> bool {
    &&& parent matches Some(p)
    &&& p.trace_id == trace_id_in(value)
    &&& p.span_id == span_id_in(value)
    &&& p.trace_flags == flags_in(value)
}

/// `value` is a canonical `traceparent` that names these identifiers, and
/// of the flags the one that marks a sampled trace.
pub open spec fn names_context(value: Option<Seq<char>>, trace_id: u128, span_id: u64, trace_flags: u8) -> bool {
    &&& value matches Some(v)
    &&& is_w3c_traceparent(v)
    &&& trace_id_in(v) == trace_id
    &&& span_id_in(v) == span_id
    &&& flags_in(v) == trace_flags & SAMPLED
}

/// What the propagator is shown of a message's headers: the first
/// `traceparent` and the first `tracestate`, under their lower-case names.
/// Without a `traceparent` it is shown nothing.
pub open spec fn propagation_fields(entries: Seq<Entry>) -> Seq<Entry> {
    match lookup(entries, "traceparent"@) {
        None => Seq::empty(),
        Some(parent) => match lookup(entries, "tracestate"@) {
            None => seq![("traceparent"@, parent)],
            Some(state) => seq![("traceparent"@, parent), ("tracestate"@, state)],
        },
    }
}

/// A propagated context names a parent only if it is valid.
pub open spec fn parent_of(raw: TraceContextView) -> Option<TraceContextView> {
    if raw.is_valid() {
        Some(raw)
    } else {
        None
    }
}

/// The parent that a message's headers name, if any.
pub open spec fn extracted(entries: Seq<Entry>) -> Option<TraceContextView> {
    if lookup(entries, "traceparent"@) is None {
        None
    } else {
        parent_of(propagated_context(propagation_fields(entries)))
    }
}

/// `entries` after the two propagation headers were written into it, each
/// only where there is a value for it.
pub open spec fn written(entries: Seq<Entry>, fields: (Option<Seq<char>>, Option<Seq<char>>)) -> Seq<
    Entry,
> {
    let with_parent = match fields.0 {
        Some(parent) => put(entries, "traceparent"@, parent),
        None => entries,
    };
    match fields.1 {
        Some(state) => put(with_parent, "tracestate"@, state),
        None => with_parent,
    }
}

/// Calls `TraceContextPropagator::extract_with_context` of opentelemetry_sdk
/// on an empty `Context` and a `HashMap` made of `fields`, and returns the
/// span context of the result: trace identifier, span identifier, flags, and
/// the trace state as its header text. Trusted: the result is the
/// propagator's, and depends on the fields alone; and from a canonical
/// `traceparent` of version 00 the propagator reads the identifiers and the
/// flag that the digits denote.
#[verifier::external_body]
fn propagator_extract(fields: &Vec<(String, String)>) -> (r: (u128, u64, u8, String))
    ensures
        context_of(r.0, r.1, r.2, r.3@) == propagated_context(entries_view(fields@)),
        is_canonical_selection(entries_view(fields@)) ==> names_parent(
            Some(context_of(r.0, r.1, r.2, r.3@)),
            fields@[0].1@,
        ),
{
    let carrier: HashMap<String, String> = fields.iter().cloned().collect();
    let cx = TraceContextPropagator::new().extract_with_context(&Context::new(), &carrier);
    let span = cx.span();
    let found = span.span_context();
    (
        u128::from_be_bytes(found.trace_id().to_bytes()),
        u64::from_be_bytes(found.span_id().to_bytes()),
        found.trace_flags().to_u8(),
        found.trace_state().header(),
    )
}

/// Calls `TraceContextPropagator::inject_context` of opentelemetry_sdk on a
/// `Context` that holds a remote span context made of the four arguments,
/// and returns what it wrote under `traceparent` and under `tracestate`. A
/// trace state that the SDK does not accept counts as the empty one.
/// Trusted: the result is the propagator's; it writes both headers where
/// neither identifier is zero, and neither header otherwise; and the
/// `traceparent` that it writes is canonical and names the two identifiers
/// and the sampled flag.
#[verifier::external_body]
fn propagator_inject(trace_id: u128, span_id: u64, flags: u8, state: &str) -> (r: (Option<String>, Option<String>))
    ensures
        injected_fields(context_of(trace_id, span_id, flags, state@)) == (text_view(r.0), text_view(r.1)),
        (r.0 is Some) == (trace_id != 0 && span_id != 0),
        (r.1 is Some) == (trace_id != 0 && span_id != 0),
        r.0 is Some ==> names_context(text_view(r.0), trace_id, span_id, flags),
{
    let state = TraceState::from_str(state).unwrap_or_default();
    let remote = SpanContext::new(
        TraceId::from(trace_id),
        SpanId::from(span_id),
        TraceFlags::new(flags),
        true,
        state,
    );
    let mut out: HashMap<String, String> = HashMap::new();
    TraceContextPropagator::new().inject_context(&Context::new().with_remote_span_context(remote), &mut out);
    (out.remove("traceparent"), out.remove("tracestate"))
}

/// Turns the propagator's answer into a parent: a context with a zero
/// identifier names none.
pub fn parent_from(raw: TraceContext) -> (r: Option<TraceContext>)
    ensures
        view_of(r) == parent_of(raw@),
{
    if raw.is_valid() {
        Some(raw)
    } else {
        None
    }
}

/// Collects from `carrier` what the propagator is to see.
pub fn select_fields(carrier: &Carrier) -> (r: Carrier)
    ensures
        r@ == propagation_fields(carrier@),
{
    let mut fields = Carrier::new();
    match carrier.get("traceparent") {
        None => {},
        Some(parent) => {
            fields.push("traceparent".to_owned(), parent.clone());
            match carrier.get("tracestate") {
                None => {},
                Some(state) => {
                    fields.push("tracestate".to_owned(), state.clone());
                },
            }
        },
    }
    assert(fields@ =~= propagation_fields(carrier@));
    fields
}

/// Reads the parent trace context out of a message's headers. Headers
/// without a `traceparent` name no parent, and neither does a `traceparent`
/// that the propagator cannot make a valid context of: extraction never fails.
pub fn extract(carrier: &Carrier) -> (r: Option<TraceContext>)
    ensures
        view_of(r) == extracted(carrier@),
        lookup(carrier@, "traceparent"@) is None ==> r is None,
        r matches Some(parent) ==> parent@.is_valid(),
        lookup(carrier@, "traceparent"@) matches Some(value) ==> (is_w3c_traceparent(value) ==> names_parent(
            view_of(r),
            value,
        )),
{
    let fields = select_fields(carrier);
    if fields.len() == 0 {
        return None;
    }
    let found = propagator_extract(&fields.entries);
    parent_from(TraceContext::new(found.0, found.1, found.2, found.3))
}

/// Writes the two propagation headers into `carrier`, each only where
/// there is a value for it, replacing what `extract` would have read.
pub fn write_fields(carrier: &mut Carrier, parent: Option<String>, state: Option<String>)
    ensures
        final(carrier)@ == written(old(carrier)@, (text_view(parent), text_view(state))),
{
    match parent {
        Some(value) => {
            carrier.set("traceparent", value);
        },
        None => {},
    }
    match state {
        Some(value) => {
            carrier.set("tracestate", value);
        },
        None => {},
    }
}

/// Writes `context` into `carrier` for the next process to extract. An
/// invalid context is not propagated: the carrier stays as it was.
pub fn inject(context: &TraceContext, carrier: &mut Carrier)
    ensures
        final(carrier)@ == written(old(carrier)@, injected_fields(context@)),
        !context@.is_valid() ==> final(carrier)@ == old(carrier)@,
        context@.is_valid() ==> lookup(final(carrier)@, "traceparent"@) is Some && lookup(
            final(carrier)@,
            "traceparent"@,
        ) == injected_fields(context@).0,
        context@.is_valid() ==> lookup(final(carrier)@, "tracestate"@) is Some && lookup(
            final(carrier)@,
            "tracestate"@,
        ) == injected_fields(context@).1,
        context@.is_valid() ==> names_context(
            lookup(final(carrier)@, "traceparent"@),
            context@.trace_id,
            context@.span_id,
            context@.trace_flags,
        ),
{
    let fields = propagator_inject(
        context.trace_id(),
        context.span_id(),
        context.trace_flags(),
        context.trace_state().as_str(),
    );
    let ghost parent = text_view(fields.0);
    let ghost state = text_view(fields.1);
    write_fields(carrier, fields.0, fields.1);
    proof {
        if context@.is_valid() {
            lemma_written_keeps_parent(old(carrier)@, parent->0, state->0);
        }
    }
}

/// Writing both headers leaves the written `traceparent` as the one read.
pub proof fn lemma_written_keeps_parent(entries: Seq<Entry>, parent: Seq<char>, state: Seq<char>)
    ensures
        lookup(written(entries, (Some(parent), Some(state))), "traceparent"@) == Some(parent),
        lookup(written(entries, (Some(parent), Some(state))), "tracestate"@) == Some(state),
{
    reveal_strlit("traceparent");
    reveal_strlit("tracestate");
    let with_parent = put(entries, "traceparent"@, parent);
    crate::carrier::lemma_lookup_after_put(entries, "traceparent"@, parent);
    crate::carrier::lemma_lookup_after_put(with_parent, "tracestate"@, state);
    crate::carrier::lemma_put_keeps_other(with_parent, "tracestate"@, state, "traceparent"@);
}

/// Symmetry of the propagator. Where `inject` wrote a context into a
/// carrier and `extract` then read the carrier, the parent that was read has
/// the identifiers that were written, and of the flags the sampled one.
/// The two premises are what the two functions ensure of the `traceparent`
/// `value` that lies between them.
pub proof fn lemma_extract_after_inject(context: TraceContextView, value: Seq<char>, back: Option<TraceContextView>)
    requires
        names_context(Some(value), context.trace_id, context.span_id, context.trace_flags),
        is_w3c_traceparent(value) ==> names_parent(back, value),
    ensures
        back matches Some(p) && p.trace_id == context.trace_id && p.span_id == context.span_id && p.trace_flags
            == context.trace_flags & SAMPLED,
{
}

} // verus!
