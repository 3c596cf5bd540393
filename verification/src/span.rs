//! A span: the timed record of one request, with its fields and its place
//! in a trace.
//!
//! A span is open from its creation, takes fields while it is open, is closed
//! exactly once, and is then settled by whoever exports it. Nothing changes a
//! span after it was closed except that settling.

use vstd::prelude::*;
use crate::context::{view_of, TraceContext, TraceContextView, SAMPLED};
use crate::search::{first_index, is_first, lemma_first_index_found, lemma_first_index_is_first, lemma_first_index_none};
use crate::text::{eq_text, text_view};

verus! {

/// Where a span stands in its life.
#[derive(Clone, Copy, PartialEq, Eq, Structural, Debug)]
pub enum Phase {
    /// Created, with the fields known at creation.
    Open,
    /// At least one field was recorded after creation.
    Enriched,
    /// The end time is set; no field is taken any more.
    Closed,
    /// Handed to the exporter, which took it.
    Exported,
    /// Handed to the exporter, which refused it.
    Dropped,
}

/// How the work that a span stands for ended.
#[derive(Clone, Copy, PartialEq, Eq, Structural, Debug)]
pub enum Status {
    /// The span is still open.
    Unset,
    /// The handler ran to its end.
    Completed,
    /// The request was given up before the handler ended.
    Cancelled,
}

/// The value of a field.
#[derive(Debug)]
pub enum FieldValue {
    /// The key is declared and waits for its value.
    Empty,
    /// Recorded: the request had no such part.
    Absent,
    /// Recorded: this text.
    Text(String),
}

/// A field value as a mathematical value.
pub enum FieldValueView {
    Empty,
    Absent,
    Text(Seq<char>),
}

impl View for FieldValue {
    type V = FieldValueView;

    open spec fn view(&self) -> FieldValueView {
        match self {
            FieldValue::Empty => FieldValueView::Empty,
            FieldValue::Absent => FieldValueView::Absent,
            FieldValue::Text(t) => FieldValueView::Text(t@),
        }
    }
}

impl Clone for FieldValue {
    fn clone(&self) -> (r: Self)
        ensures
            r == *self,
    {
        match self {
            FieldValue::Empty => FieldValue::Empty,
            FieldValue::Absent => FieldValue::Absent,
            FieldValue::Text(t) => FieldValue::Text(t.clone()),
        }
    }
}

impl FieldValue {
    /// The value for a part of a request that may be missing.
    pub fn of(part: &Option<String>) -> (r: FieldValue)
        ensures
            r@ == optional_text(text_view(*part)),
    {
        match part {
            Some(t) => FieldValue::Text(t.clone()),
            None => FieldValue::Absent,
        }
    }

    pub fn is_empty(&self) -> (r: bool)
        ensures
            r == (self@ is Empty),
    {
        match self {
            FieldValue::Empty => true,
            _ => false,
        }
    }

    /// The text that a sink prints for this value: nothing for a key that
    /// waits for its value, the word `None` for a missing part.
    pub fn shown_text(&self) -> (r: Option<String>)
        ensures
            text_view(r) == shown_text_of(self@),
    {
        match self {
            FieldValue::Empty => None,
            FieldValue::Absent => Some("None".to_owned()),
            FieldValue::Text(t) => Some(t.clone()),
        }
    }
}

/// The text that a sink prints for a value.
pub open spec fn shown_text_of(value: FieldValueView) -> Option<Seq<char>> {
    match value {
        FieldValueView::Empty => None,
        FieldValueView::Absent => Some("None"@),
        FieldValueView::Text(t) => Some(t),
    }
}

/// The value that stands for an optional text.
pub open spec fn optional_text(part: Option<Seq<char>>) -> FieldValueView {
    match part {
        Some(t) => FieldValueView::Text(t),
        None => FieldValueView::Absent,
    }
}

/// A key with its value.
#[derive(Debug)]
pub struct Field {
    pub key: String,
    pub value: FieldValue,
}

/// A field as a mathematical value: its key, then its value.
pub type FieldView = (Seq<char>, FieldValueView);

impl View for Field {
    type V = FieldView;

    open spec fn view(&self) -> FieldView {
        (self.key@, self.value@)
    }
}

impl Clone for Field {
    fn clone(&self) -> (r: Self)
        ensures
            r == *self,
    {
        Field { key: self.key.clone(), value: self.value.clone() }
    }
}

/// The fields of a list, each as a mathematical value.
pub open spec fn fields_view(fields: Seq<Field>) -> Seq<FieldView> {
    Seq::new(fields.len(), |i: int| fields[i]@)
}

/// For each field, whether its key is `key`.
pub open spec fn key_hits(fields: Seq<FieldView>, key: Seq<char>) -> Seq<bool> {
    Seq::new(fields.len(), |i: int| fields[i].0 == key)
}

/// The value under `key`.
pub open spec fn field_value(fields: Seq<FieldView>, key: Seq<char>) -> Option<FieldValueView> {
    match first_index(key_hits(fields, key)) {
        Some(i) => Some(fields[i].1),
        None => None,
    }
}

/// `fields` with `value` under `key`: in the place where the key stands,
/// or at the end where it is new.
pub open spec fn put_field(fields: Seq<FieldView>, key: Seq<char>, value: FieldValueView) -> Seq<
    FieldView,
> {
    match first_index(key_hits(fields, key)) {
        Some(i) => fields.update(i, (key, value)),
        None => fields.push((key, value)),
    }
}

/// No key stands twice.
pub open spec fn distinct_keys(fields: Seq<FieldView>) -> bool {
    forall|i: int, j: int| 0 <= i < j < fields.len() ==> (#[trigger] fields[i]).0 != (#[trigger] fields[j]).0
}

/// The context of a new span under `parent`: the parent's trace and trace
/// state, or the trace `trace_id` where there is no parent. Every span is
/// recorded and exported, so every span is marked as sampled.
pub open spec fn child_context(parent: Option<TraceContextView>, trace_id: u128, span_id: u64) -> TraceContextView {
    match parent {
        Some(p) => TraceContextView {
            trace_id: p.trace_id,
            span_id,
            trace_flags: SAMPLED,
            trace_state: p.trace_state,
        },
        None => TraceContextView { trace_id, span_id, trace_flags: SAMPLED, trace_state: Seq::empty() },
    }
}

/// A parent counts only if it is a valid context.
pub open spec fn usable_parent(parent: Option<TraceContextView>) -> Option<TraceContextView> {
    match parent {
        Some(p) => if p.is_valid() {
            Some(p)
        } else {
            None
        },
        None => None,
    }
}

/// A span as a mathematical value.
pub struct SpanView {
    pub name: Seq<char>,
    pub context: TraceContextView,
    pub parent: Option<TraceContextView>,
    pub fields: Seq<FieldView>,
    pub start_time: u64,
    pub end_time: Option<u64>,
    pub status: Status,
    pub phase: Phase,
}

impl SpanView {
    /// The span still takes fields.
    pub open spec fn is_live(self) -> bool {
        self.phase == Phase::Open || self.phase == Phase::Enriched
    }

    /// What holds of every span that this module hands out.
    pub open spec fn wf(self) -> bool {
        &&& distinct_keys(self.fields)
        &&& (self.end_time is None <==> self.is_live())
        &&& (self.status == Status::Unset <==> self.is_live())
        &&& (self.parent matches Some(p) ==> p.is_valid() && self.context.trace_id == p.trace_id)
    }

    /// A new span without fields.
    pub open spec fn opened(
        name: Seq<char>,
        parent: Option<TraceContextView>,
        trace_id: u128,
        span_id: u64,
        start_time: u64,
    ) -> SpanView {
        SpanView {
            name,
            context: child_context(usable_parent(parent), trace_id, span_id),
            parent: usable_parent(parent),
            fields: Seq::empty(),
            start_time,
            end_time: None,
            status: Status::Unset,
            phase: Phase::Open,
        }
    }

    /// A field set at creation: it is taken only while nothing has been
    /// recorded yet.
    pub open spec fn declared(self, key: Seq<char>, value: FieldValueView) -> SpanView {
        if self.phase == Phase::Open {
            SpanView { fields: put_field(self.fields, key, value), ..self }
        } else {
            self
        }
    }

    /// A field recorded while the request is handled. A span that is no
    /// longer live stays as it is.
    pub open spec fn recorded(self, key: Seq<char>, value: FieldValueView) -> SpanView {
        if self.is_live() {
            SpanView { fields: put_field(self.fields, key, value), phase: Phase::Enriched, ..self }
        } else {
            self
        }
    }

    /// The span after it ended at `now` with `status`. Only a live span
    /// ends: the end time is set once.
    pub open spec fn ended(self, now: u64, status: Status) -> SpanView {
        if self.is_live() {
            SpanView { end_time: Some(now), status, phase: Phase::Closed, ..self }
        } else {
            self
        }
    }

    /// The span after the exporter took it or refused it. Only a closed
    /// span is settled, and only once.
    pub open spec fn settled(self, delivered: bool) -> SpanView {
        if self.phase == Phase::Closed {
            SpanView {
                phase: if delivered {
                    Phase::Exported
                } else {
                    Phase::Dropped
                },
                ..self
            }
        } else {
            self
        }
    }
}

/// One request's span.
#[derive(Debug)]
pub struct Span {
    name: String,
    context: TraceContext,
    parent: Option<TraceContext>,
    fields: Vec<Field>,
    start_time: u64,
    end_time: Option<u64>,
    status: Status,
    phase: Phase,
}

impl View for Span {
    type V = SpanView;

    closed spec fn view(&self) -> SpanView {
        SpanView {
            name: self.name@,
            context: self.context@,
            parent: view_of(self.parent),
            fields: fields_view(self.fields@),
            start_time: self.start_time,
            end_time: self.end_time,
            status: self.status,
            phase: self.phase,
        }
    }
}

impl Span {
    /// Opens a span named `name` at `start_time`. With a valid `parent` it
    /// joins the parent's trace; otherwise it starts the trace `trace_id`.
    pub fn open(name: String, parent: Option<TraceContext>, trace_id: u128, span_id: u64, start_time: u64) -> (r: Span)
        ensures
            r@ == SpanView::opened(name@, view_of(parent), trace_id, span_id, start_time),
            r@.wf(),
    {
        let parent: Option<TraceContext> = match parent {
            Some(p) => if p.is_valid() {
                Some(p)
            } else {
                None
            },
            None => None,
        };
        let context = match &parent {
            Some(p) => TraceContext::new(p.trace_id(), span_id, SAMPLED, p.trace_state().clone()),
            None => TraceContext::new(trace_id, span_id, SAMPLED, String::new()),
        };
        let r = Span {
            name,
            context,
            parent,
            fields: Vec::new(),
            start_time,
            end_time: None,
            status: Status::Unset,
            phase: Phase::Open,
        };
        assert(r@.fields =~= Seq::empty());
        r
    }

    pub fn name(&self) -> (r: &String)
        ensures
            r@ == self@.name,
    {
        &self.name
    }

    pub fn context(&self) -> (r: &TraceContext)
        ensures
            r@ == self@.context,
    {
        &self.context
    }

    pub fn parent(&self) -> (r: &Option<TraceContext>)
        ensures
            view_of(*r) == self@.parent,
    {
        &self.parent
    }

    pub fn fields(&self) -> (r: &Vec<Field>)
        ensures
            fields_view(r@) == self@.fields,
    {
        &self.fields
    }

    pub fn start_time(&self) -> (r: u64)
        ensures
            r == self@.start_time,
    {
        self.start_time
    }

    pub fn end_time(&self) -> (r: Option<u64>)
        ensures
            r == self@.end_time,
    {
        self.end_time
    }

    pub fn status(&self) -> (r: Status)
        ensures
            r == self@.status,
    {
        self.status
    }

    pub fn phase(&self) -> (r: Phase)
        ensures
            r == self@.phase,
    {
        self.phase
    }

    pub fn is_live(&self) -> (r: bool)
        ensures
            r == self@.is_live(),
    {
        self.phase == Phase::Open || self.phase == Phase::Enriched
    }

    /// The index of the field under `key`.
    fn position(&self, key: &str) -> (r: Option<usize>)
        ensures
            match r {
                Some(i) => i < self.fields.len() && first_index(key_hits(self@.fields, key@)) == Some(i as int),
                None => first_index(key_hits(self@.fields, key@)) is None,
            },
    {
        let ghost hits = key_hits(self@.fields, key@);
        let mut i: usize = 0;
        while i < self.fields.len()
            invariant
                i <= self.fields.len(),
                hits == key_hits(self@.fields, key@),
                forall|j: int| 0 <= j < i ==> !hits[j],
            decreases self.fields.len() - i,
        {
            if eq_text(self.fields[i].key.as_str(), key) {
                proof {
                    assert(hits[i as int]);
                    lemma_first_index_found(hits, i as int);
                }
                return Some(i);
            }
            i += 1;
        }
        proof {
            lemma_first_index_none(hits);
        }
        None
    }

    /// The value under `key`, if the key stands in the span.
    pub fn get(&self, key: &str) -> (r: Option<&FieldValue>)
        ensures
            match r {
                Some(v) => field_value(self@.fields, key@) == Some(v@),
                None => field_value(self@.fields, key@) is None,
            },
    {
        match self.position(key) {
            Some(i) => Some(&self.fields[i].value),
            None => None,
        }
    }

    fn store(&mut self, key: &str, value: FieldValue)
        ensures
            final(self)@ == (SpanView { fields: put_field(old(self)@.fields, key@, value@), ..old(self)@ }),
    {
        match self.position(key) {
            Some(i) => {
                self.fields.set(i, Field { key: key.to_owned(), value });
            },
            None => {
                self.fields.push(Field { key: key.to_owned(), value });
            },
        }
        assert(self@.fields =~= put_field(old(self)@.fields, key@, value@));
    }

    /// Sets a field that is known when the span is created. Once something
    /// was recorded, or the span was closed, this changes nothing.
    pub fn declare(&mut self, key: &str, value: FieldValue)
        ensures
            final(self)@ == old(self)@.declared(key@, value@),
            old(self)@.wf() ==> final(self)@.wf(),
    {
        if self.phase == Phase::Open {
            self.store(key, value);
        }
        proof {
            if old(self)@.wf() {
                lemma_put_field_keeps_distinct(old(self)@.fields, key@, value@);
            }
        }
    }

    /// Records a field while the request is handled. After the span was
    /// closed this changes nothing.
    pub fn record(&mut self, key: &str, value: FieldValue)
        ensures
            final(self)@ == old(self)@.recorded(key@, value@),
            old(self)@.wf() ==> final(self)@.wf(),
    {
        if self.is_live() {
            self.store(key, value);
            self.phase = Phase::Enriched;
        }
        proof {
            if old(self)@.wf() {
                lemma_put_field_keeps_distinct(old(self)@.fields, key@, value@);
            }
        }
    }

    /// Closes the span at `now`: the handler ran to its end. A span is
    /// closed once; closing it again changes nothing.
    pub fn close(&mut self, now: u64)
        ensures
            final(self)@ == old(self)@.ended(now, Status::Completed),
            old(self)@.wf() ==> final(self)@.wf(),
    {
        if self.is_live() {
            self.end_time = Some(now);
            self.status = Status::Completed;
            self.phase = Phase::Closed;
        }
    }

    /// Closes the span at `now` for a request that was given up: the span
    /// keeps the fields recorded so far and is marked as cancelled.
    pub fn cancel(&mut self, now: u64)
        ensures
            final(self)@ == old(self)@.ended(now, Status::Cancelled),
            old(self)@.wf() ==> final(self)@.wf(),
    {
        if self.is_live() {
            self.end_time = Some(now);
            self.status = Status::Cancelled;
            self.phase = Phase::Closed;
        }
    }

    /// Notes what the exporter did with the closed span.
    pub fn settle(&mut self, delivered: bool)
        ensures
            final(self)@ == old(self)@.settled(delivered),
            old(self)@.wf() ==> final(self)@.wf(),
    {
        if self.phase == Phase::Closed {
            self.phase = if delivered {
                Phase::Exported
            } else {
                Phase::Dropped
            };
        }
    }
}

/// After a value was put under a key, it is the value under that key.
pub proof fn lemma_field_value_after_put(fields: Seq<FieldView>, key: Seq<char>, value: FieldValueView)
    ensures
        field_value(put_field(fields, key, value), key) == Some(value),
{
    let hits = key_hits(fields, key);
    let after = put_field(fields, key, value);
    let hits_after = key_hits(after, key);
    lemma_first_index_is_first(hits);
    match first_index(hits) {
        Some(i) => {
            assert(hits[i]);
            assert forall|j: int| 0 <= j < i implies !hits_after[j] by {
                assert(!hits[j]);
            }
            assert(is_first(hits_after, i));
            lemma_first_index_found(hits_after, i);
        },
        None => {
            let n = fields.len() as int;
            assert forall|j: int| 0 <= j < n implies !hits_after[j] by {
                assert(!hits[j]);
            }
            assert(is_first(hits_after, n));
            lemma_first_index_found(hits_after, n);
        },
    }
}

/// Putting a value under one key leaves the value under every other key.
pub proof fn lemma_put_field_keeps_other(
    fields: Seq<FieldView>,
    key: Seq<char>,
    value: FieldValueView,
    other: Seq<char>,
)
    requires
        key != other,
    ensures
        field_value(put_field(fields, key, value), other) == field_value(fields, other),
{
    let after = put_field(fields, key, value);
    let hits = key_hits(fields, other);
    let hits_after = key_hits(after, other);
    lemma_first_index_is_first(key_hits(fields, key));
    lemma_first_index_is_first(hits);
    match first_index(key_hits(fields, key)) {
        Some(k) => {
            assert(key_hits(fields, key)[k]);
            assert(hits_after =~= hits);
        },
        None => {
            let n = fields.len() as int;
            match first_index(hits) {
                Some(i) => {
                    assert forall|j: int| 0 <= j < i implies !hits_after[j] by {
                        assert(!hits[j]);
                    }
                    assert(hits[i]);
                    assert(is_first(hits_after, i));
                    lemma_first_index_found(hits_after, i);
                },
                None => {
                    assert forall|j: int| 0 <= j < hits_after.len() implies !hits_after[j] by {
                        if j < n {
                            assert(!hits[j]);
                        }
                    }
                    lemma_first_index_none(hits_after);
                },
            }
        },
    }
}

/// Putting a value keeps the keys distinct.
pub proof fn lemma_put_field_keeps_distinct(fields: Seq<FieldView>, key: Seq<char>, value: FieldValueView)
    requires
        distinct_keys(fields),
    ensures
        distinct_keys(put_field(fields, key, value)),
{
    let hits = key_hits(fields, key);
    let after = put_field(fields, key, value);
    lemma_first_index_is_first(hits);
    match first_index(hits) {
        Some(k) => {
            assert(hits[k]);
            assert forall|i: int, j: int| 0 <= i < j < after.len() implies (#[trigger] after[i]).0 != (
            #[trigger] after[j]).0 by {
                assert(after[i].0 == fields[i].0);
                assert(after[j].0 == fields[j].0);
            }
        },
        None => {
            let n = fields.len() as int;
            assert forall|i: int, j: int| 0 <= i < j < after.len() implies (#[trigger] after[i]).0 != (
            #[trigger] after[j]).0 by {
                if j == n {
                    assert(!hits[i]);
                } else {
                    assert(after[i] == fields[i]);
                    assert(after[j] == fields[j]);
                }
            }
        },
    }
}

} // verus!
