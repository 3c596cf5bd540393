//! A sink: one consumer of closed spans. The exporter is a sink, and so is
//! the human-readable log. Each sink keeps its own list of keys that it does
//! not show, so what is logged and what is exported may differ for one span.

use vstd::prelude::*;
use crate::context::{view_of, TraceContext, TraceContextView};
use crate::error::TelemetryError;
use crate::span::{fields_view, Field, FieldView, Phase, Span, SpanView, Status};
use crate::text::eq_text;

verus! {

/// A list of texts, each as a mathematical value.
pub open spec fn texts_view(texts: Seq<String>) -> Seq<Seq<char>> {
    Seq::new(texts.len(), |i: int| texts[i]@)
}

/// A sink shows a field if the field has a value and its key is not denied.
pub open spec fn shown(field: FieldView, deny: Seq<Seq<char>>) -> bool {
    !(field.1 is Empty) && !deny.contains(field.0)
}

pub open spec fn shown_by(deny: Seq<Seq<char>>) -> spec_fn(FieldView) -> bool {
    |field: FieldView| shown(field, deny)
}

/// The fields that a sink with this deny list shows, in the span's order.
pub open spec fn visible(fields: Seq<FieldView>, deny: Seq<Seq<char>>) -> Seq<FieldView> {
    fields.filter(shown_by(deny))
}

/// What a sink keeps of a span.
#[derive(Debug)]
pub struct SpanRecord {
    pub name: String,
    pub context: TraceContext,
    pub parent: Option<TraceContext>,
    pub start_time: u64,
    pub end_time: u64,
    pub status: Status,
    pub fields: Vec<Field>,
}

/// A record as a mathematical value.
pub struct SpanRecordView {
    pub name: Seq<char>,
    pub context: TraceContextView,
    pub parent: Option<TraceContextView>,
    pub start_time: u64,
    pub end_time: u64,
    pub status: Status,
    pub fields: Seq<FieldView>,
}

impl View for SpanRecord {
    type V = SpanRecordView;

    open spec fn view(&self) -> SpanRecordView {
        SpanRecordView {
            name: self.name@,
            context: self.context@,
            parent: view_of(self.parent),
            start_time: self.start_time,
            end_time: self.end_time,
            status: self.status,
            fields: fields_view(self.fields@),
        }
    }
}

/// The records of a list, each as a mathematical value.
pub open spec fn records_view(records: Seq<SpanRecord>) -> Seq<SpanRecordView> {
    Seq::new(records.len(), |i: int| records[i]@)
}

/// The end time of a span; a span that has none counts as ended when it began.
pub open spec fn end_of(span: SpanView) -> u64 {
    match span.end_time {
        Some(t) => t,
        None => span.start_time,
    }
}

/// What a sink with this deny list keeps of `span`.
pub open spec fn record_of(span: SpanView, deny: Seq<Seq<char>>) -> SpanRecordView {
    SpanRecordView {
        name: span.name,
        context: span.context,
        parent: span.parent,
        start_time: span.start_time,
        end_time: end_of(span),
        status: span.status,
        fields: visible(span.fields, deny),
    }
}

/// A sink as a mathematical value.
pub struct SinkView {
    /// The keys that this sink does not show.
    pub deny: Seq<Seq<char>>,
    /// Whether the sink still takes spans.
    pub open: bool,
    /// What was written, oldest first.
    pub records: Seq<SpanRecordView>,
    /// How many spans came after the shutdown; the count stops at `u64::MAX`.
    pub dropped: u64,
}

impl SinkView {
    /// A new sink: open, with nothing written.
    pub open spec fn fresh(deny: Seq<Seq<char>>) -> SinkView {
        SinkView { deny, open: true, records: Seq::empty(), dropped: 0 }
    }

    /// Whether the sink takes `span`, and if not, why.
    pub open spec fn verdict(self, span: SpanView) -> Result<(), TelemetryError> {
        if !self.open {
            Err(TelemetryError::ExporterClosed)
        } else if span.phase != Phase::Closed {
            Err(TelemetryError::SpanNotClosed)
        } else {
            Ok(())
        }
    }

    /// The sink after `span` was offered to it: a span that is taken is
    /// written at once, after all earlier ones; a span that comes after the
    /// shutdown is counted and lost; a span that is not closed leaves no mark.
    pub open spec fn offered(self, span: SpanView) -> SinkView {
        match self.verdict(span) {
            Ok(_) => SinkView { records: self.records.push(record_of(span, self.deny)), ..self },
            Err(TelemetryError::ExporterClosed) => SinkView {
                dropped: if self.dropped < u64::MAX {
                    (self.dropped + 1) as u64
                } else {
                    self.dropped
                },
                ..self
            },
            Err(_) => self,
        }
    }

    /// The sink after its shutdown: what was written stays, nothing more is taken.
    pub open spec fn shut(self) -> SinkView {
        SinkView { open: false, ..self }
    }
}

/// A consumer of closed spans.
#[derive(Debug)]
pub struct Sink {
    deny: Vec<String>,
    open: bool,
    records: Vec<SpanRecord>,
    dropped: u64,
}

impl View for Sink {
    type V = SinkView;

    closed spec fn view(&self) -> SinkView {
        SinkView {
            deny: texts_view(self.deny@),
            open: self.open,
            records: records_view(self.records@),
            dropped: self.dropped,
        }
    }
}

/// Whether `key` stands in `deny`.
fn denies(deny: &Vec<String>, key: &str) -> (r: bool)
    ensures
        r == texts_view(deny@).contains(key@),
{
    let ghost texts = texts_view(deny@);
    let mut i: usize = 0;
    while i < deny.len()
        invariant
            i <= deny.len(),
            texts == texts_view(deny@),
            forall|j: int| 0 <= j < i ==> texts[j] != key@,
        decreases deny.len() - i,
    {
        if eq_text(deny[i].as_str(), key) {
            assert(texts[i as int] == key@);
            return true;
        }
        i += 1;
    }
    false
}

/// Copies the fields that a sink with the deny list `deny` shows.
fn visible_fields(fields: &Vec<Field>, deny: &Vec<String>) -> (r: Vec<Field>)
    ensures
        fields_view(r@) == visible(fields_view(fields@), texts_view(deny@)),
{
    let ghost all = fields_view(fields@);
    let ghost pred = shown_by(texts_view(deny@));
    let mut out: Vec<Field> = Vec::new();
    let mut i: usize = 0;
    proof {
        reveal(Seq::filter);
        assert(all.take(0) =~= Seq::<FieldView>::empty());
        assert(fields_view(out@) =~= all.take(0).filter(pred));
    }
    while i < fields.len()
        invariant
            i <= fields.len(),
            all == fields_view(fields@),
            pred == shown_by(texts_view(deny@)),
            fields_view(out@) == all.take(i as int).filter(pred),
        decreases fields.len() - i,
    {
        let field = &fields[i];
        let keep = !field.value.is_empty() && !denies(deny, field.key.as_str());
        proof {
            reveal(Seq::filter);
            let next = all.take(i + 1);
            assert(next.drop_last() =~= all.take(i as int));
            assert(next.last() == all[i as int]);
            assert(keep == pred(all[i as int]));
        }
        if keep {
            let ghost before = fields_view(out@);
            out.push(field.clone());
            assert(fields_view(out@) =~= before.push(all[i as int]));
        }
        i += 1;
    }
    proof {
        assert(all.take(fields.len() as int) =~= all);
    }
    out
}

impl Sink {
    /// A new sink that shows every field but those under the keys in `deny`.
    pub fn new(deny: Vec<String>) -> (r: Sink)
        ensures
            r@ == SinkView::fresh(texts_view(deny@)),
    {
        let r = Sink { deny, open: true, records: Vec::new(), dropped: 0 };
        assert(r@.records =~= Seq::empty());
        r
    }

    pub fn is_open(&self) -> (r: bool)
        ensures
            r == self@.open,
    {
        self.open
    }

    pub fn dropped(&self) -> (r: u64)
        ensures
            r == self@.dropped,
    {
        self.dropped
    }

    pub fn deny(&self) -> (r: &Vec<String>)
        ensures
            texts_view(r@) == self@.deny,
    {
        &self.deny
    }

    /// Whether this sink hides every field under `key`.
    pub fn denies(&self, key: &str) -> (r: bool)
        ensures
            r == self@.deny.contains(key@),
    {
        denies(&self.deny, key)
    }

    /// What was written so far, oldest first.
    pub fn records(&self) -> (r: &Vec<SpanRecord>)
        ensures
            records_view(r@) == self@.records,
    {
        &self.records
    }

    /// Offers a span to the sink. A closed span is written at once; after
    /// the shutdown every span is refused with `ExporterClosed`.
    pub fn export(&mut self, span: &Span) -> (r: Result<(), TelemetryError>)
        ensures
            r == old(self)@.verdict(span@),
            final(self)@ == old(self)@.offered(span@),
    {
        if !self.open {
            if self.dropped < u64::MAX {
                self.dropped = self.dropped + 1;
            }
            return Err(TelemetryError::ExporterClosed);
        }
        if span.phase() != Phase::Closed {
            return Err(TelemetryError::SpanNotClosed);
        }
        let end_time: u64 = match span.end_time() {
            Some(t) => t,
            None => span.start_time(),
        };
        let record = SpanRecord {
            name: span.name().clone(),
            context: span.context().clone(),
            parent: span.parent().clone(),
            start_time: span.start_time(),
            end_time,
            status: span.status(),
            fields: visible_fields(span.fields(), &self.deny),
        };
        assert(record@ == record_of(span@, self@.deny));
        self.records.push(record);
        assert(self@.records =~= old(self)@.records.push(record_of(span@, old(self)@.deny)));
        Ok(())
    }

    /// Shuts the sink down. Every span that was taken is written, and stays
    /// so; from now on `export` refuses.
    pub fn shutdown(&mut self)
        ensures
            final(self)@ == old(self)@.shut(),
    {
        self.open = false;
    }
}

} // verus!
