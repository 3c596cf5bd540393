//! The identifiers that link a span to its trace across processes.

use vstd::prelude::*;

verus! {

/// The bit of the trace flags that marks a trace as sampled.
pub const SAMPLED: u8 = 1;

/// The identifiers of one span within one trace. A context is made once
/// and only read afterwards.
#[derive(Debug)]
pub struct TraceContext {
    trace_id: u128,
    span_id: u64,
    trace_flags: u8,
    trace_state: String,
}

/// A trace context as a mathematical value.
pub struct TraceContextView {
    pub trace_id: u128,
    pub span_id: u64,
    pub trace_flags: u8,
    pub trace_state: Seq<char>,
}

impl TraceContextView {
    /// A context identifies a span only when neither identifier is zero.
    pub open spec fn is_valid(self) -> bool {
        self.trace_id != 0 && self.span_id != 0
    }

    /// The sampled bit is set.
    pub open spec fn is_sampled(self) -> bool {
        self.trace_flags & SAMPLED == SAMPLED
    }
}

impl View for TraceContext {
    type V = TraceContextView;

    closed spec fn view(&self) -> TraceContextView {
        TraceContextView {
            trace_id: self.trace_id,
            span_id: self.span_id,
            trace_flags: self.trace_flags,
            trace_state: self.trace_state@,
        }
    }
}

impl Clone for TraceContext {
    fn clone(&self) -> (r: Self)
        ensures
            r == *self,
    {
        TraceContext {
            trace_id: self.trace_id,
            span_id: self.span_id,
            trace_flags: self.trace_flags,
            trace_state: self.trace_state.clone(),
        }
    }
}

impl TraceContext {
    pub fn new(trace_id: u128, span_id: u64, trace_flags: u8, trace_state: String) -> (r: Self)
        ensures
            r@ == (TraceContextView { trace_id, span_id, trace_flags, trace_state: trace_state@ }),
    {
        TraceContext { trace_id, span_id, trace_flags, trace_state }
    }

    pub fn trace_id(&self) -> (r: u128)
        ensures
            r == self@.trace_id,
    {
        self.trace_id
    }

    pub fn span_id(&self) -> (r: u64)
        ensures
            r == self@.span_id,
    {
        self.span_id
    }

    pub fn trace_flags(&self) -> (r: u8)
        ensures
            r == self@.trace_flags,
    {
        self.trace_flags
    }

    pub fn trace_state(&self) -> (r: &String)
        ensures
            r@ == self@.trace_state,
    {
        &self.trace_state
    }

    pub fn is_valid(&self) -> (r: bool)
        ensures
            r == self@.is_valid(),
    {
        self.trace_id != 0 && self.span_id != 0
    }

    pub fn is_sampled(&self) -> (r: bool)
        ensures
            r == self@.is_sampled(),
    {
        self.trace_flags & SAMPLED == SAMPLED
    }
}

/// The view of an optional context.
pub open spec fn view_of(context: Option<TraceContext>) -> Option<TraceContextView> {
    match context {
        Some(c) => Some(c@),
        None => None,
    }
}

} // verus!
