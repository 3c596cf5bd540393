//! What can go wrong in the telemetry path. None of it ever fails a request.

use vstd::prelude::*;

verus! {

#[derive(Clone, Copy, PartialEq, Eq, Structural, Debug)]
pub enum TelemetryError {
    /// A subscriber is installed already; the first one stays.
    SubscriberAlreadySet,
    /// No subscriber is installed, so nobody takes the span.
    SubscriberNotSet,
    /// The exporter was shut down and takes no more spans.
    ExporterClosed,
    /// Only a span that is closed, and not yet settled, can be exported.
    SpanNotClosed,
}

impl TelemetryError {
    /// A sentence for a log line.
    pub fn message(&self) -> (r: &'static str)
        ensures
            r@ == message_of(*self),
    {
        match self {
            TelemetryError::SubscriberAlreadySet => "a subscriber is already installed",
            TelemetryError::SubscriberNotSet => "no subscriber is installed",
            TelemetryError::ExporterClosed => "the exporter is shut down",
            TelemetryError::SpanNotClosed => "the span is not closed",
        }
    }
}

pub open spec fn message_of(error: TelemetryError) -> Seq<char> {
    match error {
        TelemetryError::SubscriberAlreadySet => "a subscriber is already installed"@,
        TelemetryError::SubscriberNotSet => "no subscriber is installed"@,
        TelemetryError::ExporterClosed => "the exporter is shut down"@,
        TelemetryError::SpanNotClosed => "the span is not closed"@,
    }
}

} // verus!
