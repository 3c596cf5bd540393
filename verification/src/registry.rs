//! The one place that closed spans are sent to.
//!
//! A registry holds at most one subscriber, installed once, before the first
//! request. The subscriber fans each closed span out to two sinks: the
//! exporter and the log.

use vstd::prelude::*;
use crate::error::TelemetryError;
use crate::sink::{Sink, SinkView, SpanRecordView};
use crate::span::{Span, SpanView};

verus! {

/// A subscriber as a mathematical value.
pub struct SubscriberView {
    pub exporter: SinkView,
    pub log: SinkView,
}

impl SubscriberView {
    /// Whether the span is exported. The exporter alone decides: the log
    /// has no say in it.
    pub open spec fn verdict(self, span: SpanView) -> Result<(), TelemetryError> {
        self.exporter.verdict(span)
    }

    /// The subscriber after `span` was sent to it: each sink was offered
    /// the span, and neither knows of the other.
    pub open spec fn dispatched(self, span: SpanView) -> SubscriberView {
        SubscriberView { exporter: self.exporter.offered(span), log: self.log.offered(span) }
    }

    /// The subscriber after the exporter was shut down. The log goes on.
    pub open spec fn shut(self) -> SubscriberView {
        SubscriberView { exporter: self.exporter.shut(), ..self }
    }
}

/// The two consumers of span events.
#[derive(Debug)]
pub struct Subscriber {
    exporter: Sink,
    log: Sink,
}

impl View for Subscriber {
    type V = SubscriberView;

    closed spec fn view(&self) -> SubscriberView {
        SubscriberView { exporter: self.exporter@, log: self.log@ }
    }
}

impl Subscriber {
    pub fn new(exporter: Sink, log: Sink) -> (r: Subscriber)
        ensures
            r@ == (SubscriberView { exporter: exporter@, log: log@ }),
    {
        Subscriber { exporter, log }
    }

    pub fn exporter(&self) -> (r: &Sink)
        ensures
            r@ == self@.exporter,
    {
        &self.exporter
    }

    pub fn log(&self) -> (r: &Sink)
        ensures
            r@ == self@.log,
    {
        &self.log
    }

    /// Sends a closed span to both sinks and settles it: exported if the
    /// exporter took it, dropped if the exporter was shut down.
    pub fn on_close(&mut self, span: &mut Span) -> (r: Result<(), TelemetryError>)
        ensures
            r == old(self)@.verdict(old(span)@),
            final(self)@ == old(self)@.dispatched(old(span)@),
            final(span)@ == settled_by(old(span)@, r),
            old(span)@.wf() ==> final(span)@.wf(),
    {
        let r = self.exporter.export(span);
        let _ = self.log.export(span);
        match r {
            Ok(_) => {
                span.settle(true);
            },
            Err(TelemetryError::ExporterClosed) => {
                span.settle(false);
            },
            Err(_) => {},
        }
        r
    }

    /// Shuts the exporter down.
    pub fn shutdown(&mut self)
        ensures
            final(self)@ == old(self)@.shut(),
    {
        self.exporter.shutdown();
    }
}

/// The span after the exporter gave `verdict` on it. A span that was not
/// closed when it was sent stays as it was.
pub open spec fn settled_by(span: SpanView, verdict: Result<(), TelemetryError>) -> SpanView {
    match verdict {
        Ok(_) => span.settled(true),
        Err(TelemetryError::ExporterClosed) => span.settled(false),
        Err(_) => span,
    }
}

/// A registry as a mathematical value.
pub struct RegistryView {
    pub subscriber: Option<SubscriberView>,
}

impl RegistryView {
    pub open spec fn empty() -> RegistryView {
        RegistryView { subscriber: None }
    }

    pub open spec fn is_installed(self) -> bool {
        self.subscriber is Some
    }

    /// A subscriber is installed and its exporter takes spans.
    pub open spec fn is_exporting(self) -> bool {
        self.subscriber matches Some(s) && s.exporter.open
    }

    /// What the exporter has written; nothing where no subscriber is installed.
    pub open spec fn exported(self) -> Seq<SpanRecordView> {
        match self.subscriber {
            Some(s) => s.exporter.records,
            None => Seq::empty(),
        }
    }

    /// What the log has written; nothing where no subscriber is installed.
    pub open spec fn logged(self) -> Seq<SpanRecordView> {
        match self.subscriber {
            Some(s) => s.log.records,
            None => Seq::empty(),
        }
    }

    /// Whether `subscriber` can be installed: only into an empty registry.
    pub open spec fn install_verdict(self) -> Result<(), TelemetryError> {
        if self.is_installed() {
            Err(TelemetryError::SubscriberAlreadySet)
        } else {
            Ok(())
        }
    }

    /// The registry after an attempt to install `subscriber`: the first
    /// subscriber stays, whatever comes later.
    pub open spec fn installed(self, subscriber: SubscriberView) -> RegistryView {
        if self.is_installed() {
            self
        } else {
            RegistryView { subscriber: Some(subscriber) }
        }
    }

    /// Whether a span sent to the registry is exported.
    pub open spec fn verdict(self, span: SpanView) -> Result<(), TelemetryError> {
        match self.subscriber {
            Some(s) => s.verdict(span),
            None => Err(TelemetryError::SubscriberNotSet),
        }
    }

    /// The registry after `span` was sent to it.
    pub open spec fn dispatched(self, span: SpanView) -> RegistryView {
        match self.subscriber {
            Some(s) => RegistryView { subscriber: Some(s.dispatched(span)) },
            None => self,
        }
    }

    /// The registry after the exporter was shut down.
    pub open spec fn shut(self) -> RegistryView {
        match self.subscriber {
            Some(s) => RegistryView { subscriber: Some(s.shut()) },
            None => self,
        }
    }
}

/// The handle through which every component reaches the subscriber.
#[derive(Debug)]
pub struct Registry {
    subscriber: Option<Subscriber>,
}

impl View for Registry {
    type V = RegistryView;

    closed spec fn view(&self) -> RegistryView {
        RegistryView {
            subscriber: match self.subscriber {
                Some(s) => Some(s@),
                None => None,
            },
        }
    }
}

impl Registry {
    /// A registry without a subscriber.
    pub fn new() -> (r: Registry)
        ensures
            r@ == RegistryView::empty(),
    {
        Registry { subscriber: None }
    }

    pub fn is_installed(&self) -> (r: bool)
        ensures
            r == self@.is_installed(),
    {
        self.subscriber.is_some()
    }

    pub fn subscriber(&self) -> (r: Option<&Subscriber>)
        ensures
            match r {
                Some(s) => self@.subscriber == Some(s@),
                None => self@.subscriber is None,
            },
    {
        self.subscriber.as_ref()
    }

    /// Installs `subscriber`, once. A second installation fails with
    /// `SubscriberAlreadySet` and leaves the first subscriber in place.
    pub fn install(&mut self, subscriber: Subscriber) -> (r: Result<(), TelemetryError>)
        ensures
            r == old(self)@.install_verdict(),
            final(self)@ == old(self)@.installed(subscriber@),
    {
        if self.subscriber.is_some() {
            return Err(TelemetryError::SubscriberAlreadySet);
        }
        self.subscriber = Some(subscriber);
        Ok(())
    }

    /// Sends a closed span to the subscriber.
    pub fn dispatch(&mut self, span: &mut Span) -> (r: Result<(), TelemetryError>)
        ensures
            r == old(self)@.verdict(old(span)@),
            final(self)@ == old(self)@.dispatched(old(span)@),
            final(span)@ == settled_by(old(span)@, r),
            old(span)@.wf() ==> final(span)@.wf(),
    {
        match &mut self.subscriber {
            Some(s) => s.on_close(span),
            None => Err(TelemetryError::SubscriberNotSet),
        }
    }

    /// Shuts the exporter down at the end of the process.
    pub fn shutdown(&mut self)
        ensures
            final(self)@ == old(self)@.shut(),
    {
        match &mut self.subscriber {
            Some(s) => {
                s.shutdown();
            },
            None => {},
        }
    }
}

} // verus!
