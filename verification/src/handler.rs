//! Handler output: the result of a state transition plus the events and log
//! lines it produced, built through an append-only builder so that events are
//! recorded in the order produced.

use vstd::prelude::*;
use crate::events::{IbcEvent, IbcEventView};

verus! {

/// What a handler returns on success or failure.
pub type HandlerResult<T, E> = Result<HandlerOutput<T>, E>;

/// The mathematical content of a handler's output.
pub ghost struct HandlerOutputView<TV> {
    pub result: TV,
    pub log: Seq<Seq<char>>,
    pub events: Seq<IbcEventView>,
}

/// A handler's decision: the store mutation the caller must persist, the
/// events to emit, and the log lines produced.
#[derive(Debug)]
pub struct HandlerOutput<T> {
    pub result: T,
    pub log: Vec<String>,
    pub events: Vec<IbcEvent>,
}

/// The content of a list of emitted events.
pub open spec fn events_view(events: Seq<IbcEvent>) -> Seq<IbcEventView> {
    Seq::new(events.len(), |i: int| events[i]@)
}

impl<T: View> View for HandlerOutput<T> {
    type V = HandlerOutputView<T::V>;

    open spec fn view(&self) -> HandlerOutputView<T::V> {
        HandlerOutputView {
            result: self.result@,
            log: self.log.deep_view(),
            events: events_view(self.events@),
        }
    }
}

impl<T: View> HandlerOutput<T> {
    /// Start collecting log lines and events.
    pub fn builder() -> (r: HandlerOutputBuilder)
        ensures
            r@.log.len() == 0,
            r@.events.len() == 0,
    {
        HandlerOutputBuilder { log: Vec::new(), events: Vec::new() }
    }
}

/// The mathematical content of a handler output under construction.
pub ghost struct HandlerOutputBuilderView {
    pub log: Seq<Seq<char>>,
    pub events: Seq<IbcEventView>,
}

/// Collects log lines and events in the order produced.
#[derive(Debug)]
pub struct HandlerOutputBuilder {
    log: Vec<String>,
    events: Vec<IbcEvent>,
}

impl View for HandlerOutputBuilder {
    type V = HandlerOutputBuilderView;

    closed spec fn view(&self) -> HandlerOutputBuilderView {
        HandlerOutputBuilderView { log: self.log.deep_view(), events: events_view(self.events@) }
    }
}

impl HandlerOutputBuilder {
    /// Append a log line.
    pub fn log(&mut self, line: &str)
        ensures
            final(self)@.log == old(self)@.log.push(line@),
            final(self)@.events == old(self)@.events,
    {
        let ghost prev = self.log@;
        self.log.push(String::from_str(line));
        proof {
            assert(self.log.deep_view() =~~= old(self).log.deep_view().push(line@));
            assert(self.events@ == old(self).events@);
        }
    }

    /// Append an event; events stay in the order they were emitted.
    pub fn emit(&mut self, event: IbcEvent)
        ensures
            final(self)@.events == old(self)@.events.push(event@),
            final(self)@.log == old(self)@.log,
    {
        self.events.push(event);
        proof {
            assert(events_view(self.events@) =~= events_view(old(self).events@).push(event@));
        }
    }

    /// Finish with the handler's result.
    pub fn with_result<T: View>(self, result: T) -> (r: HandlerOutput<T>)
        ensures
            r@.result == result@,
            r@.log == self@.log,
            r@.events == self@.events,
    {
        HandlerOutput { result, log: self.log, events: self.events }
    }
}

} // verus!
