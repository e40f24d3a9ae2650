//! The public façade over the double-buffered queue.
use vstd::prelude::*;

use crate::buffer::{Events, QueueModel};
use crate::event::Event;

verus! {

/// Buffers events between simulation steps.
#[derive(Debug)]
pub struct EventRepository {
    events: Events,
}

impl View for EventRepository {
    type V = QueueModel;

    closed spec fn view(&self) -> QueueModel {
        self.events@
    }
}

impl EventRepository {
    /// A repository with nothing buffered.
    pub fn new() -> (r: EventRepository)
        ensures
            r@ == QueueModel::empty(),
            r@.wf(),
    {
        EventRepository { events: Events::new() }
    }

    /// Hands out every buffered event in arrival order and empties the
    /// buffer; events pushed afterwards wait for the next drain.
    pub fn drain(&mut self) -> (r: Vec<Event>)
        ensures
            r@ == old(self)@.drained_events(),
            final(self)@ == old(self)@.drained(),
    {
        self.events.drain()
    }

    /// Buffers `event` after every event already buffered.
    pub fn push(&mut self, event: Event)
        ensures
            final(self)@ == old(self)@.pushed(event),
    {
        self.events.push(&event);
    }
}

} // verus!
