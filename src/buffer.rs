//! The double-buffered event queue.
//!
//! Two slots hold events; exactly one of them is active and receives new
//! events. Draining flips the active slot first, then empties and returns the
//! slot that was active before, so events that arrive while a drained batch is
//! being processed land in the other slot and wait for the next drain.
use vstd::prelude::*;

use crate::event::Event;

verus! {

/// Names one of the two slots of an event queue.
#[derive(Debug, Clone, Copy, PartialEq, Eq, Structural)]
pub enum CurrentEventBuffer {
    First,
    Second,
}

impl CurrentEventBuffer {
    pub open spec fn spec_other(self) -> CurrentEventBuffer {
        match self {
            CurrentEventBuffer::First => CurrentEventBuffer::Second,
            CurrentEventBuffer::Second => CurrentEventBuffer::First,
        }
    }

    /// The slot that is not `self`.
    pub fn other(self) -> (r: CurrentEventBuffer)
        ensures
            r == self.spec_other(),
    {
        match self {
            CurrentEventBuffer::First => CurrentEventBuffer::Second,
            CurrentEventBuffer::Second => CurrentEventBuffer::First,
        }
    }
}

/// The abstract state of a double-buffered queue: the contents of both slots,
/// in arrival order, and which slot is active.
pub struct QueueModel {
    pub first: Seq<Event>,
    pub second: Seq<Event>,
    pub active: CurrentEventBuffer,
}

impl QueueModel {
    /// A queue with both slots empty and the first slot active.
    pub open spec fn empty() -> QueueModel {
        QueueModel { first: Seq::empty(), second: Seq::empty(), active: CurrentEventBuffer::First }
    }

    /// The contents of slot `b`.
    pub open spec fn slot(self, b: CurrentEventBuffer) -> Seq<Event> {
        match b {
            CurrentEventBuffer::First => self.first,
            CurrentEventBuffer::Second => self.second,
        }
    }

    /// The queue with slot `b` replaced by `s`.
    pub open spec fn with_slot(self, b: CurrentEventBuffer, s: Seq<Event>) -> QueueModel {
        match b {
            CurrentEventBuffer::First => QueueModel { first: s, ..self },
            CurrentEventBuffer::Second => QueueModel { second: s, ..self },
        }
    }

    /// The events waiting for the next drain: the active slot.
    pub open spec fn pending(self) -> Seq<Event> {
        self.slot(self.active)
    }

    /// Between operations the inactive slot is empty: every event that was
    /// pushed is either pending or has been handed out by a drain.
    pub open spec fn wf(self) -> bool {
        self.slot(self.active.spec_other()).len() == 0
    }

    /// The queue after one push: `e` is appended to the active slot.
    pub open spec fn pushed(self, e: Event) -> QueueModel {
        self.with_slot(self.active, self.pending().push(e))
    }

    /// The queue after pushing each of `es`, in order.
    pub open spec fn pushed_all(self, es: Seq<Event>) -> QueueModel
        decreases es.len(),
    {
        if es.len() == 0 {
            self
        } else {
            self.pushed_all(es.drop_last()).pushed(es.last())
        }
    }

    /// What one drain hands out: the contents of the slot that was active.
    pub open spec fn drained_events(self) -> Seq<Event> {
        self.pending()
    }

    /// The queue after one drain: the active slot flips, and the slot that
    /// was active is emptied.
    pub open spec fn drained(self) -> QueueModel {
        QueueModel { active: self.active.spec_other(), ..self.with_slot(self.active, Seq::empty()) }
    }

    /// The queue after `n` drains in a row.
    pub open spec fn drained_times(self, n: nat) -> QueueModel
        decreases n,
    {
        if n == 0 {
            self
        } else {
            self.drained_times((n - 1) as nat).drained()
        }
    }
}

/// A push keeps the queue well formed and appends to what is pending.
pub proof fn lemma_push_pending(q: QueueModel, e: Event)
    requires
        q.wf(),
    ensures
        q.pushed(e).wf(),
        q.pushed(e).active == q.active,
        q.pushed(e).pending() == q.pending().push(e),
{
}

/// Pushing a sequence keeps the queue well formed and appends the whole
/// sequence, in order, to what is pending.
pub proof fn lemma_push_all_pending(q: QueueModel, es: Seq<Event>)
    requires
        q.wf(),
    ensures
        q.pushed_all(es).wf(),
        q.pushed_all(es).active == q.active,
        q.pushed_all(es).pending() == q.pending() + es,
    decreases es.len(),
{
    if es.len() > 0 {
        lemma_push_all_pending(q, es.drop_last());
        lemma_push_pending(q.pushed_all(es.drop_last()), es.last());
        assert(q.pending() + es.drop_last() + seq![es.last()] =~= q.pending() + es);
    }
}

/// A drain keeps the queue well formed and leaves nothing pending.
pub proof fn lemma_drain_empties(q: QueueModel)
    requires
        q.wf(),
    ensures
        q.drained().wf(),
        q.drained().pending().len() == 0,
{
}

/// After `n > 0` drains in a row the queue is well formed and nothing is
/// pending.
pub proof fn lemma_drained_times(q: QueueModel, n: nat)
    requires
        q.wf(),
    ensures
        q.drained_times(n).wf(),
        n > 0 ==> q.drained_times(n).pending().len() == 0,
    decreases n,
{
    if n > 0 {
        lemma_drained_times(q, (n - 1) as nat);
    }
}

/// Ordering: a drain after any number of pushes hands out what was pending
/// followed by the pushed events in push order (exactly the pushed events
/// when nothing was pending), and a second drain right after hands out
/// nothing.
pub proof fn lemma_drain_yields_pushes_in_order(q: QueueModel, es: Seq<Event>)
    requires
        q.wf(),
    ensures
        q.pushed_all(es).drained_events() == q.pending() + es,
        q.pending().len() == 0 ==> q.pushed_all(es).drained_events() == es,
        q.pushed_all(es).drained().drained_events().len() == 0,
{
    lemma_push_all_pending(q, es);
    lemma_drain_empties(q.pushed_all(es));
    if q.pending().len() == 0 {
        assert(q.pending() + es =~= es);
    }
}

/// Isolation across drains: events pushed after a drain are not part of
/// what that drain handed out, and the next drain hands out exactly them,
/// in push order.
pub proof fn lemma_drain_isolates_later_pushes(q: QueueModel, es: Seq<Event>)
    requires
        q.wf(),
    ensures
        q.drained_events() == q.pending(),
        q.drained().pushed_all(es).drained_events() == es,
{
    lemma_drain_empties(q);
    lemma_drain_yields_pushes_in_order(q.drained(), es);
}

/// Idempotent drain: draining a queue with nothing pending hands out
/// nothing and leaves nothing pending.
pub proof fn lemma_drain_of_empty(q: QueueModel)
    requires
        q.wf(),
        q.pending().len() == 0,
    ensures
        q.drained_events().len() == 0,
        q.drained().wf(),
        q.drained().pending().len() == 0,
{
    lemma_drain_empties(q);
}

/// Two slots of events, one of them active.
#[derive(Debug)]
pub struct Events {
    events: (Vec<Event>, Vec<Event>),
    current_event_buffer: CurrentEventBuffer,
}

impl View for Events {
    type V = QueueModel;

    closed spec fn view(&self) -> QueueModel {
        QueueModel {
            first: self.events.0@,
            second: self.events.1@,
            active: self.current_event_buffer,
        }
    }
}

impl Events {
    /// An empty queue.
    pub fn new() -> (r: Events)
        ensures
            r@ == QueueModel::empty(),
            r@.wf(),
    {
        Events { events: (Vec::new(), Vec::new()), current_event_buffer: CurrentEventBuffer::First }
    }

    /// The slot that receives new events.
    pub fn current(&self) -> (r: CurrentEventBuffer)
        ensures
            r == self@.active,
    {
        self.current_event_buffer
    }

    /// Appends `event` to the active slot.
    pub fn push(&mut self, event: &Event)
        ensures
            final(self)@ == old(self)@.pushed(*event),
    {
        match self.current_event_buffer {
            CurrentEventBuffer::First => self.events.0.push(*event),
            CurrentEventBuffer::Second => self.events.1.push(*event),
        }
    }

    /// Flips the active slot, then empties the slot that was active and
    /// returns its events in arrival order.
    pub fn drain(&mut self) -> (r: Vec<Event>)
        ensures
            r@ == old(self)@.drained_events(),
            final(self)@ == old(self)@.drained(),
    {
        let drained_buffer = self.current_event_buffer;
        self.current_event_buffer = drained_buffer.other();
        let mut out: Vec<Event> = Vec::new();
        match drained_buffer {
            CurrentEventBuffer::First => std::mem::swap(&mut self.events.0, &mut out),
            CurrentEventBuffer::Second => std::mem::swap(&mut self.events.1, &mut out),
        }
        out
    }
}

} // verus!
