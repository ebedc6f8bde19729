//! The bounded event ingestion queue.
//!
//! Producers hand raw records to `enqueue`, which never blocks: a record
//! that fails the event-type check is rejected, and a record arriving at a
//! full queue is dropped, so the host's main path never waits on telemetry.
//! Once per tick the session manager takes everything queued, in arrival
//! order, and migrates it into the batch buffer.

use vstd::prelude::*;

use crate::events::{valid_event_type, QueuedEvent};

verus! {

/// What became of one record handed to `enqueue`.
#[derive(Clone, Copy, PartialEq, Eq, Structural, Debug)]
pub enum EnqueueOutcome {
    /// The record sits in the queue.
    Queued,
    /// The event type was not `"<letters>.<letters>"`; rejected locally.
    RejectedInvalidType,
    /// The queue was at capacity; the record was dropped, not waited for.
    DroppedFull,
    /// Ingestion is disabled for this process; a silent no-op.
    Disabled,
}

/// A bounded FIFO of raw records awaiting validation and migration.
pub struct IngestQueue {
    records: Vec<QueuedEvent>,
    capacity: usize,
}

impl IngestQueue {
    /// The queued records, oldest first.
    pub closed spec fn view(&self) -> Seq<QueuedEvent> {
        self.records@
    }

    /// The hard cap the queue was created with.
    pub closed spec fn spec_capacity(&self) -> usize {
        self.capacity
    }

    /// The queue never holds more than its capacity.
    pub open spec fn wf(&self) -> bool {
        self@.len() <= self.spec_capacity()
    }

    pub fn new(capacity: usize) -> (q: IngestQueue)
        ensures
            q@ == Seq::<QueuedEvent>::empty(),
            q.spec_capacity() == capacity,
            q.wf(),
    {
        IngestQueue { records: Vec::new(), capacity }
    }

    pub fn len(&self) -> (n: usize)
        ensures
            n == self@.len(),
    {
        self.records.len()
    }

    /// Non-blocking intake: a record with a malformed event type is rejected
    /// and a record arriving at a full queue is dropped; otherwise it is
    /// appended in arrival order.
    pub fn enqueue(&mut self, record: QueuedEvent) -> (r: EnqueueOutcome)
        requires
            old(self).wf(),
        ensures
            final(self).wf(),
            final(self).spec_capacity() == old(self).spec_capacity(),
            !valid_event_type(record.event_type@) ==> {
                &&& r == EnqueueOutcome::RejectedInvalidType
                &&& final(self)@ == old(self)@
            },
            valid_event_type(record.event_type@) && old(self)@.len() >= old(self).spec_capacity()
                ==> {
                &&& r == EnqueueOutcome::DroppedFull
                &&& final(self)@ == old(self)@
            },
            valid_event_type(record.event_type@) && old(self)@.len() < old(self).spec_capacity()
                ==> {
                &&& r == EnqueueOutcome::Queued
                &&& final(self)@ == old(self)@.push(record)
            },
    {
        if !crate::events::validate_event_type(record.event_type.as_str()) {
            return EnqueueOutcome::RejectedInvalidType;
        }
        if self.records.len() >= self.capacity {
            return EnqueueOutcome::DroppedFull;
        }
        self.records.push(record);
        EnqueueOutcome::Queued
    }

    /// Empties the queue, handing back everything it held in arrival order.
    pub fn take_all(&mut self) -> (taken: Vec<QueuedEvent>)
        requires
            old(self).wf(),
        ensures
            final(self).wf(),
            final(self)@ == Seq::<QueuedEvent>::empty(),
            final(self).spec_capacity() == old(self).spec_capacity(),
            taken@ == old(self)@,
    {
        let taken = self.records.split_off(0);
        assert(taken@ =~= old(self)@);
        assert(self.records@ =~= Seq::<QueuedEvent>::empty());
        taken
    }
}

} // verus!
