//! Input events and the queue that carries them from producers to the engine.
use vstd::prelude::*;

verus! {

/// One input event, with the device coordinates at capture time.
#[derive(Debug, Clone, Copy, PartialEq, Eq)]
pub enum Event {
    /// The pointer was pressed at these client coordinates.
    MouseDown([i32; 2]),
    /// The pointer moved to these client coordinates.
    MouseMove([i32; 2]),
}

/// Events in arrival order, waiting for the next drain.
pub struct EventQueue {
    items: Vec<Event>,
}

impl EventQueue {
    /// The queued events, oldest first.
    pub closed spec fn view(&self) -> Seq<Event> {
        self.items@
    }

    /// An empty queue.
    pub fn new() -> (q: EventQueue)
        ensures
            q@ == Seq::<Event>::empty(),
    {
        EventQueue { items: Vec::new() }
    }

    /// Appends `event` behind everything already queued.
    pub fn push(&mut self, event: Event)
        ensures
            final(self)@ == old(self)@.push(event),
    {
        self.items.push(event);
    }

    /// The number of queued events.
    pub fn len(&self) -> (n: usize)
        ensures
            n == self@.len(),
    {
        self.items.len()
    }

    /// Hands out everything queued, oldest first, and leaves the queue empty.
    pub fn drain(&mut self) -> (batch: Vec<Event>)
        ensures
            batch@ == old(self)@,
            final(self)@ == Seq::<Event>::empty(),
    {
        let mut batch: Vec<Event> = Vec::new();
        core::mem::swap(&mut batch, &mut self.items);
        batch
    }
}

/// One operation on a queue, as a producer or the consumer issues it.
pub enum QueueOp {
    Push(Event),
    Drain,
}

/// What the queue holds after `ops` ran, in order, on a queue that held `start`.
pub open spec fn pending(start: Seq<Event>, ops: Seq<QueueOp>) -> Seq<Event>
    decreases ops.len(),
{
    if ops.len() == 0 {
        start
    } else {
        match ops.last() {
            QueueOp::Push(e) => pending(start, ops.drop_last()).push(e),
            QueueOp::Drain => Seq::empty(),
        }
    }
}

/// The batches that the drains among `ops` returned, joined in the order of the drains.
pub open spec fn delivered(start: Seq<Event>, ops: Seq<QueueOp>) -> Seq<Event>
    decreases ops.len(),
{
    if ops.len() == 0 {
        Seq::empty()
    } else {
        match ops.last() {
            QueueOp::Push(_) => delivered(start, ops.drop_last()),
            QueueOp::Drain => delivered(start, ops.drop_last()) + pending(start, ops.drop_last()),
        }
    }
}

/// The events that the pushes among `ops` appended, in push order.
pub open spec fn pushed(ops: Seq<QueueOp>) -> Seq<Event>
    decreases ops.len(),
{
    if ops.len() == 0 {
        Seq::empty()
    } else {
        match ops.last() {
            QueueOp::Push(e) => pushed(ops.drop_last()).push(e),
            QueueOp::Drain => pushed(ops.drop_last()),
        }
    }
}

/// However pushes and drains interleave, the drained batches followed by what is
/// still queued are exactly the initial contents followed by the pushed events,
/// in push order: no event is lost, repeated or reordered.
pub proof fn lemma_every_push_delivered_once(start: Seq<Event>, ops: Seq<QueueOp>)
    ensures
        delivered(start, ops) + pending(start, ops) == start + pushed(ops),
    decreases ops.len(),
{
    if ops.len() == 0 {
        assert(delivered(start, ops) + pending(start, ops) =~= start + pushed(ops));
    } else {
        let before = ops.drop_last();
        lemma_every_push_delivered_once(start, before);
        match ops.last() {
            QueueOp::Push(e) => {
                let done = delivered(start, before);
                let held = pending(start, before);
                assert(done + held.push(e) =~= (done + held).push(e));
                assert((start + pushed(before)).push(e) =~= start + pushed(before).push(e));
            },
            QueueOp::Drain => {
                let all = delivered(start, before) + pending(start, before);
                assert(all + Seq::<Event>::empty() =~= all);
            },
        }
    }
}

/// A drain that follows pushes made since the previous drain returns exactly
/// those pushes, whatever the previous drain took.
pub proof fn lemma_pushes_after_drain_batch_together(
    start: Seq<Event>,
    ops: Seq<QueueOp>,
    late: Seq<Event>,
)
    ensures
        pending(start, ops.push(QueueOp::Drain) + late.map_values(|e: Event| QueueOp::Push(e)))
            == late,
    decreases late.len(),
{
    let pushes = late.map_values(|e: Event| QueueOp::Push(e));
    let all = ops.push(QueueOp::Drain) + pushes;
    if late.len() == 0 {
        assert(all =~= ops.push(QueueOp::Drain));
        assert(pending(start, all) =~= late);
    } else {
        let fewer = late.drop_last();
        lemma_pushes_after_drain_batch_together(start, ops, fewer);
        let fewer_pushes = fewer.map_values(|e: Event| QueueOp::Push(e));
        assert(all.drop_last() =~= ops.push(QueueOp::Drain) + fewer_pushes);
        assert(all.last() == QueueOp::Push(late.last()));
        assert(fewer.push(late.last()) =~= late);
    }
}

} // verus!
