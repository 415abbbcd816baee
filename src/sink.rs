use vstd::prelude::*;

use std::collections::VecDeque;

use crate::event::{Pointer, WindowEvent};

verus! {

/// The ordered queue of pending events of one window.
///
/// Producers append at the back; the event loop drains from the front.
/// Callers that share it across threads hold it behind a lock.
#[derive(Debug)]
pub struct EventSink {
    queue: VecDeque<WindowEvent>,
}

/// Tags each event of `events` with `window_id`, keeping their order.
pub open spec fn tagged(window_id: u64, events: Seq<Pointer>) -> Seq<WindowEvent> {
    events.map_values(|e: Pointer| WindowEvent { window_id, event: e })
}

impl View for EventSink {
    type V = Seq<WindowEvent>;

    closed spec fn view(&self) -> Seq<WindowEvent> {
        self.queue@
    }
}

impl EventSink {
    /// An empty sink.
    pub fn new() -> (r: EventSink)
        ensures
            r@ == Seq::<WindowEvent>::empty(),
    {
        EventSink { queue: VecDeque::new() }
    }

    /// The number of pending events.
    pub fn len(&self) -> (r: usize)
        ensures
            r == self@.len(),
    {
        self.queue.len()
    }

    /// Appends one event at the back.
    pub fn append(&mut self, e: WindowEvent)
        ensures
            final(self)@ == old(self)@.push(e),
    {
        self.queue.push_back(e);
    }

    /// Appends `events`, in order, each tagged with `window_id`.
    pub fn append_pointers(&mut self, window_id: u64, events: &Vec<Pointer>)
        ensures
            final(self)@ == old(self)@ + tagged(window_id, events@),
    {
        let mut i: usize = 0;
        while i < events.len()
            invariant
                i <= events@.len(),
                self@ == old(self)@ + tagged(window_id, events@.take(i as int)),
            decreases events@.len() - i,
        {
            self.append(WindowEvent { window_id, event: events[i] });
            i = i + 1;
            assert(tagged(window_id, events@.take(i as int)) == tagged(
                window_id,
                events@.take(i - 1),
            ).push(WindowEvent { window_id, event: events@[i - 1] }));
        }
        assert(events@.take(i as int) == events@);
    }

    /// Removes and returns the oldest pending event.
    pub fn pop(&mut self) -> (r: Option<WindowEvent>)
        ensures
            old(self)@.len() == 0 ==> r is None && final(self)@ == old(self)@,
            old(self)@.len() > 0 ==> r == Some(old(self)@[0]) && final(self)@ == old(self)@.drop_first(),
    {
        self.queue.pop_front()
    }

    /// Removes every pending event and returns them, oldest first.
    pub fn drain(&mut self) -> (r: Vec<WindowEvent>)
        ensures
            r@ == old(self)@,
            final(self)@ == Seq::<WindowEvent>::empty(),
    {
        let mut out: Vec<WindowEvent> = Vec::new();
        while self.queue.len() > 0
            invariant
                out@ + self@ == old(self)@,
            decreases self@.len(),
        {
            let e = self.queue.pop_front();
            match e {
                Some(e) => {
                    proof {
                        assert(out@.push(e) + self@ =~= old(self)@);
                    }
                    out.push(e);
                },
                None => {},
            }
        }
        assert(self@ =~= Seq::<WindowEvent>::empty());
        assert(out@ + self@ =~= out@);
        out
    }
}

/// An operation on a sink: one producer's append, or the consumer's drain.
#[derive(Clone, Copy, Debug)]
pub enum SinkOp {
    Append(WindowEvent),
    Drain,
}

/// What one operation does to a queue: the new queue and what it drained.
/// `append` and `drain` of [`EventSink`] meet exactly this.
pub open spec fn step(queue: Seq<WindowEvent>, op: SinkOp) -> (Seq<WindowEvent>, Seq<WindowEvent>) {
    match op {
        SinkOp::Append(e) => (queue.push(e), Seq::empty()),
        SinkOp::Drain => (Seq::empty(), queue),
    }
}

/// Runs operations in order: the final queue, and everything drained, in the
/// order the drains returned it.
pub open spec fn run(queue: Seq<WindowEvent>, ops: Seq<SinkOp>) -> (Seq<WindowEvent>, Seq<WindowEvent>)
    decreases ops.len(),
{
    if ops.len() == 0 {
        (queue, Seq::empty())
    } else {
        let (q, d) = run(queue, ops.drop_last());
        let (q2, d2) = step(q, ops.last());
        (q2, d + d2)
    }
}

/// The events that a run of operations appends, in order.
pub open spec fn appended(ops: Seq<SinkOp>) -> Seq<WindowEvent>
    decreases ops.len(),
{
    if ops.len() == 0 {
        Seq::empty()
    } else {
        match ops.last() {
            SinkOp::Append(e) => appended(ops.drop_last()).push(e),
            SinkOp::Drain => appended(ops.drop_last()),
        }
    }
}

/// However appends from any number of producers interleave with drains,
/// nothing is lost or duplicated: what was drained, followed by what is still
/// queued, is what was queued at first followed by every append, in order.
pub proof fn interleaved_appends_and_drains_conserve_events(
    queue: Seq<WindowEvent>,
    ops: Seq<SinkOp>,
)
    ensures
        run(queue, ops).1 + run(queue, ops).0 == queue + appended(ops),
        run(queue, ops).1.len() + run(queue, ops).0.len() == queue.len() + appended(ops).len(),
    decreases ops.len(),
{
    if ops.len() > 0 {
        interleaved_appends_and_drains_conserve_events(queue, ops.drop_last());
        let (q, d) = run(queue, ops.drop_last());
        match ops.last() {
            SinkOp::Append(e) => {
                assert(d + Seq::<WindowEvent>::empty() + q.push(e) =~= (d + q).push(e));
            },
            SinkOp::Drain => {
                assert(d + q + Seq::<WindowEvent>::empty() =~= d + q);
            },
        }
    } else {
        assert(Seq::<WindowEvent>::empty() + queue =~= queue + Seq::<WindowEvent>::empty());
    }
}

} // verus!
