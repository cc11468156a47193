//! The event bus: one ordered queue that every producer feeds and the
//! controller alone drains, strictly first-in first-out, with no priority
//! and no coalescing.

use vstd::prelude::*;
use crate::event::DeviceEvent;

verus! {

/// A first-in first-out queue of device events. Its mathematical value is
/// the sequence of events waiting, oldest first.
pub struct EventBus {
    pub items: Vec<DeviceEvent>,
}

impl View for EventBus {
    type V = Seq<DeviceEvent>;

    open spec fn view(&self) -> Seq<DeviceEvent> {
        self.items@
    }
}

impl EventBus {
    /// An empty bus.
    pub fn new() -> (b: EventBus)
        ensures
            b@ =~= Seq::<DeviceEvent>::empty(),
    {
        EventBus { items: Vec::new() }
    }

    /// How many events are waiting.
    pub fn len(&self) -> (n: usize)
        ensures
            n == self@.len(),
    {
        self.items.len()
    }

    /// Enqueues an event behind everything already waiting.
    pub fn send(&mut self, event: DeviceEvent)
        ensures
            final(self)@ =~= old(self)@.push(event),
    {
        self.items.push(event);
    }

    /// Dequeues the oldest waiting event; `None` on an empty bus.
    pub fn recv(&mut self) -> (r: Option<DeviceEvent>)
        ensures
            old(self)@.len() == 0 ==> r is None && final(self)@ =~= old(self)@,
            old(self)@.len() > 0 ==> r == Some(old(self)@[0]) && final(self)@ =~= old(
                self,
            )@.drop_first(),
    {
        if self.items.len() == 0 {
            None
        } else {
            Some(self.items.remove(0))
        }
    }
}

/// Law: the bus is drained in arrival order. After `n` receives from a bus
/// that held the sequence `q`, the bus holds `q.skip(n)` (each `recv` drops
/// the first event), so the next receive observes exactly `q[n]`. Events a
/// single producer enqueued in order are therefore observed in that order,
/// whatever the other producers interleave between them.
pub proof fn lemma_recv_in_arrival_order(q: Seq<DeviceEvent>, n: int)
    requires
        0 <= n < q.len(),
    ensures
        q.skip(n)[0] == q[n],
        q.skip(n).drop_first() =~= q.skip(n + 1),
{
}

} // verus!
