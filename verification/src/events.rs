//! The inter-unit mailbox.
//!
//! The picture and audio units raise interrupts and DMA stalls here; the
//! scheduler pops one event per master cycle and routes it to the CPU.

use vstd::prelude::*;

verus! {

#[derive(Clone, Copy, Debug, PartialEq, Eq, Structural)]
pub enum EventType {
    Nmi,
    Irq,
    /// Sprite DMA was triggered from this 256-byte source page.
    Dma(u8),
}

#[derive(Clone, Copy, Debug, PartialEq, Eq, Structural)]
pub struct Event {
    pub event_type: EventType,
}

pub struct EventQueue {
    pub queue: Vec<Event>,
}

impl Event {
    pub fn new(event_type: EventType) -> (e: Event)
        ensures
            e.event_type == event_type,
    {
        Event { event_type }
    }
}

impl EventQueue {
    /// The pending events, oldest first.
    pub open spec fn view(&self) -> Seq<Event> {
        self.queue@
    }

    pub fn new() -> (q: EventQueue)
        ensures
            q@ == Seq::<Event>::empty(),
    {
        let q = EventQueue { queue: Vec::new() };
        proof {
            assert(q@ =~= Seq::<Event>::empty());
        }
        q
    }

    pub fn push(&mut self, event: Event)
        ensures
            final(self)@ == old(self)@.push(event),
    {
        self.queue.push(event);
    }

    /// Pop the oldest event, or `None` when nothing is pending.
    pub fn pop(&mut self) -> (r: Option<Event>)
        ensures
            old(self)@.len() == 0 ==> r is None && final(self)@ == old(self)@,
            old(self)@.len() > 0 ==> r == Some(old(self)@[0]) && final(self)@ == old(
                self,
            )@.drop_first(),
    {
        if self.queue.len() > 0 {
            let e = self.queue.remove(0);
            proof {
                assert(self.queue@ =~= old(self)@.drop_first());
            }
            Some(e)
        } else {
            None
        }
    }
}

} // verus!
