//! The bounded hand-off channel between the generation producer and the
//! event-draining consumer: single producer, single consumer, first in
//! first out.  A full channel refuses the push, which tells the producer
//! to wait (backpressure: fragments are never dropped); a closed channel
//! refuses it for good, which tells the producer the consumer is gone
//! and it must stop (cancellation).

use vstd::prelude::*;

verus! {

/// What a push attempt came to.
#[derive(Clone, Copy, PartialEq, Eq, Structural, Debug)]
pub enum PushOutcome {
    /// The fragment was queued.
    Accepted,
    /// The channel is full: wait and try again; nothing may be dropped.
    Full,
    /// The consumer closed the channel: stop producing.
    Disconnected,
}

/// The channel: a bounded queue of fragments and the closed flag the
/// consumer sets when it goes away.
pub struct Handoff {
    items: Vec<String>,
    capacity: usize,
    closed: bool,
}

impl Handoff {
    /// The queued fragments, oldest first.
    pub closed spec fn contents(&self) -> Seq<String> {
        self.items@
    }

    /// The fixed capacity the channel was created with.
    pub closed spec fn cap(&self) -> nat {
        self.capacity as nat
    }

    /// Whether the consumer has closed the channel.
    pub closed spec fn is_closed(&self) -> bool {
        self.closed
    }

    /// The channel's invariant: never over capacity.
    pub open spec fn inv(&self) -> bool {
        self.contents().len() <= self.cap() && self.cap() > 0
    }

    /// An open, empty channel of the given capacity.
    pub fn new(capacity: usize) -> (h: Handoff)
        requires
            capacity > 0,
        ensures
            h.inv(),
            h.contents().len() == 0,
            !h.is_closed(),
            h.cap() == capacity,
    {
        Handoff { items: Vec::new(), capacity, closed: false }
    }

    /// How many fragments wait in the channel.
    pub fn len(&self) -> (n: usize)
        ensures
            n == self.contents().len(),
    {
        self.items.len()
    }

    /// Whether the consumer has closed the channel.
    pub fn has_closed(&self) -> (r: bool)
        ensures
            r == self.is_closed(),
    {
        self.closed
    }

    /// The producer offers one fragment.  Queued when there is room;
    /// refused as `Full` when there is none, so the producer blocks
    /// rather than drop it; refused as `Disconnected` once the consumer
    /// has closed the channel, so the producer stops promptly.
    pub fn try_push(&mut self, fragment: String) -> (r: PushOutcome)
        requires
            old(self).inv(),
        ensures
            final(self).inv(),
            final(self).cap() == old(self).cap(),
            final(self).is_closed() == old(self).is_closed(),
            old(self).is_closed() ==> r == PushOutcome::Disconnected && *final(self) == *old(self),
            !old(self).is_closed() && old(self).contents().len() == old(self).cap() ==> r
                == PushOutcome::Full && *final(self) == *old(self),
            !old(self).is_closed() && old(self).contents().len() < old(self).cap() ==> r
                == PushOutcome::Accepted && final(self).contents() == old(self).contents().push(fragment),
    {
        if self.closed {
            PushOutcome::Disconnected
        } else if self.items.len() == self.capacity {
            PushOutcome::Full
        } else {
            self.items.push(fragment);
            PushOutcome::Accepted
        }
    }

    /// The consumer takes the oldest fragment, if any: first in, first
    /// out, no reordering.
    pub fn pop(&mut self) -> (r: Option<String>)
        requires
            old(self).inv(),
        ensures
            final(self).inv(),
            final(self).cap() == old(self).cap(),
            final(self).is_closed() == old(self).is_closed(),
            old(self).contents().len() == 0 ==> r is None && *final(self) == *old(self),
            old(self).contents().len() > 0 ==> (r == Some(old(self).contents()[0]) && final(self).contents() == old(self).contents().drop_first()),
    {
        if self.items.len() == 0 {
            None
        } else {
            let item = self.items.remove(0);
            proof {
                assert(old(self).contents().remove(0) =~= old(self).contents().drop_first());
            }
            Some(item)
        }
    }

    /// The consumer leaves: every later push is refused as
    /// `Disconnected`.  What is already queued stays readable.
    pub fn close(&mut self)
        requires
            old(self).inv(),
        ensures
            final(self).inv(),
            final(self).cap() == old(self).cap(),
            final(self).is_closed(),
            final(self).contents() == old(self).contents(),
    {
        self.closed = true;
    }
}

} // verus!
