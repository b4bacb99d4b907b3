//! The bounded, single-producer/single-consumer conduit that carries
//! detection events from the polling loop to the distribution loop.
//!
//! The channel records, as ghost state, the full history of events it
//! accepted and the history it handed out, so that delivery order can be
//! stated and proved: what has been delivered is always a prefix of what was
//! accepted, in the same order (first in, first out).

use vstd::prelude::*;

use crate::DetectionEvent;

verus! {

/// How many detection events may wait in the channel before back-pressure
/// sets in. Sized to tolerate brief consumer stalls.
pub const EVENT_CHANNEL_CAPACITY: usize = 32;

/// A bounded FIFO queue of [`DetectionEvent`]s with an explicit producer-side
/// shutdown signal. When the queue is full, an incoming event is dropped
/// (the newest one; this is documented behavior, not silent corruption).
pub struct EventChannel {
    items: Vec<DetectionEvent>,
    capacity: usize,
    producer_alive: bool,
    accepted: Ghost<Seq<DetectionEvent>>,
    delivered: Ghost<Seq<DetectionEvent>>,
}

impl EventChannel {
    /// Events currently queued, oldest first.
    pub closed spec fn queued(&self) -> Seq<DetectionEvent> {
        self.items@
    }

    /// Every event the channel ever accepted, oldest first.
    pub closed spec fn accepted(&self) -> Seq<DetectionEvent> {
        self.accepted@
    }

    /// Every event the channel ever handed to the consumer, oldest first.
    pub closed spec fn delivered(&self) -> Seq<DetectionEvent> {
        self.delivered@
    }

    /// Whether the producer side is still open.
    pub closed spec fn producer_alive(&self) -> bool {
        self.producer_alive
    }

    /// The bound the channel was created with.
    pub closed spec fn capacity(&self) -> usize {
        self.capacity
    }

    /// The channel's internal consistency: the accepted history is exactly
    /// the delivered history followed by what still waits in the queue, and
    /// the queue respects the bound.
    pub closed spec fn well_formed(&self) -> bool {
        &&& self.accepted@ == self.delivered@ + self.items@
        &&& self.items@.len() <= self.capacity
        &&& self.capacity >= 1
    }

    /// A fresh, open, empty channel with the given bound.
    pub fn new(capacity: usize) -> (r: EventChannel)
        requires
            capacity >= 1,
        ensures
            r.well_formed(),
            r.queued() =~= Seq::<DetectionEvent>::empty(),
            r.accepted() =~= Seq::<DetectionEvent>::empty(),
            r.delivered() =~= Seq::<DetectionEvent>::empty(),
            r.producer_alive(),
            r.capacity() == capacity,
    {
        EventChannel {
            items: Vec::new(),
            capacity,
            producer_alive: true,
            accepted: Ghost(Seq::empty()),
            delivered: Ghost(Seq::empty()),
        }
    }

    /// Offer an event to the channel. Returns `true` when the event was
    /// queued; when the queue is full the event is dropped and `false` comes
    /// back, so a slow consumer can never block or corrupt the producer.
    pub fn push(&mut self, event: DetectionEvent) -> (r: bool)
        requires
            old(self).well_formed(),
            old(self).producer_alive(),
        ensures
            final(self).well_formed(),
            final(self).capacity() == old(self).capacity(),
            final(self).producer_alive(),
            final(self).delivered() == old(self).delivered(),
            r == (old(self).queued().len() < old(self).capacity()),
            r ==> final(self).queued() == old(self).queued().push(event)
                && final(self).accepted() == old(self).accepted().push(event),
            !r ==> final(self).queued() == old(self).queued()
                && final(self).accepted() == old(self).accepted(),
    {
        if self.items.len() < self.capacity {
            self.accepted = Ghost(self.accepted@.push(event));
            self.items.push(event);
            true
        } else {
            false
        }
    }

    /// Take the oldest waiting event, if any.
    pub fn pop(&mut self) -> (r: Option<DetectionEvent>)
        requires
            old(self).well_formed(),
        ensures
            final(self).well_formed(),
            final(self).capacity() == old(self).capacity(),
            final(self).producer_alive() == old(self).producer_alive(),
            final(self).accepted() == old(self).accepted(),
            old(self).queued().len() == 0 ==> r is None && *final(self) == *old(self),
            old(self).queued().len() > 0 ==> r == Some(old(self).queued()[0])
                && final(self).queued() == old(self).queued().drop_first()
                && final(self).delivered() == old(self).delivered().push(old(self).queued()[0]),
    {
        if self.items.len() == 0 {
            None
        } else {
            let event = self.items.remove(0);
            self.delivered = Ghost(self.delivered@.push(event));
            proof {
                assert(self.items@ =~= old(self).items@.drop_first());
                assert(self.accepted@ =~= self.delivered@ + self.items@);
            }
            Some(event)
        }
    }

    /// The same channel with the producer side closed; what
    /// [`EventChannel::close_producer`] leaves behind.
    pub closed spec fn with_closed_producer(self) -> EventChannel {
        EventChannel { producer_alive: false, ..self }
    }

    /// Close the producer side: the shutdown signal to the consumer. Already
    /// queued events stay and can still be drained.
    pub fn close_producer(&mut self)
        requires
            old(self).well_formed(),
        ensures
            *final(self) == old(self).with_closed_producer(),
            final(self).well_formed(),
            final(self).capacity() == old(self).capacity(),
            !final(self).producer_alive(),
            final(self).queued() == old(self).queued(),
            final(self).accepted() == old(self).accepted(),
            final(self).delivered() == old(self).delivered(),
    {
        self.producer_alive = false;
    }

    /// How many events wait in the queue.
    pub fn len(&self) -> (r: usize)
        ensures
            r == self.queued().len(),
    {
        self.items.len()
    }

    /// Whether the producer side is still open.
    pub fn is_producer_alive(&self) -> (r: bool)
        ensures
            r == self.producer_alive(),
    {
        self.producer_alive
    }
}

/// Closing the producer changes nothing but the producer flag: the bound,
/// the queue, and both histories stay, and well-formedness is kept.
pub proof fn lemma_with_closed_producer(c: EventChannel)
    ensures
        !c.with_closed_producer().producer_alive(),
        c.with_closed_producer().capacity() == c.capacity(),
        c.with_closed_producer().queued() == c.queued(),
        c.with_closed_producer().accepted() == c.accepted(),
        c.with_closed_producer().delivered() == c.delivered(),
        c.well_formed() ==> c.with_closed_producer().well_formed(),
{
}

/// Delivery is first in, first out: at every point in a channel's life, the
/// events handed to the consumer are exactly the oldest accepted events, in
/// the order they were accepted — no reordering, no duplication, no loss of
/// a queued event.
pub proof fn lemma_fifo_delivery(c: &EventChannel)
    requires
        c.well_formed(),
    ensures
        c.delivered() =~= c.accepted().take(c.delivered().len() as int),
        c.accepted().len() == c.delivered().len() + c.queued().len(),
{
}

} // verus!
