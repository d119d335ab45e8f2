//! The bounded channel between the task that produces a stream and the
//! transport that consumes it, as a mathematical model.
//!
//! The channel buffers at most `capacity` items, hands them out in the
//! order in which they came, makes the producer wait while it is full, and
//! refuses every push once the consumer has gone away.

use vstd::prelude::*;

verus! {

/// A bounded channel from one producer to one consumer.
pub struct Channel<T> {
    /// How many items the channel buffers at most.
    pub capacity: nat,
    /// The items that were pushed and not yet taken, oldest first.
    pub queue: Seq<T>,
    /// Whether the consumer has gone away.
    pub closed: bool,
}

/// How a push goes.
pub enum Offer {
    /// There is room: the channel takes the item.
    Accepted,
    /// The consumer has gone away: the push fails.
    Refused,
    /// The channel is full: the producer waits.
    Blocked,
}

impl<T> Channel<T> {
    /// An empty channel with a consumer.
    pub open spec fn open(capacity: nat) -> Channel<T> {
        Channel { capacity, queue: Seq::empty(), closed: false }
    }

    /// The channel buffers no more than its capacity.
    pub open spec fn bounded(self) -> bool {
        self.queue.len() <= self.capacity
    }

    /// How a push would go now.
    pub open spec fn offer(self) -> Offer {
        if self.closed {
            Offer::Refused
        } else if self.queue.len() < self.capacity {
            Offer::Accepted
        } else {
            Offer::Blocked
        }
    }

    /// The channel after a push of `item`: it holds the item last if the
    /// push is accepted, and is unchanged otherwise.
    pub open spec fn push(self, item: T) -> Channel<T> {
        if self.offer() is Accepted {
            Channel { queue: self.queue.push(item), ..self }
        } else {
            self
        }
    }

    /// Whether the consumer can take an item now.
    pub open spec fn ready(self) -> bool {
        !self.closed && self.queue.len() > 0
    }

    /// The channel after the consumer took the oldest item.
    pub open spec fn take(self) -> Channel<T> {
        if self.ready() {
            Channel { queue: self.queue.drop_first(), ..self }
        } else {
            self
        }
    }

    /// The channel after the consumer went away. What it still buffers is
    /// never taken.
    pub open spec fn disconnect(self) -> Channel<T> {
        Channel { closed: true, ..self }
    }
}

} // verus!
