//! The outbound channel of a streaming call. The asynchronous runtime makes
//! it; the task of the call pushes into one end, and the transport reads the
//! stream from the other.

use vstd::prelude::*;

verus! {

/// The sending end of a bounded channel of the runtime,
/// `tokio::sync::mpsc::Sender`. Nothing is known of what is inside.
#[verifier::external_type_specification]
#[verifier::external_body]
#[verifier::reject_recursive_types(T)]
pub struct ExSender<T>(tokio::sync::mpsc::Sender<T>);

/// The receiving end of a bounded channel of the runtime,
/// `tokio::sync::mpsc::Receiver`. Nothing is known of what is inside.
#[verifier::external_type_specification]
#[verifier::external_body]
#[verifier::reject_recursive_types(T)]
pub struct ExReceiver<T>(tokio::sync::mpsc::Receiver<T>);

/// The largest capacity that a channel can be made with: the largest
/// `usize` without its three highest bits.
pub const CAPACITY_LIMIT: usize = usize::MAX / 8;

/// Whether a channel can be made with this capacity: it holds at least one
/// item, and no more than the limit.
pub open spec fn capacity_allowed(capacity: usize) -> bool {
    0 < capacity <= CAPACITY_LIMIT
}

/// Makes a bounded channel and returns its sending and its receiving end.
///
/// Calls `tokio::sync::mpsc::channel`. That function panics on a capacity
/// of zero and on one above the number of permits that a semaphore of the
/// runtime can hold, which is `CAPACITY_LIMIT`; both are left out. Nothing
/// is claimed of the two ends: what a channel holds changes under the
/// hands of whoever holds the other end.
#[verifier::external_body]
fn open_channel<T>(capacity: usize) -> (ends: (
    tokio::sync::mpsc::Sender<T>,
    tokio::sync::mpsc::Receiver<T>,
))
    requires
        capacity_allowed(capacity),
{
    tokio::sync::mpsc::channel(capacity)
}

/// Whether a channel can be made with this capacity.
pub fn is_capacity_allowed(capacity: usize) -> (ok: bool)
    ensures
        ok == capacity_allowed(capacity),
{
    0 < capacity && capacity <= CAPACITY_LIMIT
}

/// The outbound channel of one streaming call.
#[derive(Debug)]
#[verifier::reject_recursive_types(T)]
pub struct Outbound<T> {
    /// The capacity that the channel was made with.
    pub capacity: usize,
    /// The sending end, for the task of the call. A push waits while the
    /// channel is full, and fails once the receiving end is gone.
    pub sink: tokio::sync::mpsc::Sender<T>,
    /// The receiving end, for the transport.
    pub source: tokio::sync::mpsc::Receiver<T>,
}

impl<T> Outbound<T> {
    /// Makes a channel of its own for one call, with room for `capacity`
    /// items. A capacity that is not allowed gets none.
    pub fn open(capacity: usize) -> (outbound: Option<Outbound<T>>)
        ensures
            outbound is Some <==> capacity_allowed(capacity),
            outbound is Some ==> outbound->0.capacity == capacity,
    {
        if is_capacity_allowed(capacity) {
            let (sink, source) = open_channel(capacity);
            Some(Outbound { capacity, sink, source })
        } else {
            None
        }
    }
}

} // verus!
