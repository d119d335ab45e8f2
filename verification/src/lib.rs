//! The per-call execution model of a small RPC endpoint with one unary
//! call (a payment), one server-streaming call (a transaction history) and
//! one bidirectional call (a chat).
//!
//! A streaming call is served by a task of its own, which pushes into a
//! bounded channel that the transport drains at its own pace. What that task
//! pushes, when it pauses and when it ends is decided here, by a state
//! machine that takes the outcome of one action and returns the next; the
//! task only performs the actions. A push that fails because the consumer
//! has gone away is the one signal that ends a stream early.
//!
//! - [`messages`], [`text`]: the messages of the calls and how they are built.
//! - [`payment`], [`history`], [`chat`]: the three handlers, with the producer
//!   of a history stream and the relay of a chat.
//! - [`outbound`]: the channel of a streaming call, as the runtime makes it.
//! - [`router`], [`status`]: from a method identifier to the session of a call.
//! - [`channel`], [`history_call`], [`chat_call`]: a model of a call as a
//!   whole, with its channel and its consumer, and what is proved of it:
//!   streams arrive complete and in order, production stops within one
//!   buffer of a disconnection, and calls do not touch each other.

pub mod channel;
pub mod chat;
pub mod chat_call;
pub mod history;
pub mod history_call;
pub mod messages;
pub mod outbound;
pub mod payment;
pub mod router;
pub mod status;
pub mod text;
