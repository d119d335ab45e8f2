//! The bidirectional chat call.
//!
//! The relay of a chat is a state machine. It reads one inbound message,
//! pushes the reply to it, and only then reads the next, so replies leave
//! in the order in which the messages came.

use crate::messages::{reply_to, ChatMessage, ChatText};
use crate::outbound::{capacity_allowed, Outbound};
use crate::status::CallError;
use vstd::prelude::*;

verus! {

/// What happened to the read or the push that the relay asked for.
#[derive(Clone, Debug, PartialEq, Eq)]
pub enum RelayEvent {
    /// The peer sent this message.
    Inbound(ChatMessage),
    /// The peer closed its sending side.
    InboundClosed,
    /// The inbound stream broke.
    InboundFailed,
    /// The channel took the reply.
    Accepted,
    /// The push failed: nobody reads the channel any more.
    Refused,
}

/// What a relay event holds.
pub enum RelayInput {
    Inbound(ChatText),
    InboundClosed,
    InboundFailed,
    Accepted,
    Refused,
}

impl View for RelayEvent {
    type V = RelayInput;

    open spec fn view(&self) -> RelayInput {
        match self {
            RelayEvent::Inbound(message) => RelayInput::Inbound(message@),
            RelayEvent::InboundClosed => RelayInput::InboundClosed,
            RelayEvent::InboundFailed => RelayInput::InboundFailed,
            RelayEvent::Accepted => RelayInput::Accepted,
            RelayEvent::Refused => RelayInput::Refused,
        }
    }
}

/// What the relay asks its task to do next.
#[derive(Clone, Debug, PartialEq, Eq)]
pub enum RelayAction {
    /// Wait for the next inbound message or the end of the inbound stream.
    Read,
    /// Push this reply into the outbound channel, waiting while it is full.
    Send(ChatMessage),
    /// Drop the sending end of the channel and exit.
    Close,
}

/// What a relay action holds.
pub enum RelayStep {
    Read,
    Send(ChatText),
    Close,
}

impl View for RelayAction {
    type V = RelayStep;

    open spec fn view(&self) -> RelayStep {
        match self {
            RelayAction::Read => RelayStep::Read,
            RelayAction::Send(reply) => RelayStep::Send(reply@),
            RelayAction::Close => RelayStep::Close,
        }
    }
}

/// The state of a relay.
pub enum RelayState {
    /// The relay waits for the next inbound message.
    Reading,
    /// The relay waits for the channel to take this reply.
    Replying(ChatText),
    /// The relay has ended.
    Closed,
}

impl RelayState {
    /// The state after `input`.
    ///
    /// A message that arrives while the relay reads makes it push the
    /// reply to that message; the end or the failure of the inbound stream
    /// closes it. An accepted reply makes it read again; a refused one
    /// closes it. An input that does not answer what the relay is waiting
    /// for closes it, and nothing moves a relay that has closed.
    pub open spec fn next(self, input: RelayInput) -> RelayState {
        match (self, input) {
            (RelayState::Reading, RelayInput::Inbound(message)) => RelayState::Replying(
                reply_to(message),
            ),
            (RelayState::Replying(_), RelayInput::Accepted) => RelayState::Reading,
            _ => RelayState::Closed,
        }
    }

    /// What the relay asks for in this state.
    pub open spec fn action(self) -> RelayStep {
        match self {
            RelayState::Reading => RelayStep::Read,
            RelayState::Replying(reply) => RelayStep::Send(reply),
            RelayState::Closed => RelayStep::Close,
        }
    }
}

/// Where a relay stands, with the reply that it holds.
#[derive(Debug, PartialEq, Eq)]
enum Stage {
    Reading,
    Replying(ChatMessage),
    Closed,
}

/// The relay of one chat.
#[derive(Debug, PartialEq, Eq)]
pub struct ChatRelay {
    stage: Stage,
}

impl View for ChatRelay {
    type V = RelayState;

    closed spec fn view(&self) -> RelayState {
        match self.stage {
            Stage::Reading => RelayState::Reading,
            Stage::Replying(reply) => RelayState::Replying(reply@),
            Stage::Closed => RelayState::Closed,
        }
    }
}

impl ChatRelay {
    /// A relay that waits for the first inbound message.
    pub fn new() -> (relay: ChatRelay)
        ensures
            relay@ == RelayState::Reading,
    {
        ChatRelay { stage: Stage::Reading }
    }

    /// Whether the relay has ended.
    pub fn is_closed(&self) -> (done: bool)
        ensures
            done == (self@ == RelayState::Closed),
    {
        match &self.stage {
            Stage::Closed => true,
            _ => false,
        }
    }

    /// The action that the relay asks for now.
    pub fn pending(&self) -> (action: RelayAction)
        ensures
            action@ == self@.action(),
    {
        match &self.stage {
            Stage::Reading => RelayAction::Read,
            Stage::Replying(reply) => RelayAction::Send(reply.duplicate()),
            Stage::Closed => RelayAction::Close,
        }
    }

    /// Takes the outcome of the action that was asked for, moves to the
    /// next state and returns the action to perform then.
    pub fn advance(&mut self, event: RelayEvent) -> (action: RelayAction)
        ensures
            final(self)@ == old(self)@.next(event@),
            action@ == final(self)@.action(),
    {
        let stage = match (&self.stage, &event) {
            (Stage::Reading, RelayEvent::Inbound(message)) => Stage::Replying(message.reply()),
            (Stage::Replying(_), RelayEvent::Accepted) => Stage::Reading,
            _ => Stage::Closed,
        };
        self.stage = stage;
        self.pending()
    }
}

/// How many replies the outbound channel of a chat buffers.
pub const CHAT_CAPACITY: usize = 10;

/// One chat as its handler opens it: the relay and its outbound channel.
#[derive(Debug)]
pub struct ChatStream {
    /// The relay that decides what is read and pushed.
    pub relay: ChatRelay,
    /// The channel that the task of the relay pushes into.
    pub outbound: Outbound<ChatMessage>,
}

impl ChatStream {
    /// Opens a chat behind a channel of its own that buffers `capacity`
    /// replies: its relay waits for the first inbound message. A capacity
    /// that is not allowed gets no chat and no channel, but an internal
    /// error.
    pub fn open(capacity: usize) -> (stream: Result<ChatStream, CallError>)
        ensures
            capacity_allowed(capacity) ==> stream is Ok && stream->Ok_0.relay@
                == RelayState::Reading && stream->Ok_0.outbound.capacity == capacity,
            !capacity_allowed(capacity) ==> stream is Err && stream->Err_0 == CallError::Internal,
    {
        match Outbound::open(capacity) {
            Some(outbound) => Ok(ChatStream { relay: ChatRelay::new(), outbound }),
            None => Err(CallError::Internal),
        }
    }
}

/// The chat handler. It holds no state, so one value serves any number of
/// concurrent calls.
#[derive(Clone, Copy, Debug, Default)]
pub struct MyChatService;

impl MyChatService {
    /// Opens one chat: every call gets a relay of its own, which waits for
    /// the first inbound message, behind a channel of its own of the
    /// standard capacity.
    pub fn chat(&self) -> (stream: Result<ChatStream, CallError>)
        ensures
            stream is Ok,
            stream->Ok_0.relay@ == RelayState::Reading,
            stream->Ok_0.outbound.capacity == CHAT_CAPACITY,
    {
        ChatStream::open(CHAT_CAPACITY)
    }
}

} // verus!
