//! A chat as a whole: the peer that sends, the relay, its outbound channel
//! and the consumer, and what holds however their steps interleave.

use crate::channel::{Channel, Offer};
use crate::chat::{RelayInput, RelayState, RelayStep};
use crate::messages::{reply_to, ChatText};
use vstd::prelude::*;

verus! {

/// The replies to `messages`, one for each and in the same order.
pub open spec fn replies(messages: Seq<ChatText>) -> Seq<ChatText> {
    Seq::new(messages.len(), |index: int| reply_to(messages[index]))
}

/// One chat.
pub struct ChatCall {
    /// The relay task.
    pub relay: RelayState,
    /// The messages that the peer has sent and the relay has not read yet,
    /// oldest first.
    pub inbound: Seq<ChatText>,
    /// Whether the peer has closed its sending side.
    pub peer_closed: bool,
    /// Whether a read of the inbound stream has failed.
    pub broken: bool,
    /// The messages that the relay has read, in order.
    pub read: Seq<ChatText>,
    /// The outbound channel.
    pub channel: Channel<ChatText>,
    /// The replies that the consumer has taken, in order.
    pub received: Seq<ChatText>,
}

/// What can happen next in a chat.
pub enum ChatStep {
    /// The peer sends this message.
    PeerSend(ChatText),
    /// The peer closes its sending side.
    PeerClose,
    /// The relay task reads the inbound stream, as the relay asks.
    Read,
    /// The relay task reads the inbound stream, and the read fails.
    ReadFails,
    /// The relay task attempts the push that the relay asks for.
    Push,
    /// The consumer takes the oldest buffered reply.
    Receive,
    /// The consumer goes away.
    Disconnect,
}

impl ChatCall {
    /// The chat as its handler opens it, behind a channel that buffers
    /// `capacity` replies.
    pub open spec fn open(capacity: nat) -> ChatCall {
        ChatCall {
            relay: RelayState::Reading,
            inbound: Seq::empty(),
            peer_closed: false,
            broken: false,
            read: Seq::empty(),
            channel: Channel::open(capacity),
            received: Seq::empty(),
        }
    }

    /// The chat after `step`. A step that cannot happen now (a message from
    /// a peer that has closed, a read while a reply is outstanding or while
    /// nothing has arrived, a push while the relay reads or the channel is
    /// full, a take from an empty channel) leaves it unchanged.
    pub open spec fn step(self, step: ChatStep) -> ChatCall {
        match step {
            ChatStep::PeerSend(message) => if self.peer_closed {
                self
            } else {
                ChatCall { inbound: self.inbound.push(message), ..self }
            },
            ChatStep::PeerClose => ChatCall { peer_closed: true, ..self },
            ChatStep::Read => if self.relay.action() != RelayStep::Read {
                self
            } else if self.inbound.len() > 0 {
                ChatCall {
                    relay: self.relay.next(RelayInput::Inbound(self.inbound.first())),
                    inbound: self.inbound.drop_first(),
                    read: self.read.push(self.inbound.first()),
                    ..self
                }
            } else if self.peer_closed {
                ChatCall { relay: self.relay.next(RelayInput::InboundClosed), ..self }
            } else {
                self
            },
            ChatStep::ReadFails => if self.relay.action() != RelayStep::Read {
                self
            } else {
                ChatCall {
                    relay: self.relay.next(RelayInput::InboundFailed),
                    broken: true,
                    ..self
                }
            },
            ChatStep::Push => match (self.relay.action(), self.channel.offer()) {
                (RelayStep::Send(reply), Offer::Accepted) => ChatCall {
                    relay: self.relay.next(RelayInput::Accepted),
                    channel: self.channel.push(reply),
                    ..self
                },
                (RelayStep::Send(_), Offer::Refused) => ChatCall {
                    relay: self.relay.next(RelayInput::Refused),
                    ..self
                },
                _ => self,
            },
            ChatStep::Receive => if self.channel.ready() {
                ChatCall {
                    channel: self.channel.take(),
                    received: self.received.push(self.channel.queue.first()),
                    ..self
                }
            } else {
                self
            },
            ChatStep::Disconnect => ChatCall { channel: self.channel.disconnect(), ..self },
        }
    }

    /// The chat after `steps`, in order.
    pub open spec fn run(self, steps: Seq<ChatStep>) -> ChatCall
        decreases steps.len(),
    {
        if steps.len() == 0 {
            self
        } else {
            self.run(steps.drop_last()).step(steps.last())
        }
    }

    /// The replies that the channel has accepted, in order: those taken and
    /// then those buffered.
    pub open spec fn accepted(self) -> Seq<ChatText> {
        self.received + self.channel.queue
    }

    /// What holds of a chat at every moment: the channel stays within its
    /// bound; while the relay reads, every message read has its reply
    /// accepted; while it pushes, it holds the reply to the message read
    /// last and the earlier ones have theirs accepted; and a relay that
    /// closed while the consumer was there has lost no reply, and closed
    /// because the inbound stream ended or broke.
    pub open spec fn sound(self) -> bool {
        &&& self.channel.bounded()
        &&& match self.relay {
            RelayState::Reading => self.accepted() == replies(self.read),
            RelayState::Replying(reply) => {
                &&& self.read.len() > 0
                &&& reply == reply_to(self.read.last())
                &&& self.accepted() == replies(self.read.drop_last())
            },
            RelayState::Closed => {
                ||| self.accepted() == replies(self.read)
                ||| self.read.len() > 0 && self.channel.closed && self.accepted() == replies(
                    self.read.drop_last(),
                )
            },
        }
        &&& self.relay == RelayState::Closed && !self.channel.closed && !self.broken
            ==> self.peer_closed && self.inbound.len() == 0
    }

    /// A step keeps a sound chat sound, and never changes the capacity.
    pub proof fn lemma_step_sound(self, step: ChatStep)
        requires
            self.sound(),
        ensures
            self.step(step).sound(),
            self.step(step).channel.capacity == self.channel.capacity,
    {
        let after = self.step(step);
        match step {
            ChatStep::Read => {
                if self.relay == RelayState::Reading && self.inbound.len() > 0 {
                    assert(after.read.drop_last() =~= self.read);
                }
            },
            ChatStep::Push => {
                if let RelayState::Replying(reply) = self.relay {
                    if self.channel.offer() is Accepted {
                        assert(self.read =~= self.read.drop_last().push(self.read.last()));
                        assert(replies(self.read) =~= replies(self.read.drop_last()).push(reply));
                        assert(after.accepted() =~= self.accepted().push(reply));
                    }
                }
            },
            ChatStep::Receive => {
                if self.channel.ready() {
                    assert(after.accepted() =~= self.accepted());
                }
            },
            _ => {},
        }
    }

    /// Every chat that was opened and then ran is sound.
    pub proof fn lemma_run_sound(capacity: nat, steps: Seq<ChatStep>)
        ensures
            Self::open(capacity).run(steps).sound(),
            Self::open(capacity).run(steps).channel.capacity == capacity,
        decreases steps.len(),
    {
        if steps.len() == 0 {
            assert(Self::open(capacity).accepted() =~= replies(Seq::empty()));
        } else {
            Self::lemma_run_sound(capacity, steps.drop_last());
            Self::open(capacity).run(steps.drop_last()).lemma_step_sound(steps.last());
        }
    }

    /// Running one step more is running the steps and then that step.
    pub proof fn lemma_run_push(self, steps: Seq<ChatStep>, step: ChatStep)
        ensures
            self.run(steps.push(step)) == self.run(steps).step(step),
    {
        assert(steps.push(step).drop_last() =~= steps);
    }
}

/// The steps of a chat in which the peer sends `messages` one by one and
/// waits for the reply to each before it sends the next: for each message
/// the peer's send, the relay's read and push, and the consumer's take.
pub open spec fn exchange(messages: Seq<ChatText>) -> Seq<ChatStep>
    decreases messages.len(),
{
    if messages.len() == 0 {
        Seq::empty()
    } else {
        exchange(messages.drop_last()).push(ChatStep::PeerSend(messages.last())).push(
            ChatStep::Read,
        ).push(ChatStep::Push).push(ChatStep::Receive)
    }
}

/// The steps of a whole conversation: the exchange of `messages`, then the
/// peer closes its sending side and the relay reads the end of the stream.
pub open spec fn conversation(messages: Seq<ChatText>) -> Seq<ChatStep> {
    exchange(messages).push(ChatStep::PeerClose).push(ChatStep::Read)
}

impl ChatCall {
    /// The channel holds the relay back: however slow the consumer is, the
    /// channel never buffers more replies than its capacity.
    pub proof fn law_channel_is_bounded(capacity: nat, steps: Seq<ChatStep>)
        ensures
            Self::open(capacity).run(steps).channel.queue.len() <= capacity,
    {
        Self::lemma_run_sound(capacity, steps);
    }

    /// Replies leave in the order in which the messages came: however the
    /// steps of a chat interleave, the consumer holds no more replies than
    /// the relay has read messages, and its reply at each place is the
    /// reply to the message read at that place.
    pub proof fn law_replies_in_order(capacity: nat, steps: Seq<ChatStep>)
        ensures
            ({
                let call = Self::open(capacity).run(steps);
                &&& call.received.len() <= call.read.len()
                &&& forall|index: int|
                    0 <= index < call.received.len() ==> #[trigger] call.received[index]
                        == reply_to(call.read[index])
            }),
    {
        let call = Self::open(capacity).run(steps);
        Self::lemma_run_sound(capacity, steps);
        assert(call.received.len() <= call.accepted().len());
        assert forall|index: int|
            0 <= index < call.received.len() implies #[trigger] call.received[index] == reply_to(
            call.read[index],
        ) by {
            assert(call.accepted()[index] == call.received[index]);
            if call.accepted() == replies(call.read) {
                assert(replies(call.read)[index] == reply_to(call.read[index]));
            } else {
                assert(replies(call.read.drop_last())[index] == reply_to(
                    call.read.drop_last()[index],
                ));
            }
        }
    }

    /// A chat that ends while its consumer is there has answered every
    /// message: once the relay has closed and the consumer, who never went
    /// away, has emptied the channel, the consumer holds exactly one reply
    /// for each message that the relay read, in the same order. Unless the
    /// inbound stream broke, the relay had by then read every message that
    /// the peer sent, and the peer had closed its sending side.
    pub proof fn law_closed_chat_is_answered(capacity: nat, steps: Seq<ChatStep>)
        requires
            Self::open(capacity).run(steps).relay == RelayState::Closed,
            !Self::open(capacity).run(steps).channel.closed,
            Self::open(capacity).run(steps).channel.queue.len() == 0,
        ensures
            Self::open(capacity).run(steps).received == replies(
                Self::open(capacity).run(steps).read,
            ),
            Self::open(capacity).run(steps).received.len() == Self::open(capacity).run(
                steps,
            ).read.len(),
            !Self::open(capacity).run(steps).broken ==> Self::open(capacity).run(
                steps,
            ).peer_closed && Self::open(capacity).run(steps).inbound.len() == 0,
    {
        let call = Self::open(capacity).run(steps);
        Self::lemma_run_sound(capacity, steps);
        assert(call.accepted() =~= call.received);
    }

    /// Where the chat stands once `messages` have been exchanged.
    proof fn lemma_exchange(capacity: nat, messages: Seq<ChatText>)
        requires
            capacity > 0,
        ensures
            Self::open(capacity).run(exchange(messages)) == (ChatCall {
                read: messages,
                received: replies(messages),
                ..Self::open(capacity)
            }),
        decreases messages.len(),
    {
        let opened = Self::open(capacity);
        if messages.len() == 0 {
            assert(opened.read =~= messages);
            assert(opened.received =~= replies(messages));
        } else {
            let earlier = messages.drop_last();
            let message = messages.last();
            Self::lemma_exchange(capacity, earlier);
            let steps = exchange(earlier);
            let start = opened.run(steps);
            let said = start.step(ChatStep::PeerSend(message));
            let read = said.step(ChatStep::Read);
            let pushed = read.step(ChatStep::Push);
            let taken = pushed.step(ChatStep::Receive);
            opened.lemma_run_push(steps, ChatStep::PeerSend(message));
            opened.lemma_run_push(steps.push(ChatStep::PeerSend(message)), ChatStep::Read);
            opened.lemma_run_push(
                steps.push(ChatStep::PeerSend(message)).push(ChatStep::Read),
                ChatStep::Push,
            );
            opened.lemma_run_push(
                steps.push(ChatStep::PeerSend(message)).push(ChatStep::Read).push(ChatStep::Push),
                ChatStep::Receive,
            );
            assert(said.inbound =~= seq![message]);
            assert(read.inbound =~= Seq::empty());
            assert(read.read =~= messages);
            assert(read.relay == RelayState::Replying(reply_to(message)));
            assert(read.channel.offer() is Accepted);
            assert(pushed.channel.queue =~= seq![reply_to(message)]);
            assert(taken.channel.queue =~= Seq::empty());
            assert(taken.received =~= replies(messages));
        }
    }

    /// Every message is answered, once and in order: behind a channel that
    /// holds at least one reply, the conversation in which the peer sends
    /// `messages` and then closes ends with the relay closed, the channel
    /// empty and the consumer holding exactly the replies to `messages`, as
    /// many as there were messages. A conversation without any message ends
    /// the same way, with no reply at all.
    pub proof fn law_conversation_is_answered(capacity: nat, messages: Seq<ChatText>)
        requires
            capacity > 0,
        ensures
            Self::open(capacity).run(conversation(messages)).received == replies(messages),
            Self::open(capacity).run(conversation(messages)).received.len() == messages.len(),
            Self::open(capacity).run(conversation(messages)).relay == RelayState::Closed,
            Self::open(capacity).run(conversation(messages)).channel.queue.len() == 0,
            !Self::open(capacity).run(conversation(messages)).channel.closed,
            !Self::open(capacity).run(conversation(messages)).broken,
    {
        let opened = Self::open(capacity);
        Self::lemma_exchange(capacity, messages);
        opened.lemma_run_push(exchange(messages), ChatStep::PeerClose);
        opened.lemma_run_push(exchange(messages).push(ChatStep::PeerClose), ChatStep::Read);
    }

    /// Once the consumer has gone away, no reply is accepted or taken any
    /// more, whatever steps follow.
    pub proof fn lemma_closed_stays(self, steps: Seq<ChatStep>)
        requires
            self.channel.closed,
        ensures
            self.run(steps).channel.closed,
            self.run(steps).channel.queue == self.channel.queue,
            self.run(steps).received == self.received,
        decreases steps.len(),
    {
        if steps.len() > 0 {
            self.lemma_closed_stays(steps.drop_last());
        }
    }

    /// A chat stops within one reply of a disconnection: if the consumer
    /// goes away, then whatever happens afterwards the channel accepts no
    /// further reply, the consumer holds what it held, and the relay's next
    /// push attempt closes it.
    pub proof fn law_disconnect_closes_relay(
        capacity: nat,
        before: Seq<ChatStep>,
        after: Seq<ChatStep>,
    )
        ensures
            ({
                let seen = Self::open(capacity).run(before);
                let left = seen.step(ChatStep::Disconnect).run(after);
                &&& left.received == seen.received
                &&& left.channel.queue == seen.channel.queue
                &&& left.relay is Replying ==> left.step(ChatStep::Push).relay
                    == RelayState::Closed
                &&& left.step(ChatStep::Push).channel.queue == seen.channel.queue
            }),
    {
        let seen = Self::open(capacity).run(before);
        seen.step(ChatStep::Disconnect).lemma_closed_stays(after);
    }
}

} // verus!
