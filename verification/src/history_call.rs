//! A transaction history call as a whole: the producer, its outbound
//! channel and the consumer, and what holds however their steps interleave.

use crate::channel::{Channel, Offer};
use crate::history::{HistoryPlan, Phase, ProducerEvent, ProducerState, ProducerStep};
use crate::messages::{completed_record, TransactionRecord};
use vstd::prelude::*;

verus! {

/// The first `count` records of a history, in order.
pub open spec fn history(count: nat) -> Seq<TransactionRecord> {
    Seq::new(count, |index: int| completed_record(index as nat))
}

/// One history call.
pub struct HistoryCall {
    /// The producer task.
    pub producer: ProducerState,
    /// The outbound channel.
    pub channel: Channel<TransactionRecord>,
    /// The records that the consumer has taken, in order.
    pub received: Seq<TransactionRecord>,
}

/// What can happen next in a history call.
pub enum HistoryStep {
    /// The producer task attempts the push that the producer asks for.
    Push,
    /// The pause that the producer asked for ends.
    Elapse,
    /// The consumer takes the oldest buffered record.
    Receive,
    /// The consumer goes away.
    Disconnect,
}

impl HistoryCall {
    /// The call as its handler opens it.
    pub open spec fn open(plan: HistoryPlan) -> HistoryCall {
        HistoryCall {
            producer: ProducerState::initial(plan),
            channel: Channel::open(plan.capacity as nat),
            received: Seq::empty(),
        }
    }

    /// The call after `step`. A step that cannot happen now (a push while
    /// the producer pauses or the channel is full, the end of a pause that
    /// is not running, a take from an empty channel) leaves it unchanged.
    pub open spec fn step(self, step: HistoryStep) -> HistoryCall {
        match step {
            HistoryStep::Push => match (self.producer.action(), self.channel.offer()) {
                (ProducerStep::Send(record), Offer::Accepted) => HistoryCall {
                    producer: self.producer.next(ProducerEvent::Accepted),
                    channel: self.channel.push(record),
                    ..self
                },
                (ProducerStep::Send(_), Offer::Refused) => HistoryCall {
                    producer: self.producer.next(ProducerEvent::Refused),
                    ..self
                },
                _ => self,
            },
            HistoryStep::Elapse => if self.producer.phase == Phase::Pausing {
                HistoryCall { producer: self.producer.next(ProducerEvent::Elapsed), ..self }
            } else {
                self
            },
            HistoryStep::Receive => if self.channel.ready() {
                HistoryCall {
                    channel: self.channel.take(),
                    received: self.received.push(self.channel.queue.first()),
                    ..self
                }
            } else {
                self
            },
            HistoryStep::Disconnect => HistoryCall { channel: self.channel.disconnect(), ..self },
        }
    }

    /// The call after `steps`, in order.
    pub open spec fn run(self, steps: Seq<HistoryStep>) -> HistoryCall
        decreases steps.len(),
    {
        if steps.len() == 0 {
            self
        } else {
            self.run(steps.drop_last()).step(steps.last())
        }
    }

    /// What holds of a call at every moment: the channel stays within its
    /// bound, the records taken and the records buffered are together the
    /// first records of the history, as many as the channel has accepted,
    /// and a producer that finished while the consumer was there has
    /// pushed every record.
    pub open spec fn sound(self) -> bool {
        &&& self.producer.consistent()
        &&& self.channel.capacity == self.producer.plan.capacity
        &&& self.channel.bounded()
        &&& self.received + self.channel.queue == history(self.producer.sent)
        &&& self.producer.phase == Phase::Finished && !self.channel.closed ==> self.producer.sent
            == self.producer.plan.total
    }

    /// A step keeps a sound call sound, and never changes the plan.
    pub proof fn lemma_step_sound(self, step: HistoryStep)
        requires
            self.sound(),
        ensures
            self.step(step).sound(),
            self.step(step).producer.plan == self.producer.plan,
    {
        let after = self.step(step);
        let sent = self.producer.sent;
        match step {
            HistoryStep::Push => {
                if self.producer.phase == Phase::Sending && self.channel.offer() is Accepted {
                    assert(after.producer.sent == sent + 1);
                    assert(after.channel.queue == self.channel.queue.push(completed_record(sent)));
                    assert(history(sent + 1) =~= history(sent).push(completed_record(sent)));
                    assert(after.received + after.channel.queue =~= (self.received
                        + self.channel.queue).push(completed_record(sent)));
                }
            },
            HistoryStep::Elapse => {},
            HistoryStep::Receive => {
                if self.channel.ready() {
                    assert(after.received + after.channel.queue =~= self.received
                        + self.channel.queue);
                }
            },
            HistoryStep::Disconnect => {},
        }
    }

    /// Every call that was opened and then ran is sound.
    pub proof fn lemma_run_sound(plan: HistoryPlan, steps: Seq<HistoryStep>)
        ensures
            Self::open(plan).run(steps).sound(),
            Self::open(plan).run(steps).producer.plan == plan,
        decreases steps.len(),
    {
        if steps.len() == 0 {
            assert(Self::open(plan).received + Self::open(plan).channel.queue =~= history(0));
        } else {
            Self::lemma_run_sound(plan, steps.drop_last());
            Self::open(plan).run(steps.drop_last()).lemma_step_sound(steps.last());
        }
    }
}

/// The steps of a call whose consumer takes every record as soon as it is
/// buffered, up to the moment at which `count` records have been taken:
/// for each record a push and a take, and the end of the pause where the
/// plan asks for one.
pub open spec fn attentive(plan: HistoryPlan, count: nat) -> Seq<HistoryStep>
    decreases count,
{
    if count == 0 {
        Seq::empty()
    } else {
        let taken = attentive(plan, (count - 1) as nat).push(HistoryStep::Push).push(
            HistoryStep::Receive,
        );
        if plan.pauses_after((count - 1) as nat) {
            taken.push(HistoryStep::Elapse)
        } else {
            taken
        }
    }
}

/// One turn of several calls that run side by side: a step of the call
/// with index `call`.
pub struct Turn {
    pub call: int,
    pub step: HistoryStep,
}

/// Several calls after the turns of `schedule`, in order. A turn moves the
/// call that it names and no other.
pub open spec fn run_all(calls: Seq<HistoryCall>, schedule: Seq<Turn>) -> Seq<HistoryCall>
    decreases schedule.len(),
{
    if schedule.len() == 0 {
        calls
    } else {
        let before = run_all(calls, schedule.drop_last());
        let turn = schedule.last();
        if 0 <= turn.call < before.len() {
            before.update(turn.call, before[turn.call].step(turn.step))
        } else {
            before
        }
    }
}

/// The steps that `schedule` holds for the call with index `call`, in
/// order.
pub open spec fn steps_of(schedule: Seq<Turn>, call: int) -> Seq<HistoryStep>
    decreases schedule.len(),
{
    if schedule.len() == 0 {
        Seq::empty()
    } else {
        let earlier = steps_of(schedule.drop_last(), call);
        if schedule.last().call == call {
            earlier.push(schedule.last().step)
        } else {
            earlier
        }
    }
}

impl HistoryCall {
    /// Running one step more is running the steps and then that step.
    pub proof fn lemma_run_push(self, steps: Seq<HistoryStep>, step: HistoryStep)
        ensures
            self.run(steps.push(step)) == self.run(steps).step(step),
    {
        assert(steps.push(step).drop_last() =~= steps);
    }

    /// The channel holds the producer back and loses nothing: however slow
    /// the consumer is, the channel never buffers more than its capacity,
    /// and what the consumer has taken and what the channel buffers are
    /// together, in order, exactly the records that the channel accepted.
    pub proof fn law_channel_bounds_and_keeps(plan: HistoryPlan, steps: Seq<HistoryStep>)
        ensures
            Self::open(plan).run(steps).channel.queue.len() <= plan.capacity,
            Self::open(plan).run(steps).received + Self::open(plan).run(steps).channel.queue
                == history(Self::open(plan).run(steps).producer.sent),
    {
        Self::lemma_run_sound(plan, steps);
    }

    /// A history stream is never out of order: however the steps of a call
    /// interleave, what the consumer has taken so far is the records with
    /// the indices from zero up to the number taken, each in its place, and
    /// never more than the plan holds.
    pub proof fn law_records_in_order(plan: HistoryPlan, steps: Seq<HistoryStep>)
        ensures
            Self::open(plan).run(steps).received.len() <= plan.total,
            Self::open(plan).run(steps).received == history(
                Self::open(plan).run(steps).received.len(),
            ),
            forall|index: int|
                0 <= index < Self::open(plan).run(steps).received.len() ==> Self::open(plan).run(
                    steps,
                ).received[index] == completed_record(index as nat),
    {
        let call = Self::open(plan).run(steps);
        Self::lemma_run_sound(plan, steps);
        let all = call.received + call.channel.queue;
        assert(all.len() == call.producer.sent);
        assert forall|index: int| 0 <= index < call.received.len() implies call.received[index]
            == completed_record(index as nat) by {
            assert(all[index] == call.received[index]);
        }
        assert(call.received =~= history(call.received.len()));
    }

    /// A history stream that ends while its consumer is there is complete:
    /// once the producer has finished and the consumer, who never went
    /// away, has emptied the channel, the consumer holds exactly the
    /// records of the plan, from the first to the last.
    pub proof fn law_finished_stream_is_complete(plan: HistoryPlan, steps: Seq<HistoryStep>)
        requires
            Self::open(plan).run(steps).producer.phase == Phase::Finished,
            !Self::open(plan).run(steps).channel.closed,
            Self::open(plan).run(steps).channel.queue.len() == 0,
        ensures
            Self::open(plan).run(steps).received == history(plan.total as nat),
    {
        let call = Self::open(plan).run(steps);
        Self::lemma_run_sound(plan, steps);
        assert(call.received + call.channel.queue =~= call.received);
    }

    /// Where the attentive consumer stands after `count` records.
    proof fn lemma_attentive(plan: HistoryPlan, count: nat)
        requires
            plan.capacity > 0,
            count <= plan.total,
        ensures
            Self::open(plan).run(attentive(plan, count)) == (HistoryCall {
                producer: ProducerState::resume(plan, count),
                channel: Channel::open(plan.capacity as nat),
                received: history(count),
            }),
        decreases count,
    {
        let opened = Self::open(plan);
        if count == 0 {
            assert(opened.received =~= history(0));
        } else {
            let index = (count - 1) as nat;
            Self::lemma_attentive(plan, index);
            let steps = attentive(plan, index);
            let start = opened.run(steps);
            let pushed = start.step(HistoryStep::Push);
            let taken = pushed.step(HistoryStep::Receive);
            opened.lemma_run_push(steps, HistoryStep::Push);
            opened.lemma_run_push(steps.push(HistoryStep::Push), HistoryStep::Receive);
            assert(start.channel.offer() is Accepted);
            assert(pushed.channel.queue =~= seq![completed_record(index)]);
            assert(taken.channel.queue =~= Seq::empty());
            assert(taken.received =~= history(count));
            if plan.pauses_after(index) {
                opened.lemma_run_push(
                    steps.push(HistoryStep::Push).push(HistoryStep::Receive),
                    HistoryStep::Elapse,
                );
            }
        }
    }

    /// Every record of the plan reaches a consumer that keeps reading: with
    /// a channel that holds at least one record, the call in which the
    /// consumer takes each record as it comes ends with the producer
    /// finished, the channel empty and all records taken, in order.
    pub proof fn law_attentive_consumer_gets_all(plan: HistoryPlan)
        requires
            plan.capacity > 0,
        ensures
            Self::open(plan).run(attentive(plan, plan.total as nat)).received == history(
                plan.total as nat,
            ),
            Self::open(plan).run(attentive(plan, plan.total as nat)).producer.phase
                == Phase::Finished,
            Self::open(plan).run(attentive(plan, plan.total as nat)).channel.queue.len() == 0,
    {
        Self::lemma_attentive(plan, plan.total as nat);
    }

    /// Once the consumer has gone away, nothing is accepted or taken any
    /// more, whatever steps follow.
    pub proof fn lemma_closed_stays(self, steps: Seq<HistoryStep>)
        requires
            self.channel.closed,
        ensures
            self.run(steps).channel.closed,
            self.run(steps).producer.sent == self.producer.sent,
            self.run(steps).received == self.received,
        decreases steps.len(),
    {
        if steps.len() > 0 {
            self.lemma_closed_stays(steps.drop_last());
        }
    }

    /// Production stops within one buffer of a disconnection: if the
    /// consumer goes away after it has taken `k` records, then whatever
    /// happens afterwards the channel has accepted no record after that
    /// moment and at most `k` plus its capacity in all, the consumer holds
    /// what it held, and the producer's next push attempt ends production.
    /// So a plan with more records than that is never completed.
    pub proof fn law_disconnect_stops_production(
        plan: HistoryPlan,
        before: Seq<HistoryStep>,
        after: Seq<HistoryStep>,
    )
        ensures
            ({
                let seen = Self::open(plan).run(before);
                let left = seen.step(HistoryStep::Disconnect).run(after);
                &&& left.received == seen.received
                &&& left.producer.sent == seen.producer.sent
                &&& left.producer.sent <= seen.received.len() + plan.capacity
                &&& seen.received.len() + plan.capacity < plan.total ==> left.producer.sent
                    < plan.total
                &&& left.producer.phase == Phase::Sending ==> left.step(
                    HistoryStep::Push,
                ).producer.phase == Phase::Finished
                &&& left.step(HistoryStep::Push).producer.sent == left.producer.sent
            }),
    {
        let seen = Self::open(plan).run(before);
        Self::lemma_run_sound(plan, before);
        assert((seen.received + seen.channel.queue).len() == seen.producer.sent);
        seen.step(HistoryStep::Disconnect).lemma_closed_stays(after);
    }

    /// Calls that run side by side do not touch each other: after any
    /// schedule of turns, each call is exactly where it would be had it
    /// run alone through its own steps, so no record of one call ever
    /// shows in the stream of another.
    pub proof fn law_calls_are_isolated(calls: Seq<HistoryCall>, schedule: Seq<Turn>)
        ensures
            run_all(calls, schedule).len() == calls.len(),
            forall|call: int|
                0 <= call < calls.len() ==> #[trigger] run_all(calls, schedule)[call]
                    == calls[call].run(steps_of(schedule, call)),
        decreases schedule.len(),
    {
        if schedule.len() > 0 {
            let earlier = schedule.drop_last();
            let turn = schedule.last();
            Self::law_calls_are_isolated(calls, earlier);
            assert forall|call: int| 0 <= call < calls.len() implies #[trigger] run_all(
                calls,
                schedule,
            )[call] == calls[call].run(steps_of(schedule, call)) by {
                if turn.call == call {
                    calls[call].lemma_run_push(steps_of(earlier, call), turn.step);
                }
            }
        }
    }
}

} // verus!
