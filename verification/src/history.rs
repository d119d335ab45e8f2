//! The server-streaming transaction history call.
//!
//! The producer of a history stream is a state machine. It decides what is
//! pushed and when production pauses or ends; the task that owns the
//! outbound channel performs each action and reports how it went.

use crate::messages::{completed_record, TransactionRecord, TransactionRequest, TransactionResponse};
use crate::outbound::{capacity_allowed, is_capacity_allowed, Outbound};
use crate::status::CallError;
use vstd::prelude::*;

verus! {

/// The tunable parameters of a history stream.
#[derive(Clone, Copy, Debug, PartialEq, Eq, Structural)]
pub struct HistoryPlan {
    /// How many records the stream holds.
    pub total: u64,
    /// How many records the outbound channel buffers.
    pub capacity: usize,
    /// After every `pace_every` records the producer pauses; zero means
    /// that it never does.
    pub pace_every: u64,
    /// The length of a pause, in seconds.
    pub pause_secs: u64,
}

impl HistoryPlan {
    /// A plan is valid when a channel can be made with its capacity.
    pub open spec fn valid(self) -> bool {
        capacity_allowed(self.capacity)
    }

    /// Whether the producer pauses once the record with index `index` has
    /// been pushed: it does after the last record of every full group of
    /// `pace_every` records.
    pub open spec fn pauses_after(self, index: nat) -> bool {
        self.pace_every > 0 && index % (self.pace_every as nat) == self.pace_every - 1
    }

    /// The plan of the transaction history call: thirty records through a
    /// channel of four, with a pause of one second after every tenth.
    pub open spec fn standard_plan() -> HistoryPlan {
        HistoryPlan { total: 30, capacity: 4, pace_every: 10, pause_secs: 1 }
    }

    /// The plan of the transaction history call.
    pub fn standard() -> (plan: HistoryPlan)
        ensures
            plan == Self::standard_plan(),
    {
        HistoryPlan { total: 30, capacity: 4, pace_every: 10, pause_secs: 1 }
    }

    /// Whether the plan is valid.
    pub fn is_valid(&self) -> (ok: bool)
        ensures
            ok == self.valid(),
    {
        is_capacity_allowed(self.capacity)
    }
}

/// What the producer is waiting for.
#[derive(Clone, Copy, Debug, PartialEq, Eq, Structural)]
pub enum Phase {
    /// The next record is being pushed.
    Sending,
    /// A pause is running.
    Pausing,
    /// Production has ended.
    Finished,
}

/// How the action that the producer asked for went.
#[derive(Clone, Copy, Debug, PartialEq, Eq, Structural)]
pub enum ProducerEvent {
    /// The channel took the record.
    Accepted,
    /// The push failed: nobody reads the channel any more.
    Refused,
    /// The pause is over.
    Elapsed,
}

/// What the producer asks its task to do next.
#[derive(Clone, Debug, PartialEq, Eq)]
pub enum ProducerAction {
    /// Push this record into the outbound channel, waiting while it is full.
    Send(TransactionResponse),
    /// Sleep for this many seconds.
    Pause(u64),
    /// Drop the sending end of the channel and exit.
    Finish,
}

/// What a producer action holds.
pub enum ProducerStep {
    Send(TransactionRecord),
    Pause(u64),
    Finish,
}

impl View for ProducerAction {
    type V = ProducerStep;

    open spec fn view(&self) -> ProducerStep {
        match self {
            ProducerAction::Send(record) => ProducerStep::Send(record@),
            ProducerAction::Pause(secs) => ProducerStep::Pause(*secs),
            ProducerAction::Finish => ProducerStep::Finish,
        }
    }
}

/// The state of a producer: its plan, how many records the channel has
/// accepted from it, and what it is waiting for.
pub struct ProducerState {
    pub plan: HistoryPlan,
    pub sent: nat,
    pub phase: Phase,
}

impl ProducerState {
    /// The state with `sent` records accepted and nothing outstanding: the
    /// next record is pushed if there is one, else production has ended.
    pub open spec fn resume(plan: HistoryPlan, sent: nat) -> ProducerState {
        ProducerState {
            plan,
            sent,
            phase: if sent < plan.total {
                Phase::Sending
            } else {
                Phase::Finished
            },
        }
    }

    /// The state in which every producer starts.
    pub open spec fn initial(plan: HistoryPlan) -> ProducerState {
        Self::resume(plan, 0)
    }

    /// The same state with production ended.
    pub open spec fn finish(self) -> ProducerState {
        ProducerState { phase: Phase::Finished, ..self }
    }

    /// The state after `event`.
    ///
    /// An accepted push counts the record; a pause follows if the plan
    /// asks for one after that record, else the next record or the end. A
    /// refused push ends production at once. The end of a pause leads to
    /// the next record or the end. An event that does not answer what the
    /// producer is waiting for ends production, and nothing moves a
    /// producer that has finished.
    pub open spec fn next(self, event: ProducerEvent) -> ProducerState {
        match (self.phase, event) {
            (Phase::Sending, ProducerEvent::Accepted) => {
                if self.sent >= self.plan.total {
                    self.finish()
                } else if self.plan.pauses_after(self.sent) {
                    ProducerState { plan: self.plan, sent: self.sent + 1, phase: Phase::Pausing }
                } else {
                    Self::resume(self.plan, self.sent + 1)
                }
            },
            (Phase::Pausing, ProducerEvent::Elapsed) => Self::resume(self.plan, self.sent),
            _ => self.finish(),
        }
    }

    /// What the producer asks for in this state.
    pub open spec fn action(self) -> ProducerStep {
        match self.phase {
            Phase::Sending => ProducerStep::Send(completed_record(self.sent)),
            Phase::Pausing => ProducerStep::Pause(self.plan.pause_secs),
            Phase::Finished => ProducerStep::Finish,
        }
    }

    /// What holds of every state that a producer reaches: it has pushed no
    /// more records than its plan holds, it pushes only while some are
    /// left, and it pauses only after a record.
    pub open spec fn consistent(self) -> bool {
        &&& self.sent <= self.plan.total
        &&& self.phase == Phase::Sending ==> self.sent < self.plan.total
        &&& self.phase == Phase::Pausing ==> self.sent > 0
    }

    /// The state after `events`, in order.
    pub open spec fn after(self, events: Seq<ProducerEvent>) -> ProducerState
        decreases events.len(),
    {
        if events.len() == 0 {
            self
        } else {
            self.after(events.drop_last()).next(events.last())
        }
    }

    /// How many events the producer can still take before it has finished,
    /// at most: two for each record that is left, a push and a pause, and
    /// one more while a pause is running.
    pub open spec fn remaining(self) -> nat {
        match self.phase {
            Phase::Sending => (2 * (self.plan.total - self.sent)) as nat,
            Phase::Pausing => (2 * (self.plan.total - self.sent) + 1) as nat,
            Phase::Finished => 0,
        }
    }

    /// An event keeps a consistent state consistent and the plan as it is,
    /// counts at most one record, and brings the end nearer.
    pub proof fn lemma_next_progress(self, event: ProducerEvent)
        requires
            self.consistent(),
        ensures
            self.next(event).consistent(),
            self.next(event).plan == self.plan,
            self.sent <= self.next(event).sent <= self.sent + 1,
            self.next(event).remaining() < self.remaining() || self.phase == Phase::Finished,
    {
    }

    /// Events keep a consistent state consistent, never take a record back,
    /// and each of them brings the end nearer.
    pub proof fn lemma_after_progress(self, events: Seq<ProducerEvent>)
        requires
            self.consistent(),
        ensures
            self.after(events).consistent(),
            self.after(events).plan == self.plan,
            self.sent <= self.after(events).sent,
            self.after(events).remaining() + events.len() <= self.remaining() || self.after(
                events,
            ).phase == Phase::Finished,
        decreases events.len(),
    {
        if events.len() > 0 {
            self.lemma_after_progress(events.drop_last());
            self.after(events.drop_last()).lemma_next_progress(events.last());
        }
    }

    /// Production always ends: a producer has finished once it has taken
    /// twice as many events as its plan holds records, whatever they were,
    /// and it has then pushed no more records than the plan holds.
    pub proof fn law_production_ends(plan: HistoryPlan, events: Seq<ProducerEvent>)
        requires
            events.len() >= 2 * plan.total,
        ensures
            Self::initial(plan).after(events).phase == Phase::Finished,
            Self::initial(plan).after(events).sent <= plan.total,
    {
        Self::initial(plan).lemma_after_progress(events);
    }
}

/// The producer of one history stream.
#[derive(Debug, PartialEq, Eq)]
pub struct HistoryProducer {
    plan: HistoryPlan,
    sent: u64,
    phase: Phase,
}

impl View for HistoryProducer {
    type V = ProducerState;

    closed spec fn view(&self) -> ProducerState {
        ProducerState { plan: self.plan, sent: self.sent as nat, phase: self.phase }
    }
}

impl HistoryProducer {
    /// A producer at the start of `plan`.
    pub fn new(plan: HistoryPlan) -> (producer: HistoryProducer)
        ensures
            producer@ == ProducerState::initial(plan),
    {
        let phase = if 0 < plan.total {
            Phase::Sending
        } else {
            Phase::Finished
        };
        HistoryProducer { plan, sent: 0, phase }
    }

    /// The plan that this producer follows.
    pub fn plan(&self) -> (plan: HistoryPlan)
        ensures
            plan == self@.plan,
    {
        self.plan
    }

    /// How many records the channel has accepted.
    pub fn sent(&self) -> (sent: u64)
        ensures
            sent == self@.sent,
    {
        self.sent
    }

    /// What the producer is waiting for.
    pub fn phase(&self) -> (phase: Phase)
        ensures
            phase == self@.phase,
    {
        self.phase
    }

    /// Whether production has ended.
    pub fn is_finished(&self) -> (done: bool)
        ensures
            done == (self@.phase == Phase::Finished),
    {
        match self.phase {
            Phase::Finished => true,
            _ => false,
        }
    }

    /// The action that the producer asks for now.
    pub fn pending(&self) -> (action: ProducerAction)
        ensures
            action@ == self@.action(),
    {
        match self.phase {
            Phase::Sending => ProducerAction::Send(TransactionResponse::completed(self.sent)),
            Phase::Pausing => ProducerAction::Pause(self.plan.pause_secs),
            Phase::Finished => ProducerAction::Finish,
        }
    }

    /// Takes the outcome of the action that was asked for, moves to the
    /// next state and returns the action to perform then.
    pub fn advance(&mut self, event: ProducerEvent) -> (action: ProducerAction)
        ensures
            final(self)@ == old(self)@.next(event),
            action@ == final(self)@.action(),
    {
        match (self.phase, event) {
            (Phase::Sending, ProducerEvent::Accepted) => {
                if self.sent >= self.plan.total {
                    self.phase = Phase::Finished;
                } else {
                    let pause = self.plan.pace_every > 0 && self.sent % self.plan.pace_every
                        == self.plan.pace_every - 1;
                    self.sent = self.sent + 1;
                    self.phase = if pause {
                        Phase::Pausing
                    } else if self.sent < self.plan.total {
                        Phase::Sending
                    } else {
                        Phase::Finished
                    };
                }
            },
            (Phase::Pausing, ProducerEvent::Elapsed) => {
                self.phase = if self.sent < self.plan.total {
                    Phase::Sending
                } else {
                    Phase::Finished
                };
            },
            _ => {
                self.phase = Phase::Finished;
            },
        }
        self.pending()
    }
}

/// One history stream as its handler opens it: the producer and its
/// outbound channel.
#[derive(Debug)]
pub struct HistoryStream {
    /// The producer that decides what is pushed.
    pub producer: HistoryProducer,
    /// The channel that the task of the producer pushes into.
    pub outbound: Outbound<TransactionResponse>,
}

impl HistoryStream {
    /// Opens a stream for `plan`: a producer at the start of the plan, and
    /// a channel of its own made with the capacity of the plan. A plan that
    /// is not valid gets no stream and no channel, but an internal error.
    pub fn open(plan: HistoryPlan) -> (stream: Result<HistoryStream, CallError>)
        ensures
            plan.valid() ==> stream is Ok && stream->Ok_0.producer@ == ProducerState::initial(
                plan,
            ) && stream->Ok_0.outbound.capacity == plan.capacity,
            !plan.valid() ==> stream is Err && stream->Err_0 == CallError::Internal,
    {
        match Outbound::open(plan.capacity) {
            Some(outbound) => Ok(HistoryStream { producer: HistoryProducer::new(plan), outbound }),
            None => Err(CallError::Internal),
        }
    }
}

/// The transaction history handler. It holds no state, so one value serves
/// any number of concurrent calls.
#[derive(Clone, Copy, Debug, Default)]
pub struct MyTransactionService;

impl MyTransactionService {
    /// Opens one history stream: every request, whoever asks, gets a
    /// producer of its own at the start of the standard plan, behind a
    /// channel of its own.
    pub fn get_transaction_history(&self, request: TransactionRequest) -> (stream: Result<
        HistoryStream,
        CallError,
    >)
        ensures
            stream is Ok,
            stream->Ok_0.producer@ == ProducerState::initial(HistoryPlan::standard_plan()),
            stream->Ok_0.outbound.capacity == HistoryPlan::standard_plan().capacity,
    {
        HistoryStream::open(HistoryPlan::standard())
    }
}

} // verus!
