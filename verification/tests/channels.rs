use rpc_sessions::chat::{ChatRelay, ChatStream, MyChatService, RelayAction, RelayEvent};
use rpc_sessions::history::{
    HistoryPlan, HistoryProducer, HistoryStream, MyTransactionService, ProducerAction,
    ProducerEvent,
};
use rpc_sessions::messages::{ChatMessage, TransactionRequest, TransactionResponse};
use rpc_sessions::outbound::Outbound;
use std::time::Duration;
use tokio::sync::mpsc::error::{TryRecvError, TrySendError};
use tokio::sync::mpsc::{channel, Receiver, Sender};

fn open_history() -> HistoryStream {
    MyTransactionService
        .get_transaction_history(TransactionRequest { user_id: "user_123".to_string() })
        .unwrap()
}

fn ids(records: &[TransactionResponse]) -> Vec<String> {
    records.iter().map(|record| record.transaction_id.clone()).collect()
}

fn expected_ids(count: usize) -> Vec<String> {
    (0..count).map(|index| format!("trans_{}", index)).collect()
}

/// Lets the producer work until its channel is full, its consumer is gone or
/// it has finished. Pauses end at once. Returns how many pushes the channel
/// accepted.
fn produce(producer: &mut HistoryProducer, sink: &Sender<TransactionResponse>) -> usize {
    let mut accepted = 0;
    loop {
        match producer.pending() {
            ProducerAction::Send(record) => match sink.try_send(record) {
                Ok(()) => {
                    accepted += 1;
                    producer.advance(ProducerEvent::Accepted);
                }
                Err(TrySendError::Full(_)) => return accepted,
                Err(TrySendError::Closed(_)) => {
                    producer.advance(ProducerEvent::Refused);
                }
            },
            ProducerAction::Pause(_) => {
                producer.advance(ProducerEvent::Elapsed);
            }
            ProducerAction::Finish => return accepted,
        }
    }
}

/// The task of a history call: performs what the producer asks for until it
/// finishes, and returns how many records the channel accepted.
async fn history_task(mut producer: HistoryProducer, sink: Sender<TransactionResponse>) -> u64 {
    let mut action = producer.pending();
    loop {
        match action {
            ProducerAction::Send(record) => {
                let event = if sink.send(record).await.is_ok() {
                    ProducerEvent::Accepted
                } else {
                    ProducerEvent::Refused
                };
                action = producer.advance(event);
            }
            ProducerAction::Pause(secs) => {
                tokio::time::sleep(Duration::from_secs(secs)).await;
                action = producer.advance(ProducerEvent::Elapsed);
            }
            ProducerAction::Finish => return producer.sent(),
        }
    }
}

/// The task of a chat: reads from `inbound`, performs what the relay asks
/// for until it closes, and returns how many replies the channel accepted.
async fn chat_task(
    mut relay: ChatRelay,
    mut inbound: Receiver<ChatMessage>,
    sink: Sender<ChatMessage>,
) -> usize {
    let mut accepted = 0;
    let mut action = relay.pending();
    loop {
        match action {
            RelayAction::Read => {
                let event = match inbound.recv().await {
                    Some(message) => RelayEvent::Inbound(message),
                    None => RelayEvent::InboundClosed,
                };
                action = relay.advance(event);
            }
            RelayAction::Send(reply) => {
                let event = if sink.send(reply).await.is_ok() {
                    accepted += 1;
                    RelayEvent::Accepted
                } else {
                    RelayEvent::Refused
                };
                action = relay.advance(event);
            }
            RelayAction::Close => return accepted,
        }
    }
}

fn runtime() -> tokio::runtime::Runtime {
    tokio::runtime::Builder::new_current_thread().enable_time().build().unwrap()
}

fn unpaused() -> HistoryStream {
    HistoryStream::open(HistoryPlan { pause_secs: 0, ..HistoryPlan::standard() }).unwrap()
}

#[test]
fn producer_fills_the_channel_and_then_waits() {
    let HistoryStream { mut producer, outbound } = open_history();
    let Outbound { sink, mut source, .. } = outbound;
    assert_eq!(produce(&mut producer, &sink), 4);
    assert_eq!(producer.sent(), 4);
    assert!(!producer.is_finished());
    assert_eq!(sink.capacity(), 0);
    assert_eq!(produce(&mut producer, &sink), 0);
    assert_eq!(source.try_recv().unwrap().transaction_id, "trans_0");
    assert_eq!(produce(&mut producer, &sink), 1);
    assert_eq!(producer.sent(), 5);
}

#[test]
fn channel_never_holds_more_than_its_capacity() {
    let HistoryStream { mut producer, outbound } = open_history();
    let Outbound { sink, mut source, .. } = outbound;
    while !producer.is_finished() {
        produce(&mut producer, &sink);
        assert!(source.len() <= 4);
        let _ = source.try_recv();
    }
}

#[test]
fn reading_consumer_gets_all_thirty_records_through_the_channel() {
    let HistoryStream { mut producer, outbound } = open_history();
    let Outbound { sink, mut source, .. } = outbound;
    let mut received = Vec::new();
    while !producer.is_finished() {
        produce(&mut producer, &sink);
        while let Ok(record) = source.try_recv() {
            received.push(record);
        }
    }
    drop(sink);
    assert_eq!(source.try_recv(), Err(TryRecvError::Disconnected));
    assert_eq!(ids(&received), expected_ids(30));
    assert_eq!(producer.sent(), 30);
}

#[test]
fn production_stops_within_one_buffer_of_a_disconnection() {
    for k in 0..30usize {
        let HistoryStream { mut producer, outbound } = open_history();
    let Outbound { sink, mut source, .. } = outbound;
        let capacity = producer.plan().capacity;
        let mut received = Vec::new();
        let mut accepted = 0;
        while received.len() < k {
            accepted += produce(&mut producer, &sink);
            received.push(source.try_recv().unwrap());
        }
        accepted += produce(&mut producer, &sink);
        drop(source);
        assert_eq!(produce(&mut producer, &sink), 0);
        assert!(producer.is_finished());
        assert_eq!(producer.sent() as usize, accepted);
        assert!(accepted <= k + capacity, "k = {}: {} accepted", k, accepted);
        assert_eq!(accepted, std::cmp::min(30, k + capacity));
        if k + capacity < 30 {
            assert!(producer.sent() < 30);
        }
        assert_eq!(ids(&received), expected_ids(k));
    }
}

#[test]
fn disconnection_before_the_first_push_sends_nothing() {
    let HistoryStream { mut producer, outbound: Outbound { sink, source, .. } } = open_history();
    drop(source);
    assert_eq!(produce(&mut producer, &sink), 0);
    assert!(producer.is_finished());
    assert_eq!(producer.sent(), 0);
}

#[test]
fn two_calls_do_not_mix_their_streams() {
    let mut one = open_history();
    let mut other = open_history();
    let mut got_one = Vec::new();
    let mut got_other = Vec::new();
    let mut round = 0;
    while !(one.producer.is_finished() && other.producer.is_finished()) {
        produce(&mut one.producer, &one.outbound.sink);
        if round % 3 == 0 {
            produce(&mut other.producer, &other.outbound.sink);
        }
        if round % 2 == 0 {
            if let Ok(record) = one.outbound.source.try_recv() {
                got_one.push(record);
            }
        }
        while let Ok(record) = other.outbound.source.try_recv() {
            got_other.push(record);
        }
        round += 1;
    }
    while let Ok(record) = one.outbound.source.try_recv() {
        got_one.push(record);
    }
    while let Ok(record) = other.outbound.source.try_recv() {
        got_other.push(record);
    }
    assert_eq!(ids(&got_one), expected_ids(30));
    assert_eq!(ids(&got_other), expected_ids(30));
}

#[test]
fn disconnecting_one_call_leaves_the_other_running() {
    let HistoryStream { producer: mut one, outbound } = open_history();
    let Outbound { sink: sink_one, source: source_one, .. } = outbound;
    let HistoryStream {
        producer: mut other,
        outbound: Outbound { sink: sink_other, source: mut source_other, .. },
    } = open_history();
    produce(&mut one, &sink_one);
    produce(&mut other, &sink_other);
    drop(source_one);
    produce(&mut one, &sink_one);
    assert!(one.is_finished());
    assert_eq!(one.sent(), 4);
    let mut got_other = Vec::new();
    while !other.is_finished() {
        produce(&mut other, &sink_other);
        while let Ok(record) = source_other.try_recv() {
            got_other.push(record);
        }
    }
    assert_eq!(ids(&got_other), expected_ids(30));
}

#[test]
fn history_task_delivers_every_record() {
    let (sent, received) = runtime().block_on(async move {
        let HistoryStream { producer, outbound: Outbound { sink, mut source, .. } } = unpaused();
        let task = tokio::spawn(history_task(producer, sink));
        let mut received = Vec::new();
        while let Some(record) = source.recv().await {
            received.push(record);
        }
        (task.await.unwrap(), received)
    });
    assert_eq!(sent, 30);
    assert_eq!(ids(&received), expected_ids(30));
}

#[test]
fn history_task_ends_when_the_consumer_leaves() {
    let (sent, received) = runtime().block_on(async move {
        let HistoryStream { producer, outbound: Outbound { sink, mut source, .. } } = unpaused();
        let task = tokio::spawn(history_task(producer, sink));
        let mut received = Vec::new();
        while received.len() < 7 {
            received.push(source.recv().await.unwrap());
        }
        drop(source);
        (task.await.unwrap(), received)
    });
    assert_eq!(ids(&received), expected_ids(7));
    assert!(sent >= 7);
    assert!(sent <= 7 + 4, "{} accepted", sent);
}

#[test]
fn history_task_waits_for_a_slow_consumer() {
    let (sent, received) = runtime().block_on(async move {
        let HistoryStream { producer, outbound: Outbound { sink, mut source, .. } } = unpaused();
        let task = tokio::spawn(history_task(producer, sink));
        let mut received = Vec::new();
        while let Some(record) = source.recv().await {
            assert!(source.len() <= 4);
            received.push(record);
            tokio::time::sleep(Duration::from_millis(1)).await;
        }
        (task.await.unwrap(), received)
    });
    assert_eq!(sent, 30);
    assert_eq!(ids(&received), expected_ids(30));
}

#[test]
fn chat_task_answers_every_message_in_order() {
    let texts = ["satu", "dua", "", "tiga", "empat"];
    let (accepted, replies) = runtime().block_on(async move {
        let ChatStream { relay, outbound: Outbound { sink, mut source, .. } } =
            MyChatService.chat().unwrap();
        let (peer, inbound) = channel(32);
        let task = tokio::spawn(chat_task(relay, inbound, sink));
        for text in texts {
            let message =
                ChatMessage { user_id: "user_123".to_string(), message: text.to_string() };
            peer.send(message).await.unwrap();
        }
        drop(peer);
        let mut replies = Vec::new();
        while let Some(reply) = source.recv().await {
            replies.push(reply);
        }
        (task.await.unwrap(), replies)
    });
    assert_eq!(accepted, texts.len());
    assert_eq!(replies.len(), texts.len());
    for (reply, text) in replies.iter().zip(texts.iter()) {
        assert_eq!(reply.user_id, "user_123");
        assert_eq!(
            reply.message,
            format!("Pesan Anda akan dibalas pada jam kerja. Pesan Anda: {}", text)
        );
    }
}

#[test]
fn chat_task_answers_more_messages_than_the_channel_holds() {
    let count = 25;
    let replies = runtime().block_on(async move {
        let ChatStream { relay, outbound: Outbound { sink, mut source, .. } } =
            MyChatService.chat().unwrap();
        let (peer, inbound) = channel(32);
        let task = tokio::spawn(chat_task(relay, inbound, sink));
        for index in 0..count {
            let message =
                ChatMessage { user_id: "user_123".to_string(), message: format!("{}", index) };
            peer.send(message).await.unwrap();
        }
        drop(peer);
        let mut replies = Vec::new();
        while let Some(reply) = source.recv().await {
            replies.push(reply);
        }
        assert_eq!(task.await.unwrap(), count);
        replies
    });
    assert_eq!(replies.len(), count);
    for (index, reply) in replies.iter().enumerate() {
        assert!(reply.message.ends_with(&format!("Pesan Anda: {}", index)));
    }
}

#[test]
fn chat_task_without_messages_closes_the_stream() {
    let (accepted, first) = runtime().block_on(async move {
        let ChatStream { relay, outbound: Outbound { sink, mut source, .. } } =
            MyChatService.chat().unwrap();
        let (peer, inbound) = channel::<ChatMessage>(32);
        let task = tokio::spawn(chat_task(relay, inbound, sink));
        drop(peer);
        let first = source.recv().await;
        (task.await.unwrap(), first)
    });
    assert_eq!(accepted, 0);
    assert_eq!(first, None);
}

#[test]
fn chat_task_ends_when_the_consumer_leaves() {
    let accepted = runtime().block_on(async move {
        let ChatStream { relay, outbound: Outbound { sink, mut source, .. } } =
            MyChatService.chat().unwrap();
        let (peer, inbound) = channel(32);
        let task = tokio::spawn(chat_task(relay, inbound, sink));
        let hello = ChatMessage { user_id: "u".to_string(), message: "halo".to_string() };
        peer.send(hello.duplicate()).await.unwrap();
        assert_eq!(source.recv().await, Some(hello.reply()));
        drop(source);
        peer.send(hello.duplicate()).await.unwrap();
        let accepted = task.await.unwrap();
        drop(peer);
        accepted
    });
    assert_eq!(accepted, 1);
}
