use rpc_sessions::chat::RelayAction;
use rpc_sessions::history::{HistoryPlan, ProducerAction, ProducerEvent};
use rpc_sessions::messages::{
    PaymentRequest, PaymentResponse, TransactionRequest, TransactionResponse,
};
use rpc_sessions::router::{route, CallRequest, CallSession, Method, Router};
use rpc_sessions::status::CallError;

fn payment() -> CallRequest {
    CallRequest::Payment(PaymentRequest {
        user_id: "user_123".to_string(),
        amount_bits: 100.0f64.to_bits(),
    })
}

fn history() -> CallRequest {
    CallRequest::History(TransactionRequest { user_id: "user_123".to_string() })
}

#[test]
fn method_paths() {
    assert_eq!(Method::ProcessPayment.path(), "/services.PaymentService/ProcessPayment");
    assert_eq!(
        Method::GetTransactionHistory.path(),
        "/services.TransactionService/GetTransactionHistory"
    );
    assert_eq!(Method::Chat.path(), "/services.ChatService/Chat");
}

#[test]
fn route_finds_each_method_by_its_path() {
    for method in [Method::ProcessPayment, Method::GetTransactionHistory, Method::Chat] {
        assert_eq!(route(method.path()), Ok(method));
    }
}

#[test]
fn route_rejects_unknown_identifiers() {
    for path in [
        "",
        "/",
        "Chat",
        "/services.ChatService/chat",
        "/services.ChatService/Chat/",
        " /services.ChatService/Chat",
        "/services.PaymentService/Refund",
        "/services.PaymentService/ProcessPayment2",
        "/services.PaymentService/ProcessPaymen",
        "/other.PaymentService/ProcessPayment",
        "/services.TransactionService/Chat",
    ] {
        assert_eq!(route(path), Err(CallError::Unimplemented), "{:?}", path);
    }
}

#[test]
fn dispatch_unknown_method_is_unimplemented_whatever_the_request() {
    let router = Router;
    for request in [payment(), history(), CallRequest::Chat] {
        assert_eq!(
            router.dispatch("/services.PaymentService/Refund", request).err(),
            Some(CallError::Unimplemented)
        );
    }
    assert_eq!(router.dispatch("", CallRequest::Chat).err(), Some(CallError::Unimplemented));
}

#[test]
fn dispatch_payment_completes_the_call() {
    let router = Router;
    match router.dispatch("/services.PaymentService/ProcessPayment", payment()) {
        Ok(CallSession::Payment(response)) => {
            assert_eq!(response, PaymentResponse { success: true })
        }
        other => panic!("no payment session: {:?}", other),
    }
}

#[test]
fn dispatch_history_opens_a_producer() {
    let router = Router::default();
    match router.dispatch("/services.TransactionService/GetTransactionHistory", history()) {
        Ok(CallSession::History(stream)) => {
            assert_eq!(stream.producer.plan(), HistoryPlan::standard());
            assert_eq!(stream.producer.sent(), 0);
            assert_eq!(
                stream.producer.pending(),
                ProducerAction::Send(TransactionResponse::completed(0))
            );
            assert_eq!(stream.outbound.sink.max_capacity(), 4);
        }
        other => panic!("no history session: {:?}", other),
    }
}

#[test]
fn dispatch_chat_opens_a_relay() {
    let router = Router;
    match router.dispatch("/services.ChatService/Chat", CallRequest::Chat) {
        Ok(CallSession::Chat(stream)) => {
            assert_eq!(stream.outbound.capacity, 10);
            assert_eq!(stream.outbound.sink.max_capacity(), 10);
            assert_eq!(stream.relay.pending(), RelayAction::Read);
        }
        other => panic!("no chat session: {:?}", other),
    }
}

#[test]
fn dispatch_request_of_another_method_is_an_internal_error() {
    let router = Router;
    let payment_path = "/services.PaymentService/ProcessPayment";
    let history_path = "/services.TransactionService/GetTransactionHistory";
    let chat_path = "/services.ChatService/Chat";
    for (path, request) in [
        (payment_path, history()),
        (payment_path, CallRequest::Chat),
        (history_path, payment()),
        (history_path, CallRequest::Chat),
        (chat_path, payment()),
        (chat_path, history()),
    ] {
        assert_eq!(router.dispatch(path, request).err(), Some(CallError::Internal), "{}", path);
    }
}

#[test]
fn sessions_of_two_dispatches_are_independent() {
    let router = Router;
    let path = "/services.TransactionService/GetTransactionHistory";
    let (one, other) = match (router.dispatch(path, history()), router.dispatch(path, history())) {
        (Ok(CallSession::History(one)), Ok(CallSession::History(other))) => (one, other),
        other => panic!("no history sessions: {:?}", other),
    };
    let mut one = one;
    one.producer.advance(ProducerEvent::Accepted);
    one.producer.advance(ProducerEvent::Accepted);
    assert_eq!(one.producer.sent(), 2);
    assert_eq!(other.producer.sent(), 0);
    assert_eq!(
        other.producer.pending(),
        ProducerAction::Send(TransactionResponse::completed(0))
    );
    assert!(!one.outbound.sink.same_channel(&other.outbound.sink));
}
