//! The dispatch router: from a method identifier and a decoded request to
//! the session that serves the call.

use crate::chat::{ChatStream, MyChatService, RelayState, CHAT_CAPACITY};
use crate::history::{HistoryPlan, HistoryStream, MyTransactionService, ProducerState};
use crate::messages::{PaymentRequest, PaymentResponse, TransactionRequest};
use crate::payment::MyPaymentService;
use crate::status::CallError;
use vstd::prelude::*;
use vstd::string::StringExecFns;

verus! {

/// The methods of the endpoint.
#[derive(Clone, Copy, Debug, PartialEq, Eq, Structural)]
pub enum Method {
    /// The unary payment call.
    ProcessPayment,
    /// The server-streaming transaction history call.
    GetTransactionHistory,
    /// The bidirectional chat call.
    Chat,
}

impl Method {
    /// The identifier under which the transport names this method.
    pub open spec fn identifier(self) -> Seq<char> {
        match self {
            Method::ProcessPayment => "/services.PaymentService/ProcessPayment"@,
            Method::GetTransactionHistory => "/services.TransactionService/GetTransactionHistory"@,
            Method::Chat => "/services.ChatService/Chat"@,
        }
    }

    /// The method that `identifier` names, if it names one.
    pub open spec fn named(identifier: Seq<char>) -> Option<Method> {
        if identifier == Method::ProcessPayment.identifier() {
            Some(Method::ProcessPayment)
        } else if identifier == Method::GetTransactionHistory.identifier() {
            Some(Method::GetTransactionHistory)
        } else if identifier == Method::Chat.identifier() {
            Some(Method::Chat)
        } else {
            None
        }
    }

    /// The identifier under which the transport names this method.
    pub fn path(&self) -> (path: &'static str)
        ensures
            path@ == self.identifier(),
    {
        match self {
            Method::ProcessPayment => "/services.PaymentService/ProcessPayment",
            Method::GetTransactionHistory => "/services.TransactionService/GetTransactionHistory",
            Method::Chat => "/services.ChatService/Chat",
        }
    }

    /// Every method is found again by its own identifier.
    pub proof fn law_identifier_names_method(self)
        ensures
            Method::named(self.identifier()) == Some(self),
    {
        reveal_strlit("/services.PaymentService/ProcessPayment");
        reveal_strlit("/services.TransactionService/GetTransactionHistory");
        reveal_strlit("/services.ChatService/Chat");
        assert(Method::ProcessPayment.identifier().len() == 39);
        assert(Method::GetTransactionHistory.identifier().len() == 50);
        assert(Method::Chat.identifier().len() == 26);
    }
}

/// Looks up the method that `path` names. An identifier that names no
/// method is unimplemented; every other is answered with its method.
pub fn route(path: &str) -> (found: Result<Method, CallError>)
    ensures
        found == match Method::named(path@) {
            Some(method) => Ok::<Method, CallError>(method),
            None => Err::<Method, CallError>(CallError::Unimplemented),
        },
{
    let wanted = String::from_str(path);
    if wanted == String::from_str(Method::ProcessPayment.path()) {
        Ok(Method::ProcessPayment)
    } else if wanted == String::from_str(Method::GetTransactionHistory.path()) {
        Ok(Method::GetTransactionHistory)
    } else if wanted == String::from_str(Method::Chat.path()) {
        Ok(Method::Chat)
    } else {
        Err(CallError::Unimplemented)
    }
}

/// What arrives with a call, decoded for the method that it belongs to.
#[derive(Clone, Debug, PartialEq, Eq)]
pub enum CallRequest {
    /// The request of a payment call.
    Payment(PaymentRequest),
    /// The request of a transaction history call.
    History(TransactionRequest),
    /// The opening of a chat; its messages arrive later, one by one.
    Chat,
}

impl CallRequest {
    /// The method that this request belongs to.
    pub open spec fn method(self) -> Method {
        match self {
            CallRequest::Payment(_) => Method::ProcessPayment,
            CallRequest::History(_) => Method::GetTransactionHistory,
            CallRequest::Chat => Method::Chat,
        }
    }
}

/// The context of one call that was dispatched.
#[derive(Debug)]
pub enum CallSession {
    /// A payment call: it is complete, and this is its one response.
    Payment(PaymentResponse),
    /// A history call: its producer and its outbound channel.
    History(HistoryStream),
    /// A chat: its relay and its outbound channel.
    Chat(ChatStream),
}

impl CallSession {
    /// The method that this session serves.
    pub open spec fn method(self) -> Method {
        match self {
            CallSession::Payment(_) => Method::ProcessPayment,
            CallSession::History(_) => Method::GetTransactionHistory,
            CallSession::Chat(_) => Method::Chat,
        }
    }

    /// Whether this session is as its handler opens it: a payment has
    /// succeeded, a history producer stands at the start of the standard
    /// plan behind a channel of the capacity of that plan, and a chat relay
    /// waits for the first message behind a channel of the standard
    /// capacity.
    pub open spec fn fresh(self) -> bool {
        match self {
            CallSession::Payment(response) => response.success,
            CallSession::History(stream) => stream.producer@ == ProducerState::initial(
                HistoryPlan::standard_plan(),
            ) && stream.outbound.capacity == HistoryPlan::standard_plan().capacity,
            CallSession::Chat(stream) => stream.relay@ == RelayState::Reading
                && stream.outbound.capacity == CHAT_CAPACITY,
        }
    }
}

/// The router of the endpoint. It holds no state, and the handlers that it
/// calls hold none, so one value serves any number of concurrent calls.
#[derive(Clone, Copy, Debug, Default)]
pub struct Router;

impl Router {
    /// Dispatches one call.
    ///
    /// An identifier that names no method fails as unimplemented, before
    /// any handler runs and without a session. A request that belongs to
    /// another method than the identifier names fails as an internal
    /// error. Every other call is handed to its handler and gets a fresh
    /// session for its method.
    pub fn dispatch(&self, path: &str, request: CallRequest) -> (opened: Result<
        CallSession,
        CallError,
    >)
        ensures
            Method::named(path@) is None ==> opened == Err::<CallSession, CallError>(
                CallError::Unimplemented,
            ),
            Method::named(path@) is Some && Method::named(path@) != Some(request.method())
                ==> opened == Err::<CallSession, CallError>(CallError::Internal),
            Method::named(path@) == Some(request.method()) ==> opened is Ok
                && opened->Ok_0.method() == request.method() && opened->Ok_0.fresh(),
    {
        let method = match route(path) {
            Ok(method) => method,
            Err(error) => {
                return Err(error);
            },
        };
        match (method, request) {
            (Method::ProcessPayment, CallRequest::Payment(request)) => {
                match MyPaymentService.process_payment(request) {
                    Ok(response) => Ok(CallSession::Payment(response)),
                    Err(error) => Err(error),
                }
            },
            (Method::GetTransactionHistory, CallRequest::History(request)) => {
                match MyTransactionService.get_transaction_history(request) {
                    Ok(stream) => Ok(CallSession::History(stream)),
                    Err(error) => Err(error),
                }
            },
            (Method::Chat, CallRequest::Chat) => {
                match MyChatService.chat() {
                    Ok(stream) => Ok(CallSession::Chat(stream)),
                    Err(error) => Err(error),
                }
            },
            _ => Err(CallError::Internal),
        }
    }
}

} // verus!
