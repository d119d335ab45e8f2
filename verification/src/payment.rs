//! The unary payment call.

use crate::messages::{PaymentRequest, PaymentResponse};
use crate::status::CallError;
use vstd::prelude::*;

verus! {

/// The payment handler. It holds no state, so one value serves any number
/// of concurrent calls.
#[derive(Clone, Copy, Debug, Default)]
pub struct MyPaymentService;

impl MyPaymentService {
    /// Serves one payment request: every request is answered at once, with
    /// exactly one response, and that response reports success.
    pub fn process_payment(&self, request: PaymentRequest) -> (response: Result<
        PaymentResponse,
        CallError,
    >)
        ensures
            response == Ok::<PaymentResponse, CallError>((PaymentResponse { success: true })),
    {
        Ok(PaymentResponse { success: true })
    }
}

} // verus!
