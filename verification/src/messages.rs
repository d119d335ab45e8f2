//! The messages that the three calls exchange, and their mathematical views.
//!
//! An amount travels as the bit pattern of an IEEE 754 binary64 number, so
//! that a message holds integers and text only.

use crate::text::{decimal, push_decimal};
use vstd::prelude::*;
use vstd::string::StringExecFns;

verus! {

/// The bit pattern of the binary64 number one hundred.
pub const HUNDRED_BITS: u64 = 0x4059_0000_0000_0000u64;

/// Request of the unary payment call.
#[derive(Clone, Debug, PartialEq, Eq)]
pub struct PaymentRequest {
    pub user_id: String,
    pub amount_bits: u64,
}

/// Response of the unary payment call.
#[derive(Clone, Copy, Debug, PartialEq, Eq)]
pub struct PaymentResponse {
    pub success: bool,
}

/// Request of the transaction history call.
#[derive(Clone, Debug, PartialEq, Eq)]
pub struct TransactionRequest {
    pub user_id: String,
}

/// One transaction record of the history stream.
#[derive(Clone, Debug, PartialEq, Eq)]
pub struct TransactionResponse {
    pub transaction_id: String,
    pub status: String,
    pub amount_bits: u64,
    pub timestamp: String,
}

/// What a transaction record holds.
pub struct TransactionRecord {
    pub transaction_id: Seq<char>,
    pub status: Seq<char>,
    pub amount_bits: u64,
    pub timestamp: Seq<char>,
}

impl View for TransactionResponse {
    type V = TransactionRecord;

    open spec fn view(&self) -> TransactionRecord {
        TransactionRecord {
            transaction_id: self.transaction_id@,
            status: self.status@,
            amount_bits: self.amount_bits,
            timestamp: self.timestamp@,
        }
    }
}

/// The record with index `index` of every history: its identifier is
/// `trans_` followed by the index in decimal, it is completed, its amount
/// is one hundred and its timestamp is fixed.
pub open spec fn completed_record(index: nat) -> TransactionRecord {
    TransactionRecord {
        transaction_id: "trans_"@ + decimal(index),
        status: "Completed"@,
        amount_bits: HUNDRED_BITS,
        timestamp: "2022-01-01T12:00:00Z"@,
    }
}

impl TransactionResponse {
    /// Builds the record with index `index`.
    pub fn completed(index: u64) -> (record: TransactionResponse)
        ensures
            record@ == completed_record(index as nat),
    {
        let mut transaction_id = String::from_str("trans_");
        push_decimal(&mut transaction_id, index);
        TransactionResponse {
            transaction_id,
            status: String::from_str("Completed"),
            amount_bits: HUNDRED_BITS,
            timestamp: String::from_str("2022-01-01T12:00:00Z"),
        }
    }
}

/// A chat message, inbound or outbound.
#[derive(Clone, Debug, PartialEq, Eq)]
pub struct ChatMessage {
    pub user_id: String,
    pub message: String,
}

/// What a chat message holds.
pub struct ChatText {
    pub user_id: Seq<char>,
    pub message: Seq<char>,
}

impl View for ChatMessage {
    type V = ChatText;

    open spec fn view(&self) -> ChatText {
        ChatText { user_id: self.user_id@, message: self.message@ }
    }
}

/// The text that precedes the quoted message in every reply.
pub open spec fn reply_prefix() -> Seq<char> {
    "Pesan Anda akan dibalas pada jam kerja. Pesan Anda: "@
}

/// The reply to `inbound`: addressed to the same user, its text is the
/// fixed prefix followed by the inbound text.
pub open spec fn reply_to(inbound: ChatText) -> ChatText {
    ChatText { user_id: inbound.user_id, message: reply_prefix() + inbound.message }
}

/// A reply carries the text that it answers: it goes to the user who
/// wrote, and what follows its prefix is the inbound text, unchanged.
pub proof fn law_reply_embeds_text(inbound: ChatText)
    ensures
        reply_to(inbound).user_id == inbound.user_id,
        reply_to(inbound).message.len() == reply_prefix().len() + inbound.message.len(),
        reply_to(inbound).message.take(reply_prefix().len() as int) == reply_prefix(),
        reply_to(inbound).message.skip(reply_prefix().len() as int) == inbound.message,
{
    let text = reply_to(inbound).message;
    assert(text.take(reply_prefix().len() as int) =~= reply_prefix());
    assert(text.skip(reply_prefix().len() as int) =~= inbound.message);
}

impl ChatMessage {
    /// Builds the reply to this message. The reply is a fresh value that
    /// shares nothing with `self`.
    pub fn reply(&self) -> (out: ChatMessage)
        ensures
            out@ == reply_to(self@),
    {
        let mut message = String::from_str("Pesan Anda akan dibalas pada jam kerja. Pesan Anda: ");
        message.append(self.message.as_str());
        ChatMessage { user_id: self.user_id.clone(), message }
    }

    /// A copy of this message.
    pub fn duplicate(&self) -> (out: ChatMessage)
        ensures
            out@ == self@,
    {
        ChatMessage { user_id: self.user_id.clone(), message: self.message.clone() }
    }
}

} // verus!
