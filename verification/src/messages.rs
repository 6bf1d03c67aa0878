//! Messages that the engine exchanges with the server, as plain values.
//!
//! Their protobuf encoding belongs to the schema; the engine only decides what they hold.

use vstd::prelude::*;

verus! {

/// An encrypted message on its way to a conversation.
#[derive(Debug)]
pub struct Envelope {
    pub conversation_id: String,
    pub encrypted_payload: Vec<u8>,
    pub message_id: String,
}

/// What a frame on the message stream asks for.
#[derive(Debug)]
pub enum StreamPayload {
    /// Start delivering messages of these conversations.
    Subscribe {
        conversation_ids: Vec<String>,
        since_cursor: Option<String>,
        include_presence: bool,
    },
    /// Deliver a message.
    Send(Envelope),
    /// Tell the senders that their messages arrived.
    Receipt { message_ids: Vec<String>, status: i32, timestamp: i64 },
}

/// A frame on the message stream.
#[derive(Debug)]
pub struct MessageStreamRequest {
    pub request: StreamPayload,
    pub request_id: String,
    pub attempt_id: Option<String>,
}

} // verus!
