//! Messages.

use vstd::prelude::*;

verus! {

/// A message of the group.
#[derive(Debug, Clone)]
pub struct Message {
    pub id: i64,
    pub sender_username: String,
    pub content: String,
    pub reply_to_id: Option<i64>,
    pub reply_to_sender: Option<String>,
    pub reply_to_content: Option<String>,
    pub timestamp: String,
    pub timestamp_ms: i64,
}

/// A request to send a message.
#[derive(Debug)]
pub struct SendMessageRequest {
    pub content: String,
    pub reply_to_id: Option<i64>,
    pub reply_to_sender: Option<String>,
    pub reply_to_content: Option<String>,
}

} // verus!
