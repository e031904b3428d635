//! Bodies of the message deletion endpoint.

use vstd::prelude::*;

verus! {

/// Deletion of one message of a conversation.
#[derive(Clone, Debug)]
pub struct DeleteMessageRequest {
    pub conversation_id: u128,
    pub message_id: u128,
}

/// The answer to a message deletion.
#[derive(Clone, Debug)]
pub struct DeleteMessageResponse {
    pub message: String,
}

} // verus!
