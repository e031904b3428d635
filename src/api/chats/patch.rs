//! Bodies of the message edit endpoint.

use vstd::prelude::*;

verus! {

/// An edit of one of the caller's messages.
#[derive(Clone, Debug)]
pub struct UpdateMessageRequest {
    pub conversation_id: u128,
    pub message_id: u128,
    pub content: String,
}

/// The answer to an edit, with the new edit instant as RFC 3339 text.
#[derive(Clone, Debug)]
pub struct UpdateMessageResponse {
    pub message: String,
    pub edited_at: String,
}

} // verus!
