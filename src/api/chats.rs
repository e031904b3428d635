//! Conversation, pairing code and message bodies.

pub mod codes;
pub mod delete;
pub mod delete_code;
pub mod delete_submit_code;
pub mod messages;
pub mod new;
pub mod new_code;
pub mod patch;
pub mod ws;

use vstd::prelude::*;

verus! {

/// A history request: conversation, optional cursor (RFC 3339) and page size.
#[derive(Clone, Debug)]
pub struct GetChatsQuery {
    pub conversation_id: u128,
    pub cursor: Option<String>,
    pub limit: Option<i64>,
}

/// One page of history.
#[derive(Clone, Debug)]
pub struct GetChatsResponse {
    pub chats: Vec<ChatItem>,
    pub next_cursor: Option<String>,
    pub has_more: bool,
}

/// One message of a history page.
#[derive(Clone, Debug)]
pub struct ChatItem {
    pub id: u128,
    pub content: String,
    pub user_sent: String,
    pub sent_at: String,
}

/// Deletion of one message of a conversation.
#[derive(Clone, Debug)]
pub struct DeleteMessageRequest {
    pub conversation_id: u128,
    pub message_id: u128,
}

/// The answer to a message deletion.
#[derive(Clone, Debug)]
pub struct DeleteMessageResponse {
    pub message: String,
}

} // verus!
