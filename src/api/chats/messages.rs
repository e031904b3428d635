//! Bodies of the message history, edit and delete endpoints.

use vstd::prelude::*;

verus! {

/// A history request: conversation, optional cursor (RFC 3339) and page size.
#[derive(Clone, Debug)]
pub struct ApiChatsMessagesGetRequest {
    pub conversation_id: u128,
    pub cursor: Option<String>,
    pub limit: Option<i64>,
}

/// One page of history, newest first.
#[derive(Clone, Debug)]
pub struct ApiChatsMessagesGetResponse {
    pub chats: Vec<ChatItem>,
    /// RFC 3339 cursor of the next (older) page; absent on the last page.
    pub next_cursor: Option<String>,
    pub has_more: bool,
}

/// One message of a history page.
#[derive(Clone, Debug)]
pub struct ChatItem {
    pub id: u128,
    pub content: String,
    pub user_sent: String,
    pub sent_at: String,
}

/// An edit of one of the caller's messages.
#[derive(Clone, Debug)]
pub struct ApiChatsMessagesPatchRequest {
    pub conversation_id: u128,
    pub message_id: u128,
    pub content: String,
}

/// The answer to an edit.
#[derive(Clone, Debug)]
pub struct ApiChatsMessagesPatchResponse {
    pub message: String,
    pub edited_at: String,
}

/// Deletion of one of the caller's messages.
#[derive(Clone, Debug)]
pub struct ApiChatsMessagesDeleteRequest {
    pub conversation_id: u128,
    pub message_id: u128,
}

/// The answer to a deletion.
#[derive(Clone, Debug)]
pub struct ApiChatsMessagesDeleteResponse {
    pub message: String,
}

} // verus!
