//! Reading a conversation's history one page at a time.

use vstd::prelude::*;
use crate::api::chats::messages::{ApiChatsMessagesGetResponse, ChatItem};
use crate::error::ApiError;
use crate::pagination::{clamp_limit, clamped_limit, MessagePage, MAX_LIMIT};
use crate::timestamps::{format_rfc3339, parse_rfc3339, rfc3339_instant, rfc3339_text};

verus! {

/// A validated page request: the cursor instant and the clamped page size.
#[derive(Clone, Copy, Debug, PartialEq, Eq, Structural)]
pub struct PageRequest {
    pub cursor: Option<i128>,
    pub limit: i64,
}

impl PageRequest {
    /// How many rows to ask the store for: one more than the page size.
    pub fn fetch_limit(&self) -> (r: i64)
        requires
            1 <= self.limit <= MAX_LIMIT,
        ensures
            r == self.limit + 1,
    {
        self.limit + 1
    }
}

/// Reads the request's cursor and page size. A cursor that is not RFC 3339
/// is a client error; the page size is clamped, never refused.
pub fn page_request(cursor: &Option<String>, limit: Option<i64>) -> (r: Result<PageRequest, ApiError>)
    ensures
        match cursor {
            None => r == Ok::<PageRequest, ApiError>(PageRequest { cursor: None, limit: clamped_limit(limit) as i64 }),
            Some(c) => match rfc3339_instant(c@) {
                None => r == Err::<PageRequest, ApiError>(ApiError::InvalidCursor),
                Some(n) => r matches Ok(p) && p.cursor matches Some(t) && t as int == n
                    && p.limit == clamped_limit(limit),
            },
        },
        r matches Ok(p) ==> 1 <= p.limit <= MAX_LIMIT,
{
    let limit = clamp_limit(limit);
    match cursor {
        None => Ok(PageRequest { cursor: None, limit }),
        Some(c) => match parse_rfc3339(c.as_str()) {
            Some(t) => Ok(PageRequest { cursor: Some(t), limit }),
            None => Err(ApiError::InvalidCursor),
        },
    }
}

/// The text that a history item shows for an instant.
pub open spec fn sent_at_text(nanos: i128) -> Seq<char> {
    match rfc3339_text(nanos as int) {
        Some(t) => t,
        None => "Wasn't able to format timestamp"@,
    }
}

/// The RFC 3339 text of an instant, or a placeholder when it has none.
pub fn timestamp_text(nanos: i128) -> (r: String)
    ensures
        r@ == sent_at_text(nanos),
{
    match format_rfc3339(nanos) {
        Some(t) => t,
        None => "Wasn't able to format timestamp".to_owned(),
    }
}

/// The response body of a page: each row with its instant as RFC 3339 text,
/// and the next cursor as text when there is one that can be written.
pub fn render_page(page: &MessagePage) -> (r: ApiChatsMessagesGetResponse)
    ensures
        r.has_more == page.has_more,
        r.chats@.len() == page.items@.len(),
        forall|i: int|
            0 <= i < r.chats@.len() ==> {
                let c = #[trigger] r.chats@[i];
                let m = page.items@[i];
                &&& c.id == m.id
                &&& c.content@ == m.content@
                &&& c.user_sent@ == m.username@
                &&& c.sent_at@ == sent_at_text(m.sent_at)
            },
        match page.next_cursor {
            None => r.next_cursor is None,
            Some(n) => match rfc3339_text(n as int) {
                None => r.next_cursor is None,
                Some(t) => r.next_cursor matches Some(s) && s@ == t,
            },
        },
        r.next_cursor matches Some(s) ==> page.next_cursor matches Some(n) && rfc3339_instant(s@) == Some(
            n as int,
        ),
{
    let mut chats: Vec<ChatItem> = Vec::new();
    let n = page.items.len();
    let mut i: usize = 0;
    while i < n
        invariant
            n == page.items@.len(),
            i <= n,
            chats@.len() == i,
            forall|k: int|
                0 <= k < i ==> {
                    let c = #[trigger] chats@[k];
                    let m = page.items@[k];
                    &&& c.id == m.id
                    &&& c.content@ == m.content@
                    &&& c.user_sent@ == m.username@
                    &&& c.sent_at@ == sent_at_text(m.sent_at)
                },
        decreases n - i,
    {
        let row = &page.items[i];
        let sent_at = timestamp_text(row.sent_at);
        chats.push(
            ChatItem {
                id: row.id,
                content: row.content.clone(),
                user_sent: row.username.clone(),
                sent_at,
            },
        );
        i = i + 1;
    }
    let next_cursor = match page.next_cursor {
        Some(t) => format_rfc3339(t),
        None => None,
    };
    ApiChatsMessagesGetResponse { chats, next_cursor, has_more: page.has_more }
}

} // verus!
