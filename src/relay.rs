//! The relay session: the per-connection state machine that multiplexes the
//! client's frames and the conversation's notifications onto one socket.
//!
//! The machine decides; the caller performs. Each inbound event is handed to
//! `RelaySession::step`, which returns the one action to perform next.

use vstd::prelude::*;
use crate::error::{ApiError, StoreError};
use crate::text::{is_blank, lemma_trimmed_empty_iff_blank, trim, trimmed};
use vstd::arithmetic::power2::pow2;
use vstd::string::StringExecFns;

verus! {

/// `Active` owns a live socket and a notification subscription; `Closed` is
/// terminal. (Authorization happens before a session exists.)
#[derive(Clone, Copy, Debug, PartialEq, Eq, Structural)]
pub enum RelayState {
    Active,
    Closed,
}

/// A notification from the conversation's channel: who wrote what.
#[derive(Clone, Debug)]
pub struct Notification {
    pub author_user_id: i64,
    pub content: String,
}

/// What can happen to an active session.
#[derive(Clone, Debug)]
pub enum RelayEvent {
    /// The client sent a text frame.
    ClientText(String),
    /// The client sent a close frame, or its stream ended.
    ClientClosed,
    /// The client sent a binary, ping or pong frame.
    ClientControl,
    /// Reading from the socket failed.
    ClientError,
    /// A notification arrived and was read.
    Notified(Notification),
    /// A notification arrived whose payload could not be read.
    MalformedNotification,
    /// The notification stream failed or ended.
    BridgeClosed,
    /// Persisting a message failed.
    AppendFailed,
    /// Writing to the socket failed.
    SendFailed,
}

/// What the session asks its owner to do next.
#[derive(Clone, Debug)]
pub enum RelayAction {
    /// Nothing; wait for the next event.
    Idle,
    /// Persist a message (whose insert also publishes the notification).
    Append { conversation_id: u128, user_id: i64, content: String },
    /// Write a text frame to the socket.
    Deliver(String),
    /// Release the socket and the subscription.
    Close,
}

/// An event with its texts as character sequences.
pub enum EventView {
    ClientText(Seq<char>),
    ClientClosed,
    ClientControl,
    ClientError,
    Notified { author_user_id: i64, content: Seq<char> },
    MalformedNotification,
    BridgeClosed,
    AppendFailed,
    SendFailed,
}

/// An action with its texts as character sequences.
pub enum ActionView {
    Idle,
    Append { conversation_id: u128, user_id: i64, content: Seq<char> },
    Deliver(Seq<char>),
    Close,
}

impl View for RelayEvent {
    type V = EventView;

    open spec fn view(&self) -> EventView {
        match self {
            RelayEvent::ClientText(t) => EventView::ClientText(t@),
            RelayEvent::ClientClosed => EventView::ClientClosed,
            RelayEvent::ClientControl => EventView::ClientControl,
            RelayEvent::ClientError => EventView::ClientError,
            RelayEvent::Notified(n) => EventView::Notified {
                author_user_id: n.author_user_id,
                content: n.content@,
            },
            RelayEvent::MalformedNotification => EventView::MalformedNotification,
            RelayEvent::BridgeClosed => EventView::BridgeClosed,
            RelayEvent::AppendFailed => EventView::AppendFailed,
            RelayEvent::SendFailed => EventView::SendFailed,
        }
    }
}

impl View for RelayAction {
    type V = ActionView;

    open spec fn view(&self) -> ActionView {
        match self {
            RelayAction::Idle => ActionView::Idle,
            RelayAction::Append { conversation_id, user_id, content } => ActionView::Append {
                conversation_id: *conversation_id,
                user_id: *user_id,
                content: content@,
            },
            RelayAction::Deliver(t) => ActionView::Deliver(t@),
            RelayAction::Close => ActionView::Close,
        }
    }
}

/// The transition of a session of `user` in `conversation`: its next state
/// and the action to perform.
pub open spec fn relay_step(state: RelayState, conversation: u128, user: i64, e: EventView) -> (
    RelayState,
    ActionView,
) {
    match state {
        RelayState::Closed => (RelayState::Closed, ActionView::Idle),
        RelayState::Active => match e {
            EventView::ClientText(t) => if is_blank(t) {
                (RelayState::Active, ActionView::Idle)
            } else {
                (
                    RelayState::Active,
                    ActionView::Append { conversation_id: conversation, user_id: user, content: trimmed(t) },
                )
            },
            EventView::ClientControl => (RelayState::Active, ActionView::Idle),
            EventView::MalformedNotification => (RelayState::Active, ActionView::Idle),
            EventView::Notified { author_user_id, content } => if author_user_id == user {
                (RelayState::Active, ActionView::Idle)
            } else {
                (RelayState::Active, ActionView::Deliver(content))
            },
            _ => (RelayState::Closed, ActionView::Close),
        },
    }
}

/// The notification that a committed append publishes on the conversation's
/// channel.
pub open spec fn published(a: ActionView) -> EventView {
    match a {
        ActionView::Append { user_id, content, .. } => EventView::Notified {
            author_user_id: user_id,
            content,
        },
        _ => EventView::MalformedNotification,
    }
}

/// The content to store for a message text: the text trimmed, or nothing
/// when it is empty or white space only (such a text is never stored).
pub fn message_content(text: &str) -> (r: Option<String>)
    ensures
        is_blank(text@) <==> r is None,
        r matches Some(c) ==> c@ == trimmed(text@) && c@.len() > 0,
{
    let content = trim(text);
    proof {
        lemma_trimmed_empty_iff_blank(text@);
    }
    if content.as_str().is_empty() {
        None
    } else {
        Some(content)
    }
}

/// The lowercase hexadecimal digit of a value in `[0, 16)`.
pub open spec fn hex_char(v: int) -> char {
    if v == 0 { '0' } else if v == 1 { '1' } else if v == 2 { '2' } else if v == 3 { '3' }
    else if v == 4 { '4' } else if v == 5 { '5' } else if v == 6 { '6' } else if v == 7 { '7' }
    else if v == 8 { '8' } else if v == 9 { '9' } else if v == 10 { 'a' } else if v == 11 { 'b' }
    else if v == 12 { 'c' } else if v == 13 { 'd' } else if v == 14 { 'e' } else { 'f' }
}

/// The `k`-th of the 32 hexadecimal digits of `id`, most significant first.
pub open spec fn uuid_digit(id: u128, k: int) -> int {
    (id as int / pow2((4 * (31 - k)) as nat) as int) % 16
}

/// The hyphenated lowercase text of a UUID (8-4-4-4-12 digits).
pub open spec fn uuid_text(id: u128) -> Seq<char> {
    Seq::new(
        36,
        |i: int|
            if i == 8 || i == 13 || i == 18 || i == 23 {
                '-'
            } else {
                let dashes: int = if i < 8 { 0 } else if i < 13 { 1 } else if i < 18 { 2 } else if i < 23 { 3 } else { 4 };
                hex_char(uuid_digit(id, i - dashes))
            },
    )
}

/// Relies on `uuid::Uuid::from_u128` and the `Display` of `uuid::Uuid`, which
/// writes the hyphenated lowercase form.
#[verifier::external_body]
fn uuid_hyphenated(id: u128) -> (r: String)
    ensures
        r@ == uuid_text(id),
{
    uuid::Uuid::from_u128(id).to_string()
}

/// One relay session: the conversation, the user it speaks for, its state.
#[derive(Clone, Copy, Debug, PartialEq, Eq, Structural)]
pub struct RelaySession {
    pub conversation_id: u128,
    pub user_id: i64,
    pub state: RelayState,
}

impl RelaySession {
    /// Handles one event: returns the action to perform and moves to the
    /// next state.
    pub fn step(&mut self, event: RelayEvent) -> (r: RelayAction)
        ensures
            final(self).conversation_id == old(self).conversation_id,
            final(self).user_id == old(self).user_id,
            (final(self).state, r@) == relay_step(
                old(self).state,
                old(self).conversation_id,
                old(self).user_id,
                event@,
            ),
    {
        match self.state {
            RelayState::Closed => RelayAction::Idle,
            RelayState::Active => match event {
                RelayEvent::ClientText(t) => match message_content(t.as_str()) {
                    None => RelayAction::Idle,
                    Some(content) => RelayAction::Append {
                        conversation_id: self.conversation_id,
                        user_id: self.user_id,
                        content,
                    },
                },
                RelayEvent::ClientControl => RelayAction::Idle,
                RelayEvent::MalformedNotification => RelayAction::Idle,
                RelayEvent::Notified(n) => {
                    if n.author_user_id == self.user_id {
                        RelayAction::Idle
                    } else {
                        RelayAction::Deliver(n.content)
                    }
                },
                _ => {
                    self.state = RelayState::Closed;
                    RelayAction::Close
                },
            },
        }
    }

    /// The name of the notification channel of the session's conversation.
    pub fn channel(&self) -> (r: String)
        ensures
            r@ == "conversation_"@ + uuid_text(self.conversation_id),
    {
        let id = uuid_hyphenated(self.conversation_id);
        "conversation_".to_owned().concat(id.as_str())
    }

    /// Whether the session has ended.
    pub fn is_closed(&self) -> (r: bool)
        ensures
            r == (self.state == RelayState::Closed),
    {
        match self.state {
            RelayState::Closed => true,
            RelayState::Active => false,
        }
    }
}

/// The conversation that an upgrade request names; a request that names none
/// is refused (400).
pub fn conversation_to_join(chat_id: Option<u128>) -> (r: Result<u128, ApiError>)
    ensures
        match chat_id {
            Some(id) => r == Ok::<u128, ApiError>(id),
            None => r == Err::<u128, ApiError>(ApiError::MissingConversationId),
        },
{
    match chat_id {
        Some(id) => Ok(id),
        None => Err(ApiError::MissingConversationId),
    }
}

/// Authorizes a WebSocket upgrade from the participation lookup. Only a
/// participant gets a session, which starts `Active`; anyone else is refused
/// (403) and a failed lookup is an internal error (500), in both cases before
/// any socket is opened.
pub fn authorize_upgrade(conversation_id: u128, user_id: i64, lookup: Result<bool, StoreError>) -> (r: Result<RelaySession, ApiError>)
    ensures
        lookup == Ok::<bool, StoreError>(true) ==> r == Ok::<RelaySession, ApiError>(
            RelaySession { conversation_id, user_id, state: RelayState::Active },
        ),
        lookup == Ok::<bool, StoreError>(false) ==> r == Err::<RelaySession, ApiError>(ApiError::NotParticipant),
        lookup is Err ==> (r matches Err(ApiError::Internal(_))),
{
    match lookup {
        Ok(true) => Ok(RelaySession { conversation_id, user_id, state: RelayState::Active }),
        Ok(false) => Err(ApiError::NotParticipant),
        Err(_) => Err(ApiError::Internal("Failed to verify conversation participant".to_string())),
    }
}

/// In a conversation between two different users, a non-blank text that one
/// of them sends is appended under its author, trimmed; the notification that
/// the append publishes reaches the other participant's socket and is not
/// echoed to the author's.
pub proof fn lemma_relay_delivers_to_peer_only(conversation: u128, author: i64, peer: i64, text: Seq<char>)
    requires
        author != peer,
        !is_blank(text),
    ensures
        relay_step(RelayState::Active, conversation, author, EventView::ClientText(text)) == (
            RelayState::Active,
            ActionView::Append { conversation_id: conversation, user_id: author, content: trimmed(text) },
        ),
        relay_step(
            RelayState::Active,
            conversation,
            peer,
            published(relay_step(RelayState::Active, conversation, author, EventView::ClientText(text)).1),
        ) == (RelayState::Active, ActionView::Deliver(trimmed(text))),
        relay_step(
            RelayState::Active,
            conversation,
            author,
            published(relay_step(RelayState::Active, conversation, author, EventView::ClientText(text)).1),
        ) == (RelayState::Active, ActionView::Idle),
{
}

/// A blank text frame (empty or white space only) appends nothing, publishes
/// nothing and leaves the session open.
pub proof fn lemma_blank_text_ignored(conversation: u128, user: i64, text: Seq<char>)
    requires
        is_blank(text),
    ensures
        relay_step(RelayState::Active, conversation, user, EventView::ClientText(text)) == (
            RelayState::Active,
            ActionView::Idle,
        ),
{
}

} // verus!
