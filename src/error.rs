//! The error taxonomy shared by every endpoint.

use vstd::prelude::*;

verus! {

/// Which of the two message mutations a request asked for.
#[derive(Clone, Copy, Debug, PartialEq, Eq, Structural)]
pub enum MessageAction {
    Update,
    Delete,
}

/// Every failure that an endpoint reports, each with one HTTP status.
#[derive(Clone, Debug, PartialEq, Eq)]
pub enum ApiError {
    /// The request body failed validation; the text says why.
    InvalidRequest(String),
    /// The pagination cursor is not an RFC 3339 timestamp.
    InvalidCursor,
    /// The WebSocket upgrade named no conversation.
    MissingConversationId,
    /// The session credential is missing or invalid.
    Unauthenticated,
    /// Login with an unknown user or a wrong password.
    InvalidCredentials,
    /// The current password given with a profile change is wrong.
    WrongPassword,
    /// The old password given with a password change is wrong.
    WrongOldPassword,
    /// The caller is not one of the two participants of the conversation.
    NotParticipant,
    /// The caller did not author the message it tries to change.
    NotAuthor(MessageAction),
    /// The message is not part of the conversation.
    MessageNotFound,
    /// The account is not there.
    UserNotFound,
    /// The pairing code is not outstanding (or not the caller's).
    CodeNotFound,
    /// The caller already holds the largest number of outstanding codes.
    CodeQuotaReached,
    /// The caller tried to redeem a code of its own.
    SelfRedeem,
    /// The two users already share a conversation.
    ConversationExists,
    /// Both the username and the email are taken.
    UserExists,
    /// The username is taken.
    UsernameTaken,
    /// The email is taken.
    EmailTaken,
    /// The store or another collaborator failed; the text is generic.
    Internal(String),
}

/// The HTTP status of each error.
pub open spec fn status_of(e: ApiError) -> u16 {
    match e {
        ApiError::InvalidRequest(_) => 400,
        ApiError::InvalidCursor => 400,
        ApiError::MissingConversationId => 400,
        ApiError::CodeQuotaReached => 400,
        ApiError::SelfRedeem => 400,
        ApiError::Unauthenticated => 401,
        ApiError::InvalidCredentials => 401,
        ApiError::WrongPassword => 401,
        ApiError::WrongOldPassword => 401,
        ApiError::NotParticipant => 403,
        ApiError::NotAuthor(_) => 403,
        ApiError::MessageNotFound => 404,
        ApiError::UserNotFound => 404,
        ApiError::CodeNotFound => 404,
        ApiError::ConversationExists => 409,
        ApiError::UserExists => 409,
        ApiError::UsernameTaken => 409,
        ApiError::EmailTaken => 409,
        ApiError::Internal(_) => 500,
    }
}

impl ApiError {
    /// The HTTP status code that reports this error.
    pub fn status(&self) -> (r: u16)
        ensures
            r == status_of(*self),
    {
        match self {
            ApiError::InvalidRequest(_) => 400,
            ApiError::InvalidCursor => 400,
            ApiError::MissingConversationId => 400,
            ApiError::CodeQuotaReached => 400,
            ApiError::SelfRedeem => 400,
            ApiError::Unauthenticated => 401,
            ApiError::InvalidCredentials => 401,
            ApiError::WrongPassword => 401,
            ApiError::WrongOldPassword => 401,
            ApiError::NotParticipant => 403,
            ApiError::NotAuthor(_) => 403,
            ApiError::MessageNotFound => 404,
            ApiError::UserNotFound => 404,
            ApiError::CodeNotFound => 404,
            ApiError::ConversationExists => 409,
            ApiError::UserExists => 409,
            ApiError::UsernameTaken => 409,
            ApiError::EmailTaken => 409,
            ApiError::Internal(_) => 500,
        }
    }

    /// The short human-readable text sent with the status.
    pub fn message(&self) -> (r: String)
        ensures
            r@ == message_of(*self),
    {
        match self {
            ApiError::InvalidRequest(m) => m.clone(),
            ApiError::InvalidCursor => "Invalid cursor format. Use RFC3339 timestamp.".to_owned(),
            ApiError::MissingConversationId => "Chat ID not provided".to_owned(),
            ApiError::Unauthenticated => "Authentication required".to_owned(),
            ApiError::InvalidCredentials => "Invalid credentials".to_owned(),
            ApiError::WrongPassword => "Invalid password".to_owned(),
            ApiError::WrongOldPassword => "Invalid old password".to_owned(),
            ApiError::NotParticipant => "You are not a participant in this conversation.".to_owned(),
            ApiError::NotAuthor(MessageAction::Update) => "You can only update messages you sent.".to_owned(),
            ApiError::NotAuthor(MessageAction::Delete) => "You can only delete messages you sent.".to_owned(),
            ApiError::MessageNotFound => "Message not found in this conversation.".to_owned(),
            ApiError::UserNotFound => "User not found".to_owned(),
            ApiError::CodeNotFound => "Chat code not found.".to_owned(),
            ApiError::CodeQuotaReached => "You already have 5 chat codes.".to_owned(),
            ApiError::SelfRedeem => "You cannot start a conversation with yourself.".to_owned(),
            ApiError::ConversationExists => "Conversation already exists.".to_owned(),
            ApiError::UserExists => "This user already exists.".to_owned(),
            ApiError::UsernameTaken => "Username already exists".to_owned(),
            ApiError::EmailTaken => "Email already exists".to_owned(),
            ApiError::Internal(m) => m.clone(),
        }
    }
}

/// The text sent with each error.
pub open spec fn message_of(e: ApiError) -> Seq<char> {
    match e {
        ApiError::InvalidRequest(m) => m@,
        ApiError::InvalidCursor => "Invalid cursor format. Use RFC3339 timestamp."@,
        ApiError::MissingConversationId => "Chat ID not provided"@,
        ApiError::Unauthenticated => "Authentication required"@,
        ApiError::InvalidCredentials => "Invalid credentials"@,
        ApiError::WrongPassword => "Invalid password"@,
        ApiError::WrongOldPassword => "Invalid old password"@,
        ApiError::NotParticipant => "You are not a participant in this conversation."@,
        ApiError::NotAuthor(MessageAction::Update) => "You can only update messages you sent."@,
        ApiError::NotAuthor(MessageAction::Delete) => "You can only delete messages you sent."@,
        ApiError::MessageNotFound => "Message not found in this conversation."@,
        ApiError::UserNotFound => "User not found"@,
        ApiError::CodeNotFound => "Chat code not found."@,
        ApiError::CodeQuotaReached => "You already have 5 chat codes."@,
        ApiError::SelfRedeem => "You cannot start a conversation with yourself."@,
        ApiError::ConversationExists => "Conversation already exists."@,
        ApiError::UserExists => "This user already exists."@,
        ApiError::UsernameTaken => "Username already exists"@,
        ApiError::EmailTaken => "Email already exists"@,
        ApiError::Internal(m) => m@,
    }
}

/// A failed round trip to the store; what failed is logged, not reported.
#[derive(Clone, Copy, Debug, PartialEq, Eq, Structural)]
pub struct StoreError;

} // verus!
