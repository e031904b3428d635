//! Editing and deleting messages: only a participant, and only the author.

use vstd::prelude::*;
use crate::api::chats::messages::{ApiChatsMessagesDeleteResponse, ApiChatsMessagesPatchResponse};
use crate::error::{ApiError, MessageAction, StoreError};
use crate::history::{sent_at_text, timestamp_text};

verus! {

/// What the authorship check decides from the author of the message in the
/// conversation (`None` when the conversation holds no such message).
pub open spec fn authorship_result(action: MessageAction, user: i64, author: Option<i64>) -> Result<
    (),
    ApiError,
> {
    match author {
        None => Err(ApiError::MessageNotFound),
        Some(a) => if a == user {
            Ok(())
        } else {
            Err(ApiError::NotAuthor(action))
        },
    }
}

/// The authorship gate of an edit or a delete, from the lookup of the
/// message's author: only the author passes (403 for anyone else, 404 for a
/// message that is not in the conversation).
pub fn authorship_gate(action: MessageAction, user: i64, author: Result<Option<i64>, StoreError>) -> (r: Result<(), ApiError>)
    ensures
        author matches Ok(a) ==> r == authorship_result(action, user, a),
        author is Err ==> (r matches Err(ApiError::Internal(_))),
{
    match author {
        Ok(None) => Err(ApiError::MessageNotFound),
        Ok(Some(a)) => if a == user {
            Ok(())
        } else {
            Err(ApiError::NotAuthor(action))
        },
        Err(_) => Err(ApiError::Internal("An error occurred while verifying the message.".to_string())),
    }
}

/// The answer to an edit, from the update that returns the new `edited_at`
/// (nanoseconds since the Unix epoch), or nothing when no row changed.
pub fn edit_outcome(updated: Result<Option<i128>, StoreError>) -> (r: Result<ApiChatsMessagesPatchResponse, ApiError>)
    ensures
        updated matches Ok(Some(t)) ==> (r matches Ok(p) && p.edited_at@ == sent_at_text(t)
            && p.message@ == "Message updated successfully."@),
        !(updated is Ok && updated->Ok_0 is Some) ==> (r matches Err(ApiError::Internal(_))),
{
    match updated {
        Ok(Some(t)) => {
            let edited_at = timestamp_text(t);
            Ok(ApiChatsMessagesPatchResponse { message: "Message updated successfully.".to_owned(), edited_at })
        },
        Ok(None) => Err(ApiError::Internal("Failed to update message.".to_string())),
        Err(_) => Err(ApiError::Internal("An error occurred while updating the message.".to_string())),
    }
}

/// The answer to a delete, from the author-guarded delete statement.
pub fn delete_outcome(deleted: Result<(), StoreError>) -> (r: Result<ApiChatsMessagesDeleteResponse, ApiError>)
    ensures
        deleted is Ok <==> r is Ok,
        r matches Ok(p) ==> p.message@ == "Message deleted successfully."@,
        deleted is Err ==> (r matches Err(ApiError::Internal(_))),
{
    match deleted {
        Ok(()) => Ok(ApiChatsMessagesDeleteResponse { message: "Message deleted successfully.".to_owned() }),
        Err(_) => Err(ApiError::Internal("An error occurred while deleting the message.".to_string())),
    }
}

} // verus!
