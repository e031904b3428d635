use realtime_chat::error::{ApiError, MessageAction, StoreError};
use realtime_chat::guard::{participation_gate, Conversation};
use realtime_chat::messages::{authorship_gate, delete_outcome, edit_outcome};

#[test]
fn participation_decides_access() {
    assert_eq!(participation_gate(Ok(true)), Ok(()));
    assert_eq!(participation_gate(Ok(false)), Err(ApiError::NotParticipant));
    assert_eq!(participation_gate(Ok(false)).unwrap_err().status(), 403);
    assert_eq!(participation_gate(Err(StoreError)).unwrap_err().status(), 500);
}

#[test]
fn conversations_are_canonical() {
    let c = Conversation::between(1, 9, 4).unwrap();
    assert_eq!((c.user_id_1, c.user_id_2), (4, 9));
    assert!(c.is_participant(4) && c.is_participant(9) && !c.is_participant(5));
    assert_eq!(Conversation::between(1, 4, 4), None);
}

#[test]
fn only_the_author_changes_a_message() {
    assert_eq!(authorship_gate(MessageAction::Update, 1, Ok(Some(1))), Ok(()));
    let e = authorship_gate(MessageAction::Delete, 1, Ok(Some(2))).unwrap_err();
    assert_eq!(e, ApiError::NotAuthor(MessageAction::Delete));
    assert_eq!(e.status(), 403);
    assert_eq!(e.message(), "You can only delete messages you sent.");
    assert_eq!(authorship_gate(MessageAction::Update, 1, Ok(None)).unwrap_err().status(), 404);
    assert_eq!(authorship_gate(MessageAction::Update, 1, Err(StoreError)).unwrap_err().status(), 500);
}

#[test]
fn edit_reports_edited_at() {
    let r = edit_outcome(Ok(Some(1_704_067_200_000_000_000))).unwrap();
    assert_eq!(r.edited_at, "2024-01-01T00:00:00Z");
    assert_eq!(r.message, "Message updated successfully.");
    assert_eq!(edit_outcome(Ok(None)).unwrap_err().status(), 500);
    assert_eq!(edit_outcome(Err(StoreError)).unwrap_err().status(), 500);
}

#[test]
fn delete_reports_success() {
    assert_eq!(delete_outcome(Ok(())).unwrap().message, "Message deleted successfully.");
    assert_eq!(delete_outcome(Err(StoreError)).unwrap_err().status(), 500);
}
