use realtime_chat::error::{ApiError, StoreError};
use realtime_chat::relay::{
    authorize_upgrade, conversation_to_join, message_content, Notification, RelayAction, RelayEvent, RelaySession, RelayState,
};
use realtime_chat::text::trim;

fn session(user: i64) -> RelaySession {
    authorize_upgrade(42, user, Ok(true)).unwrap()
}

fn published(action: &RelayAction) -> RelayEvent {
    match action {
        RelayAction::Append { user_id, content, .. } => {
            RelayEvent::Notified(Notification { author_user_id: *user_id, content: content.clone() })
        }
        _ => panic!("expected an append"),
    }
}

#[test]
fn text_reaches_peer_not_author() {
    let mut a = session(1);
    let mut b = session(2);
    let action = a.step(RelayEvent::ClientText("hi".to_string()));
    match &action {
        RelayAction::Append { conversation_id, user_id, content } => {
            assert_eq!(*conversation_id, 42);
            assert_eq!(*user_id, 1);
            assert_eq!(content, "hi");
        }
        _ => panic!("expected an append"),
    }
    match b.step(published(&action)) {
        RelayAction::Deliver(t) => assert_eq!(t, "hi"),
        _ => panic!("peer must receive the text"),
    }
    assert!(matches!(a.step(published(&action)), RelayAction::Idle));
    assert!(!a.is_closed());
    assert!(!b.is_closed());
}

#[test]
fn hello_is_trimmed_and_appended() {
    let mut a = session(5);
    match a.step(RelayEvent::ClientText("  hello \n".to_string())) {
        RelayAction::Append { content, .. } => assert_eq!(content, "hello"),
        _ => panic!("expected an append"),
    }
}

#[test]
fn blank_text_appends_nothing() {
    let mut a = session(1);
    assert!(matches!(a.step(RelayEvent::ClientText(String::new())), RelayAction::Idle));
    assert!(matches!(a.step(RelayEvent::ClientText(" \t\r\n\u{a0}\u{3000}".to_string())), RelayAction::Idle));
    assert_eq!(a.state, RelayState::Active);
}

#[test]
fn control_frames_and_bad_payloads_are_ignored() {
    let mut a = session(1);
    assert!(matches!(a.step(RelayEvent::ClientControl), RelayAction::Idle));
    assert!(matches!(a.step(RelayEvent::MalformedNotification), RelayAction::Idle));
    assert!(!a.is_closed());
}

#[test]
fn every_failure_closes_the_session() {
    for event in [
        RelayEvent::ClientClosed,
        RelayEvent::ClientError,
        RelayEvent::BridgeClosed,
        RelayEvent::AppendFailed,
        RelayEvent::SendFailed,
    ] {
        let mut a = session(1);
        assert!(matches!(a.step(event), RelayAction::Close));
        assert!(a.is_closed());
        assert!(matches!(a.step(RelayEvent::ClientText("late".to_string())), RelayAction::Idle));
        assert!(a.is_closed());
    }
}

#[test]
fn non_participant_upgrade_is_refused() {
    let e = authorize_upgrade(42, 3, Ok(false)).unwrap_err();
    assert_eq!(e, ApiError::NotParticipant);
    assert_eq!(e.status(), 403);
    assert_eq!(e.message(), "You are not a participant in this conversation.");
    let e = authorize_upgrade(0, 3, Ok(false)).unwrap_err();
    assert_eq!(e.status(), 403);
    let e = authorize_upgrade(42, 3, Err(StoreError)).unwrap_err();
    assert_eq!(e.status(), 500);
}

#[test]
fn upgrade_without_conversation_is_refused() {
    let e = conversation_to_join(None).unwrap_err();
    assert_eq!(e, ApiError::MissingConversationId);
    assert_eq!(e.status(), 400);
    assert_eq!(e.message(), "Chat ID not provided");
    assert_eq!(conversation_to_join(Some(9)), Ok(9));
}

#[test]
fn channel_is_named_after_the_conversation() {
    let s = authorize_upgrade(0x67e5_5044_10b1_426f_9247_bb68_0e5f_e0c8, 1, Ok(true)).unwrap();
    assert_eq!(s.channel(), "conversation_67e55044-10b1-426f-9247-bb680e5fe0c8");
    let zero = authorize_upgrade(0, 1, Ok(true)).unwrap();
    assert_eq!(zero.channel(), "conversation_00000000-0000-0000-0000-000000000000");
}

#[test]
fn trim_removes_unicode_white_space() {
    assert_eq!(trim("  a b  "), "a b");
    assert_eq!(trim("\u{2003}x\u{2029}"), "x");
    assert_eq!(trim("   "), "");
    assert_eq!(trim(""), "");
    assert_eq!(trim("é"), "é");
}

#[test]
fn message_content_is_trimmed_or_refused() {
    assert_eq!(message_content("  hi  ").as_deref(), Some("hi"));
    assert_eq!(message_content(" \n\t"), None);
    assert_eq!(message_content(""), None);
}
