use realtime_chat::error::{ApiError, StoreError};
use realtime_chat::pairing::{
    generate_chat_code, issue_outcome, plan_redemption, redemption_outcome, revoke_outcome, MIN_CODE,
};

#[test]
fn generated_codes_are_in_range() {
    for _ in 0..200 {
        let c = generate_chat_code();
        assert!(c >= MIN_CODE && c < u16::MAX);
    }
}

#[test]
fn sixth_code_is_refused() {
    assert_eq!(issue_outcome(12345, Ok(1)), Ok(12345));
    let e = issue_outcome(12345, Ok(0)).unwrap_err();
    assert_eq!(e, ApiError::CodeQuotaReached);
    assert_eq!(e.status(), 400);
    assert_eq!(e.message(), "You already have 5 chat codes.");
    assert_eq!(issue_outcome(12345, Err(StoreError)).unwrap_err().status(), 500);
}

#[test]
fn revoking_codes() {
    assert_eq!(revoke_outcome(Ok(true)), Ok(()));
    assert_eq!(revoke_outcome(Ok(false)).unwrap_err().status(), 404);
    assert_eq!(revoke_outcome(Err(StoreError)).unwrap_err().status(), 500);
}

#[test]
fn own_code_cannot_be_redeemed() {
    let e = plan_redemption(7, Ok((None, true))).unwrap_err();
    assert_eq!(e, ApiError::SelfRedeem);
    assert_eq!(e.status(), 400);
    assert_eq!(e.message(), "You cannot start a conversation with yourself.");
    assert_eq!(plan_redemption(7, Ok((Some(7), false))), Err(ApiError::SelfRedeem));
}

#[test]
fn redemption_orders_the_pair() {
    assert_eq!(plan_redemption(7, Ok((Some(3), false))), Ok((3, 7)));
    assert_eq!(plan_redemption(3, Ok((Some(7), false))), Ok((3, 7)));
    assert_eq!(plan_redemption(3, Ok((None, false))), Err(ApiError::CodeNotFound));
    assert_eq!(ApiError::CodeNotFound.message(), "Chat code not found.");
    assert_eq!(plan_redemption(3, Err(StoreError)).unwrap_err().status(), 500);
}

#[test]
fn second_redemption_conflicts_or_finds_nothing() {
    assert_eq!(redemption_outcome(Ok(Some(77))), Ok(77));
    let e = redemption_outcome(Ok(None)).unwrap_err();
    assert_eq!(e, ApiError::ConversationExists);
    assert_eq!(e.status(), 409);
    assert_eq!(plan_redemption(9, Ok((None, false))).unwrap_err().status(), 404);
    assert_eq!(ApiError::ConversationExists.message(), "Conversation already exists.");
    assert_eq!(redemption_outcome(Err(StoreError)).unwrap_err().status(), 500);
}
