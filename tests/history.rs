use realtime_chat::error::ApiError;
use realtime_chat::history::{page_request, render_page, PageRequest};
use realtime_chat::pagination::{MessagePage, ChatRow};

const JAN_2024_NANOS: i128 = 1_704_067_200_000_000_000;

#[test]
fn no_cursor_reads_newest_page() {
    let r = page_request(&None, None).unwrap();
    assert_eq!(r, PageRequest { cursor: None, limit: 50 });
    assert_eq!(r.fetch_limit(), 51);
}

#[test]
fn rfc3339_cursor_is_read() {
    let r = page_request(&Some("2024-01-01T00:00:00Z".to_string()), Some(10)).unwrap();
    assert_eq!(r.cursor, Some(JAN_2024_NANOS));
    assert_eq!(r.limit, 10);
    let offset = page_request(&Some("2024-01-01T01:00:00+01:00".to_string()), Some(500)).unwrap();
    assert_eq!(offset.cursor, Some(JAN_2024_NANOS));
    assert_eq!(offset.limit, 100);
}

#[test]
fn malformed_cursor_is_a_client_error() {
    let e = page_request(&Some("yesterday".to_string()), None).unwrap_err();
    assert_eq!(e, ApiError::InvalidCursor);
    assert_eq!(e.status(), 400);
    assert_eq!(e.message(), "Invalid cursor format. Use RFC3339 timestamp.");
    assert!(page_request(&Some(String::new()), None).is_err());
}

#[test]
fn page_renders_rfc3339_instants() {
    let page = MessagePage {
        items: vec![ChatRow { id: 7, content: "hi".to_string(), username: "bob".to_string(), sent_at: JAN_2024_NANOS }],
        next_cursor: Some(JAN_2024_NANOS),
        has_more: true,
    };
    let body = render_page(&page);
    assert_eq!(body.chats.len(), 1);
    assert_eq!(body.chats[0].id, 7);
    assert_eq!(body.chats[0].content, "hi");
    assert_eq!(body.chats[0].user_sent, "bob");
    assert_eq!(body.chats[0].sent_at, "2024-01-01T00:00:00Z");
    assert_eq!(body.next_cursor.as_deref(), Some("2024-01-01T00:00:00Z"));
    assert!(body.has_more);
}

#[test]
fn unwritable_instant_renders_placeholder() {
    let page = MessagePage {
        items: vec![ChatRow { id: 1, content: "x".to_string(), username: "u".to_string(), sent_at: i128::MAX }],
        next_cursor: None,
        has_more: false,
    };
    let body = render_page(&page);
    assert_eq!(body.chats[0].sent_at, "Wasn't able to format timestamp");
    assert_eq!(body.next_cursor, None);
}

#[test]
fn next_cursor_text_reads_back_to_the_same_instant() {
    let nanos: i128 = JAN_2024_NANOS + 123_456_789;
    let page = MessagePage { items: Vec::new(), next_cursor: Some(nanos), has_more: true };
    let body = render_page(&page);
    assert_eq!(body.next_cursor.as_deref(), Some("2024-01-01T00:00:00.123456789Z"));
    let again = page_request(&body.next_cursor, None).unwrap();
    assert_eq!(again.cursor, Some(nanos));
}

#[test]
fn timestamps_render_as_rfc3339() {
    assert_eq!(realtime_chat::history::timestamp_text(JAN_2024_NANOS), "2024-01-01T00:00:00Z");
    assert_eq!(realtime_chat::history::timestamp_text(i128::MIN), "Wasn't able to format timestamp");
}
