use realtime_chat::pagination::{build_page, clamp_limit, MessagePage, ChatRow, DEFAULT_LIMIT, MAX_LIMIT};

fn row(id: u128, sent_at: i128) -> ChatRow {
    ChatRow { id, content: format!("m{}", id), username: "ann".to_string(), sent_at }
}

/// What the store answers: rows strictly before the cursor, newest first, at most `n`.
fn fetch(history: &[ChatRow], cursor: Option<i128>, n: i64) -> Vec<ChatRow> {
    let mut rows: Vec<ChatRow> =
        history.iter().filter(|r| cursor.map_or(true, |c| r.sent_at < c)).cloned().collect();
    rows.sort_by(|a, b| b.sent_at.cmp(&a.sent_at));
    rows.truncate(n as usize);
    rows
}

fn list(history: &[ChatRow], cursor: Option<i128>, limit: Option<i64>) -> MessagePage {
    let l = clamp_limit(limit);
    build_page(fetch(history, cursor, l + 1), l)
}

#[test]
fn limit_defaults_to_fifty() {
    assert_eq!(clamp_limit(None), DEFAULT_LIMIT);
    assert_eq!(clamp_limit(None), 50);
}

#[test]
fn limit_is_clamped_not_rejected() {
    assert_eq!(clamp_limit(Some(0)), 1);
    assert_eq!(clamp_limit(Some(-7)), 1);
    assert_eq!(clamp_limit(Some(1000)), MAX_LIMIT);
    assert_eq!(clamp_limit(Some(1000)), 100);
    assert_eq!(clamp_limit(Some(37)), 37);
    assert_eq!(clamp_limit(Some(i64::MIN)), 1);
    assert_eq!(clamp_limit(Some(i64::MAX)), 100);
}

#[test]
fn limit_zero_behaves_as_one_and_thousand_as_hundred() {
    let history: Vec<ChatRow> = (0..150).map(|i| row(i, 1000 + i as i128)).collect();
    let a = list(&history, None, Some(0));
    let b = list(&history, None, Some(1));
    assert_eq!(a.items.len(), 1);
    assert_eq!(a.items[0].id, b.items[0].id);
    assert_eq!(a.next_cursor, b.next_cursor);
    let c = list(&history, None, Some(1000));
    let d = list(&history, None, Some(100));
    assert_eq!(c.items.len(), 100);
    assert_eq!(c.next_cursor, d.next_cursor);
    assert!(c.has_more);
}

#[test]
fn page_with_extra_row_has_more() {
    let page = build_page(vec![row(3, 30), row(2, 20), row(1, 10)], 2);
    assert!(page.has_more);
    assert_eq!(page.items.len(), 2);
    assert_eq!(page.items[1].id, 2);
    assert_eq!(page.next_cursor, Some(20));
}

#[test]
fn last_page_has_no_cursor() {
    let page = build_page(vec![row(2, 20), row(1, 10)], 2);
    assert!(!page.has_more);
    assert_eq!(page.items.len(), 2);
    assert_eq!(page.next_cursor, None);
    let empty = build_page(Vec::new(), 5);
    assert!(!empty.has_more);
    assert!(empty.items.is_empty());
    assert_eq!(empty.next_cursor, None);
}

#[test]
fn pages_cover_history_without_gap_or_overlap() {
    let history: Vec<ChatRow> = (0..23).map(|i| row(i, 5000 - 7 * i as i128)).collect();
    let mut seen: Vec<u128> = Vec::new();
    let mut cursor = None;
    let mut pages = 0;
    loop {
        let page = list(&history, cursor, Some(5));
        pages += 1;
        seen.extend(page.items.iter().map(|r| r.id));
        if !page.has_more {
            assert_eq!(page.next_cursor, None);
            break;
        }
        cursor = page.next_cursor;
    }
    assert_eq!(pages, 5);
    let expected: Vec<u128> = (0..23).collect();
    assert_eq!(seen, expected);
}

#[test]
fn cursor_excludes_the_boundary_row() {
    let history = vec![row(1, 10), row(2, 20), row(3, 30)];
    let page = list(&history, Some(20), Some(10));
    assert_eq!(page.items.len(), 1);
    assert_eq!(page.items[0].id, 1);
}

#[test]
fn appended_message_comes_first() {
    let mut history: Vec<ChatRow> = (0..60).map(|i| row(i, 100 + i as i128)).collect();
    history.push(row(999, 10_000));
    for limit in [None, Some(1), Some(0), Some(100)] {
        let page = list(&history, None, limit);
        assert_eq!(page.items[0].id, 999);
    }
}
