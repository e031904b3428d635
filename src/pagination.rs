//! Cursor pagination over a conversation's message history.
//!
//! A history is held newest first. A page is read by asking the store for
//! `limit + 1` rows strictly older than the cursor; the extra row only tells
//! whether another page exists.

use vstd::prelude::*;

verus! {

/// Page size used when the request names none.
pub const DEFAULT_LIMIT: i64 = 50;

/// Largest page size.
pub const MAX_LIMIT: i64 = 100;

/// One stored message as history reads it. `sent_at` is nanoseconds since
/// the Unix epoch, the only ordering key.
#[derive(Clone, Debug)]
pub struct ChatRow {
    pub id: u128,
    pub content: String,
    pub username: String,
    pub sent_at: i128,
}

/// One page of history, newest first.
#[derive(Clone, Debug)]
pub struct MessagePage {
    pub items: Vec<ChatRow>,
    /// The cursor for the next (older) page; present exactly when `has_more`.
    pub next_cursor: Option<i128>,
    pub has_more: bool,
}

/// The page size that a request asks for, clamped into `[1, MAX_LIMIT]`.
pub open spec fn clamped_limit(limit: Option<i64>) -> int {
    match limit {
        None => DEFAULT_LIMIT as int,
        Some(v) => if v < 1 {
            1
        } else if v > MAX_LIMIT {
            MAX_LIMIT as int
        } else {
            v as int
        },
    }
}

/// The effective page size: absent means `DEFAULT_LIMIT`, values outside
/// `[1, MAX_LIMIT]` go to the nearest bound.
pub fn clamp_limit(limit: Option<i64>) -> (r: i64)
    ensures
        r == clamped_limit(limit),
        1 <= r <= MAX_LIMIT,
{
    match limit {
        None => DEFAULT_LIMIT,
        Some(v) => if v < 1 {
            1
        } else if v > MAX_LIMIT {
            MAX_LIMIT
        } else {
            v
        },
    }
}

/// Whether a row lies strictly before the cursor (every row does when there
/// is none).
pub open spec fn before_cursor(row: ChatRow, cursor: Option<i128>) -> bool {
    match cursor {
        None => true,
        Some(t) => row.sent_at < t,
    }
}

/// A history is newest first, with no two rows sent at the same instant.
pub open spec fn newest_first(h: Seq<ChatRow>) -> bool {
    forall|i: int, j: int| 0 <= i < j < h.len() ==> h[i].sent_at > h[j].sent_at
}

/// How many leading rows of the history are not before the cursor.
pub open spec fn rows_at_or_after(h: Seq<ChatRow>, cursor: Option<i128>) -> int
    decreases h.len(),
{
    if h.len() == 0 || before_cursor(h[0], cursor) {
        0
    } else {
        1 + rows_at_or_after(h.drop_first(), cursor)
    }
}

/// The rows of a newest-first history sent strictly before the cursor.
pub open spec fn older_than(h: Seq<ChatRow>, cursor: Option<i128>) -> Seq<ChatRow> {
    h.subrange(rows_at_or_after(h, cursor), h.len() as int)
}

/// What the store returns for a page request: at most `n` rows strictly
/// before the cursor, newest first.
pub open spec fn fetch_window(h: Seq<ChatRow>, cursor: Option<i128>, n: int) -> Seq<ChatRow> {
    let rows = older_than(h, cursor);
    if rows.len() <= n {
        rows
    } else {
        rows.take(n)
    }
}

/// Whether the fetched rows hold more than one page.
pub open spec fn page_has_more(fetched: Seq<ChatRow>, limit: int) -> bool {
    fetched.len() > limit
}

/// The rows of a page made from what the store returned.
pub open spec fn page_items(fetched: Seq<ChatRow>, limit: int) -> Seq<ChatRow> {
    if page_has_more(fetched, limit) {
        fetched.take(limit)
    } else {
        fetched
    }
}

/// The cursor of the next page: the instant of the page's oldest row, when
/// there is a next page.
pub open spec fn page_next_cursor(fetched: Seq<ChatRow>, limit: int) -> Option<i128> {
    if page_has_more(fetched, limit) {
        Some(page_items(fetched, limit).last().sent_at)
    } else {
        None
    }
}

/// `p` is the page made of `fetched` for page size `limit`.
pub open spec fn is_page_of(p: MessagePage, fetched: Seq<ChatRow>, limit: int) -> bool {
    &&& p.items@ == page_items(fetched, limit)
    &&& p.has_more == page_has_more(fetched, limit)
    &&& p.next_cursor == page_next_cursor(fetched, limit)
}

/// Turns the rows fetched for a page (asked with `limit + 1`) into the page.
pub fn build_page(fetched: Vec<ChatRow>, limit: i64) -> (r: MessagePage)
    requires
        1 <= limit <= MAX_LIMIT,
    ensures
        is_page_of(r, fetched@, limit as int),
{
    let mut rows = fetched;
    let n = limit as usize;
    let has_more = rows.len() > n;
    if has_more {
        rows.truncate(n);
        assert(rows@ =~= fetched@.take(limit as int));
    }
    let next_cursor = if has_more {
        Some(rows[rows.len() - 1].sent_at)
    } else {
        None
    };
    MessagePage { items: rows, next_cursor, has_more }
}


/// The rows that a page request returns, for a requested page size.
pub open spec fn listed_items(h: Seq<ChatRow>, cursor: Option<i128>, limit: Option<i64>) -> Seq<
    ChatRow,
> {
    let l = clamped_limit(limit);
    page_items(fetch_window(h, cursor, l + 1), l)
}

/// The rows read by starting without a cursor and feeding each page's
/// `next_cursor` back, for at most `fuel` pages.
pub open spec fn walk_pages(h: Seq<ChatRow>, cursor: Option<i128>, limit: int, fuel: nat) -> Seq<
    ChatRow,
>
    decreases fuel,
{
    if fuel == 0 {
        Seq::empty()
    } else {
        let f = fetch_window(h, cursor, limit + 1);
        if page_has_more(f, limit) {
            page_items(f, limit) + walk_pages(h, page_next_cursor(f, limit), limit, (fuel - 1) as nat)
        } else {
            page_items(f, limit)
        }
    }
}

proof fn lemma_rows_at_or_after_bounds(h: Seq<ChatRow>, cursor: Option<i128>)
    ensures
        0 <= rows_at_or_after(h, cursor) <= h.len(),
    decreases h.len(),
{
    if h.len() > 0 && !before_cursor(h[0], cursor) {
        lemma_rows_at_or_after_bounds(h.drop_first(), cursor);
    }
}

proof fn lemma_rows_at_or_after_is(h: Seq<ChatRow>, cursor: Option<i128>, k: int)
    requires
        0 <= k <= h.len(),
        forall|i: int| 0 <= i < k ==> !before_cursor(#[trigger] h[i], cursor),
        k < h.len() ==> before_cursor(h[k], cursor),
    ensures
        rows_at_or_after(h, cursor) == k,
    decreases h.len(),
{
    if k > 0 {
        let t = h.drop_first();
        assert forall|i: int| 0 <= i < k - 1 implies !before_cursor(#[trigger] t[i], cursor) by {
            assert(t[i] == h[i + 1]);
        }
        if k - 1 < t.len() {
            assert(t[k - 1] == h[k]);
        }
        lemma_rows_at_or_after_is(t, cursor, k - 1);
    }
}

/// One page step: the rows before a cursor are the page's rows followed by
/// the rows before the page's `next_cursor`, or the page's rows alone when
/// it is the last page.
pub proof fn lemma_page_step(h: Seq<ChatRow>, cursor: Option<i128>, limit: int)
    requires
        newest_first(h),
        1 <= limit,
    ensures
        ({
            let f = fetch_window(h, cursor, limit + 1);
            if page_has_more(f, limit) {
                &&& older_than(h, cursor) == page_items(f, limit) + older_than(
                    h,
                    page_next_cursor(f, limit),
                )
                &&& older_than(h, page_next_cursor(f, limit)).len() == older_than(h, cursor).len()
                    - limit
            } else {
                older_than(h, cursor) == page_items(f, limit)
            }
        }),
{
    lemma_rows_at_or_after_bounds(h, cursor);
    let k = rows_at_or_after(h, cursor);
    let o = older_than(h, cursor);
    let f = fetch_window(h, cursor, limit + 1);
    if o.len() > limit {
        assert(f == o.take(limit + 1));
        let items = page_items(f, limit);
        assert(items =~= h.subrange(k, k + limit));
        let t = h[k + limit - 1].sent_at;
        assert(page_next_cursor(f, limit) == Some(t));
        assert forall|i: int| 0 <= i < k + limit implies !before_cursor(
            #[trigger] h[i],
            Some(t),
        ) by {
            if i < k + limit - 1 {
                assert(h[i].sent_at > h[k + limit - 1].sent_at);
            }
        }
        lemma_rows_at_or_after_is(h, Some(t), k + limit);
        assert(o =~= items + older_than(h, Some(t)));
    } else {
        assert(f == o);
    }
}

proof fn lemma_walk_reads_rest(h: Seq<ChatRow>, cursor: Option<i128>, limit: int, fuel: nat)
    requires
        newest_first(h),
        1 <= limit,
        fuel > older_than(h, cursor).len(),
    ensures
        walk_pages(h, cursor, limit, fuel) == older_than(h, cursor),
    decreases fuel,
{
    lemma_page_step(h, cursor, limit);
    let f = fetch_window(h, cursor, limit + 1);
    if page_has_more(f, limit) {
        lemma_walk_reads_rest(h, page_next_cursor(f, limit), limit, (fuel - 1) as nat);
    }
}

/// Pagination is gap-free and overlap-free: walking the pages from no cursor,
/// feeding each `next_cursor` back until `has_more` is false, reads the whole
/// history newest first, each message once.
pub proof fn lemma_pages_cover_history(h: Seq<ChatRow>, limit: Option<i64>)
    requires
        newest_first(h),
    ensures
        walk_pages(h, None, clamped_limit(limit), (h.len() + 1) as nat) == h,
{
    let l = clamped_limit(limit);
    lemma_rows_at_or_after_is(h, None, 0);
    assert(older_than(h, None) =~= h);
    lemma_walk_reads_rest(h, None, l, (h.len() + 1) as nat);
}

/// Page sizes outside `[1, MAX_LIMIT]` are clamped, never rejected: below one
/// a request reads as one, above `MAX_LIMIT` as `MAX_LIMIT`.
pub proof fn lemma_limit_clamped(h: Seq<ChatRow>, cursor: Option<i128>, v: i64)
    ensures
        v < 1 ==> listed_items(h, cursor, Some(v)) == listed_items(h, cursor, Some(1)),
        v > MAX_LIMIT ==> listed_items(h, cursor, Some(v)) == listed_items(
            h,
            cursor,
            Some(MAX_LIMIT),
        ),
        1 <= clamped_limit(Some(v)) <= MAX_LIMIT,
{
}

/// A message appended after every stored one is the first row of the first
/// page, whatever the page size.
pub proof fn lemma_appended_listed_first(h: Seq<ChatRow>, m: ChatRow, limit: Option<i64>)
    requires
        newest_first(h),
        forall|i: int| 0 <= i < h.len() ==> m.sent_at > #[trigger] h[i].sent_at,
    ensures
        newest_first(seq![m] + h),
        listed_items(seq![m] + h, None, limit).len() > 0,
        listed_items(seq![m] + h, None, limit)[0] == m,
{
    let h2 = seq![m] + h;
    assert forall|i: int, j: int| 0 <= i < j < h2.len() implies h2[i].sent_at > h2[j].sent_at by {
        if i > 0 {
            assert(h2[i] == h[i - 1]);
        }
        assert(h2[j] == h[j - 1]);
    }
    lemma_rows_at_or_after_is(h2, None, 0);
    assert(older_than(h2, None) =~= h2);
}

} // verus!
