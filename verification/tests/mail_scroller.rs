use mail_common::mail_scroller::{
    context_time, CachedScrollData, ConversationScrollData, MessageScrollData, ReadWindow,
    ScrollCursor, ScrollItem, ScrollOrderDir, ScrollOrderField, ScrollQuery, SearchScrollData,
};
use mail_common::types::ReadFilter;

const HIGHEST: u64 = i64::MAX as u64;

fn item(remote: Option<&str>, time: u64, snooze_time: u64, display_order: u64) -> ScrollItem {
    ScrollItem { remote_id: remote.map(|s| s.to_string()), time, snooze_time, display_order }
}

#[test]
fn ordering_time_prefers_snooze_time_when_ordered_by_it() {
    assert_eq!(context_time(10, 20, ScrollOrderField::Time), 10);
    assert_eq!(context_time(10, 20, ScrollOrderField::SnoozeTime), 20);
    assert_eq!(context_time(10, 0, ScrollOrderField::SnoozeTime), 10);
}

#[test]
fn beginning_and_end_cursors() {
    let b = ScrollCursor::absolute_beginning(1, ReadFilter::All, ScrollOrderDir::Desc, ScrollOrderField::Time);
    assert_eq!((b.time, b.snooze_time, b.display_order), (HIGHEST, HIGHEST, HIGHEST));
    let e = ScrollCursor::absolute_end(1, ReadFilter::All, ScrollOrderDir::Desc, ScrollOrderField::Time);
    assert_eq!((e.time, e.snooze_time, e.display_order), (0, 0, 0));
    assert_ne!(b, e);
    let b = ScrollCursor::absolute_beginning(1, ReadFilter::Unread, ScrollOrderDir::Asc, ScrollOrderField::Time);
    assert_eq!(b.time, 0);
    let e = ScrollCursor::absolute_end(1, ReadFilter::Unread, ScrollOrderDir::Asc, ScrollOrderField::Time);
    assert_eq!(e.time, HIGHEST);
    assert_eq!(e.unread, ReadFilter::Unread);
}

#[test]
fn scroll_data_from_items() {
    let it = item(Some("m"), 100, 300, 7);
    let d = MessageScrollData::into_scroll_data(2, ReadFilter::All, it, ScrollOrderDir::Desc, ScrollOrderField::SnoozeTime)
        .unwrap();
    assert_eq!(d.remote_message_id, "m");
    assert_eq!(d.snooze_time, 300);
    assert_eq!(d.context_time(ScrollOrderField::Time), 100);
    let c = d.to_cursor();
    assert_eq!((c.local_label_id, c.time, c.snooze_time, c.display_order), (2, 100, 300, 7));
    assert!(MessageScrollData::into_scroll_data(2, ReadFilter::All, item(None, 1, 1, 1), ScrollOrderDir::Desc, ScrollOrderField::Time).is_none());
    let cd = ConversationScrollData::into_scroll_data(3, ReadFilter::Read, item(Some("c"), 50, 0, 1), ScrollOrderDir::Asc, ScrollOrderField::SnoozeTime)
        .unwrap();
    assert_eq!(cd.remote_conversation_id, "c");
    assert_eq!(cd.snooze_time, 50);
    assert_eq!(cd.to_cursor().order_dir, ScrollOrderDir::Asc);
}

#[test]
fn cached_scroll_windows() {
    let s = CachedScrollData::all(1, ReadFilter::All, 10, ScrollOrderDir::Desc, ScrollOrderField::Time);
    assert_eq!(s.cursor.time, HIGHEST);
    assert_eq!(s.end.time, 0);
    assert_eq!(s.fetch_more_window(100, 100), None);
    assert_eq!(s.fetch_more_window(100, 95), Some(ReadWindow { limit: 5, offset: 95 }));
    assert_eq!(s.fetch_more_window(100, 81), Some(ReadWindow { limit: 19, offset: 81 }));
    assert_eq!(s.fetch_more_window(100, 80), Some(ReadWindow { limit: 10, offset: 80 }));
    assert_eq!(s.while_fetch_more_window(100, 95), Some(ReadWindow { limit: 10, offset: 95 }));
    assert_eq!(s.while_fetch_more_window(5, 95), None);
    assert!(s.has_more(3, 2));
    assert!(!s.has_more(2, 2));
    assert!(s.has_next_page(20, 10));
    assert!(!s.has_next_page(19, 10));
    assert!(!s.has_next_page(5, 10));
}

#[test]
fn advancing_moves_the_cursor_past_the_last_item() {
    let mut s = CachedScrollData::all(1, ReadFilter::All, 10, ScrollOrderDir::Desc, ScrollOrderField::SnoozeTime);
    let last = item(Some("x"), 40, 0, 3);
    s.advance(Some(&last));
    assert_eq!((s.cursor.time, s.cursor.snooze_time, s.cursor.display_order), (40, 40, 3));
    s.advance(None);
    assert_eq!(s.cursor, s.end);
    let fresh = CachedScrollData::new(5, s.end, ScrollOrderDir::Asc, ScrollOrderField::Time);
    assert_eq!(fresh.cursor.time, 0);
    let ended = CachedScrollData { end: fresh.cursor, ..fresh }.set_absolute_end();
    assert_eq!(ended.end.time, HIGHEST);
    assert_eq!(ended.cursor, fresh.cursor);
}

#[test]
fn search_scroll_fetches_past_the_last_seen() {
    let mut s = SearchScrollData { local_message_id: 1, display_order: 5 };
    assert!(!s.has_more(None));
    assert!(!s.has_more(Some(SearchScrollData { local_message_id: 2, display_order: 5 })));
    let next = SearchScrollData { local_message_id: 3, display_order: 9 };
    assert!(s.has_more(Some(next)));
    assert_eq!(s.fetch_more(Some(next)), Some(6));
    assert_eq!(s, next);
    assert_eq!(s.fetch_more(None), None);
    assert_eq!(s, next);
}

#[test]
fn scroll_query_builders() {
    let c = ScrollCursor::absolute_end(1, ReadFilter::All, ScrollOrderDir::Desc, ScrollOrderField::Time);
    let q = ScrollQuery::new(c).with_limit(Some(4)).with_offset(Some(8)).with_remote_id(true);
    assert_eq!(q, ScrollQuery { cursor: c, limit: Some(4), offset: Some(8), require_remote_id: true });
}
