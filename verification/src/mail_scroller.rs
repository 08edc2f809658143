//! Scrolling through a mailbox: the cursors that bound what has been synced
//! and what has been shown, and the decisions of how much to read next.

use vstd::prelude::*;
use crate::types::{LocalLabelId, LocalMessageId, ReadFilter, UnixTimestamp};

verus! {

/// The direction in which a mailbox is ordered.
#[derive(Clone, Copy, Debug, PartialEq, Eq, Structural)]
pub enum ScrollOrderDir {
    Asc,
    Desc,
}

/// The time a mailbox is ordered by.
#[derive(Clone, Copy, Debug, PartialEq, Eq, Structural)]
pub enum ScrollOrderField {
    Time,
    SnoozeTime,
}

/// The time an item is ordered by: its snooze time where the mailbox is
/// ordered by snooze time and the item is snoozed, else its time.
pub open spec fn ordering_time(time: u64, snooze_time: u64, field: ScrollOrderField) -> u64 {
    match field {
        ScrollOrderField::Time => time,
        ScrollOrderField::SnoozeTime => if snooze_time > 0 {
            snooze_time
        } else {
            time
        },
    }
}

/// The time an item is ordered by.
pub fn context_time(time: UnixTimestamp, snooze_time: UnixTimestamp, order_field: ScrollOrderField) -> (r:
    UnixTimestamp)
    ensures
        r == ordering_time(time, snooze_time, order_field),
{
    match order_field {
        ScrollOrderField::Time => time,
        ScrollOrderField::SnoozeTime => if snooze_time > 0 {
            snooze_time
        } else {
            time
        },
    }
}

/// What the scroller reads of an item of a mailbox.
#[derive(Clone, Debug)]
pub struct ScrollItem {
    pub remote_id: Option<String>,
    pub time: UnixTimestamp,
    pub snooze_time: UnixTimestamp,
    pub display_order: u64,
}

/// A position in a mailbox: the items before it in the mailbox's order.
#[derive(Clone, Copy, Debug, PartialEq, Eq, Structural)]
pub struct ScrollCursor {
    pub local_label_id: LocalLabelId,
    pub unread: ReadFilter,
    pub time: UnixTimestamp,
    pub snooze_time: UnixTimestamp,
    pub display_order: u64,
    pub order_dir: ScrollOrderDir,
    pub order_field: ScrollOrderField,
}

/// The largest value a position holds (the largest that storage keeps).
pub open spec fn highest_value() -> u64 {
    i64::MAX as u64
}

/// The cursor past every item in the ascending order.
pub open spec fn highest_cursor(
    local_label_id: LocalLabelId,
    unread: ReadFilter,
    order_dir: ScrollOrderDir,
    order_field: ScrollOrderField,
) -> ScrollCursor {
    ScrollCursor {
        local_label_id,
        unread,
        time: highest_value(),
        snooze_time: highest_value(),
        display_order: highest_value(),
        order_dir,
        order_field,
    }
}

/// The cursor before every item in the ascending order.
pub open spec fn lowest_cursor(
    local_label_id: LocalLabelId,
    unread: ReadFilter,
    order_dir: ScrollOrderDir,
    order_field: ScrollOrderField,
) -> ScrollCursor {
    ScrollCursor { local_label_id, unread, time: 0, snooze_time: 0, display_order: 0, order_dir, order_field }
}

/// The cursor before the first item of a mailbox in its order.
pub open spec fn absolute_beginning_cursor(
    local_label_id: LocalLabelId,
    unread: ReadFilter,
    order_dir: ScrollOrderDir,
    order_field: ScrollOrderField,
) -> ScrollCursor {
    if order_dir == ScrollOrderDir::Desc {
        highest_cursor(local_label_id, unread, order_dir, order_field)
    } else {
        lowest_cursor(local_label_id, unread, order_dir, order_field)
    }
}

/// The cursor past the last item of a mailbox in its order.
pub open spec fn absolute_end_cursor(
    local_label_id: LocalLabelId,
    unread: ReadFilter,
    order_dir: ScrollOrderDir,
    order_field: ScrollOrderField,
) -> ScrollCursor {
    if order_dir == ScrollOrderDir::Asc {
        highest_cursor(local_label_id, unread, order_dir, order_field)
    } else {
        lowest_cursor(local_label_id, unread, order_dir, order_field)
    }
}

impl ScrollCursor {
    fn highest(
        local_label_id: LocalLabelId,
        unread: ReadFilter,
        order_dir: ScrollOrderDir,
        order_field: ScrollOrderField,
    ) -> (r: Self)
        ensures
            r == highest_cursor(local_label_id, unread, order_dir, order_field),
    {
        ScrollCursor {
            local_label_id,
            unread,
            time: 0x7FFF_FFFF_FFFF_FFFF,
            snooze_time: 0x7FFF_FFFF_FFFF_FFFF,
            display_order: 0x7FFF_FFFF_FFFF_FFFF,
            order_dir,
            order_field,
        }
    }

    fn lowest(
        local_label_id: LocalLabelId,
        unread: ReadFilter,
        order_dir: ScrollOrderDir,
        order_field: ScrollOrderField,
    ) -> (r: Self)
        ensures
            r == lowest_cursor(local_label_id, unread, order_dir, order_field),
    {
        ScrollCursor {
            local_label_id,
            unread,
            time: 0,
            snooze_time: 0,
            display_order: 0,
            order_dir,
            order_field,
        }
    }

    /// The cursor before the first item of the mailbox in its order.
    pub fn absolute_beginning(
        local_label_id: LocalLabelId,
        unread: ReadFilter,
        order_dir: ScrollOrderDir,
        order_field: ScrollOrderField,
    ) -> (r: Self)
        ensures
            r == absolute_beginning_cursor(local_label_id, unread, order_dir, order_field),
    {
        if order_dir == ScrollOrderDir::Desc {
            Self::highest(local_label_id, unread, order_dir, order_field)
        } else {
            Self::lowest(local_label_id, unread, order_dir, order_field)
        }
    }

    /// The cursor past the last item of the mailbox in its order.
    pub fn absolute_end(
        local_label_id: LocalLabelId,
        unread: ReadFilter,
        order_dir: ScrollOrderDir,
        order_field: ScrollOrderField,
    ) -> (r: Self)
        ensures
            r == absolute_end_cursor(local_label_id, unread, order_dir, order_field),
    {
        if order_dir == ScrollOrderDir::Asc {
            Self::highest(local_label_id, unread, order_dir, order_field)
        } else {
            Self::lowest(local_label_id, unread, order_dir, order_field)
        }
    }

    /// The cursor just after `item`, in a mailbox ordered as `end` is.
    pub fn after_item(
        local_label_id: LocalLabelId,
        unread: ReadFilter,
        item: &ScrollItem,
        order_dir: ScrollOrderDir,
        order_field: ScrollOrderField,
    ) -> (r: Self)
        ensures
            r == (ScrollCursor {
                local_label_id,
                unread,
                time: item.time,
                snooze_time: ordering_time(item.time, item.snooze_time, order_field),
                display_order: item.display_order,
                order_dir,
                order_field,
            }),
    {
        ScrollCursor {
            local_label_id,
            unread,
            time: item.time,
            snooze_time: context_time(item.time, item.snooze_time, order_field),
            display_order: item.display_order,
            order_dir,
            order_field,
        }
    }
}

/// The beginning and the end of a mailbox are its two opposite ends: in
/// either direction one is the highest cursor and the other the lowest.
pub proof fn lemma_beginning_and_end_are_opposite(
    local_label_id: LocalLabelId,
    unread: ReadFilter,
    order_dir: ScrollOrderDir,
    order_field: ScrollOrderField,
)
    ensures
        absolute_beginning_cursor(local_label_id, unread, order_dir, order_field)
            != absolute_end_cursor(local_label_id, unread, order_dir, order_field),
        ({
            let b = absolute_beginning_cursor(local_label_id, unread, order_dir, order_field);
            let e = absolute_end_cursor(local_label_id, unread, order_dir, order_field);
            (b == highest_cursor(local_label_id, unread, order_dir, order_field) && e
                == lowest_cursor(local_label_id, unread, order_dir, order_field)) || (b
                == lowest_cursor(local_label_id, unread, order_dir, order_field) && e
                == highest_cursor(local_label_id, unread, order_dir, order_field))
        }),
{
}

/// The position of the last synced message of a mailbox.
#[derive(Clone, Debug)]
pub struct MessageScrollData {
    pub id: Option<u64>,
    pub local_label_id: LocalLabelId,
    pub unread: ReadFilter,
    pub remote_message_id: String,
    pub message_time: UnixTimestamp,
    pub snooze_time: UnixTimestamp,
    pub display_order: u64,
    pub order_dir: ScrollOrderDir,
    pub order_field: ScrollOrderField,
}

/// The position of the last synced conversation of a mailbox.
#[derive(Clone, Debug)]
pub struct ConversationScrollData {
    pub id: Option<u64>,
    pub local_label_id: LocalLabelId,
    pub unread: ReadFilter,
    pub remote_conversation_id: String,
    /// For a filtered mailbox, the conversation's own time rather than its
    /// time under the label.
    pub conversation_time: UnixTimestamp,
    pub snooze_time: UnixTimestamp,
    pub display_order: u64,
    pub order_dir: ScrollOrderDir,
    pub order_field: ScrollOrderField,
}

impl MessageScrollData {
    pub fn context_time(&self, order_field: ScrollOrderField) -> (r: UnixTimestamp)
        ensures
            r == ordering_time(self.message_time, self.snooze_time, order_field),
    {
        context_time(self.message_time, self.snooze_time, order_field)
    }

    /// The last synced position, from the last synced item; an item the
    /// server does not know yet cannot be one.
    pub fn into_scroll_data(
        local_label_id: LocalLabelId,
        unread: ReadFilter,
        item: ScrollItem,
        order_dir: ScrollOrderDir,
        order_field: ScrollOrderField,
    ) -> (r: Option<Self>)
        ensures
            item.remote_id.is_none() ==> r.is_none(),
            item.remote_id.is_some() ==> r.is_some() && {
                let d = r.unwrap();
                &&& d.id.is_none()
                &&& d.local_label_id == local_label_id
                &&& d.unread == unread
                &&& d.remote_message_id == item.remote_id.unwrap()
                &&& d.message_time == item.time
                &&& d.snooze_time == ordering_time(item.time, item.snooze_time, order_field)
                &&& d.display_order == item.display_order
                &&& d.order_dir == order_dir
                &&& d.order_field == order_field
            },
    {
        let snooze_time = context_time(item.time, item.snooze_time, order_field);
        match item.remote_id {
            Some(remote_id) => Some(
                MessageScrollData {
                    id: None,
                    local_label_id,
                    unread,
                    remote_message_id: remote_id,
                    message_time: item.time,
                    snooze_time,
                    display_order: item.display_order,
                    order_dir,
                    order_field,
                },
            ),
            None => None,
        }
    }

    /// The cursor at this position.
    pub fn to_cursor(&self) -> (r: ScrollCursor)
        ensures
            r == (ScrollCursor {
                local_label_id: self.local_label_id,
                unread: self.unread,
                time: self.message_time,
                snooze_time: self.snooze_time,
                display_order: self.display_order,
                order_dir: self.order_dir,
                order_field: self.order_field,
            }),
    {
        ScrollCursor {
            local_label_id: self.local_label_id,
            unread: self.unread,
            time: self.message_time,
            snooze_time: self.snooze_time,
            display_order: self.display_order,
            order_dir: self.order_dir,
            order_field: self.order_field,
        }
    }
}

impl ConversationScrollData {
    pub fn context_time(&self, order_field: ScrollOrderField) -> (r: UnixTimestamp)
        ensures
            r == ordering_time(self.conversation_time, self.snooze_time, order_field),
    {
        context_time(self.conversation_time, self.snooze_time, order_field)
    }

    /// The last synced position, from the last synced item; an item the
    /// server does not know yet cannot be one.
    pub fn into_scroll_data(
        local_label_id: LocalLabelId,
        unread: ReadFilter,
        item: ScrollItem,
        order_dir: ScrollOrderDir,
        order_field: ScrollOrderField,
    ) -> (r: Option<Self>)
        ensures
            item.remote_id.is_none() ==> r.is_none(),
            item.remote_id.is_some() ==> r.is_some() && {
                let d = r.unwrap();
                &&& d.id.is_none()
                &&& d.local_label_id == local_label_id
                &&& d.unread == unread
                &&& d.remote_conversation_id == item.remote_id.unwrap()
                &&& d.conversation_time == item.time
                &&& d.snooze_time == ordering_time(item.time, item.snooze_time, order_field)
                &&& d.display_order == item.display_order
                &&& d.order_dir == order_dir
                &&& d.order_field == order_field
            },
    {
        let snooze_time = context_time(item.time, item.snooze_time, order_field);
        match item.remote_id {
            Some(remote_id) => Some(
                ConversationScrollData {
                    id: None,
                    local_label_id,
                    unread,
                    remote_conversation_id: remote_id,
                    conversation_time: item.time,
                    snooze_time,
                    display_order: item.display_order,
                    order_dir,
                    order_field,
                },
            ),
            None => None,
        }
    }

    /// The cursor at this position.
    pub fn to_cursor(&self) -> (r: ScrollCursor)
        ensures
            r == (ScrollCursor {
                local_label_id: self.local_label_id,
                unread: self.unread,
                time: self.conversation_time,
                snooze_time: self.snooze_time,
                display_order: self.display_order,
                order_dir: self.order_dir,
                order_field: self.order_field,
            }),
    {
        ScrollCursor {
            local_label_id: self.local_label_id,
            unread: self.unread,
            time: self.conversation_time,
            snooze_time: self.snooze_time,
            display_order: self.display_order,
            order_dir: self.order_dir,
            order_field: self.order_field,
        }
    }
}

/// A window of a mailbox to read: how many items, from which one on.
#[derive(Clone, Copy, Debug, PartialEq, Eq, Structural)]
pub struct ReadWindow {
    pub limit: usize,
    pub offset: u64,
}

/// In-memory cache of a scroll through a mailbox: the page size, the end of
/// what has been synced and the position up to which items were shown.
#[derive(Clone, Copy, Debug)]
pub struct CachedScrollData {
    pub page_size: usize,
    pub end: ScrollCursor,
    pub cursor: ScrollCursor,
}

impl CachedScrollData {
    /// A scroll over a mailbox whose synced part ends at `end`, from its
    /// beginning.
    pub fn new(page_size: usize, end: ScrollCursor, order_dir: ScrollOrderDir, order_field: ScrollOrderField) -> (r: Self)
        ensures
            r.page_size == page_size,
            r.end == end,
            r.cursor == absolute_beginning_cursor(end.local_label_id, end.unread, order_dir, order_field),
    {
        let cursor = ScrollCursor::absolute_beginning(end.local_label_id, end.unread, order_dir, order_field);
        CachedScrollData { page_size, end, cursor }
    }

    /// A scroll over everything stored for the mailbox, from its beginning.
    pub fn all(
        local_label_id: LocalLabelId,
        unread: ReadFilter,
        page_size: usize,
        order_dir: ScrollOrderDir,
        order_field: ScrollOrderField,
    ) -> (r: Self)
        ensures
            r.page_size == page_size,
            r.end == absolute_end_cursor(local_label_id, unread, order_dir, order_field),
            r.cursor == absolute_beginning_cursor(local_label_id, unread, order_dir, order_field),
    {
        let end = ScrollCursor::absolute_end(local_label_id, unread, order_dir, order_field);
        let cursor = ScrollCursor::absolute_beginning(local_label_id, unread, order_dir, order_field);
        CachedScrollData { page_size, end, cursor }
    }

    /// Makes the scroll read everything stored for the mailbox.
    pub fn set_absolute_end(self) -> (r: Self)
        ensures
            r.page_size == self.page_size,
            r.cursor == self.cursor,
            r.end == absolute_end_cursor(
                self.cursor.local_label_id,
                self.cursor.unread,
                self.end.order_dir,
                self.end.order_field,
            ),
    {
        let end = ScrollCursor::absolute_end(
            self.cursor.local_label_id,
            self.cursor.unread,
            self.end.order_dir,
            self.end.order_field,
        );
        CachedScrollData { end, ..self }
    }

    /// The window to read next, given how many items are synced (`all`) and
    /// how many were shown (`cursor_count`): nothing once all were shown, the
    /// rest when less than two pages are left, else a page.
    pub fn fetch_more_window(&self, all: u64, cursor_count: u64) -> (r: Option<ReadWindow>)
        requires
            self.page_size * 2 <= u64::MAX,
        ensures
            cursor_count >= all ==> r.is_none(),
            cursor_count < all ==> r == Some(
                (ReadWindow {
                    offset: cursor_count,
                    limit: if all - cursor_count < self.page_size * 2 {
                        if all - cursor_count <= usize::MAX {
                            (all - cursor_count) as usize
                        } else {
                            self.page_size
                        }
                    } else {
                        self.page_size
                    },
                }),
            ),
    {
        if cursor_count < all {
            let remaining = all - cursor_count;
            let double_page = self.page_size as u64 * 2;
            let limit = if remaining < double_page {
                if remaining <= usize::MAX as u64 {
                    remaining as usize
                } else {
                    self.page_size
                }
            } else {
                self.page_size
            };
            Some(ReadWindow { limit, offset: cursor_count })
        } else {
            None
        }
    }

    /// The window to read next page by page: a page from the shown items on,
    /// nothing once all were shown.
    pub fn while_fetch_more_window(&self, all: u64, cursor_count: u64) -> (r: Option<ReadWindow>)
        ensures
            cursor_count >= all ==> r.is_none(),
            cursor_count < all ==> r == Some(
                (ReadWindow { limit: self.page_size, offset: cursor_count }),
            ),
    {
        if cursor_count < all {
            Some(ReadWindow { limit: self.page_size, offset: cursor_count })
        } else {
            None
        }
    }

    /// After reading items, the shown part ends after the last item read, or
    /// at the end of the synced part when none was read.
    pub fn advance(&mut self, last: Option<&ScrollItem>)
        ensures
            final(self).page_size == old(self).page_size,
            final(self).end == old(self).end,
            final(self).cursor == match last {
                Some(item) => (ScrollCursor {
                    local_label_id: old(self).cursor.local_label_id,
                    unread: old(self).cursor.unread,
                    time: item.time,
                    snooze_time: ordering_time(item.time, item.snooze_time, old(self).end.order_field),
                    display_order: item.display_order,
                    order_dir: old(self).end.order_dir,
                    order_field: old(self).end.order_field,
                }),
                None => old(self).end,
            },
    {
        self.cursor = match last {
            Some(item) => ScrollCursor::after_item(
                self.cursor.local_label_id,
                self.cursor.unread,
                item,
                self.end.order_dir,
                self.end.order_field,
            ),
            None => self.end,
        };
    }

    /// Whether more items are synced than were shown.
    pub fn has_more(&self, all: u64, cursor_count: u64) -> (r: bool)
        ensures
            r == (cursor_count < all),
    {
        cursor_count < all
    }

    /// Whether at least a full page of synced items was not shown yet.
    pub fn has_next_page(&self, all: u64, cursor_count: u64) -> (r: bool)
        ensures
            r == (all > cursor_count && all - cursor_count >= self.page_size),
    {
        if all > cursor_count {
            all - cursor_count >= self.page_size as u64
        } else {
            false
        }
    }
}

/// The position of the last shown result of a search.
#[derive(Clone, Copy, Debug, PartialEq, Eq, Structural)]
pub struct SearchScrollData {
    pub local_message_id: LocalMessageId,
    pub display_order: u64,
}

impl SearchScrollData {
    /// Whether results follow this position: the last stored one is further.
    pub fn has_more(&self, last: Option<SearchScrollData>) -> (r: bool)
        ensures
            r == (last.is_some() && last.unwrap().display_order > self.display_order),
    {
        match last {
            Some(last) => last.display_order > self.display_order,
            None => false,
        }
    }

    /// When results follow this position, the display order from which the
    /// next ones are read; the position then moves to the last result.
    pub fn fetch_more(&mut self, last: Option<SearchScrollData>) -> (r: Option<u64>)
        ensures
            last.is_some() && last.unwrap().display_order > old(self).display_order ==> r == Some(
                if old(self).display_order == u64::MAX {
                    u64::MAX
                } else {
                    (old(self).display_order + 1) as u64
                },
            ) && *final(self) == last.unwrap(),
            !(last.is_some() && last.unwrap().display_order > old(self).display_order) ==> r
                is None && *final(self) == *old(self),
    {
        match last {
            Some(last) => {
                if last.display_order > self.display_order {
                    let offset = self.display_order.saturating_add(1);
                    *self = last;
                    Some(offset)
                } else {
                    None
                }
            },
            None => None,
        }
    }
}

/// A query over a mailbox from a cursor: at most `limit` items, skipping
/// `offset`, and only items the server knows when `require_remote_id`.
#[derive(Clone, Copy, Debug, PartialEq, Eq, Structural)]
pub struct ScrollQuery {
    pub cursor: ScrollCursor,
    pub limit: Option<usize>,
    pub offset: Option<u64>,
    pub require_remote_id: bool,
}

impl ScrollQuery {
    pub fn new(cursor: ScrollCursor) -> (r: Self)
        ensures
            r == (ScrollQuery { cursor, limit: None, offset: None, require_remote_id: false }),
    {
        ScrollQuery { cursor, limit: None, offset: None, require_remote_id: false }
    }

    pub fn with_limit(self, limit: Option<usize>) -> (r: Self)
        ensures
            r == (ScrollQuery { limit, ..self }),
    {
        ScrollQuery { limit, ..self }
    }

    pub fn with_offset(self, offset: Option<u64>) -> (r: Self)
        ensures
            r == (ScrollQuery { offset, ..self }),
    {
        ScrollQuery { offset, ..self }
    }

    pub fn with_remote_id(self, remote_id: bool) -> (r: Self)
        ensures
            r == (ScrollQuery { require_remote_id: remote_id, ..self }),
    {
        ScrollQuery { require_remote_id: remote_id, ..self }
    }
}

} // verus!
