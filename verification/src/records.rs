//! Small stored records: tracker and link-cleaning results of a message,
//! initialised components, pagination options and push notifications.

use vstd::prelude::*;
use crate::clock::now_unix_seconds;
use crate::rollback::{effective_batch, is_batching, rollback_batches};
use crate::types::{DeletedItemType, LocalMessageId, UnixTimestamp};

verus! {

/// Marks a component, service or provider as initialised and ready to work;
/// the record exists exactly when the component was initialised.
#[derive(Clone, Debug, PartialEq, Eq)]
pub struct InitializedComponent {
    /// Key which defines which component has been initialized
    pub key: String,
    /// The internal row ID of the record in the database, assigned by SQLite.
    pub row_id: Option<u64>,
}

impl InitializedComponent {
    /// A component that is about to be recorded as initialised.
    pub fn new(key: String) -> (r: Self)
        ensures
            r.key == key,
            r.row_id.is_none(),
    {
        InitializedComponent { key, row_id: None }
    }

    /// Marking a component as initialised is idempotent: a record is written
    /// only when none exists yet.
    pub fn needs_insert(already_initialized: bool) -> (r: bool)
        ensures
            r == !already_initialized,
    {
        !already_initialized
    }
}

/// What a decrypted push notification asks the app to do.
#[derive(Clone, Copy, Debug, PartialEq, Eq, Structural)]
pub enum NotificationKind {
    Email,
    OpenUrl,
}

/// A decrypted push notification of the mail app.
#[derive(Clone, Copy, Debug, PartialEq, Eq, Structural)]
pub enum DecryptedMailPushNotification {
    Email,
    OpenUrl,
}

/// A push notification that becomes a mail notification once decrypted.
pub trait DecryptableMailPushNotification {
    fn into_decrypted_push_mail_notification(self) -> DecryptedMailPushNotification;
}

impl DecryptableMailPushNotification for NotificationKind {
    /// Each kind of notification becomes the mail notification of that kind.
    fn into_decrypted_push_mail_notification(self) -> (r: DecryptedMailPushNotification)
        ensures
            self == NotificationKind::Email ==> r == DecryptedMailPushNotification::Email,
            self == NotificationKind::OpenUrl ==> r == DecryptedMailPushNotification::OpenUrl,
    {
        match self {
            NotificationKind::Email => DecryptedMailPushNotification::Email,
            NotificationKind::OpenUrl => DecryptedMailPushNotification::OpenUrl,
        }
    }
}

/// A tracker found in a message: its domain and the URL it was found under.
#[derive(Clone, Debug, PartialEq, Eq)]
pub struct MessageTrackerUrl {
    pub id: Option<i64>,
    pub local_message_id: LocalMessageId,
    pub tracker_domain: String,
    pub original_url: String,
}

/// A message whose links had their tracking parameters removed.
#[derive(Clone, Copy, Debug, PartialEq, Eq, Structural)]
pub struct MessageUtmLink {
    pub local_message_id: LocalMessageId,
}

/// A link of a message and its cleaned form.
#[derive(Clone, Debug, PartialEq, Eq)]
pub struct MessageUtmLinkUrl {
    pub id: Option<i64>,
    pub local_message_id: LocalMessageId,
    pub original_url: String,
    pub cleaned_url: String,
}

/// A tracking URL found in a message.
#[derive(Clone, Debug, PartialEq, Eq)]
pub struct TrackingUrl {
    pub id: Option<i64>,
    pub local_message_id: LocalMessageId,
    pub tracker_domain: String,
    pub original_url: String,
}

/// Filter options for pagination
#[derive(Clone, Copy, Debug, PartialEq, Eq, Structural)]
pub struct PaginatorFilter {
    /// If true, only return unread conversations/messages
    pub unread: Option<bool>,
}

impl Default for PaginatorFilter {
    fn default() -> (r: Self)
        ensures
            r.unread.is_none(),
    {
        PaginatorFilter { unread: None }
    }
}

/// Search options for pagination
#[derive(Clone, Debug)]
pub struct PaginatorSearchOptions {
    /// Keywords to use in search.
    pub keywords: Option<String>,
}

impl Default for PaginatorSearchOptions {
    fn default() -> (r: Self)
        ensures
            r.keywords.is_none(),
    {
        PaginatorSearchOptions { keywords: None }
    }
}

/// When a message's trackers were last checked.
#[derive(Clone, Copy, Debug, PartialEq, Eq, Structural)]
pub struct MessageTracker {
    pub local_message_id: LocalMessageId,
    pub last_checked_at: UnixTimestamp,
}

/// How long a tombstone of a deleted item is kept, in seconds (one day).
pub const TOMBSTONE_RETENTION_SECONDS: u64 = 86400;

/// A tombstone: an item deleted locally, remembered so that a stale copy
/// from the server does not bring it back.
#[derive(Clone, Debug)]
pub struct DeletedItem {
    pub remote_id: String,
    pub item_type: DeletedItemType,
    pub deleted_at: UnixTimestamp,
}

impl DeletedItem {
    /// A tombstone for the item, deleted at `now`.
    pub fn new_at(remote_id: String, item_type: DeletedItemType, now: UnixTimestamp) -> (r: Self)
        ensures
            r.remote_id == remote_id,
            r.item_type == item_type,
            r.deleted_at == now,
    {
        DeletedItem { remote_id, item_type, deleted_at: now }
    }

    /// A tombstone for the item, deleted now.
    pub fn new(remote_id: String, item_type: DeletedItemType) -> (r: Self)
        ensures
            r.remote_id == remote_id,
            r.item_type == item_type,
    {
        Self::new_at(remote_id, item_type, now_unix_seconds())
    }

    /// Whether the tombstone is older than the retention period at `now`.
    pub fn is_stale(&self, now: UnixTimestamp) -> (r: bool)
        ensures
            r == (self.deleted_at < if now >= TOMBSTONE_RETENTION_SECONDS {
                now - TOMBSTONE_RETENTION_SECONDS
            } else {
                0
            }),
    {
        let cutoff = now.saturating_sub(TOMBSTONE_RETENTION_SECONDS);
        self.deleted_at < cutoff
    }
}

/// The index ranges of the requests in which `n` ids are sent to the
/// server, `limit` at a time.
pub fn request_batches(n: usize, limit: usize) -> (r: Vec<(usize, usize)>)
    requires
        limit > 0,
    ensures
        is_batching(r@, n as int, limit as int),
{
    let r = rollback_batches(n, Some(limit));
    assert(effective_batch(n as int, Some(limit)) == limit);
    r
}

} // verus!
