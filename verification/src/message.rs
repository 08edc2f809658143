//! Messages: the fields the mailbox logic reads, the predicates derived from a
//! message's labels and flags, per-label message statistics and counters.

use vstd::prelude::*;
use crate::labels::{
    contains_label_id, contains_system_label, has_label_id, system_remote_id, SystemLabelId,
};
use crate::types::{
    LocalAddressId, LocalConversationId, LocalLabelId, LocalMessageId, ReadFilter, UnixTimestamp,
};

verus! {

/// The state flags of a message that the mailbox logic depends on.
#[derive(Clone, Copy, Debug, PartialEq, Eq, Structural)]
pub struct MessageFlags {
    /// The message is a draft.
    pub draft: bool,
    /// The message has been sent.
    pub sent: bool,
    /// The message was sent automatically (for instance an auto-reply).
    pub sent_auto: bool,
    /// The message is scheduled to be sent later.
    pub schedule_send: bool,
    /// A snooze reminder should be displayed for the message.
    pub display_snooze_reminder: bool,
}

impl MessageFlags {
    pub fn is_draft(&self) -> (r: bool)
        ensures
            r == self.draft,
    {
        self.draft
    }

    pub fn is_sent(&self) -> (r: bool)
        ensures
            r == self.sent,
    {
        self.sent
    }

    pub fn is_sent_auto(&self) -> (r: bool)
        ensures
            r == self.sent_auto,
    {
        self.sent_auto
    }

    pub fn is_schedule_send(&self) -> (r: bool)
        ensures
            r == self.schedule_send,
    {
        self.schedule_send
    }
}

/// A message as the mailbox logic sees it.
#[derive(Clone, Debug)]
pub struct Message {
    pub local_id: Option<LocalMessageId>,
    pub remote_id: Option<String>,
    pub local_conversation_id: Option<LocalConversationId>,
    pub remote_conversation_id: Option<String>,
    pub local_address_id: LocalAddressId,
    pub remote_address_id: String,
    pub deleted: bool,
    /// The unix timestamp at which this message is set to expire at.
    /// 0 means that it will not expire.
    pub expiration_time: UnixTimestamp,
    pub flags: MessageFlags,
    pub is_forwarded: bool,
    pub is_replied: bool,
    pub is_replied_all: bool,
    /// Remote ids of the labels of this message.
    pub label_ids: Vec<String>,
    pub num_attachments: u32,
    pub display_order: u64,
    pub size: u64,
    pub snooze_time: UnixTimestamp,
    pub subject: String,
    pub time: UnixTimestamp,
    pub unread: bool,
}

/// Whether some label of `m` is the system label `l`.
pub open spec fn message_has(m: Message, l: SystemLabelId) -> bool {
    has_label_id(m.label_ids@, system_remote_id(l))
}

/// `label_ids` without the ids that occur in `unresolved`.
pub open spec fn without_ids(label_ids: Seq<String>, unresolved: Seq<String>) -> Seq<String> {
    label_ids.filter(|id: String| !has_label_id(unresolved, id@))
}

impl Message {
    /// A message is a draft when its flags say so and it is in one of the
    /// draft folders.
    pub fn is_draft(&self) -> (r: bool)
        ensures
            r == (self.flags.draft && (message_has(*self, SystemLabelId::AllDrafts) || message_has(
                *self,
                SystemLabelId::Drafts,
            ))),
    {
        self.flags.is_draft() && (contains_system_label(&self.label_ids, SystemLabelId::AllDrafts)
            || contains_system_label(&self.label_ids, SystemLabelId::Drafts))
    }

    pub fn is_starred(&self) -> (r: bool)
        ensures
            r == message_has(*self, SystemLabelId::Starred),
    {
        contains_system_label(&self.label_ids, SystemLabelId::Starred)
    }

    pub fn is_scheduled_for_send(&self) -> (r: bool)
        ensures
            r == (message_has(*self, SystemLabelId::AllScheduled) && self.flags.schedule_send),
    {
        contains_system_label(&self.label_ids, SystemLabelId::AllScheduled)
            && self.flags.is_schedule_send()
    }

    pub fn is_sent(&self) -> (r: bool)
        ensures
            r == ((message_has(*self, SystemLabelId::AllSent) || message_has(
                *self,
                SystemLabelId::Sent,
            )) && self.flags.sent),
    {
        (contains_system_label(&self.label_ids, SystemLabelId::AllSent) || contains_system_label(
            &self.label_ids,
            SystemLabelId::Sent,
        )) && self.flags.is_sent()
    }

    /// A message can be replied to unless it is scheduled, in the outbox or a draft.
    pub fn can_reply(&self) -> (r: bool)
        ensures
            r == !(message_has(*self, SystemLabelId::AllScheduled) || message_has(
                *self,
                SystemLabelId::Outbox,
            ) || message_has(*self, SystemLabelId::Drafts) || message_has(
                *self,
                SystemLabelId::AllDrafts,
            )),
    {
        !(contains_system_label(&self.label_ids, SystemLabelId::AllScheduled)
            || contains_system_label(&self.label_ids, SystemLabelId::Outbox)
            || contains_system_label(&self.label_ids, SystemLabelId::Drafts)
            || contains_system_label(&self.label_ids, SystemLabelId::AllDrafts))
    }

    pub fn display_snooze_reminder(&self) -> (r: bool)
        ensures
            r == self.flags.display_snooze_reminder,
    {
        self.flags.display_snooze_reminder
    }

    pub fn set_display_snooze_reminder(&mut self, value: bool)
        ensures
            *final(self) == (Message {
                flags: MessageFlags { display_snooze_reminder: value, ..old(self).flags },
                ..*old(self)
            }),
    {
        self.flags.display_snooze_reminder = value;
    }

    /// The time until which the message is snoozed, if it is snoozed.
    pub fn snoozed_until(&self) -> (r: Option<UnixTimestamp>)
        ensures
            r == (if message_has(*self, SystemLabelId::Snoozed) {
                Some(self.snooze_time)
            } else {
                None
            }),
    {
        if contains_system_label(&self.label_ids, SystemLabelId::Snoozed) {
            Some(self.snooze_time)
        } else {
            None
        }
    }

    /// Drop from the message's labels those whose ids are in `label_ids`.
    pub fn prune_unresolved_labels(&mut self, label_ids: &Vec<String>)
        ensures
            final(self).label_ids@ == without_ids(old(self).label_ids@, label_ids@),
            *final(self) == (Message { label_ids: final(self).label_ids, ..*old(self) }),
    {
        let mut kept: Vec<String> = Vec::new();
        let mut i: usize = 0;
        while i < self.label_ids.len()
            invariant
                0 <= i <= self.label_ids.len(),
                kept@ == without_ids(self.label_ids@.take(i as int), label_ids@),
            decreases self.label_ids.len() - i,
        {
            let id = self.label_ids[i].clone();
            proof {
                assert(self.label_ids@.take(i + 1) =~= self.label_ids@.take(i as int).push(
                    self.label_ids@[i as int],
                ));
                self.label_ids@.take(i as int).lemma_filter_push(
                    self.label_ids@[i as int],
                    |id: String| !has_label_id(label_ids@, id@),
                );
            }
            if !contains_label_id(label_ids, &id) {
                kept.push(id);
            }
            i = i + 1;
        }
        proof {
            assert(self.label_ids@.take(self.label_ids.len() as int) =~= self.label_ids@);
        }
        self.label_ids = kept;
    }
}

impl Message {
    /// Marks the message as read or unread; reading it also ends its snooze
    /// reminder.
    pub fn set_read_state(&mut self, mark_read: bool)
        ensures
            final(self).unread == !mark_read,
            final(self).flags == if mark_read {
                (MessageFlags { display_snooze_reminder: false, ..old(self).flags })
            } else {
                old(self).flags
            },
            *final(self) == (Message {
                unread: final(self).unread,
                flags: final(self).flags,
                ..*old(self)
            }),
    {
        self.unread = !mark_read;
        if mark_read {
            self.set_display_snooze_reminder(false);
        }
    }
}

/// Whether a synced message is applied to the local state or skipped.
#[derive(Clone, Copy, Debug, PartialEq, Eq, Structural)]
pub enum MessageSyncDecision {
    Apply,
    Skip,
}

/// What an event of the server says happened to an item.
#[derive(Clone, Copy, Debug, PartialEq, Eq, Structural)]
pub enum EventAction {
    Delete,
    Create,
    Update,
    UpdateFlags,
}

/// What syncing a message from the server does: whether it is applied, and
/// whether the stored body is dropped so that it is fetched again.
#[derive(Clone, Copy, Debug, PartialEq, Eq, Structural)]
pub struct SyncDecision {
    pub decision: MessageSyncDecision,
    pub drop_body: bool,
}

/// Whether synced data for a message is applied, given its flags on the
/// server, whether it is open locally as a draft (and then whether its send
/// is still under way) and the event that brought it: a draft open locally is
/// left alone unless the server says it was sent (or scheduled) and no send of
/// ours is under way; the stored body is dropped on an update, and when such
/// a stale draft is updated.
pub open spec fn sync_decision_of(
    flags: MessageFlags,
    open_draft_send_pending: Option<bool>,
    event_action: Option<EventAction>,
) -> SyncDecision {
    match open_draft_send_pending {
        Some(pending) if !((flags.schedule_send || flags.sent) && !pending) => (SyncDecision {
            decision: MessageSyncDecision::Skip,
            drop_body: false,
        }),
        _ => (SyncDecision {
            decision: MessageSyncDecision::Apply,
            drop_body: event_action == Some(EventAction::Update) || open_draft_send_pending.is_some(),
        }),
    }
}

/// How a synced message is applied: a message that is not open locally as a
/// draft is always applied, its body dropped exactly on an update; a draft
/// open locally is skipped while our own send of it is under way, and also
/// when the server does not say it was sent or scheduled; a draft open
/// locally that the server says was sent or scheduled, with no send of ours
/// under way, is applied and its stale body dropped.
pub proof fn lemma_sync_decisions(
    flags: MessageFlags,
    open_draft_send_pending: Option<bool>,
    event_action: Option<EventAction>,
)
    ensures
        ({
            let d = sync_decision_of(flags, open_draft_send_pending, event_action);
            &&& open_draft_send_pending.is_none() ==> d.decision == MessageSyncDecision::Apply
                && d.drop_body == (event_action == Some(EventAction::Update))
            &&& open_draft_send_pending == Some(true) ==> d == (SyncDecision {
                decision: MessageSyncDecision::Skip,
                drop_body: false,
            })
            &&& open_draft_send_pending == Some(false) && !flags.sent && !flags.schedule_send
                ==> d == (SyncDecision { decision: MessageSyncDecision::Skip, drop_body: false })
            &&& open_draft_send_pending == Some(false) && (flags.sent || flags.schedule_send) ==> d
                == (SyncDecision { decision: MessageSyncDecision::Apply, drop_body: true })
        }),
{
}

impl Message {
    /// Decides how data of the message synced from the server is applied:
    /// a draft that is open locally is skipped (there is no way to merge
    /// edits) unless it was sent elsewhere meanwhile, in which case it is
    /// applied and its stale body dropped; on an update the body is dropped
    /// so that it is fetched again.
    pub fn sync_decision(
        flags: MessageFlags,
        open_draft_send_pending: Option<bool>,
        event_action: Option<EventAction>,
    ) -> (r: SyncDecision)
        ensures
            r == sync_decision_of(flags, open_draft_send_pending, event_action),
    {
        let mut is_stale_draft = false;
        match open_draft_send_pending {
            Some(pending) => {
                if !((flags.is_schedule_send() || flags.is_sent()) && !pending) {
                    return SyncDecision { decision: MessageSyncDecision::Skip, drop_body: false };
                }
                is_stale_draft = true;
            },
            None => {},
        }
        let is_update = match event_action {
            Some(EventAction::Update) => true,
            _ => false,
        };
        SyncDecision { decision: MessageSyncDecision::Apply, drop_body: is_update || is_stale_draft }
    }
}

/// The data of an attachment and its MIME type.
#[derive(Clone, Debug, PartialEq, Eq)]
pub struct AttachmentData {
    pub data: Vec<u8>,
    pub mime: String,
}

impl AttachmentData {
    /// No data, of any image type.
    pub fn empty() -> (r: Self)
        ensures
            r.data@.len() == 0,
            r.mime@ == "image/*"@,
    {
        AttachmentData { data: Vec::new(), mime: crate::text::string_from_chars(&crate::text::chars_of("image/*")) }
    }
}

} // verus!
