//! Conversations and their per-label context: the statistics of the messages
//! a conversation has under a label, how they are merged, and how they and
//! the label counters move when messages are deleted and restored.

use vstd::prelude::*;
use crate::counters::{sat_sub, ConversationCounters, MessageCounter, MessageLabelStats};
use crate::errors::AppError;
use crate::labels::{contains_label_id, has_label_id, LabelType, SystemLabelId, system_remote_id};
use crate::message::Message;
use crate::draft_errors::ApiServiceError;
use crate::text::{chars_of, str_eq, string_from_chars};
use crate::types::{LocalConversationId, LocalLabelId, LocalMessageId, UnixTimestamp};

verus! {

/// An expiration time merged with another one: an unset (0) time takes the
/// other, a set one keeps the earlier of the two.
pub open spec fn merged_expiration_time(current: u64, other: u64) -> u64 {
    if current == 0 {
        other
    } else if other < current {
        other
    } else {
        current
    }
}

/// The earliest time at which messages of a conversation expire under a
/// label; 0 means that none expires.
#[derive(Clone, Copy, Debug, PartialEq, Eq, Structural)]
pub struct ContextExpirationTime(pub UnixTimestamp);

impl Default for ContextExpirationTime {
    fn default() -> (r: Self)
        ensures
            r.0 == 0,
    {
        ContextExpirationTime(0)
    }
}

impl ContextExpirationTime {
    pub fn merge(&mut self, other: UnixTimestamp)
        ensures
            final(self).0 == merged_expiration_time(old(self).0, other),
    {
        self.0 = if self.0 == 0 {
            other
        } else if other < self.0 {
            other
        } else {
            self.0
        };
    }

    pub fn merge_self(&mut self, other: Self)
        ensures
            final(self).0 == merged_expiration_time(old(self).0, other.0),
    {
        self.merge(other.0);
    }
}

/// Merging two set expiration times keeps the earlier one, whichever is
/// merged into which.
pub proof fn lemma_merge_set_expirations_commutes(a: u64, b: u64)
    requires
        a != 0,
        b != 0,
    ensures
        merged_expiration_time(a, b) == merged_expiration_time(b, a),
        merged_expiration_time(a, b) <= a,
        merged_expiration_time(a, b) <= b,
{
}

/// Whether a message carries an expiration of its own (not 0, and not merely
/// its own time).
pub open spec fn has_own_expiration(m: Message) -> bool {
    m.expiration_time > 0 && m.expiration_time != m.time
}

/// The total size of `ms`.
pub open spec fn total_size(ms: Seq<Message>) -> int
    decreases ms.len(),
{
    if ms.len() == 0 {
        0
    } else {
        total_size(ms.drop_last()) + ms.last().size
    }
}

/// How many of `ms` are unread.
pub open spec fn unread_count(ms: Seq<Message>) -> int
    decreases ms.len(),
{
    if ms.len() == 0 {
        0
    } else {
        unread_count(ms.drop_last()) + if ms.last().unread {
            1int
        } else {
            0int
        }
    }
}

/// The total number of attachments of `ms`.
pub open spec fn total_attachments(ms: Seq<Message>) -> int
    decreases ms.len(),
{
    if ms.len() == 0 {
        0
    } else {
        total_attachments(ms.drop_last()) + ms.last().num_attachments
    }
}

/// The latest time of `ms`, 0 for none.
pub open spec fn latest_time(ms: Seq<Message>) -> u64
    decreases ms.len(),
{
    if ms.len() == 0 {
        0
    } else if latest_time(ms.drop_last()) < ms.last().time {
        ms.last().time
    } else {
        latest_time(ms.drop_last())
    }
}

/// The latest snooze time of `ms`, 0 for none.
pub open spec fn latest_snooze_time(ms: Seq<Message>) -> u64
    decreases ms.len(),
{
    if ms.len() == 0 {
        0
    } else if latest_snooze_time(ms.drop_last()) < ms.last().snooze_time {
        ms.last().snooze_time
    } else {
        latest_snooze_time(ms.drop_last())
    }
}

/// The expiration times of `ms` that are their own, merged in order.
pub open spec fn merged_expirations(ms: Seq<Message>) -> u64
    decreases ms.len(),
{
    if ms.len() == 0 {
        0
    } else if has_own_expiration(ms.last()) {
        merged_expiration_time(merged_expirations(ms.drop_last()), ms.last().expiration_time)
    } else {
        merged_expirations(ms.drop_last())
    }
}

/// The merged expiration is the earliest of the messages' own expiration
/// times, and 0 when none has one.
pub proof fn lemma_merged_expirations_is_earliest(ms: Seq<Message>)
    ensures
        merged_expirations(ms) == 0 <==> forall|i: int|
            0 <= i < ms.len() ==> !has_own_expiration(#[trigger] ms[i]),
        forall|i: int|
            0 <= i < ms.len() && has_own_expiration(#[trigger] ms[i]) ==> merged_expirations(ms)
                <= ms[i].expiration_time,
        merged_expirations(ms) != 0 ==> exists|i: int|
            0 <= i < ms.len() && has_own_expiration(#[trigger] ms[i]) && ms[i].expiration_time
                == merged_expirations(ms),
    decreases ms.len(),
{
    if ms.len() > 0 {
        let init = ms.drop_last();
        lemma_merged_expirations_is_earliest(init);
        assert forall|i: int| 0 <= i < init.len() implies #[trigger] ms[i] == init[i] by {}
        if merged_expirations(init) != 0 {
            let j = choose|j: int|
                0 <= j < init.len() && has_own_expiration(#[trigger] init[j])
                    && init[j].expiration_time == merged_expirations(init);
            assert(ms[j] == init[j]);
        }
        if has_own_expiration(ms.last()) {
            assert(ms[ms.len() - 1] == ms.last());
        }
    }
}

/// The combined statistics of the messages of a conversation under a label.
#[derive(Clone, Copy, Debug, PartialEq, Eq, Structural)]
pub struct ConversationMessageLabelStats {
    pub size: u64,
    pub time: UnixTimestamp,
    pub expiration_time: ContextExpirationTime,
    /// How many messages exist
    pub count: u64,
    pub unread: u64,
    pub num_attachments: u32,
    pub snooze_time: UnixTimestamp,
}

/// The statistics of `ms`, as `ConversationMessageLabelStats::from_messages`
/// computes them.
pub open spec fn stats_of(ms: Seq<Message>) -> ConversationMessageLabelStats {
    ConversationMessageLabelStats {
        size: total_size(ms) as u64,
        time: latest_time(ms),
        expiration_time: ContextExpirationTime(merged_expirations(ms)),
        count: ms.len() as u64,
        unread: unread_count(ms) as u64,
        num_attachments: total_attachments(ms) as u32,
        snooze_time: latest_snooze_time(ms),
    }
}

proof fn lemma_take_step(ms: Seq<Message>, i: int)
    requires
        0 <= i < ms.len(),
    ensures
        ms.take(i + 1).drop_last() == ms.take(i),
        ms.take(i + 1).last() == ms[i],
{
    assert(ms.take(i + 1).drop_last() =~= ms.take(i));
}

proof fn lemma_sums_of_prefix_bounded(ms: Seq<Message>, i: int)
    requires
        0 <= i <= ms.len(),
    ensures
        0 <= total_size(ms.take(i)) <= total_size(ms),
        0 <= total_attachments(ms.take(i)) <= total_attachments(ms),
        0 <= unread_count(ms.take(i)) <= i,
    decreases ms.len(),
{
    if i == ms.len() {
        assert(ms.take(i) =~= ms);
        lemma_sums_nonneg(ms);
    } else {
        let init = ms.drop_last();
        assert(init.take(i) =~= ms.take(i));
        lemma_sums_of_prefix_bounded(init, i);
        lemma_sums_nonneg(init);
    }
}

proof fn lemma_sums_nonneg(ms: Seq<Message>)
    ensures
        total_size(ms) >= 0,
        total_attachments(ms) >= 0,
        0 <= unread_count(ms) <= ms.len(),
    decreases ms.len(),
{
    if ms.len() > 0 {
        lemma_sums_nonneg(ms.drop_last());
    }
}

impl ConversationMessageLabelStats {
    /// The statistics of a non-empty group of messages: the sizes, unread
    /// messages and attachments summed up, the latest time and snooze time,
    /// the earliest expiration time that is the message's own, and the count.
    pub fn from_messages(messages: &Vec<Message>) -> (r: Self)
        requires
            messages@.len() != 0,
            total_size(messages@) <= u64::MAX,
            total_attachments(messages@) <= u32::MAX,
        ensures
            r == stats_of(messages@),
    {
        let mut stats = ConversationMessageLabelStats {
            size: 0,
            time: 0,
            expiration_time: ContextExpirationTime(0),
            count: 0,
            unread: 0,
            num_attachments: 0,
            snooze_time: 0,
        };
        let mut i: usize = 0;
        assert(messages@.take(0) =~= Seq::<Message>::empty());
        while i < messages.len()
            invariant
                i <= messages@.len(),
                total_size(messages@) <= u64::MAX,
                total_attachments(messages@) <= u32::MAX,
                stats == stats_of(messages@.take(i as int)),
            decreases messages.len() - i,
        {
            let m = &messages[i];
            proof {
                lemma_take_step(messages@, i as int);
                lemma_sums_of_prefix_bounded(messages@, i + 1);
                lemma_sums_nonneg(messages@.take(i as int));
            }
            stats.size = stats.size + m.size;
            if stats.time < m.time {
                stats.time = m.time;
            }
            if m.expiration_time > 0 && m.expiration_time != m.time {
                stats.expiration_time.merge(m.expiration_time);
            }
            stats.count = stats.count + 1;
            if m.unread {
                stats.unread = stats.unread + 1;
            }
            stats.num_attachments = stats.num_attachments + m.num_attachments;
            if stats.snooze_time < m.snooze_time {
                stats.snooze_time = m.snooze_time;
            }
            i = i + 1;
        }
        proof {
            assert(messages@.take(messages@.len() as int) =~= messages@);
        }
        stats
    }
}

/// The context of a conversation under one label: what the conversation's
/// messages under that label add up to.
#[derive(Debug)]
pub struct ConversationLabel {
    pub local_id: Option<u64>,
    pub local_conversation_id: Option<LocalConversationId>,
    pub local_label_id: Option<LocalLabelId>,
    pub remote_label_id: Option<String>,
    pub context_expiration_time: ContextExpirationTime,
    pub context_num_attachments: u64,
    pub context_num_messages: u64,
    pub context_num_unread: u64,
    pub context_size: u64,
    pub context_snooze_time: UnixTimestamp,
    pub context_time: UnixTimestamp,
    pub deleted: bool,
}

fn clone_opt_string(s: &Option<String>) -> (r: Option<String>)
    ensures
        r == *s,
{
    match s {
        Some(v) => Some(v.clone()),
        None => None,
    }
}

impl Clone for ConversationLabel {
    fn clone(&self) -> (r: Self)
        ensures
            r == *self,
    {
        ConversationLabel {
            local_id: self.local_id,
            local_conversation_id: self.local_conversation_id,
            local_label_id: self.local_label_id,
            remote_label_id: clone_opt_string(&self.remote_label_id),
            context_expiration_time: self.context_expiration_time,
            context_num_attachments: self.context_num_attachments,
            context_num_messages: self.context_num_messages,
            context_num_unread: self.context_num_unread,
            context_size: self.context_size,
            context_snooze_time: self.context_snooze_time,
            context_time: self.context_time,
            deleted: self.deleted,
        }
    }
}

/// The later of two times.
pub open spec fn later(a: u64, b: u64) -> u64 {
    if a < b {
        b
    } else {
        a
    }
}

/// Whether two conversation labels have the same statistics.
pub open spec fn same_stats(a: ConversationLabel, b: ConversationLabel) -> bool {
    &&& a.context_time == b.context_time
    &&& a.context_expiration_time == b.context_expiration_time
    &&& a.context_num_attachments == b.context_num_attachments
    &&& a.context_num_messages == b.context_num_messages
    &&& a.context_num_unread == b.context_num_unread
    &&& a.context_size == b.context_size
    &&& a.context_snooze_time == b.context_snooze_time
}

/// The statistics and identity of a label context, all but its counts.
pub open spec fn same_identity(a: ConversationLabel, b: ConversationLabel) -> bool {
    &&& a.local_id == b.local_id
    &&& a.local_conversation_id == b.local_conversation_id
    &&& a.local_label_id == b.local_label_id
    &&& a.remote_label_id == b.remote_label_id
}

/// The error of an operation that needs a label that does not exist.
#[derive(Clone, Copy, Debug, PartialEq, Eq, Structural)]
pub enum ConversationLabelError {
    LabelNotFound(LocalLabelId),
}

impl ConversationLabel {
    /// A label context made of the statistics of some messages.
    pub fn from_stats(value: ConversationMessageLabelStats) -> (r: Self)
        ensures
            r.local_id.is_none() && r.local_conversation_id.is_none()
                && r.local_label_id.is_none() && r.remote_label_id.is_none(),
            r.context_expiration_time == value.expiration_time,
            r.context_num_attachments == value.num_attachments,
            r.context_num_messages == value.count,
            r.context_num_unread == value.unread,
            r.context_size == value.size,
            r.context_snooze_time == value.snooze_time,
            r.context_time == value.time,
            !r.deleted,
    {
        ConversationLabel {
            local_id: None,
            local_conversation_id: None,
            local_label_id: None,
            remote_label_id: None,
            context_expiration_time: value.expiration_time,
            context_num_attachments: value.num_attachments as u64,
            context_num_messages: value.count,
            context_num_unread: value.unread,
            context_size: value.size,
            context_snooze_time: value.snooze_time,
            context_time: value.time,
            deleted: false,
        }
    }

    /// Adds the statistics of more messages to this context.
    pub fn add_assign(&mut self, rhs: ConversationMessageLabelStats)
        requires
            old(self).context_size + rhs.size <= u64::MAX,
            old(self).context_num_messages + rhs.count <= u64::MAX,
            old(self).context_num_unread + rhs.unread <= u64::MAX,
            old(self).context_num_attachments + rhs.num_attachments <= u64::MAX,
        ensures
            same_identity(*final(self), *old(self)),
            final(self).deleted == old(self).deleted,
            final(self).context_size == old(self).context_size + rhs.size,
            final(self).context_time == later(old(self).context_time, rhs.time),
            final(self).context_expiration_time.0 == merged_expiration_time(
                old(self).context_expiration_time.0,
                rhs.expiration_time.0,
            ),
            final(self).context_num_messages == old(self).context_num_messages + rhs.count,
            final(self).context_num_unread == old(self).context_num_unread + rhs.unread,
            final(self).context_num_attachments == old(self).context_num_attachments
                + rhs.num_attachments,
            final(self).context_snooze_time == later(old(self).context_snooze_time, rhs.snooze_time),
    {
        self.context_size = self.context_size + rhs.size;
        if self.context_time < rhs.time {
            self.context_time = rhs.time;
        }
        self.context_expiration_time.merge_self(rhs.expiration_time);
        self.context_num_messages = self.context_num_messages + rhs.count;
        self.context_num_unread = self.context_num_unread + rhs.unread;
        self.context_num_attachments = self.context_num_attachments + rhs.num_attachments as u64;
        if self.context_snooze_time < rhs.snooze_time {
            self.context_snooze_time = rhs.snooze_time;
        }
    }

    pub fn are_stats_equal(&self, other: &Self) -> (r: bool)
        ensures
            r == same_stats(*self, *other),
    {
        self.context_time == other.context_time && self.context_expiration_time
            == other.context_expiration_time && self.context_num_attachments
            == other.context_num_attachments && self.context_num_messages
            == other.context_num_messages && self.context_num_unread == other.context_num_unread
            && self.context_size == other.context_size && self.context_snooze_time
            == other.context_snooze_time
    }

    /// Adjusts the context when the messages described by `stats` are soft
    /// deleted: the counts go down (stopping at zero), the context is deleted
    /// once no message is left, and the label's conversation counter loses the
    /// conversation (and an unread one) when the last (unread) message left.
    /// Without statistics nothing changes; with statistics but without the
    /// label's counter the label does not exist.
    pub fn mark_delete_update_stats(
        &mut self,
        stats: Option<&MessageLabelStats>,
        counter: &mut Option<ConversationCounters>,
    ) -> (r: Result<(), ConversationLabelError>)
        requires
            old(self).local_label_id.is_some(),
        ensures
            stats.is_none() ==> r is Ok && *final(self) == *old(self) && *final(counter) == *old(
                counter,
            ),
            stats.is_some() && old(counter).is_none() ==> r == Err::<(), ConversationLabelError>(
                ConversationLabelError::LabelNotFound(old(self).local_label_id.unwrap()),
            ) && *final(self) == *old(self) && *final(counter) == *old(counter),
            stats.is_some() && old(counter).is_some() ==> {
                let s = *stats.unwrap();
                let c = old(counter).unwrap();
                let msgs = sat_sub(old(self).context_num_messages, s.count);
                let unread = sat_sub(old(self).context_num_unread, s.unread_count);
                &&& r is Ok
                &&& same_identity(*final(self), *old(self))
                &&& final(self).context_num_messages == msgs
                &&& final(self).context_num_unread == unread
                &&& final(self).context_num_attachments == sat_sub(
                    old(self).context_num_attachments,
                    s.attachment_count,
                )
                &&& final(self).context_size == sat_sub(old(self).context_size, s.size)
                &&& final(self).context_time == old(self).context_time
                &&& final(self).context_snooze_time == old(self).context_snooze_time
                &&& final(self).context_expiration_time == old(self).context_expiration_time
                &&& final(self).deleted == (msgs == 0)
                &&& *final(counter) == Some(
                    ConversationCounters {
                        local_label_id: c.local_label_id,
                        total: if old(self).context_num_messages != 0 && msgs == 0 {
                            sat_sub(c.total, 1)
                        } else {
                            c.total
                        },
                        unread: if old(self).context_num_unread != 0 && unread == 0 {
                            sat_sub(c.unread, 1)
                        } else {
                            c.unread
                        },
                    },
                )
            },
    {
        match stats {
            None => Ok(()),
            Some(stats) => {
                let mut conv_counter = match counter {
                    Some(c) => *c,
                    None => {
                        return Err(
                            ConversationLabelError::LabelNotFound(self.local_label_id.unwrap()),
                        );
                    },
                };
                let existing_message_count = self.context_num_messages;
                let existing_unread_count = self.context_num_unread;
                self.context_num_messages = self.context_num_messages.saturating_sub(stats.count);
                self.context_num_unread = self.context_num_unread.saturating_sub(
                    stats.unread_count,
                );
                self.context_num_attachments = self.context_num_attachments.saturating_sub(
                    stats.attachment_count,
                );
                self.context_size = self.context_size.saturating_sub(stats.size);
                self.deleted = self.context_num_messages == 0;
                if existing_message_count != 0 && self.context_num_messages == 0 {
                    conv_counter.total = conv_counter.total.saturating_sub(1);
                }
                if existing_unread_count != 0 && self.context_num_unread == 0 {
                    conv_counter.unread = conv_counter.unread.saturating_sub(1);
                }
                *counter = Some(conv_counter);
                Ok(())
            },
        }
    }

    /// Adjusts the context when the messages described by `stats` are
    /// restored: the counts go up, the context is deleted only while it still
    /// holds no message, and the label's conversation counter gains the
    /// conversation (and an unread one) when the first (unread) message came
    /// back. Without statistics nothing changes; with statistics but without
    /// the label's counter the label does not exist.
    pub fn mark_undelete_update_stats(
        &mut self,
        stats: Option<&MessageLabelStats>,
        counter: &mut Option<ConversationCounters>,
    ) -> (r: Result<(), ConversationLabelError>)
        requires
            old(self).local_label_id.is_some(),
            stats.is_some() ==> {
                let s = *stats.unwrap();
                &&& old(self).context_num_messages + s.count <= u64::MAX
                &&& old(self).context_num_unread + s.unread_count <= u64::MAX
                &&& old(self).context_num_attachments + s.attachment_count <= u64::MAX
                &&& old(self).context_size + s.size <= u64::MAX
            },
        ensures
            stats.is_none() ==> r is Ok && *final(self) == *old(self) && *final(counter) == *old(
                counter,
            ),
            stats.is_some() && old(counter).is_none() ==> r == Err::<(), ConversationLabelError>(
                ConversationLabelError::LabelNotFound(old(self).local_label_id.unwrap()),
            ) && *final(self) == *old(self) && *final(counter) == *old(counter),
            stats.is_some() && old(counter).is_some() ==> {
                let s = *stats.unwrap();
                let c = old(counter).unwrap();
                let msgs = old(self).context_num_messages + s.count;
                let unread = old(self).context_num_unread + s.unread_count;
                &&& r is Ok
                &&& same_identity(*final(self), *old(self))
                &&& final(self).context_num_messages == msgs
                &&& final(self).context_num_unread == unread
                &&& final(self).context_num_attachments == old(self).context_num_attachments
                    + s.attachment_count
                &&& final(self).context_size == old(self).context_size + s.size
                &&& final(self).context_time == old(self).context_time
                &&& final(self).context_snooze_time == old(self).context_snooze_time
                &&& final(self).context_expiration_time == old(self).context_expiration_time
                &&& final(self).deleted == (msgs == 0)
                &&& *final(counter) == Some(
                    ConversationCounters {
                        local_label_id: c.local_label_id,
                        total: if old(self).context_num_messages == 0 && msgs != 0 {
                            if c.total == u64::MAX {
                                c.total
                            } else {
                                (c.total + 1) as u64
                            }
                        } else {
                            c.total
                        },
                        unread: if old(self).context_num_unread == 0 && unread != 0 {
                            if c.unread == u64::MAX {
                                c.unread
                            } else {
                                (c.unread + 1) as u64
                            }
                        } else {
                            c.unread
                        },
                    },
                )
            },
    {
        match stats {
            None => Ok(()),
            Some(stats) => {
                let mut conv_counter = match counter {
                    Some(c) => *c,
                    None => {
                        return Err(
                            ConversationLabelError::LabelNotFound(self.local_label_id.unwrap()),
                        );
                    },
                };
                let existing_message_count = self.context_num_messages;
                let existing_unread_count = self.context_num_unread;
                self.context_num_messages = self.context_num_messages + stats.count;
                self.context_num_unread = self.context_num_unread + stats.unread_count;
                self.context_num_attachments = self.context_num_attachments
                    + stats.attachment_count;
                self.context_size = self.context_size + stats.size;
                self.deleted = self.context_num_messages == 0;
                if existing_message_count == 0 && self.context_num_messages != 0 {
                    conv_counter.total = conv_counter.total.saturating_add(1);
                }
                if existing_unread_count == 0 && self.context_num_unread != 0 {
                    conv_counter.unread = conv_counter.unread.saturating_add(1);
                }
                *counter = Some(conv_counter);
                Ok(())
            },
        }
    }
}

/// Restoring messages that were soft deleted gives a label context its
/// counts back, and its label counter its values, when the delete did not
/// have to stop at zero and the counter had room to grow back.
pub proof fn lemma_label_undelete_restores_delete(
    before: ConversationLabel,
    counter: ConversationCounters,
    s: MessageLabelStats,
)
    requires
        s.count <= before.context_num_messages,
        s.unread_count <= before.context_num_unread,
        s.attachment_count <= before.context_num_attachments,
        s.size <= before.context_size,
        before.context_num_messages != 0 ==> 1 <= counter.total,
        before.context_num_unread != 0 ==> 1 <= counter.unread,
    ensures
        ({
            let msgs = sat_sub(before.context_num_messages, s.count);
            let unread = sat_sub(before.context_num_unread, s.unread_count);
            let deleted_total = if before.context_num_messages != 0 && msgs == 0 {
                sat_sub(counter.total, 1)
            } else {
                counter.total
            };
            let deleted_unread = if before.context_num_unread != 0 && unread == 0 {
                sat_sub(counter.unread, 1)
            } else {
                counter.unread
            };
            let restored_msgs = msgs + s.count;
            let restored_unread = unread + s.unread_count;
            let restored_total = if msgs == 0 && restored_msgs != 0 {
                if deleted_total == u64::MAX {
                    deleted_total as int
                } else {
                    deleted_total + 1
                }
            } else {
                deleted_total as int
            };
            let restored_counter_unread = if unread == 0 && restored_unread != 0 {
                if deleted_unread == u64::MAX {
                    deleted_unread as int
                } else {
                    deleted_unread + 1
                }
            } else {
                deleted_unread as int
            };
            &&& restored_msgs == before.context_num_messages
            &&& restored_unread == before.context_num_unread
            &&& sat_sub(before.context_num_attachments, s.attachment_count) + s.attachment_count
                == before.context_num_attachments
            &&& sat_sub(before.context_size, s.size) + s.size == before.context_size
            &&& restored_total == counter.total
            &&& restored_counter_unread == counter.unread
        }),
{
}

/// A conversation as the mailbox logic sees it.
#[derive(Clone, Debug)]
pub struct Conversation {
    pub local_id: Option<LocalConversationId>,
    pub remote_id: Option<String>,
    pub deleted: bool,
    pub display_snooze_reminder: bool,
    /// Only present for currently snoozed conversations: when the snooze ends.
    pub snoozed_until: Option<UnixTimestamp>,
    pub expiration_time: UnixTimestamp,
    /// The contexts of the conversation under each of its labels.
    pub labels: Vec<ConversationLabel>,
    pub num_attachments: u64,
    pub num_messages: u64,
    pub num_unread: u64,
    pub display_order: u64,
    pub size: u64,
    pub subject: String,
    /// Whether this conversation is fully known, or was only created as a
    /// placeholder for messages shown without their conversation.
    pub is_known: bool,
    /// Whether the conversation has synced its messages.
    pub has_messages: bool,
}

/// Whether the label context belongs to the label with the local id `id`.
pub open spec fn is_label_with_local_id(l: ConversationLabel, id: LocalLabelId) -> bool {
    l.local_label_id == Some(id)
}

/// Whether the label context belongs to the label with the remote id `id`.
pub open spec fn is_label_with_remote_id(l: ConversationLabel, id: Seq<char>) -> bool {
    l.remote_label_id.is_some() && l.remote_label_id.unwrap()@ == id
}

/// The first context of `ls` that belongs to the label with the remote id `id`.
pub open spec fn label_with_remote_id(ls: Seq<ConversationLabel>, id: Seq<char>) -> Option<
    ConversationLabel,
>
    decreases ls.len(),
{
    if ls.len() == 0 {
        None
    } else if is_label_with_remote_id(ls[0], id) {
        Some(ls[0])
    } else {
        label_with_remote_id(ls.subrange(1, ls.len() as int), id)
    }
}

/// The first context of `ls` that belongs to the label with the local id `id`.
pub open spec fn label_with_local_id(ls: Seq<ConversationLabel>, id: LocalLabelId) -> Option<
    ConversationLabel,
>
    decreases ls.len(),
{
    if ls.len() == 0 {
        None
    } else if is_label_with_local_id(ls[0], id) {
        Some(ls[0])
    } else {
        label_with_local_id(ls.subrange(1, ls.len() as int), id)
    }
}

proof fn lemma_skip_one<A>(ls: Seq<A>, i: int)
    requires
        0 <= i < ls.len(),
    ensures
        ls.subrange(i, ls.len() as int).subrange(1, ls.len() - i) == ls.subrange(
            i + 1,
            ls.len() as int,
        ),
        ls.subrange(i, ls.len() as int)[0] == ls[i],
{
    assert(ls.subrange(i, ls.len() as int).subrange(1, ls.len() - i) =~= ls.subrange(
        i + 1,
        ls.len() as int,
    ));
}

/// Whether `l` is the label with the remote id `id`.
fn has_remote_id(l: &ConversationLabel, id: &str) -> (r: bool)
    ensures
        r == is_label_with_remote_id(*l, id@),
{
    match &l.remote_label_id {
        Some(rid) => str_eq(rid.as_str(), id),
        None => false,
    }
}

/// The index of the first context of `ls` for the label with the remote id
/// `id`.
fn find_by_remote_id(ls: &Vec<ConversationLabel>, id: &str) -> (r: Option<usize>)
    ensures
        match r {
            Some(i) => i < ls@.len() && label_with_remote_id(ls@, id@) == Some(ls@[i as int]),
            None => label_with_remote_id(ls@, id@).is_none(),
        },
{
    let n = ls.len();
    let mut i: usize = 0;
    assert(ls@.subrange(0, n as int) =~= ls@);
    while i < n
        invariant
            n == ls@.len(),
            i <= n,
            label_with_remote_id(ls@, id@) == label_with_remote_id(
                ls@.subrange(i as int, n as int),
                id@,
            ),
        decreases n - i,
    {
        proof {
            lemma_skip_one(ls@, i as int);
        }
        if has_remote_id(&ls[i], id) {
            return Some(i);
        }
        i = i + 1;
    }
    None
}

/// What a label looks like to the logic that picks the message to open in a
/// conversation shown under it.
#[derive(Clone, Debug)]
pub struct ViewLabel {
    pub label_type: LabelType,
    pub remote_id: Option<String>,
}

/// Whether a message counts when picking the message to open: drafts never
/// do, and automatically sent messages do not outside custom labels, folders
/// and the starred label.
pub open spec fn counts_for_opening(m: Message, strict: bool) -> bool {
    !m.flags.draft && !(strict && m.flags.sent_auto)
}

/// Whether a message is shown under the label with the remote id `label_id`
/// (every message is, without one).
pub open spec fn shown_under(m: Message, label_id: Option<Seq<char>>) -> bool {
    match label_id {
        None => true,
        Some(id) => has_label_id(m.label_ids@, id),
    }
}

/// Scanning `ms` from the end: the local id of the first message of the last
/// run of unread messages that count (`acc` holds what the scan found so far).
pub open spec fn last_unread_run(ms: Seq<Message>, strict: bool, acc: Option<LocalMessageId>) -> Option<
    LocalMessageId,
>
    decreases ms.len(),
{
    if ms.len() == 0 {
        acc
    } else if ms.last().unread && counts_for_opening(ms.last(), strict) {
        last_unread_run(ms.drop_last(), strict, ms.last().local_id)
    } else if acc.is_some() {
        acc
    } else {
        last_unread_run(ms.drop_last(), strict, acc)
    }
}

/// The local id of the last message of `ms` that counts and is shown under
/// the label.
pub open spec fn last_shown(ms: Seq<Message>, strict: bool, label_id: Option<Seq<char>>) -> Option<
    LocalMessageId,
>
    decreases ms.len(),
{
    if ms.len() == 0 {
        None
    } else if counts_for_opening(ms.last(), strict) && shown_under(ms.last(), label_id) {
        ms.last().local_id
    } else {
        last_shown(ms.drop_last(), strict, label_id)
    }
}

/// Whether the view is a custom label, a folder or the starred label.
pub open spec fn is_label_folder_or_starred(label: ViewLabel) -> bool {
    label.label_type == LabelType::Label || label.label_type == LabelType::Folder || (
    label.remote_id.is_some() && label.remote_id.unwrap()@ == system_remote_id(
        SystemLabelId::Starred,
    ))
}

/// The message to open first in a conversation shown under `label`: the
/// oldest message of the newest run of unread messages, or else the newest
/// message shown under the label (outside system labels) that counts.
pub open spec fn first_unread_spec(label: ViewLabel, ms: Seq<Message>) -> Option<LocalMessageId> {
    let strict = !is_label_folder_or_starred(label);
    if ms.len() == 0 {
        None
    } else if label.label_type != LabelType::System && label.remote_id.is_none() {
        None
    } else {
        let label_id = if label.label_type != LabelType::System {
            Some(label.remote_id.unwrap()@)
        } else {
            None
        };
        match last_unread_run(ms, strict, None) {
            Some(id) => Some(id),
            None => last_shown(ms, strict, label_id),
        }
    }
}

/// Whether `m` is an unread message that counts when picking the message to
/// open.
pub open spec fn unread_and_counts(m: Message, strict: bool) -> bool {
    m.unread && counts_for_opening(m, strict)
}

proof fn lemma_last_unread_run_found(ms: Seq<Message>, strict: bool, acc: Option<LocalMessageId>)
    ensures
        last_unread_run(ms, strict, acc) == acc || exists|i: int|
            0 <= i < ms.len() && unread_and_counts(#[trigger] ms[i], strict)
                && last_unread_run(ms, strict, acc) == ms[i].local_id,
    decreases ms.len(),
{
    if ms.len() > 0 {
        let rest = ms.drop_last();
        if unread_and_counts(ms.last(), strict) {
            lemma_last_unread_run_found(rest, strict, ms.last().local_id);
            if last_unread_run(rest, strict, ms.last().local_id) != ms.last().local_id {
                let i = choose|i: int|
                    0 <= i < rest.len() && unread_and_counts(#[trigger] rest[i], strict)
                        && last_unread_run(rest, strict, ms.last().local_id) == rest[i].local_id;
                assert(ms[i] == rest[i]);
            } else {
                assert(ms[ms.len() - 1] == ms.last());
            }
        } else if acc.is_none() {
            lemma_last_unread_run_found(rest, strict, acc);
            if last_unread_run(rest, strict, acc) != acc {
                let i = choose|i: int|
                    0 <= i < rest.len() && unread_and_counts(#[trigger] rest[i], strict)
                        && last_unread_run(rest, strict, acc) == rest[i].local_id;
                assert(ms[i] == rest[i]);
            }
        }
    }
}

proof fn lemma_last_unread_run_some(ms: Seq<Message>, strict: bool, acc: Option<LocalMessageId>, k: int)
    requires
        forall|i: int| 0 <= i < ms.len() ==> (#[trigger] ms[i]).local_id.is_some(),
        0 <= k < ms.len(),
        unread_and_counts(ms[k], strict),
    ensures
        last_unread_run(ms, strict, acc).is_some(),
    decreases ms.len(),
{
    let rest = ms.drop_last();
    if unread_and_counts(ms.last(), strict) {
        assert(ms[ms.len() - 1] == ms.last());
        lemma_last_unread_run_keeps_some(rest, strict, ms.last().local_id);
    } else if acc.is_none() {
        assert(k < ms.len() - 1);
        assert(rest[k] == ms[k]);
        lemma_last_unread_run_some(rest, strict, acc, k);
    }
}

proof fn lemma_last_unread_run_keeps_some(ms: Seq<Message>, strict: bool, acc: Option<LocalMessageId>)
    requires
        acc.is_some(),
        forall|i: int| 0 <= i < ms.len() ==> (#[trigger] ms[i]).local_id.is_some(),
    ensures
        last_unread_run(ms, strict, acc).is_some(),
    decreases ms.len(),
{
    if ms.len() > 0 {
        let rest = ms.drop_last();
        assert forall|i: int| 0 <= i < rest.len() implies (#[trigger] rest[i]).local_id.is_some() by {
            assert(rest[i] == ms[i]);
        }
        if unread_and_counts(ms.last(), strict) {
            assert(ms[ms.len() - 1] == ms.last());
            lemma_last_unread_run_keeps_some(rest, strict, ms.last().local_id);
        }
    }
}

proof fn lemma_last_shown_found(ms: Seq<Message>, strict: bool, label_id: Option<Seq<char>>)
    ensures
        last_shown(ms, strict, label_id).is_none() || exists|i: int|
            0 <= i < ms.len() && counts_for_opening(#[trigger] ms[i], strict)
                && last_shown(ms, strict, label_id) == ms[i].local_id,
    decreases ms.len(),
{
    if ms.len() > 0 {
        let rest = ms.drop_last();
        if counts_for_opening(ms.last(), strict) && shown_under(ms.last(), label_id) {
            assert(ms[ms.len() - 1] == ms.last());
        } else {
            lemma_last_shown_found(rest, strict, label_id);
            if last_shown(rest, strict, label_id).is_some() {
                let i = choose|i: int|
                    0 <= i < rest.len() && counts_for_opening(#[trigger] rest[i], strict)
                        && last_shown(rest, strict, label_id) == rest[i].local_id;
                assert(ms[i] == rest[i]);
            }
        }
    }
}

/// The message picked to open in a conversation is one that counts (no
/// draft, and no automatically sent message outside custom labels, folders
/// and the starred label); and when some message that counts is unread and
/// the view can pick one at all, the picked message is an unread one that
/// counts.
pub proof fn lemma_first_unread_is_eligible(label: ViewLabel, ms: Seq<Message>)
    requires
        forall|i: int| 0 <= i < ms.len() ==> (#[trigger] ms[i]).local_id.is_some(),
    ensures
        first_unread_spec(label, ms).is_some() ==> exists|i: int|
            0 <= i < ms.len() && counts_for_opening(
                #[trigger] ms[i],
                !is_label_folder_or_starred(label),
            ) && first_unread_spec(label, ms) == ms[i].local_id,
        (label.label_type == LabelType::System || label.remote_id.is_some()) && (exists|k: int|
            0 <= k < ms.len() && unread_and_counts(#[trigger] ms[k], !is_label_folder_or_starred(label)))
            ==> exists|j: int|
            0 <= j < ms.len() && unread_and_counts(#[trigger] ms[j], !is_label_folder_or_starred(label))
                && first_unread_spec(label, ms) == ms[j].local_id,
{
    let strict = !is_label_folder_or_starred(label);
    if ms.len() > 0 && !(label.label_type != LabelType::System && label.remote_id.is_none()) {
        let label_id = if label.label_type != LabelType::System {
            Some(label.remote_id.unwrap()@)
        } else {
            None
        };
        lemma_last_unread_run_found(ms, strict, None);
        lemma_last_shown_found(ms, strict, label_id);
        if exists|k: int| 0 <= k < ms.len() && unread_and_counts(#[trigger] ms[k], strict) {
            let k = choose|k: int| 0 <= k < ms.len() && unread_and_counts(#[trigger] ms[k], strict);
            lemma_last_unread_run_some(ms, strict, None, k);
        }
        if last_unread_run(ms, strict, None).is_some() {
            let i = choose|i: int|
                0 <= i < ms.len() && unread_and_counts(#[trigger] ms[i], strict)
                    && last_unread_run(ms, strict, None) == ms[i].local_id;
            assert(counts_for_opening(ms[i], strict));
        }
    }
}

proof fn lemma_last_unread_run_none(ms: Seq<Message>, strict: bool, acc: Option<LocalMessageId>)
    requires
        forall|i: int| 0 <= i < ms.len() ==> !unread_and_counts(#[trigger] ms[i], strict),
    ensures
        last_unread_run(ms, strict, acc) == acc,
    decreases ms.len(),
{
    if ms.len() > 0 {
        let rest = ms.drop_last();
        assert(ms[ms.len() - 1] == ms.last());
        assert forall|i: int| 0 <= i < rest.len() implies !unread_and_counts(#[trigger] rest[i], strict) by {
            assert(rest[i] == ms[i]);
        }
        lemma_last_unread_run_none(rest, strict, acc);
    }
}

proof fn lemma_last_shown_is_newest(ms: Seq<Message>, strict: bool, label_id: Option<Seq<char>>)
    requires
        forall|i: int| 0 <= i < ms.len() ==> (#[trigger] ms[i]).local_id.is_some(),
    ensures
        last_shown(ms, strict, label_id).is_some() <==> exists|i: int|
            0 <= i < ms.len() && counts_for_opening(#[trigger] ms[i], strict) && shown_under(
                ms[i],
                label_id,
            ),
        last_shown(ms, strict, label_id).is_some() ==> exists|i: int|
            0 <= i < ms.len() && counts_for_opening(#[trigger] ms[i], strict) && shown_under(
                ms[i],
                label_id,
            ) && last_shown(ms, strict, label_id) == ms[i].local_id && forall|j: int|
                i < j < ms.len() ==> !(counts_for_opening(#[trigger] ms[j], strict) && shown_under(
                    ms[j],
                    label_id,
                )),
    decreases ms.len(),
{
    if ms.len() > 0 {
        let rest = ms.drop_last();
        let n = ms.len() - 1;
        assert(ms[n] == ms.last());
        assert forall|i: int| 0 <= i < rest.len() implies (#[trigger] rest[i]).local_id.is_some() by {
            assert(rest[i] == ms[i]);
        }
        if !(counts_for_opening(ms.last(), strict) && shown_under(ms.last(), label_id)) {
            lemma_last_shown_is_newest(rest, strict, label_id);
            if last_shown(rest, strict, label_id).is_some() {
                let i = choose|i: int|
                    0 <= i < rest.len() && counts_for_opening(#[trigger] rest[i], strict)
                        && shown_under(rest[i], label_id) && last_shown(rest, strict, label_id)
                        == rest[i].local_id && forall|j: int|
                        i < j < rest.len() ==> !(counts_for_opening(#[trigger] rest[j], strict)
                            && shown_under(rest[j], label_id));
                assert(ms[i] == rest[i]);
                assert forall|j: int| i < j < ms.len() implies !(counts_for_opening(
                    #[trigger] ms[j],
                    strict,
                ) && shown_under(ms[j], label_id)) by {
                    if j < n {
                        assert(ms[j] == rest[j]);
                    }
                }
            } else {
                assert forall|i: int| 0 <= i < ms.len() implies !(counts_for_opening(
                    #[trigger] ms[i],
                    strict,
                ) && shown_under(ms[i], label_id)) by {
                    if i < n {
                        assert(ms[i] == rest[i]);
                    }
                }
            }
        }
    }
}

/// When no message that counts is unread, the message picked to open is the
/// newest message that counts and that the view shows: under a custom label
/// or folder (or another labelled view), the newest one that carries the
/// view's remote id; under a system label, the newest one of all; and one is
/// picked exactly when such a message exists.
pub proof fn lemma_first_unread_without_unread(label: ViewLabel, ms: Seq<Message>)
    requires
        forall|i: int| 0 <= i < ms.len() ==> (#[trigger] ms[i]).local_id.is_some(),
        forall|i: int|
            0 <= i < ms.len() ==> !((#[trigger] ms[i]).unread && !ms[i].flags.draft && !(
            !is_label_folder_or_starred(label) && ms[i].flags.sent_auto)),
    ensures
        label.label_type != LabelType::System && label.remote_id.is_some() ==> {
            let rid = label.remote_id.unwrap()@;
            &&& first_unread_spec(label, ms).is_some() <==> exists|i: int|
                0 <= i < ms.len() && !(#[trigger] ms[i]).flags.draft && !(
                !is_label_folder_or_starred(label) && ms[i].flags.sent_auto) && has_label_id(
                    ms[i].label_ids@,
                    rid,
                )
            &&& first_unread_spec(label, ms).is_some() ==> exists|i: int|
                0 <= i < ms.len() && !(#[trigger] ms[i]).flags.draft && !(
                !is_label_folder_or_starred(label) && ms[i].flags.sent_auto) && has_label_id(
                    ms[i].label_ids@,
                    rid,
                ) && first_unread_spec(label, ms) == ms[i].local_id && forall|j: int|
                    i < j < ms.len() ==> !(!(#[trigger] ms[j]).flags.draft && !(
                    !is_label_folder_or_starred(label) && ms[j].flags.sent_auto) && has_label_id(
                        ms[j].label_ids@,
                        rid,
                    ))
        },
        label.label_type == LabelType::System ==> {
            &&& first_unread_spec(label, ms).is_some() <==> exists|i: int|
                0 <= i < ms.len() && !(#[trigger] ms[i]).flags.draft && !(
                !is_label_folder_or_starred(label) && ms[i].flags.sent_auto)
            &&& first_unread_spec(label, ms).is_some() ==> exists|i: int|
                0 <= i < ms.len() && !(#[trigger] ms[i]).flags.draft && !(
                !is_label_folder_or_starred(label) && ms[i].flags.sent_auto)
                    && first_unread_spec(label, ms) == ms[i].local_id && forall|j: int|
                    i < j < ms.len() ==> !(!(#[trigger] ms[j]).flags.draft && !(
                    !is_label_folder_or_starred(label) && ms[j].flags.sent_auto))
        },
{
    let strict = !is_label_folder_or_starred(label);
    assert forall|i: int| 0 <= i < ms.len() implies !unread_and_counts(#[trigger] ms[i], strict) by {
        assert(!(ms[i].unread && !ms[i].flags.draft && !(strict && ms[i].flags.sent_auto)));
    }
    lemma_last_unread_run_none(ms, strict, None);
    if label.label_type != LabelType::System && label.remote_id.is_some() {
        lemma_last_shown_is_newest(ms, strict, Some(label.remote_id.unwrap()@));
    }
    if label.label_type == LabelType::System {
        lemma_last_shown_is_newest(ms, strict, None);
    }
}

proof fn lemma_take_drop_last(ms: Seq<Message>, i: int)
    requires
        0 < i <= ms.len(),
    ensures
        ms.take(i).drop_last() == ms.take(i - 1),
        ms.take(i).last() == ms[i - 1],
{
    assert(ms.take(i).drop_last() =~= ms.take(i - 1));
}

impl Conversation {
    /// A conversation of which only the remote id is known yet.
    pub fn unknown(remote_id: String) -> (r: Self)
        ensures
            r.local_id.is_none(),
            r.remote_id == Some(remote_id),
            !r.deleted && !r.display_snooze_reminder && r.snoozed_until.is_none(),
            r.expiration_time == 0,
            r.labels@.len() == 0,
            r.num_attachments == 0 && r.num_messages == 0 && r.num_unread == 0,
            r.display_order == 0 && r.size == 0,
            r.subject@.len() == 0,
            !r.is_known && !r.has_messages,
    {
        Conversation {
            local_id: None,
            remote_id: Some(remote_id),
            deleted: false,
            display_snooze_reminder: false,
            snoozed_until: None,
            expiration_time: 0,
            labels: Vec::new(),
            num_attachments: 0,
            num_messages: 0,
            num_unread: 0,
            display_order: 0,
            size: 0,
            subject: String::new(),
            is_known: false,
            has_messages: false,
        }
    }

    /// The conversation's context under the label with the local id `local_id`.
    pub fn label(&self, local_id: LocalLabelId) -> (r: Option<&ConversationLabel>)
        ensures
            match r {
                Some(l) => label_with_local_id(self.labels@, local_id) == Some(*l),
                None => label_with_local_id(self.labels@, local_id).is_none(),
            },
    {
        let n = self.labels.len();
        let mut i: usize = 0;
        assert(self.labels@.subrange(0, n as int) =~= self.labels@);
        while i < n
            invariant
                n == self.labels@.len(),
                i <= n,
                label_with_local_id(self.labels@, local_id) == label_with_local_id(
                    self.labels@.subrange(i as int, n as int),
                    local_id,
                ),
            decreases n - i,
        {
            proof {
                lemma_skip_one(self.labels@, i as int);
            }
            if self.labels[i].local_label_id == Some(local_id) {
                return Some(&self.labels[i]);
            }
            i = i + 1;
        }
        None
    }

    /// A conversation is starred when it has a context under the starred label.
    pub fn is_starred(&self) -> (r: bool)
        ensures
            r == exists|i: int|
                0 <= i < self.labels@.len() && #[trigger] is_label_with_remote_id(
                    self.labels@[i],
                    system_remote_id(SystemLabelId::Starred),
                ),
    {
        let starred = SystemLabelId::Starred.as_str();
        let mut i: usize = 0;
        while i < self.labels.len()
            invariant
                i <= self.labels@.len(),
                starred@ == system_remote_id(SystemLabelId::Starred),
                forall|j: int|
                    0 <= j < i ==> !#[trigger] is_label_with_remote_id(self.labels@[j], starred@),
            decreases self.labels.len() - i,
        {
            if has_remote_id(&self.labels[i], starred) {
                return true;
            }
            i = i + 1;
        }
        false
    }

    /// Decides how a conversation that came from the server is stored, given
    /// the stored conversation with the same remote id: a new one is saved as
    /// it is; a stored placeholder is overwritten; a stored known one is kept
    /// unchanged (and replaces this one) when the context under the current
    /// label did not change, and is overwritten otherwise. Returns whether the
    /// conversation has to be saved.
    pub fn create_or_get_local(&mut self, existing: Option<Conversation>, current_label_id: &str) -> (r:
        bool)
        ensures
            existing.is_none() ==> r && *final(self) == *old(self),
            existing.is_some() ==> {
                let e = existing.unwrap();
                let this_label = label_with_remote_id(old(self).labels@, current_label_id@);
                let other_label = label_with_remote_id(e.labels@, current_label_id@);
                let skip = e.is_known && match (this_label, other_label) {
                    (Some(a), Some(b)) => same_stats(a, b),
                    (None, None) => true,
                    _ => false,
                };
                if skip {
                    !r && *final(self) == e
                } else {
                    r && *final(self) == (Conversation { local_id: e.local_id, ..*old(self) })
                }
            },
    {
        match existing {
            None => true,
            Some(existing) => {
                if existing.is_known {
                    let this_label = find_by_remote_id(&self.labels, current_label_id);
                    let other_label = find_by_remote_id(&existing.labels, current_label_id);
                    let should_skip = match (this_label, other_label) {
                        (Some(a), Some(b)) => self.labels[a].are_stats_equal(&existing.labels[b]),
                        (None, None) => true,
                        _ => false,
                    };
                    if should_skip {
                        *self = existing;
                        return false;
                    }
                }
                self.local_id = existing.local_id;
                true
            },
        }
    }

    /// The message to open first when the conversation is shown under
    /// `label`: the oldest message of the newest run of unread messages that
    /// count, or else the newest message that counts and is shown under the
    /// label.
    pub fn first_unread_message(label: &ViewLabel, messages: &Vec<Message>) -> (r: Option<
        LocalMessageId,
    >)
        ensures
            r == first_unread_spec(*label, messages@),
    {
        if messages.len() == 0 {
            return None;
        }
        let starred = SystemLabelId::Starred.as_str();
        let is_starred_view = match &label.remote_id {
            Some(id) => str_eq(id.as_str(), starred),
            None => false,
        };
        let view_is_starred_label_or_folder = label.label_type == LabelType::Label
            || label.label_type == LabelType::Folder || is_starred_view;
        let strict = !view_is_starred_label_or_folder;
        assert(strict == !is_label_folder_or_starred(*label));
        let label_id: Option<&String> = if label.label_type != LabelType::System {
            match &label.remote_id {
                Some(id) => Some(id),
                None => {
                    return None;
                },
            }
        } else {
            None
        };
        let ghost spec_label_id: Option<Seq<char>> = match label_id {
            Some(id) => Some(id@),
            None => None,
        };
        let n = messages.len();
        let mut last_unread: Option<LocalMessageId> = None;
        let mut i: usize = n;
        assert(messages@.take(n as int) =~= messages@);
        while i > 0
            invariant_except_break
                i <= n,
                n == messages@.len(),
                last_unread_run(messages@, strict, None) == last_unread_run(
                    messages@.take(i as int),
                    strict,
                    last_unread,
                ),
            ensures
                last_unread_run(messages@, strict, None) == last_unread,
            decreases i,
        {
            let m = &messages[i - 1];
            proof {
                lemma_take_drop_last(messages@, i as int);
            }
            let counts = !m.flags.draft && !(strict && m.flags.sent_auto);
            if m.unread && counts {
                last_unread = m.local_id;
            } else if last_unread.is_some() {
                break;
            }
            i = i - 1;
        }
        if last_unread.is_some() {
            return last_unread;
        }
        assert(first_unread_spec(*label, messages@) == last_shown(messages@, strict, spec_label_id));
        let mut j: usize = n;
        while j > 0
            invariant
                j <= n,
                n == messages@.len(),
                spec_label_id == (match label_id {
                    Some(id) => Some(id@),
                    None => None::<Seq<char>>,
                }),
                first_unread_spec(*label, messages@) == last_shown(messages@, strict, spec_label_id),
                last_shown(messages@, strict, spec_label_id) == last_shown(
                    messages@.take(j as int),
                    strict,
                    spec_label_id,
                ),
            decreases j,
        {
            let m = &messages[j - 1];
            proof {
                lemma_take_drop_last(messages@, j as int);
            }
            let counts = !m.flags.draft && !(strict && m.flags.sent_auto);
            let shown = match label_id {
                None => true,
                Some(id) => contains_label_id(&m.label_ids, id),
            };
            if counts && shown {
                return m.local_id;
            }
            j = j - 1;
        }
        None
    }

    /// The message to open in a conversation: the first unread one, else its
    /// last message; a conversation without messages has none to open.
    pub fn message_id_to_open(
        local_id: LocalConversationId,
        label: &ViewLabel,
        messages: &Vec<Message>,
    ) -> (r: Result<LocalMessageId, AppError>)
        requires
            messages@.len() > 0 ==> messages@.last().local_id.is_some(),
        ensures
            messages@.len() == 0 ==> r == Err::<LocalMessageId, AppError>(
                AppError::ConversationHasNoMessages(local_id),
            ),
            messages@.len() > 0 ==> r == Ok::<LocalMessageId, AppError>(
                match first_unread_spec(*label, messages@) {
                    Some(id) => id,
                    None => messages@.last().local_id.unwrap(),
                },
            ),
    {
        if messages.len() == 0 {
            return Err(AppError::ConversationHasNoMessages(local_id));
        }
        let last = messages[messages.len() - 1].local_id.unwrap();
        match Self::first_unread_message(label, messages) {
            Some(id) => Ok(id),
            None => Ok(last),
        }
    }
}

/// The counters of a label after the messages described by `stats` were
/// labelled with it in a conversation.
#[derive(Clone, Copy, Debug, PartialEq, Eq, Structural)]
pub struct LabelCountersUpdate {
    pub conversation_counters: ConversationCounters,
    pub message_counters: MessageCounter,
}

/// The context under a label that the messages described by `stats` give a
/// conversation: added to its existing context, or a new context.
pub open spec fn labelled_context(
    existing: Option<ConversationLabel>,
    conversation_id: LocalConversationId,
    label_id: LocalLabelId,
    remote_label_id: Option<String>,
    stats: ConversationMessageLabelStats,
) -> ConversationLabel {
    match existing {
        Some(l) => ConversationLabel {
            context_size: (l.context_size + stats.size) as u64,
            context_time: later(l.context_time, stats.time),
            context_expiration_time: ContextExpirationTime(
                merged_expiration_time(l.context_expiration_time.0, stats.expiration_time.0),
            ),
            context_num_messages: (l.context_num_messages + stats.count) as u64,
            context_num_unread: (l.context_num_unread + stats.unread) as u64,
            context_num_attachments: (l.context_num_attachments + stats.num_attachments) as u64,
            context_snooze_time: later(l.context_snooze_time, stats.snooze_time),
            ..l
        },
        None => ConversationLabel {
            local_id: None,
            local_conversation_id: Some(conversation_id),
            local_label_id: Some(label_id),
            remote_label_id,
            context_expiration_time: stats.expiration_time,
            context_num_attachments: stats.num_attachments as u64,
            context_num_messages: stats.count,
            context_num_unread: stats.unread,
            context_size: stats.size,
            context_snooze_time: stats.snooze_time,
            context_time: stats.time,
            deleted: false,
        },
    }
}

/// The greatest value of `f` over the contexts `ls`, 0 for none.
pub open spec fn greatest(ls: Seq<ConversationLabel>, f: spec_fn(ConversationLabel) -> u64) -> u64
    decreases ls.len(),
{
    if ls.len() == 0 {
        0
    } else {
        later(greatest(ls.drop_last(), f), f(ls.last()))
    }
}

/// The expiration times of the contexts `ls`, merged in order.
pub open spec fn merged_context_expirations(ls: Seq<ConversationLabel>) -> u64
    decreases ls.len(),
{
    if ls.len() == 0 {
        0
    } else {
        merged_expiration_time(
            merged_context_expirations(ls.drop_last()),
            ls.last().context_expiration_time.0,
        )
    }
}

/// The context a label gets in a conversation whose messages are not known:
/// the largest values found among the conversation's other contexts (every
/// conversation is at least in "all mail").
pub open spec fn fallback_context(
    conversation_id: LocalConversationId,
    label_id: LocalLabelId,
    remote_label_id: Option<String>,
    ls: Seq<ConversationLabel>,
) -> ConversationLabel {
    ConversationLabel {
        local_id: None,
        local_conversation_id: Some(conversation_id),
        local_label_id: Some(label_id),
        remote_label_id,
        context_expiration_time: ContextExpirationTime(merged_context_expirations(ls)),
        context_num_attachments: greatest(ls, |l: ConversationLabel| l.context_num_attachments),
        context_num_messages: greatest(ls, |l: ConversationLabel| l.context_num_messages),
        context_num_unread: greatest(ls, |l: ConversationLabel| l.context_num_unread),
        context_size: greatest(ls, |l: ConversationLabel| l.context_size),
        context_snooze_time: greatest(ls, |l: ConversationLabel| l.context_snooze_time),
        context_time: greatest(ls, |l: ConversationLabel| l.context_time),
        deleted: false,
    }
}

proof fn lemma_greatest_is_maximum(ls: Seq<ConversationLabel>, f: spec_fn(ConversationLabel) -> u64)
    ensures
        forall|k: int| 0 <= k < ls.len() ==> f(#[trigger] ls[k]) <= greatest(ls, f),
        ls.len() == 0 ==> greatest(ls, f) == 0,
        ls.len() > 0 ==> exists|k: int| 0 <= k < ls.len() && greatest(ls, f) == f(#[trigger] ls[k]),
    decreases ls.len(),
{
    if ls.len() > 0 {
        let rest = ls.drop_last();
        lemma_greatest_is_maximum(rest, f);
        let n = ls.len() - 1;
        assert(ls[n] == ls.last());
        assert forall|k: int| 0 <= k < ls.len() implies f(#[trigger] ls[k]) <= greatest(ls, f) by {
            if k < n {
                assert(ls[k] == rest[k]);
            }
        }
        if greatest(ls, f) != f(ls[n]) {
            let k = choose|k: int| 0 <= k < rest.len() && greatest(rest, f) == f(#[trigger] rest[k]);
            assert(ls[k] == rest[k]);
        }
    }
}

/// The context a label gets in a conversation whose messages are not known
/// takes, for each count, size and time, the largest value among the
/// conversation's other contexts (0 without any), and belongs to the label
/// and the conversation.
pub proof fn lemma_fallback_takes_largest(
    conversation_id: LocalConversationId,
    label_id: LocalLabelId,
    remote_label_id: Option<String>,
    ls: Seq<ConversationLabel>,
)
    ensures
        ({
            let r = fallback_context(conversation_id, label_id, remote_label_id, ls);
            &&& r.local_label_id == Some(label_id)
            &&& r.local_conversation_id == Some(conversation_id)
            &&& r.remote_label_id == remote_label_id
            &&& !r.deleted
            &&& forall|k: int|
                0 <= k < ls.len() ==> (#[trigger] ls[k]).context_num_unread <= r.context_num_unread
                    && ls[k].context_num_messages <= r.context_num_messages
                    && ls[k].context_num_attachments <= r.context_num_attachments
                    && ls[k].context_size <= r.context_size && ls[k].context_time <= r.context_time
                    && ls[k].context_snooze_time <= r.context_snooze_time
            &&& ls.len() > 0 ==> (exists|k: int|
                0 <= k < ls.len() && r.context_num_unread == (#[trigger] ls[k]).context_num_unread)
                && (exists|k: int|
                0 <= k < ls.len() && r.context_num_messages == (#[trigger] ls[k]).context_num_messages)
            &&& ls.len() == 0 ==> r.context_num_unread == 0 && r.context_num_messages == 0
        }),
{
    lemma_greatest_is_maximum(ls, |l: ConversationLabel| l.context_num_unread);
    lemma_greatest_is_maximum(ls, |l: ConversationLabel| l.context_num_messages);
    lemma_greatest_is_maximum(ls, |l: ConversationLabel| l.context_num_attachments);
    lemma_greatest_is_maximum(ls, |l: ConversationLabel| l.context_size);
    lemma_greatest_is_maximum(ls, |l: ConversationLabel| l.context_time);
    lemma_greatest_is_maximum(ls, |l: ConversationLabel| l.context_snooze_time);
}

proof fn lemma_take_step_labels(ls: Seq<ConversationLabel>, i: int)
    requires
        0 <= i < ls.len(),
    ensures
        ls.take(i + 1).drop_last() == ls.take(i),
        ls.take(i + 1).last() == ls[i],
{
    assert(ls.take(i + 1).drop_last() =~= ls.take(i));
}

impl Conversation {
    /// Labels some messages of a conversation: their statistics are added to
    /// the conversation's context under the label (or make a new one), the
    /// label's message counters gain the messages, and its conversation
    /// counters gain the conversation when it was not under the label yet,
    /// and an unread conversation when it becomes unread under it. A label
    /// without counters does not exist.
    pub fn label_impl(
        label_id: LocalLabelId,
        conversation_id: LocalConversationId,
        existing: Option<ConversationLabel>,
        remote_label_id: Option<String>,
        stats: ConversationMessageLabelStats,
        conv_counters: Option<ConversationCounters>,
        msg_counters: Option<MessageCounter>,
    ) -> (r: Result<(ConversationLabel, LabelCountersUpdate), AppError>)
        requires
            existing.is_some() ==> {
                let l = existing.unwrap();
                &&& l.context_size + stats.size <= u64::MAX
                &&& l.context_num_messages + stats.count <= u64::MAX
                &&& l.context_num_unread + stats.unread <= u64::MAX
                &&& l.context_num_attachments + stats.num_attachments <= u64::MAX
            },
            conv_counters.is_some() ==> conv_counters.unwrap().total < u64::MAX
                && conv_counters.unwrap().unread < u64::MAX,
            msg_counters.is_some() ==> msg_counters.unwrap().total + stats.count <= u64::MAX
                && msg_counters.unwrap().unread + stats.unread <= u64::MAX,
        ensures
            (conv_counters.is_none() || msg_counters.is_none()) ==> r == Err::<
                (ConversationLabel, LabelCountersUpdate),
                AppError,
            >(AppError::LabelNotFound(label_id)),
            conv_counters.is_some() && msg_counters.is_some() ==> {
                let c = conv_counters.unwrap();
                let m = msg_counters.unwrap();
                let has_label = existing.is_some();
                let is_unread = has_label && existing.unwrap().context_num_unread != 0;
                &&& r is Ok
                &&& r->Ok_0.0 == labelled_context(
                    existing,
                    conversation_id,
                    label_id,
                    remote_label_id,
                    stats,
                )
                &&& r->Ok_0.1.message_counters == MessageCounter {
                    local_label_id: m.local_label_id,
                    total: (m.total + stats.count) as u64,
                    unread: (m.unread + stats.unread) as u64,
                }
                &&& r->Ok_0.1.conversation_counters == ConversationCounters {
                    local_label_id: c.local_label_id,
                    total: if has_label {
                        c.total
                    } else {
                        (c.total + 1) as u64
                    },
                    unread: if !is_unread && stats.unread != 0 {
                        (c.unread + 1) as u64
                    } else {
                        c.unread
                    },
                }
            },
            conv_counters.is_some() && msg_counters.is_some() ==> {
                let before_unread: int = if existing.is_some() {
                    existing.unwrap().context_num_unread as int
                } else {
                    0
                };
                let before_messages: int = if existing.is_some() {
                    existing.unwrap().context_num_messages as int
                } else {
                    0
                };
                let before_size: int = if existing.is_some() {
                    existing.unwrap().context_size as int
                } else {
                    0
                };
                let before_attachments: int = if existing.is_some() {
                    existing.unwrap().context_num_attachments as int
                } else {
                    0
                };
                let ctx = r->Ok_0.0;
                let cc = r->Ok_0.1.conversation_counters;
                let c = conv_counters.unwrap();
                &&& ctx.context_num_unread == before_unread + stats.unread
                &&& ctx.context_num_messages == before_messages + stats.count
                &&& ctx.context_size == before_size + stats.size
                &&& ctx.context_num_attachments == before_attachments + stats.num_attachments
                &&& ctx.local_label_id == if existing.is_some() {
                    existing.unwrap().local_label_id
                } else {
                    Some(label_id)
                }
                &&& existing.is_none() ==> ctx.local_conversation_id == Some(conversation_id)
                    && ctx.remote_label_id == remote_label_id && !ctx.deleted
                &&& (cc.unread == c.unread + 1) <==> (before_unread == 0
                    && ctx.context_num_unread != 0)
                &&& (cc.unread == c.unread) <==> !(before_unread == 0 && ctx.context_num_unread
                    != 0)
                &&& (cc.total == c.total + 1) <==> existing.is_none()
                &&& (cc.total == c.total) <==> existing.is_some()
            },
    {
        let (has_label, is_unread) = match &existing {
            Some(l) => (true, l.context_num_unread != 0),
            None => (false, false),
        };
        let conversation_label = match existing {
            Some(mut label) => {
                label.add_assign(stats);
                label
            },
            None => ConversationLabel {
                local_id: None,
                local_conversation_id: Some(conversation_id),
                local_label_id: Some(label_id),
                remote_label_id,
                context_expiration_time: stats.expiration_time,
                context_num_attachments: stats.num_attachments as u64,
                context_num_messages: stats.count,
                context_num_unread: stats.unread,
                context_size: stats.size,
                context_snooze_time: stats.snooze_time,
                context_time: stats.time,
                deleted: false,
            },
        };
        let mut conv_counters = match conv_counters {
            Some(c) => c,
            None => {
                return Err(AppError::LabelNotFound(label_id));
            },
        };
        let mut msg_counters = match msg_counters {
            Some(m) => m,
            None => {
                return Err(AppError::LabelNotFound(label_id));
            },
        };
        msg_counters.unread = msg_counters.unread + stats.unread;
        msg_counters.total = msg_counters.total + stats.count;
        if !has_label {
            conv_counters.total = conv_counters.total + 1;
        }
        if !is_unread && stats.unread != 0 {
            conv_counters.unread = conv_counters.unread + 1;
        }
        Ok(
            (
                conversation_label,
                LabelCountersUpdate {
                    conversation_counters: conv_counters,
                    message_counters: msg_counters,
                },
            ),
        )
    }

    /// The context a label gets in a conversation whose messages are not
    /// known, from the conversation's other contexts `labels`.
    pub fn fallback_label(
        conversation_id: LocalConversationId,
        label_id: LocalLabelId,
        remote_label_id: Option<String>,
        labels: &Vec<ConversationLabel>,
    ) -> (r: ConversationLabel)
        ensures
            r == fallback_context(conversation_id, label_id, remote_label_id, labels@),
    {
        let mut new_label = ConversationLabel {
            local_id: None,
            local_conversation_id: Some(conversation_id),
            local_label_id: Some(label_id),
            remote_label_id,
            context_expiration_time: ContextExpirationTime(0),
            context_num_attachments: 0,
            context_num_messages: 0,
            context_num_unread: 0,
            context_size: 0,
            context_snooze_time: 0,
            context_time: 0,
            deleted: false,
        };
        let ghost rid = remote_label_id;
        let mut i: usize = 0;
        assert(labels@.take(0) =~= Seq::<ConversationLabel>::empty());
        while i < labels.len()
            invariant
                i <= labels@.len(),
                new_label == fallback_context(
                    conversation_id,
                    label_id,
                    rid,
                    labels@.take(i as int),
                ),
            decreases labels.len() - i,
        {
            let cl = &labels[i];
            proof {
                lemma_take_step_labels(labels@, i as int);
            }
            new_label.context_expiration_time = if new_label.context_expiration_time.0 == 0 {
                cl.context_expiration_time
            } else if cl.context_expiration_time.0 < new_label.context_expiration_time.0 {
                cl.context_expiration_time
            } else {
                new_label.context_expiration_time
            };
            if new_label.context_num_attachments < cl.context_num_attachments {
                new_label.context_num_attachments = cl.context_num_attachments;
            }
            if new_label.context_num_messages < cl.context_num_messages {
                new_label.context_num_messages = cl.context_num_messages;
            }
            if new_label.context_num_unread < cl.context_num_unread {
                new_label.context_num_unread = cl.context_num_unread;
            }
            if new_label.context_size < cl.context_size {
                new_label.context_size = cl.context_size;
            }
            if new_label.context_snooze_time < cl.context_snooze_time {
                new_label.context_snooze_time = cl.context_snooze_time;
            }
            if new_label.context_time < cl.context_time {
                new_label.context_time = cl.context_time;
            }
            i = i + 1;
        }
        proof {
            assert(labels@.take(labels@.len() as int) =~= labels@);
        }
        new_label
    }

    /// Marks the conversation as read: no message of it is unread any more,
    /// under any label, and no snooze reminder is shown. Returns the labels
    /// under which it was unread, whose unread conversation counters go down.
    pub fn mark_read_local(&mut self) -> (r: Vec<LocalLabelId>)
        requires
            forall|k: int|
                0 <= k < old(self).labels@.len() && #[trigger] old(self).labels@[k].context_num_unread
                    != 0 ==> old(self).labels@[k].local_label_id.is_some(),
        ensures
            !final(self).display_snooze_reminder,
            old(self).num_unread == 0 ==> r@.len() == 0 && *final(self) == (Conversation {
                display_snooze_reminder: false,
                ..*old(self)
            }),
            old(self).num_unread != 0 ==> {
                &&& final(self).num_unread == 0
                &&& final(self).labels@.len() == old(self).labels@.len()
                &&& forall|k: int|
                    0 <= k < final(self).labels@.len() ==> #[trigger] final(self).labels@[k]
                        == (ConversationLabel { context_num_unread: 0, ..old(self).labels@[k] })
                &&& r@ == old(self).labels@.filter(
                    |l: ConversationLabel| l.context_num_unread != 0,
                ).map_values(|l: ConversationLabel| l.local_label_id.unwrap())
                &&& *final(self) == (Conversation {
                    display_snooze_reminder: false,
                    num_unread: 0,
                    labels: final(self).labels,
                    ..*old(self)
                })
            },
    {
        let mut counted: Vec<LocalLabelId> = Vec::new();
        if self.num_unread == 0 {
            self.display_snooze_reminder = false;
            return counted;
        }
        self.num_unread = 0;
        self.display_snooze_reminder = false;
        let ghost old_labels = self.labels@;
        let mut labels: Vec<ConversationLabel> = Vec::new();
        let mut i: usize = 0;
        while i < self.labels.len()
            invariant
                i <= self.labels@.len(),
                self.labels@ == old_labels,
                forall|k: int|
                    0 <= k < old_labels.len() && #[trigger] old_labels[k].context_num_unread != 0
                        ==> old_labels[k].local_label_id.is_some(),
                labels@.len() == i,
                forall|k: int|
                    0 <= k < i ==> #[trigger] labels@[k] == (ConversationLabel {
                        context_num_unread: 0,
                        ..old_labels[k]
                    }),
                counted@ == old_labels.take(i as int).filter(
                    |l: ConversationLabel| l.context_num_unread != 0,
                ).map_values(|l: ConversationLabel| l.local_label_id.unwrap()),
            decreases self.labels.len() - i,
        {
            let l = self.labels[i].clone();
            assert(l == old_labels[i as int]);
            proof {
                lemma_take_step_labels(old_labels, i as int);
                old_labels.take(i as int).lemma_filter_push(
                    old_labels[i as int],
                    |l: ConversationLabel| l.context_num_unread != 0,
                );
            }
            let ghost pred = |l: ConversationLabel| l.context_num_unread != 0;
            let ghost f = |l: ConversationLabel| l.local_label_id.unwrap();
            proof {
                assert(old_labels.take(i + 1) =~= old_labels.take(i as int).push(l));
                let prefix = old_labels.take(i as int).filter(pred);
                assert(prefix.push(l).map_values(f) =~= prefix.map_values(f).push(f(l)));
            }
            if l.context_num_unread != 0 {
                counted.push(l.local_label_id.unwrap());
            }
            labels.push(ConversationLabel { context_num_unread: 0, ..l });
            i = i + 1;
        }
        proof {
            assert(old_labels.take(old_labels.len() as int) =~= old_labels);
        }
        self.labels = labels;
        counted
    }
}

/// How often `id` occurs in `ids`.
pub open spec fn occurrences(ids: Seq<LocalLabelId>, id: LocalLabelId) -> nat
    decreases ids.len(),
{
    if ids.len() == 0 {
        0
    } else {
        occurrences(ids.drop_last(), id) + if ids.last() == id {
            1nat
        } else {
            0nat
        }
    }
}

proof fn lemma_occurrences_bounded(ids: Seq<LocalLabelId>, id: LocalLabelId)
    ensures
        occurrences(ids, id) <= ids.len(),
    decreases ids.len(),
{
    if ids.len() > 0 {
        lemma_occurrences_bounded(ids.drop_last(), id);
    }
}

/// Lowers each counter's unread count by how often its label occurs in
/// `label_ids` (one unread conversation or message fewer per occurrence),
/// stopping at zero.
pub fn apply_read_counts(counters: &mut Vec<ConversationCounters>, label_ids: &Vec<LocalLabelId>)
    ensures
        final(counters)@.len() == old(counters)@.len(),
        forall|k: int|
            0 <= k < final(counters)@.len() ==> #[trigger] final(counters)@[k] == (
            ConversationCounters {
                unread: sat_sub(
                    old(counters)@[k].unread,
                    occurrences(label_ids@, old(counters)@[k].local_label_id) as u64,
                ),
                ..old(counters)@[k]
            }),
{
    let ghost before = counters@;
    let mut k: usize = 0;
    while k < counters.len()
        invariant
            k <= counters@.len(),
            counters@.len() == before.len(),
            forall|j: int|
                k <= j < counters@.len() ==> #[trigger] counters@[j] == before[j],
            forall|j: int|
                0 <= j < k ==> #[trigger] counters@[j] == (ConversationCounters {
                    unread: sat_sub(
                        before[j].unread,
                        occurrences(label_ids@, before[j].local_label_id) as u64,
                    ),
                    ..before[j]
                }),
        decreases counters.len() - k,
    {
        let c = counters[k];
        let mut n: u64 = 0;
        let mut i: usize = 0;
        while i < label_ids.len()
            invariant
                i <= label_ids@.len(),
                n == occurrences(label_ids@.take(i as int), c.local_label_id),
                n <= i,
            decreases label_ids.len() - i,
        {
            proof {
                assert(label_ids@.take(i + 1).drop_last() =~= label_ids@.take(i as int));
            }
            if label_ids[i] == c.local_label_id {
                n = n + 1;
            }
            i = i + 1;
        }
        proof {
            assert(label_ids@.take(label_ids@.len() as int) =~= label_ids@);
        }
        counters.set(k, ConversationCounters { unread: c.unread.saturating_sub(n), ..c });
        k = k + 1;
    }
}

proof fn lemma_same_remote_label(a: Seq<ConversationLabel>, b: Seq<ConversationLabel>, id: Seq<char>)
    requires
        a.len() == b.len(),
        forall|k: int|
            0 <= k < a.len() ==> #[trigger] b[k] == (ConversationLabel {
                local_conversation_id: b[k].local_conversation_id,
                ..a[k]
            }),
    ensures
        match label_with_remote_id(a, id) {
            Some(l) => label_with_remote_id(b, id).is_some() && label_with_remote_id(
                b,
                id,
            ).unwrap().context_snooze_time == l.context_snooze_time,
            None => label_with_remote_id(b, id).is_none(),
        },
    decreases a.len(),
{
    if a.len() > 0 {
        let a1 = a.subrange(1, a.len() as int);
        let b1 = b.subrange(1, b.len() as int);
        assert forall|k: int| 0 <= k < a1.len() implies #[trigger] b1[k] == (ConversationLabel {
            local_conversation_id: b1[k].local_conversation_id,
            ..a1[k]
        }) by {
            assert(a1[k] == a[k + 1] && b1[k] == b[k + 1]);
        }
        assert(b[0] == (ConversationLabel { local_conversation_id: b[0].local_conversation_id, ..a[0] }));
        lemma_same_remote_label(a1, b1, id);
    }
}

/// What syncing a conversation's messages has to do.
#[derive(Clone, Debug, PartialEq, Eq)]
pub enum ConversationSyncPlan {
    /// The messages were never synced: fetch the conversation with this
    /// remote id.
    FetchMessages(String),
    /// The messages were synced, but their number does not match: sync the
    /// conversation again.
    Resync,
    /// The messages are synced.
    AlreadySynced,
}

/// Where a conversation asks to be shown under a label, and what the labelling
/// action does: label it, archive it, both or nothing.
#[derive(Clone, Copy, Debug, PartialEq, Eq, Structural)]
pub enum LabelAsPlan {
    Noop,
    LabelOnly,
    MoveOnly,
    LabelThenMove,
}

/// A label applied to a conversation.
#[derive(Clone, Copy, Debug, PartialEq, Eq, Structural)]
pub struct LabelPair {
    pub label: LocalLabelId,
    pub id: LocalConversationId,
}

/// The pairs of label and conversation of the contexts that know both.
pub open spec fn label_pairs_of(ls: Seq<ConversationLabel>) -> Seq<LabelPair>
    decreases ls.len(),
{
    if ls.len() == 0 {
        Seq::empty()
    } else {
        let rest = label_pairs_of(ls.drop_last());
        let l = ls.last();
        if l.local_label_id.is_some() && l.local_conversation_id.is_some() {
            rest.push(LabelPair { label: l.local_label_id.unwrap(), id: l.local_conversation_id.unwrap() })
        } else {
            rest
        }
    }
}

/// Whether the label with the local id `id` is among `ids` (with a counter).
pub open spec fn has_counted_label(ids: Seq<(LocalLabelId, bool)>, id: LocalLabelId) -> bool {
    exists|j: int| 0 <= j < ids.len() && #[trigger] ids[j].0 == id && ids[j].1
}

/// The labels whose conversation counters gain an unread conversation when a
/// message with the labels `ids` becomes unread: those with a counter under
/// which the conversation had no unread message.
pub open spec fn newly_unread_labels(ls: Seq<ConversationLabel>, ids: Seq<(LocalLabelId, bool)>) -> Seq<
    LocalLabelId,
>
    decreases ids.len(),
{
    if ids.len() == 0 {
        Seq::empty()
    } else {
        let rest = newly_unread_labels(ls, ids.drop_last());
        let (id, counted) = ids.last();
        let l = label_with_local_id(ls, id);
        if counted && l.is_some() && l.unwrap().context_num_unread == 0 {
            rest.push(id)
        } else {
            rest
        }
    }
}

/// Whether the contexts `ls` each belong to a known label, a different one.
pub open spec fn distinct_known_labels(ls: Seq<ConversationLabel>) -> bool {
    &&& forall|k: int| 0 <= k < ls.len() ==> (#[trigger] ls[k]).local_label_id.is_some()
    &&& forall|j: int, k: int|
        0 <= j < k < ls.len() ==> (#[trigger] ls[j]).local_label_id != (#[trigger] ls[k]).local_label_id
}

/// Whether the label ids of a message are distinct.
pub open spec fn distinct_ids(ids: Seq<(LocalLabelId, bool)>) -> bool {
    forall|j: int, k: int| 0 <= j < k < ids.len() ==> (#[trigger] ids[j]).0 != (#[trigger] ids[k]).0
}

proof fn lemma_label_with_local_id_index(ls: Seq<ConversationLabel>, id: LocalLabelId, k: int)
    requires
        distinct_known_labels(ls),
        0 <= k < ls.len(),
        ls[k].local_label_id == Some(id),
    ensures
        label_with_local_id(ls, id) == Some(ls[k]),
    decreases ls.len(),
{
    if k > 0 {
        let rest = ls.subrange(1, ls.len() as int);
        assert(ls[0].local_label_id != ls[k].local_label_id);
        assert(rest[k - 1] == ls[k]);
        assert forall|j: int, m: int| 0 <= j < m < rest.len() implies (#[trigger] rest[j]).local_label_id
            != (#[trigger] rest[m]).local_label_id by {
            assert(rest[j] == ls[j + 1] && rest[m] == ls[m + 1]);
        }
        assert forall|m: int| 0 <= m < rest.len() implies (#[trigger] rest[m]).local_label_id.is_some() by {
            assert(rest[m] == ls[m + 1]);
        }
        lemma_label_with_local_id_index(rest, id, k - 1);
    }
}

proof fn lemma_label_with_local_id_none(ls: Seq<ConversationLabel>, id: LocalLabelId)
    requires
        forall|k: int| 0 <= k < ls.len() ==> (#[trigger] ls[k]).local_label_id != Some(id),
    ensures
        label_with_local_id(ls, id).is_none(),
    decreases ls.len(),
{
    if ls.len() > 0 {
        let rest = ls.subrange(1, ls.len() as int);
        assert forall|k: int| 0 <= k < rest.len() implies (#[trigger] rest[k]).local_label_id != Some(id) by {
            assert(rest[k] == ls[k + 1]);
        }
        lemma_label_with_local_id_none(rest, id);
    }
}

impl Conversation {
    /// What syncing the messages of the conversation with the local id
    /// `local_conversation_id` has to do, given the stored conversation and how
    /// many of its messages are known to the server: a missing conversation
    /// cannot be synced; one never synced is fetched (which takes a remote
    /// id, and a connection: offline it is the network error "No
    /// connection"); one whose message count differs is synced again when
    /// that is allowed; else nothing is to do.
    pub fn messages_sync_plan(
        local_conversation_id: LocalConversationId,
        conversation: Option<&Conversation>,
        extra_sync_allowed: bool,
        total_message_count: u64,
        os_offline: bool,
    ) -> (r: Result<ConversationSyncPlan, AppError>)
        ensures
            conversation.is_none() ==> r == Err::<ConversationSyncPlan, AppError>(
                AppError::ConversationNotFound(local_conversation_id),
            ),
            conversation.is_some() ==> {
                let c = *conversation.unwrap();
                if !c.has_messages {
                    match c.remote_id {
                        None => r == Err::<ConversationSyncPlan, AppError>(
                            AppError::ConversationHasNoRemoteId(local_conversation_id),
                        ),
                        Some(rid) => if os_offline {
                            r matches Err(AppError::Api(e)) && e.network_failure && e.message@
                                == "No connection"@
                        } else {
                            r == Ok::<ConversationSyncPlan, AppError>(
                                ConversationSyncPlan::FetchMessages(rid),
                            )
                        },
                    }
                } else if extra_sync_allowed && total_message_count != c.num_messages {
                    r == Ok::<ConversationSyncPlan, AppError>(ConversationSyncPlan::Resync)
                } else {
                    r == Ok::<ConversationSyncPlan, AppError>(ConversationSyncPlan::AlreadySynced)
                }
            },
    {
        let conversation = match conversation {
            Some(c) => c,
            None => {
                return Err(AppError::ConversationNotFound(local_conversation_id));
            },
        };
        let should_sync_all_messages = extra_sync_allowed && total_message_count
            != conversation.num_messages;
        if !conversation.has_messages {
            match &conversation.remote_id {
                None => Err(AppError::ConversationHasNoRemoteId(local_conversation_id)),
                Some(rid) => {
                    if os_offline {
                        return Err(
                            AppError::Api(
                                ApiServiceError {
                                    network_failure: true,
                                    message: string_from_chars(&chars_of("No connection")),
                                },
                            ),
                        );
                    }
                    Ok(ConversationSyncPlan::FetchMessages(rid.clone()))
                },
            }
        } else if should_sync_all_messages {
            Ok(ConversationSyncPlan::Resync)
        } else {
            Ok(ConversationSyncPlan::AlreadySynced)
        }
    }

    /// What syncing the conversation with the local id `local_conversation_id`
    /// from a push notification starts with, given the stored conversation and
    /// whether the device is offline: a missing conversation cannot be synced,
    /// nor one without a remote id, and nothing is fetched while offline;
    /// else the conversation with the returned remote id is fetched.
    pub fn push_sync_plan(
        local_conversation_id: LocalConversationId,
        conversation: Option<&Conversation>,
        os_offline: bool,
    ) -> (r: Result<String, AppError>)
        ensures
            conversation.is_none() ==> r == Err::<String, AppError>(
                AppError::ConversationNotFound(local_conversation_id),
            ),
            conversation.is_some() && conversation.unwrap().remote_id.is_none() ==> r == Err::<
                String,
                AppError,
            >(AppError::ConversationHasNoRemoteId(local_conversation_id)),
            conversation.is_some() && conversation.unwrap().remote_id.is_some() && os_offline
                ==> (r matches Err(AppError::Api(e)) && e.network_failure && e.message@
                == "No connection"@),
            conversation.is_some() && conversation.unwrap().remote_id.is_some() && !os_offline
                ==> r == Ok::<String, AppError>(conversation.unwrap().remote_id.unwrap()),
    {
        let conversation = match conversation {
            Some(c) => c,
            None => {
                return Err(AppError::ConversationNotFound(local_conversation_id));
            },
        };
        let rid = match &conversation.remote_id {
            Some(rid) => rid,
            None => {
                return Err(AppError::ConversationHasNoRemoteId(local_conversation_id));
            },
        };
        if os_offline {
            return Err(
                AppError::Api(
                    ApiServiceError {
                        network_failure: true,
                        message: string_from_chars(&chars_of("No connection")),
                    },
                ),
            );
        }
        Ok(rid.clone())
    }

    /// The error of a failed fetch of the conversation with the remote id
    /// `rid`: the server not knowing the conversation, or else the request's
    /// own error.
    pub fn fetch_error(rid: &String, conversation_does_not_exist: bool, error: AppError) -> (r: AppError)
        ensures
            r == if conversation_does_not_exist {
                AppError::ConversationDoesNotExistOnServer(*rid)
            } else {
                error
            },
    {
        if conversation_does_not_exist {
            AppError::ConversationDoesNotExistOnServer(rid.clone())
        } else {
            error
        }
    }

    /// The conversation once its messages were fetched: a known conversation
    /// is kept and marked as having its messages; a placeholder is replaced by
    /// the fetched conversation under the same local id.
    pub fn with_synced_messages(self, fetched: Conversation) -> (r: Conversation)
        ensures
            self.is_known ==> r == (Conversation { has_messages: true, ..self }),
            !self.is_known ==> r == (Conversation {
                local_id: self.local_id,
                has_messages: true,
                ..fetched
            }),
    {
        if self.is_known {
            Conversation { has_messages: true, ..self }
        } else {
            Conversation { local_id: self.local_id, has_messages: true, ..fetched }
        }
    }

    /// The conversation after syncing it again from the server: when the
    /// server's version differs it replaces the stored one (under the same
    /// local id, known and with its messages), else the stored one stays.
    pub fn resynced(self, fetched: Conversation, differs: bool) -> (r: Conversation)
        ensures
            differs ==> r == (Conversation {
                local_id: self.local_id,
                has_messages: true,
                is_known: true,
                ..fetched
            }),
            !differs ==> r == self,
    {
        if differs {
            Conversation { local_id: self.local_id, has_messages: true, is_known: true, ..fetched }
        } else {
            self
        }
    }

    /// The labelling action's plan: label when there is anything to label,
    /// archive when asked to, both (the move after the labelling) or nothing.
    pub fn label_as_plan(has_labels_to_apply: bool, must_archive: bool) -> (r: LabelAsPlan)
        ensures
            r == match (has_labels_to_apply, must_archive) {
                (false, false) => LabelAsPlan::Noop,
                (true, false) => LabelAsPlan::LabelOnly,
                (false, true) => LabelAsPlan::MoveOnly,
                (true, true) => LabelAsPlan::LabelThenMove,
            },
    {
        match (has_labels_to_apply, must_archive) {
            (false, false) => LabelAsPlan::Noop,
            (true, false) => LabelAsPlan::LabelOnly,
            (false, true) => LabelAsPlan::MoveOnly,
            (true, true) => LabelAsPlan::LabelThenMove,
        }
    }

    /// The labels the given conversations currently have, as pairs.
    pub fn label_pairs(cartesian: &Vec<ConversationLabel>) -> (r: Vec<LabelPair>)
        ensures
            r@ == label_pairs_of(cartesian@),
    {
        let mut out: Vec<LabelPair> = Vec::new();
        let mut i: usize = 0;
        while i < cartesian.len()
            invariant
                i <= cartesian@.len(),
                out@ == label_pairs_of(cartesian@.take(i as int)),
            decreases cartesian.len() - i,
        {
            proof {
                lemma_take_step_labels(cartesian@, i as int);
            }
            let l = &cartesian[i];
            match (l.local_label_id, l.local_conversation_id) {
                (Some(label), Some(id)) => {
                    out.push(LabelPair { label, id });
                },
                _ => {},
            }
            i = i + 1;
        }
        proof {
            assert(cartesian@.take(cartesian@.len() as int) =~= cartesian@);
        }
        out
    }

    /// Whether marking the conversation as unread under the label has
    /// anything to do: not when it already holds an unread message there.
    pub fn needs_unread_mark(&self, local_label_id: LocalLabelId) -> (r: bool)
        ensures
            r == !(label_with_local_id(self.labels@, local_label_id).is_some()
                && label_with_local_id(self.labels@, local_label_id).unwrap().context_num_unread
                != 0),
    {
        match self.label(local_label_id) {
            Some(l) => l.context_num_unread == 0,
            None => true,
        }
    }

    /// Marks as unread, under the label, a conversation none of whose
    /// messages is known: its context under the label (if any) and the
    /// conversation itself gain an unread message. Returns whether the label's
    /// unread conversation counter has to go up, which it does when the
    /// context had none.
    pub fn mark_unread_without_messages(&mut self, local_label_id: LocalLabelId) -> (r: bool)
        requires
            distinct_known_labels(old(self).labels@),
            old(self).num_unread < u64::MAX,
            forall|k: int|
                0 <= k < old(self).labels@.len() ==> (#[trigger] old(self).labels@[k]).context_num_unread
                    < u64::MAX,
        ensures
            final(self).num_unread == old(self).num_unread + 1,
            final(self).labels@.len() == old(self).labels@.len(),
            r == (label_with_local_id(old(self).labels@, local_label_id).is_some()
                && label_with_local_id(old(self).labels@, local_label_id).unwrap().context_num_unread
                == 0),
            forall|k: int|
                0 <= k < final(self).labels@.len() ==> #[trigger] final(self).labels@[k] == if old(
                    self,
                ).labels@[k].local_label_id == Some(local_label_id) {
                    ConversationLabel {
                        context_num_unread: (old(self).labels@[k].context_num_unread + 1) as u64,
                        ..old(self).labels@[k]
                    }
                } else {
                    old(self).labels@[k]
                },
            *final(self) == (Conversation {
                num_unread: final(self).num_unread,
                labels: final(self).labels,
                ..*old(self)
            }),
    {
        let ghost before = self.labels@;
        let mut should_update = false;
        let mut i: usize = 0;
        while i < self.labels.len()
            invariant
                i <= self.labels@.len(),
                self.labels@.len() == before.len(),
                *self == (Conversation { labels: self.labels, ..*old(self) }),
                before == old(self).labels@,
                distinct_known_labels(before),
                forall|k: int| 0 <= k < before.len() ==> (#[trigger] before[k]).context_num_unread < u64::MAX,
                forall|k: int| i <= k < before.len() ==> #[trigger] self.labels@[k] == before[k],
                forall|k: int|
                    0 <= k < i ==> #[trigger] self.labels@[k] == if before[k].local_label_id
                        == Some(local_label_id) {
                        ConversationLabel {
                            context_num_unread: (before[k].context_num_unread + 1) as u64,
                            ..before[k]
                        }
                    } else {
                        before[k]
                    },
                should_update == exists|k: int|
                    0 <= k < i && (#[trigger] before[k]).local_label_id == Some(local_label_id)
                        && before[k].context_num_unread == 0,
            decreases self.labels.len() - i,
        {
            if self.labels[i].local_label_id == Some(local_label_id) {
                let l = self.labels[i].clone();
                if l.context_num_unread == 0 {
                    should_update = true;
                }
                let updated = ConversationLabel { context_num_unread: l.context_num_unread + 1, ..l };
                self.labels.set(i, updated);
            }
            i = i + 1;
        }
        proof {
            if exists|k: int| 0 <= k < before.len() && (#[trigger] before[k]).local_label_id == Some(local_label_id) {
                let k = choose|k: int| 0 <= k < before.len() && (#[trigger] before[k]).local_label_id == Some(local_label_id);
                lemma_label_with_local_id_index(before, local_label_id, k);
                assert forall|m: int| 0 <= m < before.len() && (#[trigger] before[m]).local_label_id == Some(local_label_id) implies m == k by {
                    if m != k {
                        if m < k {
                            assert(before[m].local_label_id != before[k].local_label_id);
                        } else {
                            assert(before[k].local_label_id != before[m].local_label_id);
                        }
                    }
                }
            } else {
                lemma_label_with_local_id_none(before, local_label_id);
            }
        }
        self.num_unread = self.num_unread + 1;
        should_update
    }

    /// Marks a message of the conversation as unread, given the message's
    /// labels (each with whether the label has a conversation counter): under
    /// each label with a counter the conversation's context gains an unread
    /// message, and so does the conversation. Returns the labels whose unread
    /// conversation counter has to go up: those under which the conversation
    /// had no unread message yet.
    pub fn mark_message_unread(&mut self, message_labels: &Vec<(LocalLabelId, bool)>) -> (r: Vec<
        LocalLabelId,
    >)
        requires
            distinct_known_labels(old(self).labels@),
            distinct_ids(message_labels@),
            old(self).num_unread < u64::MAX,
            forall|k: int|
                0 <= k < old(self).labels@.len() ==> (#[trigger] old(self).labels@[k]).context_num_unread
                    < u64::MAX,
        ensures
            final(self).num_unread == old(self).num_unread + 1,
            final(self).labels@.len() == old(self).labels@.len(),
            forall|k: int|
                0 <= k < final(self).labels@.len() ==> #[trigger] final(self).labels@[k] == if has_counted_label(
                    message_labels@,
                    old(self).labels@[k].local_label_id.unwrap(),
                ) {
                    ConversationLabel {
                        context_num_unread: (old(self).labels@[k].context_num_unread + 1) as u64,
                        ..old(self).labels@[k]
                    }
                } else {
                    old(self).labels@[k]
                },
            r@ == newly_unread_labels(old(self).labels@, message_labels@),
            *final(self) == (Conversation {
                num_unread: final(self).num_unread,
                labels: final(self).labels,
                ..*old(self)
            }),
    {
        let ghost before = self.labels@;
        let mut bumped: Vec<LocalLabelId> = Vec::new();
        let mut i: usize = 0;
        while i < message_labels.len()
            invariant
                i <= message_labels@.len(),
                self.labels@.len() == before.len(),
                *self == (Conversation { labels: self.labels, ..*old(self) }),
                before == old(self).labels@,
                distinct_known_labels(before),
                distinct_ids(message_labels@),
                forall|k: int| 0 <= k < before.len() ==> (#[trigger] before[k]).context_num_unread < u64::MAX,
                forall|k: int|
                    0 <= k < before.len() ==> #[trigger] self.labels@[k] == if has_counted_label(
                        message_labels@.take(i as int),
                        before[k].local_label_id.unwrap(),
                    ) {
                        ConversationLabel {
                            context_num_unread: (before[k].context_num_unread + 1) as u64,
                            ..before[k]
                        }
                    } else {
                        before[k]
                    },
                bumped@ == newly_unread_labels(before, message_labels@.take(i as int)),
            decreases message_labels.len() - i,
        {
            let (id, counted) = message_labels[i];
            let ghost prefix = message_labels@.take(i as int);
            proof {
                assert(message_labels@.take(i + 1).drop_last() =~= prefix);
                assert(message_labels@.take(i + 1).last() == (id, counted));
                assert forall|lid: LocalLabelId| lid != id implies (has_counted_label(
                    message_labels@.take(i + 1),
                    lid,
                ) == has_counted_label(prefix, lid)) by {
                    if has_counted_label(message_labels@.take(i + 1), lid) {
                        let j = choose|j: int| 0 <= j < i + 1 && #[trigger] message_labels@.take(i + 1)[j].0 == lid
                            && message_labels@.take(i + 1)[j].1;
                        assert(prefix[j] == message_labels@.take(i + 1)[j]);
                    }
                    if has_counted_label(prefix, lid) {
                        let j = choose|j: int| 0 <= j < i && #[trigger] prefix[j].0 == lid && prefix[j].1;
                        assert(message_labels@.take(i + 1)[j] == prefix[j]);
                    }
                }
                assert(!has_counted_label(prefix, id)) by {
                    if has_counted_label(prefix, id) {
                        let j = choose|j: int| 0 <= j < i && #[trigger] prefix[j].0 == id && prefix[j].1;
                        assert(message_labels@[j].0 != message_labels@[i as int].0);
                    }
                }
                assert(counted ==> has_counted_label(message_labels@.take(i + 1), id)) by {
                    if counted {
                        assert(message_labels@.take(i + 1)[i as int].0 == id);
                    }
                }
                assert(!counted ==> (has_counted_label(message_labels@.take(i + 1), id)
                    == has_counted_label(prefix, id))) by {
                    if !counted && has_counted_label(message_labels@.take(i + 1), id) {
                        let j = choose|j: int| 0 <= j < i + 1 && #[trigger] message_labels@.take(i + 1)[j].0 == id
                            && message_labels@.take(i + 1)[j].1;
                        assert(j != i);
                        assert(prefix[j] == message_labels@.take(i + 1)[j]);
                    }
                }
            }
            if counted {
                let mut k: usize = 0;
                let mut found: Option<usize> = None;
                while k < self.labels.len()
                    invariant
                        k <= self.labels@.len(),
                        self.labels@.len() == before.len(),
                        found.is_none() ==> forall|m: int|
                            0 <= m < k ==> (#[trigger] self.labels@[m]).local_label_id != Some(id),
                        found.is_some() ==> found.unwrap() < self.labels@.len()
                            && self.labels@[found.unwrap() as int].local_label_id == Some(id),
                    decreases self.labels.len() - k,
                {
                    if found.is_none() && self.labels[k].local_label_id == Some(id) {
                        found = Some(k);
                    }
                    k = k + 1;
                }
                match found {
                    Some(k) => {
                        let l = self.labels[k].clone();
                        proof {
                            assert(before[k as int].local_label_id == Some(id));
                            assert(l == before[k as int]);
                            lemma_label_with_local_id_index(before, id, k as int);
                        }
                        if l.context_num_unread == 0 {
                            bumped.push(id);
                        }
                        let updated = ConversationLabel {
                            context_num_unread: l.context_num_unread + 1,
                            ..l
                        };
                        self.labels.set(k, updated);
                        proof {
                            assert forall|m: int| 0 <= m < before.len() && m != k implies before[m].local_label_id
                                != Some(id) by {
                                if m < k {
                                    assert(before[m].local_label_id != before[k as int].local_label_id);
                                } else {
                                    assert(before[k as int].local_label_id != before[m].local_label_id);
                                }
                            }
                        }
                    },
                    None => {
                        proof {
                            assert forall|m: int| 0 <= m < before.len() implies (#[trigger] before[m]).local_label_id
                                != Some(id) by {
                                assert(self.labels@[m].local_label_id == before[m].local_label_id);
                            }
                            lemma_label_with_local_id_none(before, id);
                        }
                    },
                }
            }
            i = i + 1;
        }
        proof {
            assert(message_labels@.take(message_labels@.len() as int) =~= message_labels@);
        }
        self.num_unread = self.num_unread + 1;
        bumped
    }

    /// The snooze time of the conversation: that of its context under the
    /// snoozed label, if it has one.
    pub fn snoozed_until_of(labels: &Vec<ConversationLabel>) -> (r: Option<UnixTimestamp>)
        ensures
            r == match label_with_remote_id(labels@, system_remote_id(SystemLabelId::Snoozed)) {
                Some(l) => Some(l.context_snooze_time),
                None => None::<UnixTimestamp>,
            },
    {
        let snoozed = SystemLabelId::Snoozed.as_str();
        match find_by_remote_id(labels, snoozed) {
            Some(i) => Some(labels[i].context_snooze_time),
            None => None,
        }
    }

    /// The remote ids of the labels the conversation is under; contexts of
    /// other labels are dropped when it is saved.
    pub fn remote_label_ids(&self) -> (r: Vec<String>)
        ensures
            r@ == self.labels@.filter(|l: ConversationLabel| l.remote_label_id.is_some()).map_values(
                |l: ConversationLabel| l.remote_label_id.unwrap(),
            ),
    {
        let mut out: Vec<String> = Vec::new();
        let mut i: usize = 0;
        while i < self.labels.len()
            invariant
                i <= self.labels@.len(),
                out@ == self.labels@.take(i as int).filter(
                    |l: ConversationLabel| l.remote_label_id.is_some(),
                ).map_values(|l: ConversationLabel| l.remote_label_id.unwrap()),
            decreases self.labels.len() - i,
        {
            let l = self.labels[i].clone();
            let ghost pred = |l: ConversationLabel| l.remote_label_id.is_some();
            let ghost f = |l: ConversationLabel| l.remote_label_id.unwrap();
            proof {
                assert(self.labels@.take(i + 1) =~= self.labels@.take(i as int).push(l));
                self.labels@.take(i as int).lemma_filter_push(l, pred);
                let prefix = self.labels@.take(i as int).filter(pred);
                assert(prefix.push(l).map_values(f) =~= prefix.map_values(f).push(f(l)));
            }
            match l.remote_label_id {
                Some(id) => {
                    out.push(id);
                },
                None => {},
            }
            i = i + 1;
        }
        proof {
            assert(self.labels@.take(self.labels@.len() as int) =~= self.labels@);
        }
        out
    }

    /// After the conversation was saved its contexts belong to it under its
    /// local id, and its snooze time is that of its context under the snoozed
    /// label.
    pub fn after_save(&mut self)
        ensures
            final(self).labels@.len() == old(self).labels@.len(),
            forall|k: int|
                0 <= k < final(self).labels@.len() ==> #[trigger] final(self).labels@[k] == (
                ConversationLabel { local_conversation_id: old(self).local_id, ..old(self).labels@[k] }),
            final(self).snoozed_until == match label_with_remote_id(
                old(self).labels@,
                system_remote_id(SystemLabelId::Snoozed),
            ) {
                Some(l) => Some(l.context_snooze_time),
                None => None::<UnixTimestamp>,
            },
            *final(self) == (Conversation {
                labels: final(self).labels,
                snoozed_until: final(self).snoozed_until,
                ..*old(self)
            }),
    {
        let ghost before = self.labels@;
        let mut labels: Vec<ConversationLabel> = Vec::new();
        let mut i: usize = 0;
        while i < self.labels.len()
            invariant
                i <= self.labels@.len(),
                self.labels@ == before,
                labels@.len() == i,
                forall|k: int| 0 <= k < i ==> #[trigger] labels@[k] == (ConversationLabel {
                    local_conversation_id: self.local_id,
                    ..before[k]
                }),
            decreases self.labels.len() - i,
        {
            let l = self.labels[i].clone();
            labels.push(ConversationLabel { local_conversation_id: self.local_id, ..l });
            i = i + 1;
        }
        let snoozed_until = Self::snoozed_until_of(&self.labels);
        proof {
            lemma_same_remote_label(before, labels@, system_remote_id(SystemLabelId::Snoozed));
        }
        self.labels = labels;
        self.snoozed_until = snoozed_until;
    }

    /// Before the conversation is saved it takes over the local id of the
    /// stored conversation with its remote id, and keeps that conversation's
    /// messages synced.
    pub fn before_save(&mut self, existing: Option<&Conversation>)
        ensures
            *final(self) == match existing {
                Some(e) => Conversation {
                    local_id: e.local_id,
                    has_messages: old(self).has_messages || e.has_messages,
                    ..*old(self)
                },
                None => *old(self),
            },
    {
        match existing {
            Some(e) => {
                self.local_id = e.local_id;
                self.has_messages = self.has_messages || e.has_messages;
            },
            None => {},
        }
    }

    /// Validates a snooze (or unsnooze) from the label `label`, given as
    /// whether it is a place to snooze from and its name: the label has to
    /// exist and be such a place, and a snooze has to end after `now`.
    pub fn validate_snooze(
        local_label_id: LocalLabelId,
        label: Option<(bool, String)>,
        snooze_until: Option<UnixTimestamp>,
        now: UnixTimestamp,
    ) -> (r: Result<(), AppError>)
        ensures
            label.is_none() ==> r == Err::<(), AppError>(AppError::LabelNotFound(local_label_id)),
            label.is_some() && !label.unwrap().0 ==> r == Err::<(), AppError>(
                AppError::InvalidSnoozeLocation(label.unwrap().1),
            ),
            label.is_some() && label.unwrap().0 ==> r == if snooze_until.is_some()
                && snooze_until.unwrap() <= now {
                Err::<(), AppError>(AppError::SnoozeTimeInThePast)
            } else {
                Ok::<(), AppError>(())
            },
    {
        match label {
            None => Err(AppError::LabelNotFound(local_label_id)),
            Some((is_snooze_location, name)) => {
                if !is_snooze_location {
                    return Err(AppError::InvalidSnoozeLocation(name));
                }
                match snooze_until {
                    Some(t) => {
                        if t <= now {
                            Err(AppError::SnoozeTimeInThePast)
                        } else {
                            Ok(())
                        }
                    },
                    None => Ok(()),
                }
            },
        }
    }
}

/// What becomes of a conversation's context under a label after some of its
/// messages lost the label.
#[derive(Clone, Debug)]
pub enum ContextAfterRemoval {
    /// The context is stored with these new statistics.
    Update(ConversationLabel),
    /// The context is removed: no message of the conversation is left under
    /// the label.
    Delete,
    /// There was no context to change.
    Unchanged,
}

/// The counters of a label after messages lost it: `removed` fewer messages,
/// `unread_removed` fewer unread ones, stopping at zero.
pub open spec fn counter_after_removing(c: MessageCounter, removed: u64, unread_removed: u64) -> MessageCounter {
    MessageCounter { total: sat_sub(c.total, removed), unread: sat_sub(c.unread, unread_removed), ..c }
}

impl MessageCounter {
    /// The label was removed from `removed` messages, `unread_removed` of
    /// them unread.
    pub fn remove_messages(&mut self, removed: u64, unread_removed: u64)
        ensures
            *final(self) == counter_after_removing(*old(self), removed, unread_removed),
    {
        self.unread = self.unread.saturating_sub(unread_removed);
        self.total = self.total.saturating_sub(removed);
    }
}

impl Conversation {
    /// A conversation lost the label: the label's conversation counter loses
    /// it (and an unread one when its context held unread messages), when it
    /// had a context under the label (`removed_context_unread` being that
    /// context's unread count).
    pub fn remove_label_update_counter(
        conv_counter: &mut ConversationCounters,
        removed_context_unread: Option<u64>,
    )
        ensures
            *final(conv_counter) == match removed_context_unread {
                Some(unread) => (ConversationCounters {
                    total: sat_sub(old(conv_counter).total, 1),
                    unread: if unread > 0 {
                        sat_sub(old(conv_counter).unread, 1)
                    } else {
                        old(conv_counter).unread
                    },
                    ..*old(conv_counter)
                }),
                None => *old(conv_counter),
            },
    {
        match removed_context_unread {
            Some(num_unread) => {
                if num_unread > 0 {
                    conv_counter.unread = conv_counter.unread.saturating_sub(1);
                }
                conv_counter.total = conv_counter.total.saturating_sub(1);
            },
            None => {},
        }
    }

    /// What becomes of a conversation's context under a label after some of
    /// its messages lost the label, given the statistics of its messages
    /// still under the label, its stored context, and how many unread
    /// messages the whole removal took from the label (`unread_removed`): with both, the context takes the new statistics, and the
    /// label's counter loses an unread conversation when the last unread
    /// message left; without remaining messages, a stored context is removed
    /// and the counter loses the conversation (and an unread one when unread
    /// messages left); without a stored context nothing changes.
    pub fn context_after_label_removal(
        stats: Option<ConversationMessageLabelStats>,
        context: Option<ConversationLabel>,
        unread_removed: u64,
        conv_counter: &mut ConversationCounters,
    ) -> (r: ContextAfterRemoval)
        requires
            stats.is_some() && context.is_some() ==> stats.unwrap().count != 0,
        ensures
            match (stats, context) {
                (Some(s), Some(l)) => {
                    &&& r == ContextAfterRemoval::Update(
                        (ConversationLabel {
                            context_num_messages: s.count,
                            context_time: s.time,
                            context_snooze_time: s.snooze_time,
                            context_expiration_time: s.expiration_time,
                            context_size: s.size,
                            context_num_attachments: s.num_attachments as u64,
                            context_num_unread: s.unread,
                            ..l
                        }),
                    )
                    &&& *final(conv_counter) == if unread_removed != 0 && s.unread == 0 {
                        (ConversationCounters {
                            unread: sat_sub(old(conv_counter).unread, 1),
                            ..*old(conv_counter)
                        })
                    } else {
                        *old(conv_counter)
                    }
                },
                (_, Some(_)) => {
                    &&& r is Delete
                    &&& *final(conv_counter) == (ConversationCounters {
                        total: sat_sub(old(conv_counter).total, 1),
                        unread: if unread_removed != 0 {
                            sat_sub(old(conv_counter).unread, 1)
                        } else {
                            old(conv_counter).unread
                        },
                        ..*old(conv_counter)
                    })
                },
                (_, None) => r is Unchanged && *final(conv_counter) == *old(conv_counter),
            },
    {
        match (stats, context) {
            (Some(stats), Some(mut conversation_label)) => {
                conversation_label.context_num_messages = stats.count;
                conversation_label.context_time = stats.time;
                conversation_label.context_snooze_time = stats.snooze_time;
                conversation_label.context_expiration_time = stats.expiration_time;
                conversation_label.context_size = stats.size;
                conversation_label.context_num_attachments = stats.num_attachments as u64;
                conversation_label.context_num_unread = stats.unread;
                if unread_removed != 0 && conversation_label.context_num_unread == 0 {
                    conv_counter.unread = conv_counter.unread.saturating_sub(1);
                }
                ContextAfterRemoval::Update(conversation_label)
            },
            (_, Some(_)) => {
                conv_counter.total = conv_counter.total.saturating_sub(1);
                if unread_removed != 0 {
                    conv_counter.unread = conv_counter.unread.saturating_sub(1);
                }
                ContextAfterRemoval::Delete
            },
            (_, None) => ContextAfterRemoval::Unchanged,
        }
    }
}

impl ConversationLabel {
    /// A message of the conversation under this label was read (or marked
    /// unread). Returns whether the label's unread conversation counter
    /// changes: when the last unread message was read, or the first one
    /// became unread.
    pub fn apply_read_state(&mut self, mark_read: bool) -> (r: bool)
        requires
            !mark_read ==> old(self).context_num_unread < u64::MAX,
        ensures
            *final(self) == (ConversationLabel {
                context_num_unread: if mark_read {
                    sat_sub(old(self).context_num_unread, 1)
                } else {
                    (old(self).context_num_unread + 1) as u64
                },
                ..*old(self)
            }),
            r == if mark_read {
                final(self).context_num_unread == 0
            } else {
                final(self).context_num_unread == 1
            },
    {
        if mark_read {
            self.context_num_unread = self.context_num_unread.saturating_sub(1);
            self.context_num_unread == 0
        } else {
            self.context_num_unread = self.context_num_unread + 1;
            self.context_num_unread == 1
        }
    }
}

impl Conversation {
    /// `count` of the conversation's messages were read (or marked unread);
    /// reading also ends the conversation's snooze reminder.
    pub fn apply_read_state(&mut self, mark_read: bool, count: u64)
        requires
            !mark_read ==> old(self).num_unread + count <= u64::MAX,
        ensures
            *final(self) == if mark_read {
                (Conversation {
                    display_snooze_reminder: false,
                    num_unread: sat_sub(old(self).num_unread, count),
                    ..*old(self)
                })
            } else {
                (Conversation { num_unread: (old(self).num_unread + count) as u64, ..*old(self) })
            },
    {
        if mark_read {
            self.display_snooze_reminder = false;
            self.num_unread = self.num_unread.saturating_sub(count);
        } else {
            self.num_unread = self.num_unread + count;
        }
    }
}

impl ConversationCounters {
    /// `count` conversations of the label became read (or unread).
    pub fn apply_read_changes(&mut self, mark_read: bool, count: u64)
        requires
            !mark_read ==> old(self).unread + count <= u64::MAX,
        ensures
            *final(self) == (ConversationCounters {
                unread: if mark_read {
                    sat_sub(old(self).unread, count)
                } else {
                    (old(self).unread + count) as u64
                },
                ..*old(self)
            }),
    {
        if mark_read {
            self.unread = self.unread.saturating_sub(count);
        } else {
            self.unread = self.unread + count;
        }
    }
}

impl MessageCounter {
    /// A message of the label became read (or unread).
    pub fn apply_read_state(&mut self, mark_read: bool)
        requires
            !mark_read ==> old(self).unread < u64::MAX,
        ensures
            *final(self) == (MessageCounter {
                unread: if mark_read {
                    sat_sub(old(self).unread, 1)
                } else {
                    (old(self).unread + 1) as u64
                },
                ..*old(self)
            }),
    {
        if mark_read {
            self.unread = self.unread.saturating_sub(1);
        } else {
            self.unread = self.unread + 1;
        }
    }
}

/// Marking a message unread and then read again gives its conversation's
/// context under a label its unread count back, and both steps agree on
/// whether the label's unread conversation counter changes.
pub proof fn lemma_unread_then_read_restores_context(before: ConversationLabel)
    requires
        before.context_num_unread < u64::MAX,
    ensures
        ({
            let unread = ConversationLabel {
                context_num_unread: (before.context_num_unread + 1) as u64,
                ..before
            };
            let read = ConversationLabel {
                context_num_unread: sat_sub(unread.context_num_unread, 1),
                ..unread
            };
            &&& read == before
            &&& (unread.context_num_unread == 1) == (read.context_num_unread == 0)
        }),
{
}

/// The totals of a conversation once the messages described by `s` are soft
/// deleted: stopping at zero.
pub open spec fn totals_after_delete(c: Conversation, s: MessageLabelStats) -> (u64, u64, u64, u64) {
    (
        sat_sub(c.num_messages, s.count),
        sat_sub(c.num_unread, s.unread_count),
        sat_sub(c.num_attachments, s.attachment_count),
        sat_sub(c.size, s.size),
    )
}

impl Conversation {
    /// Whether the label with the local id `label_id` is "all mail" (whose
    /// local id is `all_mail_id`, when known).
    pub fn is_all_mail(all_mail_id: Option<LocalLabelId>, label_id: LocalLabelId) -> (r: bool)
        ensures
            r == (all_mail_id == Some(label_id)),
    {
        match all_mail_id {
            Some(id) => id == label_id,
            None => false,
        }
    }

    /// Messages of the conversation described by `stats` were soft deleted:
    /// its totals go down (stopping at zero), and it is deleted once none of
    /// its messages is left (`undeleted_messages`).
    pub fn mark_delete_update_stats(&mut self, undeleted_messages: u64, stats: Option<&MessageLabelStats>)
        ensures
            final(self).deleted == (undeleted_messages == 0 || old(self).deleted),
            stats.is_some() ==> totals_after_delete(*old(self), *stats.unwrap()) == (
                final(self).num_messages,
                final(self).num_unread,
                final(self).num_attachments,
                final(self).size,
            ),
            stats.is_none() ==> final(self).num_messages == old(self).num_messages,
            stats.is_none() ==> final(self).num_unread == old(self).num_unread,
            stats.is_none() ==> final(self).num_attachments == old(self).num_attachments,
            stats.is_none() ==> final(self).size == old(self).size,
            *final(self) == (Conversation {
                deleted: final(self).deleted,
                num_messages: final(self).num_messages,
                num_unread: final(self).num_unread,
                num_attachments: final(self).num_attachments,
                size: final(self).size,
                ..*old(self)
            }),
    {
        if undeleted_messages == 0 {
            self.deleted = true;
        }
        match stats {
            Some(stats) => {
                self.num_messages = self.num_messages.saturating_sub(stats.count);
                self.num_unread = self.num_unread.saturating_sub(stats.unread_count);
                self.num_attachments = self.num_attachments.saturating_sub(stats.attachment_count);
                self.size = self.size.saturating_sub(stats.size);
            },
            None => {},
        }
    }

    /// Messages of the conversation described by `stats` were restored: its
    /// totals go up and it is no longer deleted.
    pub fn mark_undelete_update_stats(&mut self, stats: Option<&MessageLabelStats>)
        requires
            stats.is_some() ==> {
                let s = *stats.unwrap();
                &&& old(self).num_messages + s.count <= u64::MAX
                &&& old(self).num_unread + s.unread_count <= u64::MAX
                &&& old(self).num_attachments + s.attachment_count <= u64::MAX
                &&& old(self).size + s.size <= u64::MAX
            },
        ensures
            stats.is_none() ==> *final(self) == *old(self),
            stats.is_some() ==> {
                let s = *stats.unwrap();
                &&& final(self).num_messages == old(self).num_messages + s.count
                &&& final(self).num_unread == old(self).num_unread + s.unread_count
                &&& final(self).num_attachments == old(self).num_attachments + s.attachment_count
                &&& final(self).size == old(self).size + s.size
                &&& *final(self) == (Conversation {
                    deleted: false,
                    num_messages: final(self).num_messages,
                    num_unread: final(self).num_unread,
                    num_attachments: final(self).num_attachments,
                    size: final(self).size,
                    ..*old(self)
                })
            },
    {
        match stats {
            Some(stats) => {
                self.num_messages = self.num_messages + stats.count;
                self.num_unread = self.num_unread + stats.unread_count;
                self.num_attachments = self.num_attachments + stats.attachment_count;
                self.size = self.size + stats.size;
                self.deleted = false;
            },
            None => {},
        }
    }

    /// The conversation is deleted in "all mail": it is deleted and holds
    /// nothing any more.
    pub fn mark_deleted_in_all_mail(&mut self)
        ensures
            *final(self) == (Conversation {
                deleted: true,
                num_unread: 0,
                num_messages: 0,
                num_attachments: 0,
                size: 0,
                ..*old(self)
            }),
    {
        self.deleted = true;
        self.num_unread = 0;
        self.num_messages = 0;
        self.num_attachments = 0;
        self.size = 0;
    }

    /// The conversation's deleted messages are restored in "all mail": it is
    /// no longer deleted and gains their statistics.
    pub fn mark_undeleted_in_all_mail(&mut self, restored: &MessageLabelStats)
        requires
            old(self).num_messages + restored.count <= u64::MAX,
            old(self).num_unread + restored.unread_count <= u64::MAX,
            old(self).num_attachments + restored.attachment_count <= u64::MAX,
            old(self).size + restored.size <= u64::MAX,
        ensures
            *final(self) == (Conversation {
                deleted: false,
                num_messages: (old(self).num_messages + restored.count) as u64,
                num_unread: (old(self).num_unread + restored.unread_count) as u64,
                num_attachments: (old(self).num_attachments + restored.attachment_count) as u64,
                size: (old(self).size + restored.size) as u64,
                ..*old(self)
            }),
    {
        self.deleted = false;
        self.num_messages = self.num_messages + restored.count;
        self.num_unread = self.num_unread + restored.unread_count;
        self.num_attachments = self.num_attachments + restored.attachment_count;
        self.size = self.size + restored.size;
    }
}

/// Restoring the messages that a soft delete took from a conversation gives
/// it its totals back, and undeletes it, when the delete did not have to stop
/// at zero.
pub proof fn lemma_conversation_undelete_restores_delete(c: Conversation, s: MessageLabelStats)
    requires
        s.count <= c.num_messages,
        s.unread_count <= c.num_unread,
        s.attachment_count <= c.num_attachments,
        s.size <= c.size,
    ensures
        ({
            let (m, u, a, z) = totals_after_delete(c, s);
            &&& m + s.count == c.num_messages
            &&& u + s.unread_count == c.num_unread
            &&& a + s.attachment_count == c.num_attachments
            &&& z + s.size == c.size
        }),
{
}

} // verus!
