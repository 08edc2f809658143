//! Per-label counters of conversations and messages, and the per-label
//! statistics of a group of messages from which those counters are adjusted.

use vstd::prelude::*;
use std::collections::HashMap;
use crate::types::{LocalLabelId, ReadFilter};

verus! {

/// Number of items shown in a view with the given read filter.
pub open spec fn filtered_total(total: u64, unread: u64, filter: ReadFilter) -> u64 {
    match filter {
        ReadFilter::All => total,
        ReadFilter::Unread => unread,
        ReadFilter::Read => if unread <= total { (total - unread) as u64 } else { 0 },
    }
}

/// `a - b`, or 0 when `b` is larger.
pub open spec fn sat_sub(a: u64, b: u64) -> u64 {
    if b <= a { (a - b) as u64 } else { 0 }
}

/// Statistics of the messages of one label that are about to be (un)deleted.
#[derive(Clone, Copy, Debug, PartialEq, Eq, Structural)]
pub struct MessageLabelStats {
    pub unread_count: u64,
    pub count: u64,
    pub attachment_count: u64,
    pub size: u64,
}

/// Conversation counters that are related to particular label.
/// Allow the user to see how many conversations there are assigned to the label,
/// both unread count and total count.
#[derive(Clone, Copy, Debug, PartialEq, Eq, Structural)]
pub struct ConversationCounters {
    pub local_label_id: LocalLabelId,
    pub total: u64,
    pub unread: u64,
}

/// Alternative name under which the conversation counters are also known.
pub type ConversationCounter = ConversationCounters;

impl ConversationCounters {
    /// Counters of a label that holds nothing yet.
    pub fn new(local_label_id: LocalLabelId) -> (r: Self)
        ensures
            r == (ConversationCounters { local_label_id, total: 0, unread: 0 }),
    {
        Self { local_label_id, total: 0, unread: 0 }
    }

    /// Returns counters, first unread then total.
    pub fn counters(&self) -> (r: (u64, u64))
        ensures
            r == (self.unread, self.total),
    {
        (self.unread, self.total)
    }

    /// Returns number of conversations based on the filter: the total, the
    /// unread or the read ones.
    pub fn total(&self, unread: ReadFilter) -> (r: u64)
        ensures
            r == filtered_total(self.total, self.unread, unread),
    {
        match unread {
            ReadFilter::All => self.total,
            ReadFilter::Unread => self.unread,
            ReadFilter::Read => self.total.saturating_sub(self.unread),
        }
    }

    /// A conversation left the label: one conversation fewer, and one unread
    /// conversation fewer when the messages that left held an unread one.
    pub fn remove_conversation(&mut self, stats: Option<&MessageLabelStats>)
        ensures
            final(self).local_label_id == old(self).local_label_id,
            final(self).total == sat_sub(old(self).total, 1),
            final(self).unread == if stats.is_some() && stats.unwrap().unread_count > 0 {
                sat_sub(old(self).unread, 1)
            } else {
                old(self).unread
            },
    {
        self.total = self.total.saturating_sub(1);
        match stats {
            Some(s) => {
                if s.unread_count > 0 {
                    self.unread = self.unread.saturating_sub(1);
                }
            },
            None => {},
        }
    }

    /// A conversation (re)entered the label: one conversation more, and one
    /// unread conversation more when the messages that came back hold an
    /// unread one.
    pub fn add_conversation(&mut self, stats: Option<&MessageLabelStats>)
        requires
            old(self).total < u64::MAX,
            old(self).unread < u64::MAX,
        ensures
            final(self).local_label_id == old(self).local_label_id,
            final(self).total == old(self).total + 1,
            final(self).unread == if stats.is_some() && stats.unwrap().unread_count > 0 {
                old(self).unread + 1
            } else {
                old(self).unread as int
            },
    {
        self.total = self.total + 1;
        match stats {
            Some(s) => {
                if s.unread_count > 0 {
                    self.unread = self.unread + 1;
                }
            },
            None => {},
        }
    }
}

/// Message counters that are related to particular label.
#[derive(Clone, Copy, Debug, PartialEq, Eq, Structural)]
pub struct MessageCounter {
    pub local_label_id: LocalLabelId,
    pub total: u64,
    pub unread: u64,
}

/// Alternative name under which the message counters are also known.
pub type MessageCounters = MessageCounter;

impl MessageCounter {
    /// Counters of a label that holds nothing yet.
    pub fn new(local_label_id: LocalLabelId) -> (r: Self)
        ensures
            r == (MessageCounter { local_label_id, total: 0, unread: 0 }),
    {
        Self { local_label_id, total: 0, unread: 0 }
    }

    /// Returns counters, first unread then total.
    pub fn get(&self) -> (r: (u64, u64))
        ensures
            r == (self.unread, self.total),
    {
        (self.unread, self.total)
    }

    /// Returns number of messages based on the filter: the total, the unread
    /// or the read ones.
    pub fn total(&self, unread: ReadFilter) -> (r: u64)
        ensures
            r == filtered_total(self.total, self.unread, unread),
    {
        match unread {
            ReadFilter::All => self.total,
            ReadFilter::Unread => self.unread,
            ReadFilter::Read => self.total.saturating_sub(self.unread),
        }
    }

    /// The messages described by `stats` were soft deleted.
    pub fn apply_soft_delete(&mut self, stats: &MessageLabelStats)
        ensures
            final(self).local_label_id == old(self).local_label_id,
            final(self).total == sat_sub(old(self).total, stats.count),
            final(self).unread == sat_sub(old(self).unread, stats.unread_count),
    {
        self.total = self.total.saturating_sub(stats.count);
        self.unread = self.unread.saturating_sub(stats.unread_count);
    }

    /// The messages described by `stats` were restored from a soft delete.
    pub fn apply_soft_undelete(&mut self, stats: &MessageLabelStats)
        requires
            old(self).total + stats.count <= u64::MAX,
            old(self).unread + stats.unread_count <= u64::MAX,
        ensures
            final(self).local_label_id == old(self).local_label_id,
            final(self).total == old(self).total + stats.count,
            final(self).unread == old(self).unread + stats.unread_count,
    {
        self.total = self.total + stats.count;
        self.unread = self.unread + stats.unread_count;
    }
}

/// With any read filter, the read and the unread items make up all items
/// when no more items are unread than there are items.
pub proof fn lemma_read_and_unread_make_all(total: u64, unread: u64)
    requires
        unread <= total,
    ensures
        filtered_total(total, unread, ReadFilter::All) == filtered_total(
            total,
            unread,
            ReadFilter::Read,
        ) + filtered_total(total, unread, ReadFilter::Unread),
{
}

/// Restoring soft deleted messages gives the message counters back the values
/// they had before the delete, as long as the delete did not have to stop at
/// zero.
pub proof fn lemma_message_counter_undelete_restores(
    before: MessageCounter,
    deleted: MessageCounter,
    restored: MessageCounter,
    stats: MessageLabelStats,
)
    requires
        stats.count <= before.total,
        stats.unread_count <= before.unread,
        deleted.local_label_id == before.local_label_id,
        deleted.total == sat_sub(before.total, stats.count),
        deleted.unread == sat_sub(before.unread, stats.unread_count),
        restored.local_label_id == deleted.local_label_id,
        restored.total == deleted.total + stats.count,
        restored.unread == deleted.unread + stats.unread_count,
    ensures
        restored == before,
{
}

/// A conversation that leaves a label and comes back with the same messages
/// leaves the conversation counters as they were, as long as the removal did
/// not have to stop at zero.
pub proof fn lemma_conversation_counter_add_undoes_remove(
    before: ConversationCounters,
    removed: ConversationCounters,
    restored: ConversationCounters,
    stats: Option<MessageLabelStats>,
)
    requires
        before.total >= 1,
        stats.is_some() && stats.unwrap().unread_count > 0 ==> before.unread >= 1,
        removed.local_label_id == before.local_label_id,
        removed.total == sat_sub(before.total, 1),
        removed.unread == if stats.is_some() && stats.unwrap().unread_count > 0 {
            sat_sub(before.unread, 1)
        } else {
            before.unread
        },
        restored.local_label_id == removed.local_label_id,
        restored.total == removed.total + 1,
        restored.unread == if stats.is_some() && stats.unwrap().unread_count > 0 {
            removed.unread + 1
        } else {
            removed.unread as int
        },
    ensures
        restored == before,
{
}

/// What the per-label statistics read of a message.
#[derive(Clone, Copy, Debug, PartialEq, Eq, Structural)]
pub struct MessageStatsInput {
    pub unread: bool,
    pub num_attachments: u32,
    pub size: u64,
}

/// A message and the labels it has.
pub type LabelledMessage = (MessageStatsInput, Vec<LocalLabelId>);

/// The statistic a sum is taken of.
#[derive(Clone, Copy, Debug, PartialEq, Eq, Structural)]
pub enum StatField {
    /// One for every message.
    Count,
    /// One for an unread message.
    Unread,
    /// A message's number of attachments.
    Attachments,
    /// A message's size.
    Size,
}

/// The statistic `f` of a message.
pub open spec fn stat_value(m: MessageStatsInput, f: StatField) -> int {
    match f {
        StatField::Count => 1,
        StatField::Unread => if m.unread {
            1
        } else {
            0
        },
        StatField::Attachments => m.num_attachments as int,
        StatField::Size => m.size as int,
    }
}

/// The sum of the statistic `f` over the messages of `es` that have the
/// label `label`.
pub open spec fn sum_for_label(
    es: Seq<(MessageStatsInput, Seq<LocalLabelId>)>,
    label: LocalLabelId,
    f: StatField,
) -> int
    decreases es.len(),
{
    if es.len() == 0 {
        0
    } else {
        sum_for_label(es.drop_last(), label, f) + if es.last().1.contains(label) {
            stat_value(es.last().0, f)
        } else {
            0
        }
    }
}

/// The labels of the messages of `es`.
pub open spec fn labels_of(es: Seq<(MessageStatsInput, Seq<LocalLabelId>)>) -> Set<LocalLabelId> {
    Set::new(|l: LocalLabelId| exists|i: int| 0 <= i < es.len() && (#[trigger] es[i]).1.contains(l))
}

/// The statistics of the messages of `es` under the label `label`.
pub open spec fn stats_for_label(es: Seq<(MessageStatsInput, Seq<LocalLabelId>)>, label: LocalLabelId) -> MessageLabelStats {
    MessageLabelStats {
        count: sum_for_label(es, label, StatField::Count) as u64,
        unread_count: sum_for_label(es, label, StatField::Unread) as u64,
        attachment_count: sum_for_label(es, label, StatField::Attachments) as u64,
        size: sum_for_label(es, label, StatField::Size) as u64,
    }
}

/// The messages as their statistics see them.
pub open spec fn entries_view(es: Seq<LabelledMessage>) -> Seq<(MessageStatsInput, Seq<LocalLabelId>)> {
    es.map_values(|e: LabelledMessage| (e.0, e.1@))
}

/// Whether every sum of `es` fits in a `u64`.
pub open spec fn sums_fit(es: Seq<(MessageStatsInput, Seq<LocalLabelId>)>) -> bool {
    forall|l: LocalLabelId|
        #![trigger sum_for_label(es, l, StatField::Count)]
        sum_for_label(es, l, StatField::Count) <= u64::MAX && sum_for_label(
            es,
            l,
            StatField::Unread,
        ) <= u64::MAX && sum_for_label(es, l, StatField::Attachments)
            <= u64::MAX && sum_for_label(es, l, StatField::Size) <= u64::MAX
}

proof fn lemma_sum_prefix_bounded(
    es: Seq<(MessageStatsInput, Seq<LocalLabelId>)>,
    label: LocalLabelId,
    f: StatField,
    i: int,
)
    requires
        0 <= i <= es.len(),
    ensures
        0 <= sum_for_label(es.take(i), label, f) <= sum_for_label(es, label, f),
    decreases es.len(),
{
    if i == es.len() {
        assert(es.take(i) =~= es);
        lemma_sum_nonneg(es, label, f);
    } else {
        assert(es.drop_last().take(i) =~= es.take(i));
        lemma_sum_prefix_bounded(es.drop_last(), label, f, i);
    }
}

proof fn lemma_sum_nonneg(
    es: Seq<(MessageStatsInput, Seq<LocalLabelId>)>,
    label: LocalLabelId,
    f: StatField,
)
    ensures
        sum_for_label(es, label, f) >= 0,
    decreases es.len(),
{
    if es.len() > 0 {
        lemma_sum_nonneg(es.drop_last(), label, f);
    }
}

impl MessageLabelStats {
    /// The statistics of some messages, per label: for every label of one of
    /// the messages, how many of them have it, how many of those are unread,
    /// and their attachments and sizes summed up.
    pub fn build(entries: &Vec<LabelledMessage>) -> (r: HashMap<LocalLabelId, MessageLabelStats>)
        requires
            forall|i: int|
                0 <= i < entries@.len() ==> (#[trigger] entries@[i]).1@.no_duplicates(),
            sums_fit(entries_view(entries@)),
        ensures
            r@.dom() == labels_of(entries_view(entries@)),
            forall|l: LocalLabelId|
                #[trigger] r@.contains_key(l) ==> r@[l] == stats_for_label(entries_view(entries@), l),
    {
        broadcast use vstd::std_specs::hash::group_hash_axioms;

        let ghost es = entries_view(entries@);
        let mut label_stats: HashMap<LocalLabelId, MessageLabelStats> = HashMap::new();
        let mut i: usize = 0;
        proof {
            assert(es.take(0) =~= Seq::<(MessageStatsInput, Seq<LocalLabelId>)>::empty());
            assert(labels_of(es.take(0)) =~= Set::<LocalLabelId>::empty());
        }
        while i < entries.len()
            invariant
                i <= entries@.len(),
                es == entries_view(entries@),
                es.len() == entries@.len(),
                forall|k: int| 0 <= k < entries@.len() ==> (#[trigger] entries@[k]).1@.no_duplicates(),
                sums_fit(es),
                label_stats@.dom() == labels_of(es.take(i as int)),
                forall|l: LocalLabelId|
                    #[trigger] label_stats@.contains_key(l) ==> label_stats@[l] == stats_for_label(
                        es.take(i as int),
                        l,
                    ),
            decreases entries.len() - i,
        {
            let message = entries[i].0;
            let labels = &entries[i].1;
            let ghost before = es.take(i as int);
            let ghost after = es.take(i + 1);
            proof {
                assert(after.drop_last() =~= before);
                assert(after.last() == (message, labels@));
            }
            let mut j: usize = 0;
            while j < labels.len()
                invariant
                    j <= labels@.len(),
                    labels@.no_duplicates(),
                    sums_fit(es),
                    i < es.len(),
                    after == es.take(i + 1),
                    before == es.take(i as int),
                    after.drop_last() == before,
                    after.last() == (message, labels@),
                    label_stats@.dom() == labels_of(before).union(labels@.take(j as int).to_set()),
                    forall|l: LocalLabelId|
                        #[trigger] label_stats@.contains_key(l) ==> label_stats@[l] == if labels@.take(
                            j as int,
                        ).contains(l) {
                            stats_for_label(after, l)
                        } else {
                            stats_for_label(before, l)
                        },
                decreases labels.len() - j,
            {
                let label_id = labels[j];
                proof {
                    assert(labels@.take(j + 1) =~= labels@.take(j as int).push(label_id));
                    assert(!labels@.take(j as int).contains(label_id)) by {
                        if labels@.take(j as int).contains(label_id) {
                            let k = choose|k: int| 0 <= k < j && #[trigger] labels@.take(j as int)[k] == label_id;
                            assert(labels@[k] == labels@[j as int]);
                        }
                    }
                    assert(labels@.contains(label_id)) by {
                        assert(labels@[j as int] == label_id);
                    }
                    lemma_sum_prefix_bounded(es, label_id, StatField::Count, i + 1);
                    lemma_sum_prefix_bounded(es, label_id, StatField::Unread, i + 1);
                    lemma_sum_prefix_bounded(es, label_id, StatField::Attachments, i + 1);
                    lemma_sum_prefix_bounded(es, label_id, StatField::Size, i + 1);
                    lemma_sum_nonneg(before, label_id, StatField::Count);
                    lemma_sum_nonneg(before, label_id, StatField::Unread);
                    lemma_sum_nonneg(before, label_id, StatField::Attachments);
                    lemma_sum_nonneg(before, label_id, StatField::Size);
                    assert(sum_for_label(es, label_id, StatField::Count) <= u64::MAX);
                }
                let unread: u64 = if message.unread { 1 } else { 0 };
                let updated = match label_stats.get(&label_id) {
                    Some(details) => {
                        proof {
                            assert(label_stats@.contains_key(label_id));
                            assert(*details == stats_for_label(before, label_id));
                        }
                        MessageLabelStats {
                        count: details.count + 1,
                        unread_count: details.unread_count + unread,
                        attachment_count: details.attachment_count + message.num_attachments as u64,
                        size: details.size + message.size,
                    }
                    },
                    None => {
                        proof {
                            if labels_of(before).contains(label_id) {
                                assert(label_stats@.contains_key(label_id));
                            }
                            assert(!labels_of(before).contains(label_id));
                            assert forall|k: int| 0 <= k < before.len() implies !(#[trigger] before[k]).1.contains(label_id) by {
                                if before[k].1.contains(label_id) {
                                    assert(labels_of(before).contains(label_id));
                                }
                            }
                            lemma_sum_absent(before, label_id, StatField::Count);
                            lemma_sum_absent(before, label_id, StatField::Unread);
                            lemma_sum_absent(before, label_id, StatField::Attachments);
                            lemma_sum_absent(before, label_id, StatField::Size);
                        }
                        MessageLabelStats {
                            count: 1,
                            unread_count: unread,
                            attachment_count: message.num_attachments as u64,
                            size: message.size,
                        }
                    },
                };
                proof {
                    assert(sum_for_label(after, label_id, StatField::Count) == sum_for_label(before, label_id, StatField::Count) + 1);
                    assert(sum_for_label(after, label_id, StatField::Unread) == sum_for_label(before, label_id, StatField::Unread) + unread);
                    assert(sum_for_label(after, label_id, StatField::Attachments) == sum_for_label(before, label_id, StatField::Attachments) + message.num_attachments);
                    assert(sum_for_label(after, label_id, StatField::Size) == sum_for_label(before, label_id, StatField::Size) + message.size);
                    assert(updated == stats_for_label(after, label_id));
                }
                let ghost old_map = label_stats@;
                label_stats.insert(label_id, updated);
                proof {
                    assert(label_stats@ == old_map.insert(label_id, updated));
                    labels@.take(j as int).lemma_push_to_set_commute(label_id);
                    assert(labels@.take(j + 1).to_set() == labels@.take(j as int).to_set().insert(label_id));
                    assert(label_stats@.dom() =~= labels_of(before).union(labels@.take(j + 1).to_set()));
                    assert forall|l: LocalLabelId| l != label_id implies labels@.take(j + 1).contains(l)
                        == labels@.take(j as int).contains(l) by {
                        if labels@.take(j + 1).contains(l) {
                            let k = choose|k: int| 0 <= k < j + 1 && #[trigger] labels@.take(j + 1)[k] == l;
                            assert(labels@.take(j as int)[k] == l);
                        }
                        if labels@.take(j as int).contains(l) {
                            let k = choose|k: int| 0 <= k < j && #[trigger] labels@.take(j as int)[k] == l;
                            assert(labels@.take(j + 1)[k] == l);
                        }
                    }
                    assert(labels@.take(j + 1).contains(label_id)) by {
                        assert(labels@.take(j + 1)[j as int] == label_id);
                    }
                }
                j = j + 1;
            }
            proof {
                assert(labels@.take(labels@.len() as int) =~= labels@);
                assert(labels_of(after) =~= labels_of(before).union(labels@.to_set())) by {
                    assert forall|l: LocalLabelId| labels_of(after).contains(l) implies labels_of(before).union(
                        labels@.to_set(),
                    ).contains(l) by {
                        let k = choose|k: int| 0 <= k < after.len() && (#[trigger] after[k]).1.contains(l);
                        if k < before.len() {
                            assert(after[k] == before[k]);
                        }
                    }
                    assert forall|l: LocalLabelId| labels_of(before).union(labels@.to_set()).contains(l)
                        implies labels_of(after).contains(l) by {
                        if labels_of(before).contains(l) {
                            let k = choose|k: int| 0 <= k < before.len() && (#[trigger] before[k]).1.contains(l);
                            assert(after[k] == before[k]);
                        } else {
                            assert(after[i as int].1.contains(l));
                        }
                    }
                }
                assert forall|l: LocalLabelId| !labels@.contains(l) implies stats_for_label(after, l)
                    == stats_for_label(before, l) by {}
            }
            i = i + 1;
        }
        proof {
            assert(es.take(entries@.len() as int) =~= es);
        }
        label_stats
    }
}

proof fn lemma_sum_absent(
    es: Seq<(MessageStatsInput, Seq<LocalLabelId>)>,
    label: LocalLabelId,
    f: StatField,
)
    requires
        forall|k: int| 0 <= k < es.len() ==> !(#[trigger] es[k]).1.contains(label),
    ensures
        sum_for_label(es, label, f) == 0,
    decreases es.len(),
{
    if es.len() > 0 {
        assert(!es[es.len() - 1].1.contains(label));
        lemma_sum_absent(es.drop_last(), label, f);
    }
}

} // verus!
