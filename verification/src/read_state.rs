//! Marking messages read or unread: which messages change, and by how many
//! messages the unread counts of their conversations and labels change.

use vstd::prelude::*;
use std::collections::HashMap;
use crate::counters::{
    entries_view, labels_of, stats_for_label, sum_for_label, sums_fit, LabelledMessage,
    MessageLabelStats, MessageStatsInput, StatField,
};
use crate::message::Message;
use crate::types::{LocalConversationId, LocalLabelId, LocalMessageId};

verus! {

/// A message as marking it read or unread sees it.
#[derive(Clone, Debug)]
pub struct ReadStateMessage {
    pub local_message_id: LocalMessageId,
    pub local_conversation_id: LocalConversationId,
    pub unread: bool,
    /// The local ids of the message's labels.
    pub label_ids: Vec<LocalLabelId>,
}

/// What marking messages read or unread changes.
#[derive(Debug)]
pub struct ReadStateChanges {
    /// The messages whose state changes, in the order given.
    pub updated: Vec<LocalMessageId>,
    /// For each conversation of such a message, the statistics of its
    /// messages that change: their `count` is by how much the conversation's
    /// unread count changes.
    pub per_conversation: HashMap<LocalConversationId, MessageLabelStats>,
    /// For each label of such a message, the statistics of its messages that
    /// change: their `count` is by how much the label's unread message count
    /// changes.
    pub per_label: HashMap<LocalLabelId, MessageLabelStats>,
}

/// Whether marking the message read (or unread) changes it: it is unread
/// (or read).
pub open spec fn changes_state(m: ReadStateMessage, mark_read: bool) -> bool {
    m.unread == mark_read
}

/// Whether a message changes when messages are marked read (or unread).
pub open spec fn changing(mark_read: bool) -> spec_fn(ReadStateMessage) -> bool {
    |m: ReadStateMessage| changes_state(m, mark_read)
}

/// The local id of a message.
pub open spec fn message_id() -> spec_fn(ReadStateMessage) -> LocalMessageId {
    |m: ReadStateMessage| m.local_message_id
}

/// The messages of `ms` whose state changes, in order.
pub open spec fn changed(ms: Seq<ReadStateMessage>, mark_read: bool) -> Seq<ReadStateMessage> {
    ms.filter(changing(mark_read))
}

/// What the statistics read of a message that changes.
pub open spec fn read_input(m: ReadStateMessage) -> MessageStatsInput {
    MessageStatsInput { unread: m.unread, num_attachments: 0, size: 0 }
}

/// The messages, each under its conversation.
pub open spec fn by_conversation(ms: Seq<ReadStateMessage>) -> Seq<
    (MessageStatsInput, Seq<LocalLabelId>),
> {
    ms.map_values(|m: ReadStateMessage| (read_input(m), seq![m.local_conversation_id]))
}

/// The messages, each under its labels.
pub open spec fn by_label(ms: Seq<ReadStateMessage>) -> Seq<(MessageStatsInput, Seq<LocalLabelId>)> {
    ms.map_values(|m: ReadStateMessage| (read_input(m), m.label_ids@))
}

/// With no attachments and no sizes, no sum over `es` exceeds its length.
proof fn lemma_sums_bounded_by_len(es: Seq<(MessageStatsInput, Seq<LocalLabelId>)>, l: LocalLabelId, f: StatField)
    requires
        forall|i: int|
            0 <= i < es.len() ==> (#[trigger] es[i]).0.num_attachments == 0 && es[i].0.size == 0,
    ensures
        0 <= sum_for_label(es, l, f) <= es.len(),
    decreases es.len(),
{
    if es.len() > 0 {
        let rest = es.drop_last();
        assert forall|i: int| 0 <= i < rest.len() implies (#[trigger] rest[i]).0.num_attachments == 0
            && rest[i].0.size == 0 by {
            assert(rest[i] == es[i]);
        }
        assert(es.last() == es[es.len() - 1]);
        lemma_sums_bounded_by_len(rest, l, f);
    }
}

proof fn lemma_sums_fit(es: Seq<(MessageStatsInput, Seq<LocalLabelId>)>)
    requires
        es.len() <= u64::MAX,
        forall|i: int|
            0 <= i < es.len() ==> (#[trigger] es[i]).0.num_attachments == 0 && es[i].0.size == 0,
    ensures
        sums_fit(es),
{
    assert forall|l: LocalLabelId| #[trigger] sum_for_label(es, l, StatField::Count) <= u64::MAX && sum_for_label(
        es,
        l,
        StatField::Unread,
    ) <= u64::MAX && sum_for_label(es, l, StatField::Attachments) <= u64::MAX && sum_for_label(
        es,
        l,
        StatField::Size,
    ) <= u64::MAX by {
        lemma_sums_bounded_by_len(es, l, StatField::Count);
        lemma_sums_bounded_by_len(es, l, StatField::Unread);
        lemma_sums_bounded_by_len(es, l, StatField::Attachments);
        lemma_sums_bounded_by_len(es, l, StatField::Size);
    }
}

/// A copy of the ids.
fn copy_ids(v: &Vec<LocalLabelId>) -> (r: Vec<LocalLabelId>)
    ensures
        r@ == v@,
{
    let mut out: Vec<LocalLabelId> = Vec::new();
    let mut i: usize = 0;
    while i < v.len()
        invariant
            i <= v@.len(),
            out@ == v@.take(i as int),
        decreases v.len() - i,
    {
        out.push(v[i]);
        proof {
            assert(v@.take(i + 1) =~= v@.take(i as int).push(v@[i as int]));
        }
        i = i + 1;
    }
    proof {
        assert(v@.take(v@.len() as int) =~= v@);
    }
    out
}

impl Message {
    /// What marking the messages `messages` read (or unread) changes: the
    /// messages that are unread (or read) change, and each conversation and
    /// each label of theirs gains (or loses) as many unread messages as it
    /// has of them.
    pub fn read_state_changes(mark_read: bool, messages: &Vec<ReadStateMessage>) -> (r:
        ReadStateChanges)
        requires
            forall|i: int| 0 <= i < messages@.len() ==> (#[trigger] messages@[i]).label_ids@.no_duplicates(),
        ensures
            r.updated@ == changed(messages@, mark_read).map_values(message_id()),
            r.per_conversation@.dom() == labels_of(by_conversation(changed(messages@, mark_read))),
            forall|c: LocalConversationId|
                #[trigger] r.per_conversation@.contains_key(c) ==> r.per_conversation@[c]
                    == stats_for_label(by_conversation(changed(messages@, mark_read)), c),
            r.per_label@.dom() == labels_of(by_label(changed(messages@, mark_read))),
            forall|l: LocalLabelId|
                #[trigger] r.per_label@.contains_key(l) ==> r.per_label@[l] == stats_for_label(
                    by_label(changed(messages@, mark_read)),
                    l,
                ),
    {
        let mut updated: Vec<LocalMessageId> = Vec::new();
        let mut conversations: Vec<LabelledMessage> = Vec::new();
        let mut labels: Vec<LabelledMessage> = Vec::new();
        let mut i: usize = 0;
        while i < messages.len()
            invariant
                i <= messages@.len(),
                forall|k: int|
                    0 <= k < messages@.len() ==> (#[trigger] messages@[k]).label_ids@.no_duplicates(),
                updated@ == messages@.take(i as int).filter(changing(mark_read)).map_values(message_id()),
                entries_view(conversations@) == by_conversation(messages@.take(i as int).filter(changing(mark_read))),
                entries_view(labels@) == by_label(messages@.take(i as int).filter(changing(mark_read))),
                forall|k: int|
                    0 <= k < labels@.len() ==> (#[trigger] labels@[k]).1@.no_duplicates(),
                forall|k: int|
                    0 <= k < conversations@.len() ==> (#[trigger] conversations@[k]).1@.no_duplicates(),
                forall|k: int|
                    0 <= k < labels@.len() ==> (#[trigger] labels@[k]).0.num_attachments == 0
                        && labels@[k].0.size == 0,
                forall|k: int|
                    0 <= k < conversations@.len() ==> (#[trigger] conversations@[k]).0.num_attachments
                        == 0 && conversations@[k].0.size == 0,
                conversations@.len() == labels@.len(),
                labels@.len() <= i,
            decreases messages.len() - i,
        {
            let m = &messages[i];
            let ghost prefix = messages@.take(i as int).filter(changing(mark_read));
            proof {
                assert(messages@.take(i + 1) =~= messages@.take(i as int).push(*m));
                messages@.take(i as int).lemma_filter_push(*m, changing(mark_read));
                assert(changing(mark_read)(*m) == (m.unread == mark_read));
                assert(messages@.take(i + 1).filter(changing(mark_read)) == if m.unread == mark_read {
                    prefix.push(*m)
                } else {
                    prefix
                });
            }
            if m.unread == mark_read {
                let input = MessageStatsInput { unread: m.unread, num_attachments: 0, size: 0 };
                updated.push(m.local_message_id);
                let mut conv: Vec<LocalLabelId> = Vec::new();
                conv.push(m.local_conversation_id);
                let ids = copy_ids(&m.label_ids);
                let ghost old_conversations = conversations@;
                let ghost old_labels = labels@;
                proof {
                    assert(conv@ =~= seq![m.local_conversation_id]);
                    assert(input == read_input(*m));
                }
                conversations.push((input, conv));
                labels.push((input, ids));
                proof {
                    assert(entries_view(conversations@) =~= entries_view(old_conversations).push(
                        (input, conv@),
                    ));
                    assert(entries_view(labels@) =~= entries_view(old_labels).push((input, ids@)));
                    assert(by_conversation(prefix.push(*m)) =~= by_conversation(prefix).push(
                        (read_input(*m), seq![m.local_conversation_id]),
                    ));
                    assert(by_label(prefix.push(*m)) =~= by_label(prefix).push(
                        (read_input(*m), m.label_ids@),
                    ));
                    assert(prefix.push(*m).map_values(message_id()) =~= prefix.map_values(
                        message_id(),
                    ).push(m.local_message_id));
                    assert(entries_view(conversations@) =~= by_conversation(prefix.push(*m)));
                    assert(entries_view(labels@) =~= by_label(prefix.push(*m)));
                    assert(conv@.no_duplicates());
                }
            }
            i = i + 1;
        }
        proof {
            assert(messages@.take(messages@.len() as int) =~= messages@);
            lemma_sums_fit(entries_view(conversations@));
            lemma_sums_fit(entries_view(labels@));
        }
        let per_conversation = MessageLabelStats::build(&conversations);
        let per_label = MessageLabelStats::build(&labels);
        ReadStateChanges { updated, per_conversation, per_label }
    }
}

} // verus!
