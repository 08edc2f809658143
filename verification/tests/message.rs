use mail_common::counters::{
    ConversationCounters, MessageCounter, MessageLabelStats, MessageStatsInput,
};
use mail_common::labels::{
    contains_label_id, contains_system_label, Label, LabelType, MailBusyLabel, MailboxLabels,
    MessageRecipientDisplayMode, SystemLabelId,
};
use mail_common::message::{
    AttachmentData, EventAction, Message, MessageFlags, MessageSyncDecision, SyncDecision,
};
use mail_common::types::{ReadFilter, ViewMode};

fn flags() -> MessageFlags {
    MessageFlags {
        draft: false,
        sent: false,
        sent_auto: false,
        schedule_send: false,
        display_snooze_reminder: false,
    }
}

fn message(labels: &[&str]) -> Message {
    Message {
        local_id: Some(1),
        remote_id: Some("m1".to_string()),
        local_conversation_id: Some(2),
        remote_conversation_id: Some("c1".to_string()),
        local_address_id: 3,
        remote_address_id: "a1".to_string(),
        deleted: false,
        expiration_time: 0,
        flags: flags(),
        is_forwarded: false,
        is_replied: false,
        is_replied_all: false,
        label_ids: labels.iter().map(|s| s.to_string()).collect(),
        num_attachments: 0,
        display_order: 0,
        size: 10,
        snooze_time: 500,
        subject: "hello".to_string(),
        time: 100,
        unread: true,
    }
}

fn label(remote: Option<&str>, label_type: LabelType) -> Label {
    Label {
        local_id: Some(1),
        remote_id: remote.map(|s| s.to_string()),
        local_parent_id: None,
        remote_parent_id: None,
        color: "#fff".to_string(),
        display: true,
        expanded: false,
        label_type,
        name: "n".to_string(),
        notify: false,
        display_order: 0,
        path: None,
        sticky: false,
        row_id: None,
    }
}

#[test]
fn system_label_ids() {
    assert_eq!(SystemLabelId::Inbox.as_str(), "0");
    assert_eq!(SystemLabelId::Starred.as_str(), "10");
    assert_eq!(SystemLabelId::Snoozed.as_str(), "16");
    assert!(SystemLabelId::AllMail.matches(&"5".to_string()));
    assert!(!SystemLabelId::AllMail.matches(&"15".to_string()));
    let ids = vec!["x".to_string(), "10".to_string()];
    assert!(contains_system_label(&ids, SystemLabelId::Starred));
    assert!(!contains_system_label(&ids, SystemLabelId::Inbox));
    assert!(contains_label_id(&ids, &"x".to_string()));
    assert!(!contains_label_id(&ids, &"y".to_string()));
}

#[test]
fn message_predicates_follow_labels_and_flags() {
    let mut m = message(&["1"]);
    assert!(!m.is_draft());
    m.flags.draft = true;
    assert!(m.is_draft());
    assert!(!m.can_reply());
    let mut s = message(&["7"]);
    assert!(!s.is_sent());
    s.flags.sent = true;
    assert!(s.is_sent());
    assert!(s.can_reply());
    let mut sch = message(&["12"]);
    assert!(!sch.is_scheduled_for_send());
    sch.flags.schedule_send = true;
    assert!(sch.is_scheduled_for_send());
    assert!(!sch.can_reply());
    assert!(!message(&["9"]).can_reply());
    assert!(message(&["0", "10"]).is_starred());
    assert_eq!(message(&["16"]).snoozed_until(), Some(500));
    assert_eq!(message(&["0"]).snoozed_until(), None);
    assert!(flags().is_draft() == false && flags().is_sent_auto() == false);
}

#[test]
fn reading_a_message_ends_its_snooze_reminder() {
    let mut m = message(&["0"]);
    m.set_display_snooze_reminder(true);
    assert!(m.display_snooze_reminder());
    m.set_read_state(false);
    assert!(m.unread);
    assert!(m.display_snooze_reminder());
    m.set_read_state(true);
    assert!(!m.unread);
    assert!(!m.display_snooze_reminder());
}

#[test]
fn pruning_drops_unresolved_labels_in_order() {
    let mut m = message(&["0", "a", "5", "b", "a"]);
    m.prune_unresolved_labels(&vec!["a".to_string(), "z".to_string()]);
    assert_eq!(m.label_ids, vec!["0".to_string(), "5".to_string(), "b".to_string()]);
    m.prune_unresolved_labels(&vec![]);
    assert_eq!(m.label_ids.len(), 3);
}

#[test]
fn sync_decisions() {
    let mut f = flags();
    assert_eq!(
        Message::sync_decision(f, None, Some(EventAction::Update)),
        SyncDecision { decision: MessageSyncDecision::Apply, drop_body: true }
    );
    assert_eq!(
        Message::sync_decision(f, None, Some(EventAction::Create)),
        SyncDecision { decision: MessageSyncDecision::Apply, drop_body: false }
    );
    assert_eq!(
        Message::sync_decision(f, Some(false), Some(EventAction::Update)),
        SyncDecision { decision: MessageSyncDecision::Skip, drop_body: false }
    );
    f.sent = true;
    assert_eq!(
        Message::sync_decision(f, Some(false), None),
        SyncDecision { decision: MessageSyncDecision::Apply, drop_body: true }
    );
    assert_eq!(
        Message::sync_decision(f, Some(true), None),
        SyncDecision { decision: MessageSyncDecision::Skip, drop_body: false }
    );
}

#[test]
fn empty_attachment_data() {
    let a = AttachmentData::empty();
    assert!(a.data.is_empty());
    assert_eq!(a.mime, "image/*");
}

#[test]
fn label_kinds() {
    assert!(label(Some("10"), LabelType::System).is_starred());
    assert!(label(Some("10"), LabelType::System).is_applicable_label());
    assert!(label(None, LabelType::Label).is_applicable_label());
    assert!(!label(Some("0"), LabelType::System).is_applicable_label());
    assert!(label(None, LabelType::Folder).is_movable_folder());
    assert!(label(Some("6"), LabelType::System).is_movable_into_folder());
    assert!(!label(Some("7"), LabelType::System).is_movable_into_folder());
    assert!(label(Some("7"), LabelType::System).is_movable_out_of_folder());
    assert!(!label(Some("5"), LabelType::System).is_movable_out_of_folder());
    assert_eq!(
        label(Some("8"), LabelType::System).recipient_display_mode(),
        MessageRecipientDisplayMode::Recipients
    );
    assert_eq!(
        label(Some("0"), LabelType::System).recipient_display_mode(),
        MessageRecipientDisplayMode::Sender
    );
    assert_eq!(
        label(Some("2"), LabelType::System).view_mode(ViewMode::Conversations),
        ViewMode::Messages
    );
    assert_eq!(
        label(Some("0"), LabelType::System).view_mode(ViewMode::Conversations),
        ViewMode::Conversations
    );
    assert!(label(Some("16"), LabelType::System).is_snooze_location());
    assert!(!label(Some("3"), LabelType::System).is_snooze_location());
}

#[test]
fn saved_labels_take_over_stored_ids_and_resolve_parents() {
    let mut l = label(Some("abc"), LabelType::Label);
    l.local_id = None;
    let mut stored = label(Some("abc"), LabelType::Label);
    stored.local_id = Some(42);
    stored.row_id = Some(7);
    l.adopt_stored(Some(&stored));
    assert_eq!(l.local_id, Some(42));
    assert_eq!(l.row_id, Some(7));
    l.adopt_stored(None);
    assert_eq!(l.local_id, Some(42));
    l.resolve_parent(Some(9));
    assert_eq!(l.local_parent_id, None);
    l.remote_parent_id = Some("p".to_string());
    l.resolve_parent(Some(9));
    assert_eq!(l.local_parent_id, Some(9));
}

#[test]
fn mailbox_labels_and_busy_labels() {
    let m = MailboxLabels::new(4);
    assert_eq!(m, MailboxLabels { local_label_id: 4, initialized: false });
    assert!(MailBusyLabel::is_busy(Some(MailBusyLabel { id: 1 })));
    assert!(!MailBusyLabel::is_busy(None));
}

#[test]
fn counters_by_read_filter() {
    let c = ConversationCounters { local_label_id: 1, total: 10, unread: 4 };
    assert_eq!(c.total(ReadFilter::All), 10);
    assert_eq!(c.total(ReadFilter::Unread), 4);
    assert_eq!(c.total(ReadFilter::Read), 6);
    assert_eq!(c.counters(), (4, 10));
    let m = MessageCounter { local_label_id: 1, total: 2, unread: 5 };
    assert_eq!(m.total(ReadFilter::Read), 0);
    assert_eq!(m.get(), (5, 2));
    assert_eq!(MessageCounter::new(3), MessageCounter { local_label_id: 3, total: 0, unread: 0 });
    assert_eq!(
        ConversationCounters::new(3),
        ConversationCounters { local_label_id: 3, total: 0, unread: 0 }
    );
}

#[test]
fn soft_delete_then_undelete_restores_message_counters() {
    let before = MessageCounter { local_label_id: 1, total: 10, unread: 4 };
    let stats = MessageLabelStats { unread_count: 2, count: 3, attachment_count: 0, size: 0 };
    let mut c = before;
    c.apply_soft_delete(&stats);
    assert_eq!(c, MessageCounter { local_label_id: 1, total: 7, unread: 2 });
    c.apply_soft_undelete(&stats);
    assert_eq!(c, before);
    let mut low = MessageCounter { local_label_id: 1, total: 1, unread: 0 };
    low.apply_soft_delete(&stats);
    assert_eq!(low, MessageCounter { local_label_id: 1, total: 0, unread: 0 });
}

#[test]
fn conversation_leaving_and_returning_restores_counters() {
    let before = ConversationCounters { local_label_id: 1, total: 3, unread: 1 };
    let stats = MessageLabelStats { unread_count: 1, count: 2, attachment_count: 0, size: 0 };
    let mut c = before;
    c.remove_conversation(Some(&stats));
    assert_eq!(c, ConversationCounters { local_label_id: 1, total: 2, unread: 0 });
    c.add_conversation(Some(&stats));
    assert_eq!(c, before);
    let mut d = before;
    d.remove_conversation(None);
    assert_eq!(d, ConversationCounters { local_label_id: 1, total: 2, unread: 1 });
    let mut z = ConversationCounters::new(1);
    z.remove_conversation(Some(&stats));
    assert_eq!(z, ConversationCounters::new(1));
}

#[test]
fn label_stats_sum_per_label() {
    let a = MessageStatsInput { unread: true, num_attachments: 2, size: 100 };
    let b = MessageStatsInput { unread: false, num_attachments: 1, size: 50 };
    let c = MessageStatsInput { unread: true, num_attachments: 0, size: 7 };
    let entries = vec![(a, vec![1, 2]), (b, vec![2]), (c, vec![3, 1])];
    let stats = MessageLabelStats::build(&entries);
    assert_eq!(stats.len(), 3);
    assert_eq!(
        stats[&1],
        MessageLabelStats { unread_count: 2, count: 2, attachment_count: 2, size: 107 }
    );
    assert_eq!(
        stats[&2],
        MessageLabelStats { unread_count: 1, count: 2, attachment_count: 3, size: 150 }
    );
    assert_eq!(
        stats[&3],
        MessageLabelStats { unread_count: 1, count: 1, attachment_count: 0, size: 7 }
    );
    assert!(MessageLabelStats::build(&vec![]).is_empty());
}
