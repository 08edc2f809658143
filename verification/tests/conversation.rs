use mail_common::conversation::{
    apply_read_counts, ContextAfterRemoval, ContextExpirationTime, Conversation,
    ConversationLabel, ConversationLabelError, ConversationMessageLabelStats, ConversationSyncPlan,
    LabelAsPlan, ViewLabel,
};
use mail_common::counters::{ConversationCounters, MessageCounter, MessageLabelStats};
use mail_common::draft_errors::ApiServiceError;
use mail_common::errors::AppError;
use mail_common::labels::LabelType;
use mail_common::message::{Message, MessageFlags};

fn flags() -> MessageFlags {
    MessageFlags {
        draft: false,
        sent: false,
        sent_auto: false,
        schedule_send: false,
        display_snooze_reminder: false,
    }
}

fn message(id: u64, unread: bool, labels: &[&str]) -> Message {
    Message {
        local_id: Some(id),
        remote_id: Some(format!("m{id}")),
        local_conversation_id: Some(1),
        remote_conversation_id: Some("c1".to_string()),
        local_address_id: 1,
        remote_address_id: "a1".to_string(),
        deleted: false,
        expiration_time: 0,
        flags: flags(),
        is_forwarded: false,
        is_replied: false,
        is_replied_all: false,
        label_ids: labels.iter().map(|s| s.to_string()).collect(),
        num_attachments: 0,
        display_order: id,
        size: 10,
        snooze_time: 0,
        subject: String::new(),
        time: 100 + id,
        unread,
    }
}

fn context(label: u64, remote: &str, messages: u64, unread: u64) -> ConversationLabel {
    ConversationLabel {
        local_id: None,
        local_conversation_id: Some(1),
        local_label_id: Some(label),
        remote_label_id: Some(remote.to_string()),
        context_expiration_time: ContextExpirationTime(0),
        context_num_attachments: 0,
        context_num_messages: messages,
        context_num_unread: unread,
        context_size: 0,
        context_snooze_time: 0,
        context_time: 0,
        deleted: false,
    }
}

fn conversation(labels: Vec<ConversationLabel>) -> Conversation {
    let mut c = Conversation::unknown("c1".to_string());
    c.local_id = Some(1);
    c.labels = labels;
    c
}

#[test]
fn expiration_merge_keeps_the_earliest_set_time() {
    let mut e = ContextExpirationTime::default();
    e.merge(50);
    assert_eq!(e.0, 50);
    e.merge(70);
    assert_eq!(e.0, 50);
    e.merge(20);
    assert_eq!(e.0, 20);
    e.merge_self(ContextExpirationTime(0));
    assert_eq!(e.0, 0);
}

#[test]
fn stats_from_messages() {
    let mut a = message(1, true, &["0"]);
    a.size = 5;
    a.num_attachments = 2;
    a.expiration_time = 500;
    a.snooze_time = 30;
    let mut b = message(2, false, &["0"]);
    b.size = 7;
    b.num_attachments = 1;
    b.expiration_time = 300;
    let mut c = message(3, true, &["0"]);
    // an expiration equal to the message's own time is not an expiration
    c.expiration_time = c.time;
    let stats = ConversationMessageLabelStats::from_messages(&vec![a, b, c]);
    assert_eq!(stats.size, 22);
    assert_eq!(stats.count, 3);
    assert_eq!(stats.unread, 2);
    assert_eq!(stats.num_attachments, 3);
    assert_eq!(stats.time, 103);
    assert_eq!(stats.snooze_time, 30);
    assert_eq!(stats.expiration_time.0, 300);
}

#[test]
fn label_context_delete_and_undelete() {
    let before = context(5, "0", 3, 1);
    let counter = ConversationCounters { local_label_id: 5, total: 4, unread: 2 };
    let stats = MessageLabelStats { unread_count: 1, count: 3, attachment_count: 0, size: 0 };

    let mut label = before.clone();
    let mut c = Some(counter);
    assert_eq!(label.mark_delete_update_stats(Some(&stats), &mut c), Ok(()));
    assert_eq!(label.context_num_messages, 0);
    assert_eq!(label.context_num_unread, 0);
    assert!(label.deleted);
    assert_eq!(c, Some(ConversationCounters { local_label_id: 5, total: 3, unread: 1 }));

    assert_eq!(label.mark_undelete_update_stats(Some(&stats), &mut c), Ok(()));
    assert!(!label.deleted);
    assert_eq!(label.context_num_messages, before.context_num_messages);
    assert_eq!(label.context_num_unread, before.context_num_unread);
    assert_eq!(c, Some(counter));

    // without the label's counter the label does not exist
    let mut none = None;
    assert_eq!(
        label.mark_delete_update_stats(Some(&stats), &mut none),
        Err(ConversationLabelError::LabelNotFound(5))
    );
    // without statistics nothing happens
    let mut c2 = Some(counter);
    assert_eq!(label.mark_delete_update_stats(None, &mut c2), Ok(()));
    assert_eq!(c2, Some(counter));
}

#[test]
fn add_assign_merges_stats() {
    let mut l = context(5, "0", 1, 0);
    l.context_time = 10;
    l.context_expiration_time = ContextExpirationTime(90);
    let stats = ConversationMessageLabelStats {
        size: 4,
        time: 20,
        expiration_time: ContextExpirationTime(60),
        count: 2,
        unread: 1,
        num_attachments: 3,
        snooze_time: 0,
    };
    l.add_assign(stats);
    assert_eq!(l.context_num_messages, 3);
    assert_eq!(l.context_num_unread, 1);
    assert_eq!(l.context_time, 20);
    assert_eq!(l.context_expiration_time.0, 60);
    assert_eq!(l.context_num_attachments, 3);
    let fresh = ConversationLabel::from_stats(stats);
    assert!(fresh.are_stats_equal(&fresh.clone()));
    assert!(!fresh.are_stats_equal(&l));
}

#[test]
fn first_unread_message_picks_the_oldest_of_the_newest_unread_run() {
    let inbox = ViewLabel { label_type: LabelType::System, remote_id: Some("0".to_string()) };
    let msgs = vec![
        message(1, true, &["0"]),
        message(2, false, &["0"]),
        message(3, true, &["0"]),
        message(4, true, &["0"]),
    ];
    assert_eq!(Conversation::first_unread_message(&inbox, &msgs), Some(3));
    assert_eq!(Conversation::message_id_to_open(1, &inbox, &msgs), Ok(3));

    // without unread messages the newest message is opened
    let read = vec![message(1, false, &["0"]), message(2, false, &["0"])];
    assert_eq!(Conversation::first_unread_message(&inbox, &read), Some(2));

    // drafts do not count
    let mut draft = message(3, true, &["0"]);
    draft.flags.draft = true;
    let with_draft = vec![message(1, false, &["0"]), draft];
    assert_eq!(Conversation::first_unread_message(&inbox, &with_draft), Some(1));

    // automatically sent messages count only under labels, folders and starred
    let mut auto = message(2, true, &["0"]);
    auto.flags.sent_auto = true;
    let with_auto = vec![message(1, false, &["0"]), auto];
    assert_eq!(Conversation::first_unread_message(&inbox, &with_auto), Some(1));
    let starred = ViewLabel { label_type: LabelType::System, remote_id: Some("10".to_string()) };
    assert_eq!(Conversation::first_unread_message(&starred, &with_auto), Some(2));
}

#[test]
fn first_unread_message_under_a_custom_label() {
    let label = ViewLabel { label_type: LabelType::Label, remote_id: Some("L".to_string()) };
    let msgs = vec![message(1, false, &["L"]), message(2, false, &["0"])];
    assert_eq!(Conversation::first_unread_message(&label, &msgs), Some(1));
    let unnamed = ViewLabel { label_type: LabelType::Folder, remote_id: None };
    assert_eq!(Conversation::first_unread_message(&unnamed, &msgs), None);
}

#[test]
fn conversation_without_messages_has_none_to_open() {
    let inbox = ViewLabel { label_type: LabelType::System, remote_id: Some("0".to_string()) };
    assert_eq!(Conversation::first_unread_message(&inbox, &vec![]), None);
    assert_eq!(
        Conversation::message_id_to_open(7, &inbox, &vec![]),
        Err(AppError::ConversationHasNoMessages(7))
    );
}

#[test]
fn label_lookup_and_starred() {
    let c = conversation(vec![context(5, "0", 1, 0), context(6, "10", 1, 0)]);
    assert_eq!(c.label(6).map(|l| l.local_label_id), Some(Some(6)));
    assert!(c.label(9).is_none());
    assert!(c.is_starred());
    assert!(!conversation(vec![context(5, "0", 1, 0)]).is_starred());
}

#[test]
fn create_or_get_local_decisions() {
    let mut fresh = conversation(vec![context(5, "0", 2, 1)]);
    assert!(fresh.create_or_get_local(None, "0"));

    let mut stored = conversation(vec![context(5, "0", 2, 1)]);
    stored.local_id = Some(42);
    stored.is_known = true;
    let mut same = conversation(vec![context(5, "0", 2, 1)]);
    assert!(!same.create_or_get_local(Some(stored.clone()), "0"));
    assert_eq!(same.local_id, Some(42));

    let mut changed = conversation(vec![context(5, "0", 3, 1)]);
    assert!(changed.create_or_get_local(Some(stored.clone()), "0"));
    assert_eq!(changed.local_id, Some(42));
    assert_eq!(changed.labels[0].context_num_messages, 3);

    let mut placeholder = stored.clone();
    placeholder.is_known = false;
    let mut from_server = conversation(vec![context(5, "0", 2, 1)]);
    assert!(from_server.create_or_get_local(Some(placeholder), "0"));
    assert_eq!(from_server.local_id, Some(42));
}

#[test]
fn label_impl_counts_new_and_unread_conversations() {
    let stats = ConversationMessageLabelStats {
        size: 1,
        time: 5,
        expiration_time: ContextExpirationTime(0),
        count: 2,
        unread: 1,
        num_attachments: 0,
        snooze_time: 0,
    };
    let conv_c = ConversationCounters { local_label_id: 9, total: 1, unread: 0 };
    let msg_c = MessageCounter { local_label_id: 9, total: 4, unread: 1 };
    let (label, update) =
        Conversation::label_impl(9, 1, None, Some("L".to_string()), stats, Some(conv_c), Some(msg_c))
            .unwrap();
    assert_eq!(label.local_label_id, Some(9));
    assert_eq!(label.context_num_messages, 2);
    assert_eq!(update.conversation_counters.total, 2);
    assert_eq!(update.conversation_counters.unread, 1);
    assert_eq!(update.message_counters.total, 6);
    assert_eq!(update.message_counters.unread, 2);

    let existing = context(9, "L", 1, 1);
    let (label, update) =
        Conversation::label_impl(9, 1, Some(existing), None, stats, Some(conv_c), Some(msg_c))
            .unwrap();
    assert_eq!(label.context_num_messages, 3);
    assert_eq!(label.context_num_unread, 2);
    assert_eq!(update.conversation_counters.total, 1);
    assert_eq!(update.conversation_counters.unread, 0);

    assert_eq!(
        Conversation::label_impl(9, 1, None, None, stats, None, Some(msg_c)).err(),
        Some(AppError::LabelNotFound(9))
    );
}

#[test]
fn fallback_label_takes_the_largest_values() {
    let mut a = context(1, "5", 3, 1);
    a.context_time = 10;
    a.context_expiration_time = ContextExpirationTime(70);
    let mut b = context(2, "0", 2, 2);
    b.context_time = 30;
    b.context_expiration_time = ContextExpirationTime(40);
    let l = Conversation::fallback_label(1, 9, Some("L".to_string()), &vec![a, b]);
    assert_eq!(l.local_label_id, Some(9));
    assert_eq!(l.context_num_messages, 3);
    assert_eq!(l.context_num_unread, 2);
    assert_eq!(l.context_time, 30);
    assert_eq!(l.context_expiration_time.0, 40);
}

#[test]
fn mark_read_clears_unread_everywhere() {
    let mut c = conversation(vec![context(5, "0", 2, 1), context(6, "5", 2, 0), context(7, "10", 1, 1)]);
    c.num_unread = 2;
    c.display_snooze_reminder = true;
    let ids = c.mark_read_local();
    assert_eq!(ids, vec![5, 7]);
    assert_eq!(c.num_unread, 0);
    assert!(!c.display_snooze_reminder);
    assert!(c.labels.iter().all(|l| l.context_num_unread == 0));

    let mut counters = vec![
        ConversationCounters { local_label_id: 5, total: 3, unread: 2 },
        ConversationCounters { local_label_id: 6, total: 3, unread: 0 },
        ConversationCounters { local_label_id: 7, total: 3, unread: 0 },
    ];
    apply_read_counts(&mut counters, &ids);
    assert_eq!(counters[0].unread, 1);
    assert_eq!(counters[1].unread, 0);
    assert_eq!(counters[2].unread, 0);
}

#[test]
fn mark_unread_marks_the_contexts_of_the_message() {
    let mut c = conversation(vec![context(5, "0", 2, 0), context(6, "5", 2, 1), context(7, "10", 1, 0)]);
    assert!(c.needs_unread_mark(5));
    assert!(!c.needs_unread_mark(6));
    let bumped = c.mark_message_unread(&vec![(5, true), (6, true), (7, false)]);
    assert_eq!(bumped, vec![5]);
    assert_eq!(c.num_unread, 1);
    assert_eq!(c.labels[0].context_num_unread, 1);
    assert_eq!(c.labels[1].context_num_unread, 2);
    assert_eq!(c.labels[2].context_num_unread, 0);

    let mut c = conversation(vec![context(5, "0", 0, 0)]);
    assert!(c.mark_unread_without_messages(5));
    assert_eq!(c.labels[0].context_num_unread, 1);
    assert!(!c.mark_unread_without_messages(5));
    assert!(!c.mark_unread_without_messages(8));
    assert_eq!(c.num_unread, 3);
}

#[test]
fn snooze_validation() {
    assert_eq!(Conversation::validate_snooze(3, None, Some(10), 5), Err(AppError::LabelNotFound(3)));
    assert_eq!(
        Conversation::validate_snooze(3, Some((false, "Spam".to_string())), Some(10), 5),
        Err(AppError::InvalidSnoozeLocation("Spam".to_string()))
    );
    assert_eq!(
        Conversation::validate_snooze(3, Some((true, "Inbox".to_string())), Some(5), 5),
        Err(AppError::SnoozeTimeInThePast)
    );
    assert_eq!(Conversation::validate_snooze(3, Some((true, "Inbox".to_string())), Some(6), 5), Ok(()));
    assert_eq!(Conversation::validate_snooze(3, Some((true, "Inbox".to_string())), None, 5), Ok(()));
}

#[test]
fn sync_plans() {
    assert_eq!(
        Conversation::messages_sync_plan(4, None, true, 0, false),
        Err(AppError::ConversationNotFound(4))
    );
    let mut c = conversation(vec![]);
    assert_eq!(
        Conversation::messages_sync_plan(4, Some(&c), true, 0, false),
        Ok(ConversationSyncPlan::FetchMessages("c1".to_string()))
    );
    assert_eq!(Conversation::messages_sync_plan(4, Some(&c), true, 0, true), Err(offline()));
    c.remote_id = None;
    assert_eq!(
        Conversation::messages_sync_plan(4, Some(&c), true, 0, false),
        Err(AppError::ConversationHasNoRemoteId(4))
    );
    assert_eq!(
        Conversation::messages_sync_plan(4, Some(&c), true, 0, true),
        Err(AppError::ConversationHasNoRemoteId(4))
    );
    c.has_messages = true;
    c.num_messages = 3;
    assert_eq!(Conversation::messages_sync_plan(4, Some(&c), true, 2, false), Ok(ConversationSyncPlan::Resync));
    assert_eq!(Conversation::messages_sync_plan(4, Some(&c), true, 2, true), Ok(ConversationSyncPlan::Resync));
    assert_eq!(
        Conversation::messages_sync_plan(4, Some(&c), false, 2, false),
        Ok(ConversationSyncPlan::AlreadySynced)
    );
    assert_eq!(
        Conversation::fetch_error(&"c1".to_string(), true, offline()),
        AppError::ConversationDoesNotExistOnServer("c1".to_string())
    );
    assert_eq!(Conversation::fetch_error(&"c1".to_string(), false, offline()), offline());
}

#[test]
fn label_as_plans() {
    assert_eq!(Conversation::label_as_plan(false, false), LabelAsPlan::Noop);
    assert_eq!(Conversation::label_as_plan(true, false), LabelAsPlan::LabelOnly);
    assert_eq!(Conversation::label_as_plan(false, true), LabelAsPlan::MoveOnly);
    assert_eq!(Conversation::label_as_plan(true, true), LabelAsPlan::LabelThenMove);
    let mut unknown = context(5, "0", 1, 0);
    unknown.local_conversation_id = None;
    let pairs = Conversation::label_pairs(&vec![context(5, "0", 1, 0), unknown]);
    assert_eq!(pairs.len(), 1);
    assert_eq!((pairs[0].label, pairs[0].id), (5, 1));
}

#[test]
fn removing_a_label_updates_the_context_and_counter() {
    let stats = ConversationMessageLabelStats {
        size: 1,
        time: 5,
        expiration_time: ContextExpirationTime(0),
        count: 1,
        unread: 0,
        num_attachments: 0,
        snooze_time: 0,
    };
    let mut counter = ConversationCounters { local_label_id: 5, total: 2, unread: 2 };
    match Conversation::context_after_label_removal(Some(stats), Some(context(5, "0", 2, 1)), 1, &mut counter) {
        ContextAfterRemoval::Update(l) => {
            assert_eq!(l.context_num_messages, 1);
            assert_eq!(l.context_num_unread, 0);
        }
        _ => panic!("expected an update"),
    }
    assert_eq!(counter.unread, 1);
    assert_eq!(counter.total, 2);
    let r = Conversation::context_after_label_removal(None, Some(context(5, "0", 1, 1)), 1, &mut counter);
    assert!(matches!(r, ContextAfterRemoval::Delete));
    assert_eq!((counter.total, counter.unread), (1, 0));
    let r = Conversation::context_after_label_removal(None, None, 1, &mut counter);
    assert!(matches!(r, ContextAfterRemoval::Unchanged));

    let mut counter = ConversationCounters { local_label_id: 5, total: 2, unread: 2 };
    Conversation::remove_label_update_counter(&mut counter, Some(3));
    assert_eq!((counter.total, counter.unread), (1, 1));
    Conversation::remove_label_update_counter(&mut counter, None);
    assert_eq!((counter.total, counter.unread), (1, 1));
}

#[test]
fn conversation_delete_and_undelete_totals() {
    let mut c = conversation(vec![]);
    c.num_messages = 4;
    c.num_unread = 2;
    c.size = 40;
    let s = MessageLabelStats { unread_count: 1, count: 2, attachment_count: 0, size: 20 };
    c.mark_delete_update_stats(2, Some(&s));
    assert_eq!((c.num_messages, c.num_unread, c.size), (2, 1, 20));
    assert!(!c.deleted);
    c.mark_undelete_update_stats(Some(&s));
    assert_eq!((c.num_messages, c.num_unread, c.size), (4, 2, 40));
    c.mark_delete_update_stats(0, None);
    assert!(c.deleted);
    c.mark_deleted_in_all_mail();
    assert_eq!((c.num_messages, c.num_unread, c.size), (0, 0, 0));
    c.mark_undeleted_in_all_mail(&s);
    assert!(!c.deleted);
    assert_eq!(c.num_messages, 2);
    assert!(Conversation::is_all_mail(Some(5), 5));
    assert!(!Conversation::is_all_mail(None, 5));
}

#[test]
fn after_save_sets_the_snooze_time() {
    let mut snoozed = context(8, "16", 1, 0);
    snoozed.context_snooze_time = 999;
    let mut c = conversation(vec![context(5, "0", 1, 0), snoozed]);
    c.local_id = Some(77);
    c.after_save();
    assert_eq!(c.snoozed_until, Some(999));
    assert!(c.labels.iter().all(|l| l.local_conversation_id == Some(77)));
    assert_eq!(c.remote_label_ids(), vec!["0".to_string(), "16".to_string()]);
    let mut existing = conversation(vec![]);
    existing.local_id = Some(3);
    existing.has_messages = true;
    c.before_save(Some(&existing));
    assert_eq!(c.local_id, Some(3));
    assert!(c.has_messages);
}

fn offline() -> AppError {
    AppError::Api(ApiServiceError { network_failure: true, message: "No connection".to_string() })
}

#[test]
fn push_sync_starts_from_a_stored_conversation_with_a_remote_id() {
    assert_eq!(Conversation::push_sync_plan(4, None, false), Err(AppError::ConversationNotFound(4)));
    let mut c = Conversation::unknown("rc".to_string());
    assert_eq!(Conversation::push_sync_plan(4, Some(&c), false), Ok("rc".to_string()));
    assert_eq!(Conversation::push_sync_plan(4, Some(&c), true), Err(offline()));
    c.remote_id = None;
    assert_eq!(
        Conversation::push_sync_plan(4, Some(&c), false),
        Err(AppError::ConversationHasNoRemoteId(4))
    );
}
