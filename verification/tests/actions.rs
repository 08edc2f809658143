use mail_common::actions::SnoozeTarget;
use mail_common::attachment::{Attachment, Disposition};
use mail_common::conversation::{ContextExpirationTime, Conversation, ConversationLabel};
use mail_common::draft::{
    DraftAttachmentMetadata, DraftAttachmentOwnership, DraftAttachmentUploadState,
};
use mail_common::errors::AppError;
use mail_common::labels::{Label, LabelType};
use mail_common::message::Message;

fn context(label: u64, snooze_time: u64) -> ConversationLabel {
    ConversationLabel {
        local_id: None,
        local_conversation_id: Some(1),
        local_label_id: Some(label),
        remote_label_id: Some(format!("r{label}")),
        context_expiration_time: ContextExpirationTime(0),
        context_num_attachments: 0,
        context_num_messages: 1,
        context_num_unread: 0,
        context_size: 0,
        context_snooze_time: snooze_time,
        context_time: 0,
        deleted: false,
    }
}

fn conversation(id: u64, labels: &[u64]) -> Conversation {
    let mut c = Conversation::unknown(format!("c{id}"));
    c.local_id = Some(id);
    c.labels = labels.iter().map(|l| context(*l, 0)).collect();
    c
}

fn label(local_id: u64, label_type: LabelType) -> Label {
    Label {
        local_id: Some(local_id),
        remote_id: Some(local_id.to_string()),
        local_parent_id: None,
        remote_parent_id: None,
        color: String::new(),
        display: true,
        expanded: false,
        label_type,
        name: format!("l{local_id}"),
        notify: false,
        display_order: 0,
        path: None,
        sticky: false,
        row_id: None,
    }
}

fn ids(labels: &[Label]) -> Vec<u64> {
    labels.iter().map(|l| l.local_id.unwrap()).collect()
}

#[test]
fn move_targets_exclude_the_view() {
    let system = vec![label(1, LabelType::System), label(2, LabelType::System), label(3, LabelType::System)];
    let folders = vec![label(10, LabelType::Folder), label(11, LabelType::Folder)];
    let convs = vec![conversation(7, &[2, 5]), conversation(8, &[2])];
    let r = Conversation::move_to_labels(Some(2), &"Inbox".to_string(), &vec![7, 8], &convs, system.clone(), folders.clone())
        .unwrap();
    assert_eq!(ids(&r), vec![1, 3, 10, 11]);
    let m = Message::move_to_labels(Some(3), &vec![1], system.clone(), folders.clone()).unwrap();
    assert_eq!(ids(&m), vec![1, 2, 10, 11]);
}

#[test]
fn move_targets_need_a_selection_under_the_view() {
    let system = vec![label(1, LabelType::System)];
    assert_eq!(
        Conversation::move_to_labels(Some(2), &"Inbox".to_string(), &vec![], &vec![], system.clone(), vec![])
            .unwrap_err(),
        AppError::EmptyListOfConversations
    );
    let convs = vec![conversation(7, &[2]), conversation(8, &[5]), conversation(9, &[6])];
    assert_eq!(
        Conversation::move_to_labels(Some(2), &"Inbox".to_string(), &vec![7, 8, 9], &convs, system.clone(), vec![])
            .unwrap_err(),
        AppError::ConversationDoesNotHaveLabel(8, "Inbox".to_string())
    );
    assert_eq!(
        Message::move_to_labels(Some(2), &vec![], system, vec![]).unwrap_err(),
        AppError::EmptyListOfMessages
    );
}

#[test]
fn snooze_targets_and_times() {
    assert_eq!(Conversation::snooze_target(vec![]), SnoozeTarget::Conversation);
    assert_eq!(Conversation::snooze_target(vec![4, 5]), SnoozeTarget::Messages(vec![4, 5]));
    let mut c = conversation(1, &[]);
    c.labels = vec![context(3, 0), context(16, 9000)];
    assert_eq!(c.context_snooze_time(16), Some(9000));
    assert_eq!(c.context_snooze_time(3), Some(0));
    assert_eq!(c.context_snooze_time(4), None);
}

#[test]
fn draft_attachments_after_sync() {
    let mut a = Attachment::new_local(
        "addr".to_string(),
        None,
        Disposition::Attachment,
        "x.png".to_string(),
        "image/png".to_string(),
        5,
        String::new(),
    );
    a.local_id = Some(40);
    let mut k = Attachment::new_public_key(None, None, "a@b.c", "1234abcd", 9);
    k.local_id = Some(41);
    let records = DraftAttachmentMetadata::after_sync_at(3, &vec![a.clone(), k.clone()], 777);
    assert_eq!(records.len(), 2);
    assert_eq!(records[0].local_attachment_id, 40);
    assert_eq!(records[0].display_order, 0);
    assert!(!records[0].is_public_key);
    assert_eq!(records[1].local_attachment_id, 41);
    assert_eq!(records[1].display_order, 1);
    assert!(records[1].is_public_key);
    for r in &records {
        assert_eq!(r.metadata_id, 3);
        assert_eq!(r.state(), DraftAttachmentUploadState::Uploaded);
        assert_eq!(r.ownership, DraftAttachmentOwnership::Owned);
        assert_eq!(r.state_timestamp(), 777);
        assert!(r.error.is_none() && r.action_id.is_none() && !r.deleted);
    }
    assert!(DraftAttachmentUploadState::Error.is_kept_after_sync());
    assert!(DraftAttachmentUploadState::Offline.is_kept_after_sync());
    assert!(!DraftAttachmentUploadState::Uploaded.is_kept_after_sync());
    assert!(!DraftAttachmentUploadState::Pending.is_kept_after_sync());
}

#[test]
fn inherited_attachments_and_sync_now() {
    let mut k = Attachment::new_public_key(None, None, "a@b.c", "1234abcd", 9);
    k.local_id = Some(41);
    let i = DraftAttachmentMetadata::inherited_at(3, &k, 2, 10);
    assert_eq!(i.ownership, DraftAttachmentOwnership::Inherited);
    assert_eq!(i.state(), DraftAttachmentUploadState::Uploaded);
    assert_eq!((i.local_attachment_id, i.display_order, i.state_timestamp()), (41, 2, 10));
    assert!(i.is_public_key);
    let j = DraftAttachmentMetadata::inherited(3, &k, 0);
    assert_eq!(j.ownership, DraftAttachmentOwnership::Inherited);
    let now = DraftAttachmentMetadata::after_sync(3, &vec![k.clone(), k]);
    assert_eq!(now.len(), 2);
    assert_eq!(now[0].state_timestamp(), now[1].state_timestamp());
    assert_eq!(now[1].display_order, 1);
}
