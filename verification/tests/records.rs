use mail_common::default_location::IncomingDefaultLocation;
use mail_common::labels::{Label, LabelType, LabelWithCounters, SystemLabelId};
use mail_common::mail_settings::{AlmostAllMail, MailSettings, ShowMoved, SyncedMailSettings};
use mail_common::message_body::{RawDecryptedBody, RawMessageBody, RawMessageBodyType};
use mail_common::message_mime_type::{MessageMimeType, MimeType};
use mail_common::prefetch::{DefaultPrefetchLabels, Prefetch, PrefetchJob, PREFETCH_COUNT};
use mail_common::records::{
    DecryptableMailPushNotification, DecryptedMailPushNotification, DeletedItem,
    InitializedComponent, NotificationKind, PaginatorFilter, PaginatorSearchOptions,
    request_batches, TOMBSTONE_RETENTION_SECONDS,
};
use mail_common::rollback::{needs_parent_check, prune_unresolved_parent, rollback_batches, RollbackItem};
use mail_common::search_results::{match_positions, MatchOccurrence, SearchMatchAttribute, SearchMatchPosition};
use mail_common::sidebar::{LabelTotals, Sidebar};
use mail_common::types::{DeletedItemType, RollbackItemType, ViewMode};

#[test]
fn initialized_components_and_notifications() {
    let c = InitializedComponent::new("sync".to_string());
    assert_eq!(c.key, "sync");
    assert_eq!(c.row_id, None);
    assert!(InitializedComponent::needs_insert(false));
    assert!(!InitializedComponent::needs_insert(true));
    assert_eq!(
        NotificationKind::Email.into_decrypted_push_mail_notification(),
        DecryptedMailPushNotification::Email
    );
    assert_eq!(
        NotificationKind::OpenUrl.into_decrypted_push_mail_notification(),
        DecryptedMailPushNotification::OpenUrl
    );
    assert_eq!(PaginatorFilter::default().unread, None);
    assert!(PaginatorSearchOptions::default().keywords.is_none());
}

#[test]
fn tombstones_expire_after_a_day() {
    let d = DeletedItem::new_at("r".to_string(), DeletedItemType::Message, 1_000);
    assert_eq!(d.deleted_at, 1_000);
    assert!(!d.is_stale(1_000 + TOMBSTONE_RETENTION_SECONDS));
    assert!(d.is_stale(1_001 + TOMBSTONE_RETENTION_SECONDS));
    assert!(!d.is_stale(5));
    let n = DeletedItem::new("x".to_string(), DeletedItemType::Label);
    assert_eq!(n.item_type, DeletedItemType::Label);
    assert!(n.deleted_at > 0);
}

#[test]
fn batches_cut_like_chunks() {
    assert_eq!(rollback_batches(0, Some(3)), vec![]);
    assert_eq!(rollback_batches(7, Some(3)), vec![(0, 3), (3, 6), (6, 7)]);
    assert_eq!(rollback_batches(6, Some(3)), vec![(0, 3), (3, 6)]);
    assert_eq!(rollback_batches(5, None), vec![(0, 5)]);
    assert_eq!(request_batches(4, 2), vec![(0, 2), (2, 4)]);
    let r = RollbackItem::new("id".to_string(), RollbackItemType::Conversation);
    assert_eq!(r.item_type, RollbackItemType::Conversation);
}

#[test]
fn rolled_back_parents() {
    let ids = vec!["a".to_string(), "b".to_string()];
    assert!(!needs_parent_check(&None, &ids));
    assert!(!needs_parent_check(&Some("a".to_string()), &ids));
    assert!(needs_parent_check(&Some("c".to_string()), &ids));
    assert_eq!(prune_unresolved_parent(Some("a".to_string()), &ids), None);
    assert_eq!(prune_unresolved_parent(Some("c".to_string()), &ids), Some("c".to_string()));
    assert_eq!(prune_unresolved_parent(None, &ids), None);
}

#[test]
fn prefetching() {
    let labels = DefaultPrefetchLabels { inbox: 1, sent: 2, all_sent: 3, drafts: 4, all_drafts: 5 };
    assert_eq!(
        PrefetchJob::default_locations(ViewMode::Conversations, labels),
        vec![
            PrefetchJob::LocationCnvView(1),
            PrefetchJob::LocationMsgView(2),
            PrefetchJob::LocationMsgView(3),
            PrefetchJob::LocationMsgView(4),
            PrefetchJob::LocationMsgView(5),
        ]
    );
    assert_eq!(
        PrefetchJob::default_locations(ViewMode::Messages, labels)[0],
        PrefetchJob::LocationMsgView(1)
    );
    let ids: Vec<u64> = (0..25).collect();
    assert_eq!(Prefetch::items_to_prefetch(&ids), (0..PREFETCH_COUNT as u64).collect::<Vec<_>>());
    assert_eq!(Prefetch::items_to_prefetch(&vec![7, 8]), vec![7, 8]);
}

fn totals(total_msg: u64, total_conv: u64) -> LabelTotals {
    LabelTotals { total_msg, total_conv }
}

#[test]
fn sidebar_lists_system_labels() {
    let settings = MailSettings::default();
    let none = totals(0, 0);
    assert_eq!(
        Sidebar.system_labels(&settings, none, none, none),
        vec![
            SystemLabelId::Inbox,
            SystemLabelId::Drafts,
            SystemLabelId::Starred,
            SystemLabelId::Sent,
            SystemLabelId::Spam,
            SystemLabelId::Archive,
            SystemLabelId::Trash,
            SystemLabelId::AllMail,
        ]
    );
    let mut settings = MailSettings::default();
    settings.show_moved = ShowMoved::KeepBoth;
    settings.almost_all_mail = AlmostAllMail::Enabled;
    assert_eq!(
        Sidebar.system_labels(&settings, totals(1, 0), totals(0, 1), totals(0, 0)),
        vec![
            SystemLabelId::Inbox,
            SystemLabelId::AllDrafts,
            SystemLabelId::AllScheduled,
            SystemLabelId::Outbox,
            SystemLabelId::Starred,
            SystemLabelId::AllSent,
            SystemLabelId::Spam,
            SystemLabelId::Archive,
            SystemLabelId::Trash,
            SystemLabelId::AlmostAllMail,
        ]
    );
    let l = LabelWithCounters {
        label: Label {
            local_id: Some(1),
            remote_id: Some("16".to_string()),
            local_parent_id: None,
            remote_parent_id: None,
            color: String::new(),
            display: true,
            expanded: false,
            label_type: LabelType::System,
            name: "Snoozed".to_string(),
            notify: false,
            display_order: 0,
            path: None,
            sticky: false,
            row_id: None,
        },
        total_msg: 2,
        unread_msg: 0,
        total_conv: 1,
        unread_conv: 0,
    };
    assert_eq!(LabelTotals::of(&l), totals(2, 1));
}

#[test]
fn mail_settings_parts() {
    let mut s = MailSettings::default();
    assert_eq!(s.delay_send_seconds, 10);
    assert_eq!(s.all_mail(), SystemLabelId::AllMail);
    s.sign = true;
    s.pgp_scheme = 8;
    let c = s.crypto_mail_settings();
    assert!(c.sign);
    assert_eq!(c.pgp_scheme, 8);
    assert_eq!(c.mime_type, MimeType::TextHtml);
    let mut stored = MailSettings::default();
    stored.row_id = Some(3);
    s.adopt_existing_row(Some(&stored));
    assert_eq!(s.row_id, Some(3));
    s.adopt_existing_row(None);
    assert_eq!(s.row_id, Some(3));
    let synced = SyncedMailSettings::new(s);
    assert_eq!(synced.into_settings().pgp_scheme, 8);
}

#[test]
fn mime_types() {
    assert_eq!(MessageMimeType::default(), MessageMimeType::TextHtml);
    assert_eq!(
        MessageMimeType::from_api(MimeType::TextPlain, || MessageMimeType::TextHtml),
        MessageMimeType::TextPlain
    );
    assert_eq!(
        MessageMimeType::from_api(MimeType::MultipartMixed, || MessageMimeType::TextPlain),
        MessageMimeType::TextPlain
    );
    assert_eq!(MessageMimeType::TextPlain.to_api(), MimeType::TextPlain);
    for t in [MessageMimeType::TextHtml, MessageMimeType::TextPlain] {
        assert_eq!(MessageMimeType::from_sql_text(t.as_sql_text()), Some(t));
    }
    assert_eq!(MessageMimeType::TextHtml.as_sql_text(), "text/html");
    assert_eq!(MessageMimeType::from_sql_text("text/xml"), None);
}

#[test]
fn raw_bodies() {
    assert_eq!(RawMessageBodyType::from_column(1), Ok(RawMessageBodyType::Mime));
    assert_eq!(RawMessageBodyType::from_column(2), Err(2));
    assert_eq!(RawMessageBodyType::Plain.to_column(), 0);
    let draft = RawMessageBody::local_draft("héllo");
    assert_eq!(draft.body(), "héllo".as_bytes());
    assert!(!draft.decryption_failed());
    match draft.clone().into_raw_decrypted_body() {
        Ok(RawDecryptedBody::Plain { raw_body, signatures }) => {
            assert_eq!(raw_body, "héllo".as_bytes().to_vec());
            assert!(signatures.is_empty());
        }
        _ => panic!("expected a plain body"),
    }
    let mime = RawMessageBody::ok(RawDecryptedBody::Mime {
        message_id: "mid".to_string(),
        raw_body: vec![1, 2],
        signatures: vec![3],
    });
    match mime.into_raw_decrypted_body() {
        Ok(RawDecryptedBody::Mime { message_id, raw_body, signatures }) => {
            assert_eq!(message_id, "mid");
            assert_eq!(raw_body, vec![1, 2]);
            assert_eq!(signatures, vec![3]);
        }
        _ => panic!("expected a MIME body"),
    }
    let failed = RawMessageBody::error(b"text".to_vec(), "bad key");
    assert!(failed.decryption_failed());
    match failed.into_raw_decrypted_body() {
        Err(e) => {
            assert_eq!(e.error, "bad key");
            assert_eq!(e.body, "text");
        }
        Ok(_) => panic!("expected an error"),
    }
    let garbage = RawMessageBody::error(vec![0xff, 0xfe], "bad");
    match garbage.into_raw_decrypted_body() {
        Err(e) => assert_eq!(e.body, "Invalid utf8"),
        Ok(_) => panic!("expected an error"),
    }
}

#[test]
fn search_attributes_and_positions() {
    for a in [
        SearchMatchAttribute::Body,
        SearchMatchAttribute::Subject,
        SearchMatchAttribute::From,
        SearchMatchAttribute::To,
        SearchMatchAttribute::Cc,
        SearchMatchAttribute::Bcc,
    ] {
        assert_eq!(SearchMatchAttribute::from_str(a.as_str()), Some(a));
    }
    assert_eq!(SearchMatchAttribute::from_str("Body"), None);
    let occ = vec![
        MatchOccurrence { attribute: "subject".to_string(), position: 3, value_index: 0 },
        MatchOccurrence { attribute: "unknown".to_string(), position: 1, value_index: 0 },
        MatchOccurrence { attribute: "cc".to_string(), position: 0, value_index: 2 },
    ];
    assert_eq!(
        match_positions(&occ),
        vec![
            SearchMatchPosition { attribute: SearchMatchAttribute::Subject, position: 3, value_index: 0 },
            SearchMatchPosition { attribute: SearchMatchAttribute::Cc, position: 0, value_index: 2 },
        ]
    );
}

#[test]
fn default_locations_and_pages() {
    for v in [0u8, 4, 14] {
        assert_eq!(IncomingDefaultLocation::try_from_repr(v).unwrap().to_repr(), v);
    }
    assert_eq!(IncomingDefaultLocation::try_from_repr(3), Err(3));
    assert_eq!(IncomingDefaultLocation::remaining_pages(50, 100), 0);
    assert_eq!(IncomingDefaultLocation::remaining_pages(100, 100), 0);
    assert_eq!(IncomingDefaultLocation::remaining_pages(101, 100), 1);
    assert_eq!(IncomingDefaultLocation::remaining_pages(300, 100), 2);
    assert_eq!(IncomingDefaultLocation::remaining_pages(301, 100), 3);
}
