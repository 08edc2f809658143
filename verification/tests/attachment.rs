use mail_common::attachment::{
    Attachment, AttachmentType, Disposition, MAX_ATTACHMENT_SIZE, PGP_KEYS_MIME_TYPE,
};
use mail_common::attachment_cache::{
    attachments_to_delete, bytes_to_delete, evicted_prefix, sort_by_utility, utility_class,
    AttachmentCacheMetadata, UtilityClass, RETAINED_UTILITY,
};
use mail_common::draft_errors::{AttachmentUploadError, DraftError, MailContextError};
use mail_common::errors::AppError;

fn local(disposition: Disposition) -> Attachment {
    Attachment::new_local(
        "addr".to_string(),
        Some(3),
        disposition,
        "photo.png".to_string(),
        "image/png".to_string(),
        1234,
        "cid-1".to_string(),
    )
}

#[test]
fn local_file_validation() {
    assert!(matches!(
        Attachment::validate_local_file(false, Some("a".to_string()), None, 1),
        Err(MailContextError::App(AppError::InvalidInput(m))) if m == "Path is not file"
    ));
    assert!(matches!(
        Attachment::validate_local_file(true, None, Some("b".to_string()), 1),
        Err(MailContextError::App(AppError::InvalidInput(m))) if m == "Path does not have a file name"
    ));
    assert_eq!(
        Attachment::validate_local_file(true, Some("a".to_string()), None, MAX_ATTACHMENT_SIZE + 1),
        Err(MailContextError::Draft(DraftError::AttachmentUpload(
            AttachmentUploadError::AttachmentTooLarge
        )))
    );
    assert_eq!(
        Attachment::validate_local_file(true, Some("a".to_string()), None, MAX_ATTACHMENT_SIZE),
        Ok("a".to_string())
    );
    assert_eq!(
        Attachment::validate_local_file(true, Some("a".to_string()), Some("b".to_string()), 0),
        Ok("b".to_string())
    );
}

#[test]
fn new_local_attachments() {
    let inline = local(Disposition::Inline);
    assert_eq!(inline.content_id, Some("cid-1".to_string()));
    assert_eq!(inline.attachment_type, AttachmentType::Remote(None));
    assert_eq!(inline.remote_id(), None);
    assert_eq!(inline.size, 1234);
    assert_eq!(inline.filename, "photo.png");
    assert!(!inline.has_complete_metadata());
    let attached = local(Disposition::Attachment);
    assert_eq!(attached.content_id, None);
    assert_eq!(attached.as_inline_img(), None);
    assert_eq!(
        inline.as_inline_img(),
        Some("<img src=\"cid:cid-1\" style=\"max-width: 100%;\"><br>".to_string())
    );
}

#[test]
fn public_key_attachments() {
    assert_eq!(
        Attachment::public_key_attachment_filename("a@b.ch", "abcdef12ffff"),
        "publickey - a@b.ch - 0xABCDEF12.asc"
    );
    let k = Attachment::new_public_key(Some(1), Some("r".to_string()), "me@x.y", "0a1b2c3d4e", 321);
    assert_eq!(k.filename, "publickey - me@x.y - 0x0A1B2C3D.asc");
    assert_eq!(k.mime_type, PGP_KEYS_MIME_TYPE);
    assert_eq!(k.size, 321);
    assert_eq!(k.disposition, Disposition::Attachment);
    assert!(k.is_public_key_attachment());
    assert!(Attachment::is_public_key_attachment_filename("publickey - x.asc"));
    assert!(!Attachment::is_public_key_attachment_filename("publickey - x.txt"));
    assert!(!Attachment::is_public_key_attachment_filename("key - x.asc"));
    assert!(!Attachment::is_public_key_attachment_filename(".asc"));
    let mut not_key = k.clone();
    not_key.mime_type = "text/plain".to_string();
    assert!(!not_key.is_public_key_attachment());
    assert!(AttachmentType::Pgp.is_pgp());
    assert!(!k.is_pgp_attachment());
    let mut pgp = k.clone();
    pgp.attachment_type = AttachmentType::Pgp;
    assert!(pgp.is_pgp_attachment());
    assert!(!AttachmentType::Remote(None).is_pgp());
}

#[test]
fn stored_attachment_keeps_server_metadata() {
    let mut a = local(Disposition::Attachment);
    a.signature = Some(vec![9]);
    let mut stored = local(Disposition::Attachment);
    stored.attachment_type = AttachmentType::Remote(Some("rid".to_string()));
    stored.key_packets = Some(vec![1, 2]);
    stored.signature = Some(vec![3]);
    stored.enc_signature = Some(vec![4]);
    a.keep_stored_metadata(stored);
    assert_eq!(a.remote_id(), Some("rid".to_string()));
    assert_eq!(a.key_packets, Some(vec![1, 2]));
    assert_eq!(a.signature, Some(vec![9]));
    assert_eq!(a.enc_signature, Some(vec![4]));
    a.remote_address_id = Some("x".to_string());
    assert!(a.has_complete_metadata());
    let mut b = local(Disposition::Attachment);
    b.keep_stored_metadata(local(Disposition::Attachment));
    assert_eq!(b.attachment_type, AttachmentType::Remote(None));
}

fn cached(id: u64, size: u64) -> AttachmentCacheMetadata {
    AttachmentCacheMetadata {
        attachment_id: id,
        atime: 0,
        ctime: 0,
        hit_count: 0,
        path: format!("/cache/{id}"),
        size,
    }
}

#[test]
fn utility_classes() {
    assert_eq!(utility_class(true, false, true, 5), UtilityClass::Retained);
    assert_eq!(utility_class(false, true, true, 5), UtilityClass::Retained);
    assert_eq!(utility_class(false, false, false, 5), UtilityClass::Retained);
    assert_eq!(utility_class(false, false, true, 0), UtilityClass::Useless);
    assert_eq!(utility_class(false, false, true, 5), UtilityClass::Scored);
}

#[test]
fn cleanup_only_when_over_the_limit() {
    assert_eq!(bytes_to_delete(10, 20), None);
    assert_eq!(bytes_to_delete(20, 20), Some(2));
    assert_eq!(bytes_to_delete(25, 20), Some(7));
    assert_eq!(bytes_to_delete(1005, 1000), Some(105));
    assert_eq!(bytes_to_delete(9, 9), Some(0));
}

#[test]
fn sorting_orders_by_utility() {
    let atts = vec![(30, cached(1, 1)), (0, cached(2, 1)), (RETAINED_UTILITY, cached(3, 1)), (10, cached(4, 1))];
    let sorted = sort_by_utility(atts);
    let keys: Vec<u64> = sorted.iter().map(|a| a.0).collect();
    assert_eq!(keys, vec![0, 10, 30, RETAINED_UTILITY]);
    assert_eq!(sorted[0].1.attachment_id, 2);
}

#[test]
fn eviction_frees_enough_and_keeps_retained() {
    let sorted = vec![
        (0, cached(1, 0)),
        (5, cached(2, 100)),
        (7, cached(3, 100)),
        (RETAINED_UTILITY, cached(4, 1000)),
    ];
    assert_eq!(evicted_prefix(&sorted, 150), 3);
    assert_eq!(evicted_prefix(&sorted, 50), 2);
    assert_eq!(evicted_prefix(&sorted, -1), 1);
    assert_eq!(evicted_prefix(&sorted, 10_000), 3);
    let atts = vec![
        (RETAINED_UTILITY, cached(4, 1000)),
        (7, cached(3, 100)),
        (0, cached(1, 0)),
        (5, cached(2, 100)),
    ];
    let gone: Vec<u64> = attachments_to_delete(atts, 50).iter().map(|a| a.1.attachment_id).collect();
    assert_eq!(gone, vec![1, 2]);
}

#[test]
fn useless_attachments_go_even_when_nothing_must_be_freed() {
    let atts = vec![(9, cached(5, 10)), (0, cached(6, 0)), (0, cached(7, 0))];
    let gone: Vec<u64> = attachments_to_delete(atts, -5).iter().map(|a| a.1.attachment_id).collect();
    assert_eq!(gone.len(), 2);
    assert!(gone.contains(&6) && gone.contains(&7));
}

fn kb(bytes: u64) -> u64 {
    bytes * 1024
}

/// A key that orders as a utility inversely proportional to the size does.
fn by_size(id: u64, size: u64) -> (u64, AttachmentCacheMetadata) {
    (1_000_000_000_000 / size, cached(id, size))
}

#[test]
fn partial_deletion_takes_the_least_useful_until_enough_is_freed() {
    let atts = vec![by_size(1, kb(100)), by_size(2, kb(200)), by_size(3, kb(50))];
    let gone: Vec<u64> = attachments_to_delete(atts, 250_000).iter().map(|a| a.1.attachment_id).collect();
    assert_eq!(gone, vec![2, 1]);
}

#[test]
fn zero_sized_and_retained_attachments() {
    let atts = vec![(0, cached(1, 0)), by_size(2, 1)];
    let all: Vec<u64> = attachments_to_delete(atts, i64::MAX).iter().map(|a| a.1.attachment_id).collect();
    assert_eq!(all, vec![1, 2]);
    let atts = vec![(RETAINED_UTILITY, cached(3, kb(150))), by_size(4, kb(150))];
    let all: Vec<u64> = attachments_to_delete(atts, i64::MAX).iter().map(|a| a.1.attachment_id).collect();
    assert_eq!(all, vec![4]);
}

#[test]
fn local_attachments_from_files_take_the_detected_media_type() {
    let png = b"\x89\x50\x4E\x47\x0D\x0A\x1A\x0A".to_vec();
    let a = Attachment::local_from_file(
        "addr".to_string(),
        Some(2),
        Disposition::Inline,
        "pic".to_string(),
        &png,
        8,
        "cid-9".to_string(),
    );
    assert_eq!(a.mime_type, "image/png");
    assert_eq!(a.filename, "pic");
    assert_eq!(a.size, 8);
    assert_eq!(a.content_id, Some("cid-9".to_string()));
    assert_eq!(a.local_address_id, Some(2));
    let empty = Attachment::local_from_file(
        "addr".to_string(),
        None,
        Disposition::Attachment,
        "e".to_string(),
        &vec![],
        0,
        "cid".to_string(),
    );
    assert_eq!(empty.mime_type, "application/x-empty");
    assert_eq!(empty.content_id, None);
}

#[test]
fn attachments_are_local_by_default() {
    assert_eq!(AttachmentType::default(), AttachmentType::Remote(None));
}

#[test]
fn only_remote_attachments_known_to_the_server_are_fetched() {
    let mut a = local(Disposition::Attachment);
    assert_eq!(
        a.remote_id_to_fetch(),
        Err(MailContextError::CalledFetchedAttachmentLocalAttachment)
    );
    a.attachment_type = AttachmentType::Pgp;
    assert_eq!(a.remote_id_to_fetch(), Err(MailContextError::CalledFetchedAttachmentOnPgp));
    a.attachment_type = AttachmentType::Remote(Some("rid".to_string()));
    assert_eq!(a.remote_id_to_fetch(), Ok("rid".to_string()));
}
