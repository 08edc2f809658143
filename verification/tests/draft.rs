use mail_common::draft::{
    DraftAttachmentInternalDispositionError, DraftAttachmentInternalError,
    DraftAttachmentInternalUploadError, DraftAttachmentMetadata, DraftAttachmentOwnership,
    DraftAttachmentUploadState, DraftExpirationOption, DraftExpirationTime, DraftMetadata,
    DraftSendResult, DraftSendResultOrigin,
};
use mail_common::draft_errors::{
    ApiServiceError, AttachmentDispositionSwapError, AttachmentUploadError, DraftError,
    DraftSendFailure, MailContextError,
};

#[test]
fn expiration_option_round_trips_through_its_number() {
    for v in 0u8..=4 {
        let o = DraftExpirationOption::try_from_repr(v).unwrap();
        assert_eq!(o.to_repr(), v);
    }
    assert_eq!(DraftExpirationOption::try_from_repr(5), Err(5));
    assert_eq!(DraftExpirationOption::try_from_repr(255), Err(255));
}

#[test]
fn send_result_origin_round_trips_through_its_number() {
    for v in 0u8..=5 {
        let o = DraftSendResultOrigin::try_from_repr(v).unwrap();
        assert_eq!(o.to_repr(), v);
    }
    assert_eq!(DraftSendResultOrigin::try_from_repr(6), Err(6));
    assert_eq!(
        DraftSendResultOrigin::try_from_repr(5),
        Ok(DraftSendResultOrigin::AttachmentDispositionSwap)
    );
}

#[test]
fn upload_state_and_ownership_columns() {
    for v in 0i64..=5 {
        let s = DraftAttachmentUploadState::from_column(v).unwrap();
        assert_eq!(s.to_column(), v);
    }
    assert_eq!(DraftAttachmentUploadState::from_column(-1), Err(-1));
    assert_eq!(DraftAttachmentUploadState::from_column(6), Err(6));
    assert_eq!(
        DraftAttachmentOwnership::from_column(0),
        Ok(DraftAttachmentOwnership::Inherited)
    );
    assert_eq!(DraftAttachmentOwnership::from_column(1), Ok(DraftAttachmentOwnership::Owned));
    assert_eq!(DraftAttachmentOwnership::from_column(2), Err(2));
    assert_eq!(DraftAttachmentOwnership::Inherited.to_column(), 0);
    assert_eq!(DraftAttachmentOwnership::default(), DraftAttachmentOwnership::Owned);
}

#[test]
fn expiration_set_then_read_gives_it_back() {
    let all = [
        DraftExpirationTime::Never,
        DraftExpirationTime::OneHour,
        DraftExpirationTime::OneDay,
        DraftExpirationTime::ThreeDays,
        DraftExpirationTime::Custom(1_700_000_000),
    ];
    for e in all {
        let mut m = DraftMetadata::with_ids(3, 4);
        m.set_expiration_time(e);
        assert_eq!(m.expiration_time(), e);
        assert_eq!(m.local_message_id, Some(3));
    }
}

#[test]
fn custom_expiration_without_time_reads_as_never() {
    let mut m = DraftMetadata::empty();
    m.expiration_option = DraftExpirationOption::Custom;
    m.expiration_time = None;
    assert_eq!(m.expiration_time(), DraftExpirationTime::Never);
}

#[test]
fn reply_metadata_takes_expiration() {
    let m = DraftMetadata::reply(1, 10, 20, Some(99));
    assert_eq!(m.local_parent_id, Some(10));
    assert_eq!(m.local_conversation_id, Some(20));
    assert_eq!(m.reply_mode, Some(1));
    assert_eq!(m.expiration_time(), DraftExpirationTime::Custom(99));
    let m = DraftMetadata::reply(1, 10, 20, None);
    assert_eq!(m.expiration_time(), DraftExpirationTime::Never);
    assert_eq!(m.expiration_option, DraftExpirationOption::Never);
}

#[test]
fn pending_changes_and_pending_sends() {
    let mut a = DraftMetadata::with_ids(1, 1);
    assert!(!a.has_pending_changes(false));
    assert!(a.has_pending_changes(true));
    a.send_action_id = Some(7);
    assert!(a.has_pending_changes(false));
    let mut b = DraftMetadata::with_ids(2, 1);
    b.save_action_id = Some(8);
    assert!(b.has_pending_changes(false));
    let mut c = DraftMetadata::empty();
    c.send_action_id = Some(9);
    let d = DraftMetadata::with_ids(4, 1);
    let drafts = vec![a, b, c, d];
    assert_eq!(DraftMetadata::messages_with_pending_send(&drafts), vec![1]);
}

#[test]
fn send_result_undo_window() {
    let r = DraftSendResult::success_at(1, "remote".to_string(), 1000, DraftSendResultOrigin::Send, 990);
    assert!(r.is_success());
    assert_eq!(r.timestamp, 990);
    assert!(r.is_send_undoable_at(999));
    assert!(!r.is_send_undoable_at(1000));
    assert_eq!(r.time_left_for_undo_at(990), 10);
    assert_eq!(r.time_left_for_undo_at(1000), 0);
    assert_eq!(r.time_left_for_undo_at(5000), 0);
    let f = DraftSendResult::failure_at(1, DraftSendResultOrigin::Save, DraftSendFailure::Internal, 5);
    assert!(!f.is_success());
    assert_eq!(f.undo_timestamp, 0);
    assert!(!f.is_send_undoable_at(0));
    assert!(!f.is_send_undoable());
    assert_eq!(f.time_left_for_undo(), 0);
}

#[test]
fn send_result_before_save_records_send_action() {
    let mut r = DraftSendResult::failure(3, DraftSendResultOrigin::Send, DraftSendFailure::NoConnection);
    assert!(!r.has_send_action);
    let mut m = DraftMetadata::with_ids(3, 1);
    m.send_action_id = Some(5);
    r.before_save(Some(&m));
    assert!(r.has_send_action);
    r.before_save(None);
    assert!(r.has_send_action);
    m.send_action_id = None;
    r.before_save(Some(&m));
    assert!(!r.has_send_action);
}

#[test]
fn attachment_states_move_with_the_clock() {
    let mut a = DraftAttachmentMetadata::new_at(1, 2, 0, false, 100);
    assert_eq!(a.state(), DraftAttachmentUploadState::Uploading);
    assert_eq!(a.ownership, DraftAttachmentOwnership::Owned);
    assert_eq!(a.state_timestamp(), 100);
    a.set_error_state_at(
        DraftAttachmentInternalError::Upload(DraftAttachmentInternalUploadError::Unexpected),
        110,
    );
    assert_eq!(a.state(), DraftAttachmentUploadState::Error);
    assert_eq!(a.state_timestamp(), 110);
    assert!(a.is_upload_error());
    assert!(!a.is_disposition_swap_error());
    a.set_uploaded_state_at(120);
    assert_eq!(a.state(), DraftAttachmentUploadState::Uploaded);
    assert!(a.error.is_none());
    assert!(!a.is_upload_error());
    a.set_offline_state_at(130);
    assert_eq!(a.state(), DraftAttachmentUploadState::Offline);
    a.set_disposition_swap_state_at(140);
    assert_eq!(a.state(), DraftAttachmentUploadState::DispositionSwap);
    a.set_uploading_state_at(150);
    assert_eq!(a.state(), DraftAttachmentUploadState::Uploading);
    assert_eq!(a.state_timestamp(), 150);
}

#[test]
fn attachment_errors_from_context_errors() {
    let api = MailContextError::Api(ApiServiceError {
        network_failure: false,
        message: "boom".to_string(),
    });
    assert_eq!(
        DraftAttachmentInternalError::from_mail_context_error(
            DraftSendResultOrigin::AttachmentUpload,
            &api
        ),
        DraftAttachmentInternalError::Upload(DraftAttachmentInternalUploadError::Server(
            "boom".to_string()
        ))
    );
    assert_eq!(
        DraftAttachmentInternalError::from_mail_context_error(
            DraftSendResultOrigin::AttachmentDispositionSwap,
            &api
        ),
        DraftAttachmentInternalError::DispositionSwap(
            DraftAttachmentInternalDispositionError::Server("boom".to_string())
        )
    );
    let too_many =
        MailContextError::Draft(DraftError::AttachmentUpload(AttachmentUploadError::TooManyAttachments));
    assert_eq!(
        DraftAttachmentInternalUploadError::from_mail_context_error(&too_many),
        DraftAttachmentInternalUploadError::TooManyAttachments
    );
    assert_eq!(
        DraftAttachmentInternalUploadError::from_mail_context_error(
            &MailContextError::AttachmentEncryption("k".to_string())
        ),
        DraftAttachmentInternalUploadError::Crypto("k".to_string())
    );
    assert_eq!(
        DraftAttachmentInternalUploadError::from_mail_context_error(&MailContextError::Other),
        DraftAttachmentInternalUploadError::Unexpected
    );
    let cid = MailContextError::Draft(DraftError::AttachmentDispositionSwap(
        AttachmentDispositionSwapError::AttachmentNotFoundCid,
    ));
    assert_eq!(
        DraftAttachmentInternalDispositionError::from_mail_context_error(&cid),
        DraftAttachmentInternalDispositionError::AttachmentNotFound
    );
    let not_draft = MailContextError::Draft(DraftError::AttachmentDispositionSwap(
        AttachmentDispositionSwapError::AttachmentMessageIsNotADraft,
    ));
    assert_eq!(
        DraftAttachmentInternalDispositionError::from_mail_context_error(&not_draft),
        DraftAttachmentInternalDispositionError::MessageIsNotDraft
    );
    assert_eq!(
        DraftAttachmentInternalDispositionError::from_mail_context_error(&too_many),
        DraftAttachmentInternalDispositionError::Unexpected
    );
}

#[test]
fn attachment_constructors_and_clock_setters() {
    let p = DraftAttachmentMetadata::pending_at(1, 2, 3, true, 50);
    assert_eq!(p.state(), DraftAttachmentUploadState::Pending);
    assert_eq!((p.metadata_id, p.local_attachment_id, p.display_order), (1, 2, 3));
    assert!(p.is_public_key);
    let o = DraftAttachmentMetadata::owned_and_uploaded_at(1, 4, 0, false, 60);
    assert_eq!(o.state(), DraftAttachmentUploadState::Uploaded);
    assert_eq!(o.ownership, DraftAttachmentOwnership::Owned);
    assert_eq!(o.state_timestamp(), 60);
    let mut n = DraftAttachmentMetadata::new(1, 5, 2, false);
    assert_eq!(n.state(), DraftAttachmentUploadState::Uploading);
    assert!(n.state_timestamp() > 1_600_000_000);
    n.set_offline_state();
    assert_eq!(n.state(), DraftAttachmentUploadState::Offline);
    n.set_error_state(DraftAttachmentInternalError::DispositionSwap(
        DraftAttachmentInternalDispositionError::Unexpected,
    ));
    assert!(n.is_disposition_swap_error());
    n.set_uploaded_state();
    assert!(n.error.is_none());
    n.set_disposition_swap_state();
    assert_eq!(n.state(), DraftAttachmentUploadState::DispositionSwap);
    n.set_uploading_state();
    assert_eq!(n.state(), DraftAttachmentUploadState::Uploading);
    assert_eq!(DraftAttachmentMetadata::pending(1, 2, 0, false).state(), DraftAttachmentUploadState::Pending);
    assert_eq!(
        DraftAttachmentMetadata::owned_and_uploaded(1, 2, 0, false).state(),
        DraftAttachmentUploadState::Uploaded
    );
}
