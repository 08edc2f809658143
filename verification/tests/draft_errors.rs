use mail_common::draft_errors::{
    ApiServiceError, AttachmentDispositionSwapError, AttachmentUploadError,
    DraftAttachmentDispositionSwapErrorReason, DraftAttachmentUploadErrorReason, DraftError,
    DraftSaveErrorReason, DraftSendErrorReason, DraftSendFailure, DraftSendFailureAttachment,
    DraftSendFailureDispositionSwap, DraftSendFailureSave, DraftSendFailureSend,
    MailContextError, MailErrorReason, PackageError, ProtonMailError, SaveError, SendError,
    Unexpected, UserApiServiceError,
};

fn api(network_failure: bool, message: &str) -> ApiServiceError {
    ApiServiceError { network_failure, message: message.to_string() }
}

#[test]
fn missing_connections_and_sent_drafts_are_skippable() {
    assert!(DraftSendFailure::NoConnection.is_skippable());
    assert!(DraftSendFailure::Save(DraftSendFailureSave::AlreadySent).is_skippable());
    assert!(!DraftSendFailure::Save(DraftSendFailureSave::MessageDoesNotExist).is_skippable());
    assert!(!DraftSendFailure::Internal.is_skippable());
    assert!(!DraftSendFailure::Server("x".to_string()).is_skippable());
}

#[test]
fn api_errors_become_no_connection_or_server() {
    assert_eq!(
        DraftSendFailure::from_api_service_error(&api(true, "offline")),
        DraftSendFailure::NoConnection
    );
    assert_eq!(
        DraftSendFailure::from_api_service_error(&api(false, "bad request")),
        DraftSendFailure::Server("bad request".to_string())
    );
    assert_eq!(
        DraftSendFailure::from_mail_context_error(&MailContextError::Api(api(true, ""))),
        DraftSendFailure::NoConnection
    );
    assert_eq!(
        DraftSendFailure::from_mail_context_error(&MailContextError::Other),
        DraftSendFailure::Internal
    );
    assert_eq!(
        DraftSendFailure::from_mail_context_error(&MailContextError::AttachmentEncryption(
            "e".to_string()
        )),
        DraftSendFailure::Internal
    );
}

#[test]
fn package_errors_keep_their_address() {
    assert_eq!(
        DraftSendFailure::from_draft_package_error(&PackageError::RecipientEmailInvalid(
            "a@b".to_string()
        )),
        DraftSendFailure::Send(DraftSendFailureSend::RecipientEmailInvalid("a@b".to_string()))
    );
    assert_eq!(
        DraftSendFailure::from_draft_package_error(&PackageError::ProtonRecipientDoesNotExist(
            "c@d".to_string()
        )),
        DraftSendFailure::Send(DraftSendFailureSend::ProtonRecipientDoesNotExist(
            "c@d".to_string()
        ))
    );
    assert_eq!(
        DraftSendFailure::from_draft_package_error(&PackageError::Other("oops".to_string())),
        DraftSendFailure::Send(DraftSendFailureSend::PackageError("oops".to_string()))
    );
}

#[test]
fn draft_errors_map_to_failures() {
    assert_eq!(
        DraftSendFailure::from_draft_error(&DraftError::Save(SaveError::AddressWithoutPrimaryKey(
            "addr".to_string()
        ))),
        DraftSendFailure::Save(DraftSendFailureSave::AddressDoesNotHavePrimaryKey(
            "addr".to_string()
        ))
    );
    assert_eq!(
        DraftSendFailure::from_draft_error(&DraftError::Save(SaveError::AlreadySent)),
        DraftSendFailure::Save(DraftSendFailureSave::AlreadySent)
    );
    assert_eq!(
        DraftSendFailure::from_draft_error(&DraftError::Save(SaveError::MetadataNotFound)),
        DraftSendFailure::Internal
    );
    assert_eq!(
        DraftSendFailure::from_draft_error(&DraftError::Send(SendError::NoRecipients)),
        DraftSendFailure::Send(DraftSendFailureSend::NoRecipients)
    );
    assert_eq!(
        DraftSendFailure::from_draft_error(&DraftError::Send(
            SendError::ScheduleSendMessageLimitExceeded
        )),
        DraftSendFailure::Send(DraftSendFailureSend::ScheduleSendLimitExceeded)
    );
    assert_eq!(
        DraftSendFailure::from_draft_error(&DraftError::Send(SendError::SendMessage(
            PackageError::Other("p".to_string())
        ))),
        DraftSendFailure::Send(DraftSendFailureSend::PackageError("p".to_string()))
    );
    assert_eq!(
        DraftSendFailure::from_draft_error(&DraftError::Send(SendError::MessageBodyMissing)),
        DraftSendFailure::Internal
    );
    assert_eq!(
        DraftSendFailure::from_draft_error(&DraftError::AttachmentUpload(
            AttachmentUploadError::MessageDoesNotExistOnServer
        )),
        DraftSendFailure::Attachment(DraftSendFailureAttachment::MessageDoesNotExist)
    );
    assert_eq!(
        DraftSendFailure::from_draft_error(&DraftError::AttachmentUpload(
            AttachmentUploadError::TotalAttachmentSizeTooLarge
        )),
        DraftSendFailure::Attachment(DraftSendFailureAttachment::TotalAttachmentsTooLarge)
    );
    assert_eq!(
        DraftSendFailure::from_draft_error(&DraftError::AttachmentUpload(
            AttachmentUploadError::RetryInvalidState
        )),
        DraftSendFailure::Internal
    );
    assert_eq!(
        DraftSendFailure::from_draft_error(&DraftError::AttachmentDispositionSwap(
            AttachmentDispositionSwapError::AttachmentDoesNotExistServer
        )),
        DraftSendFailure::AttachmentDispositionSwap(
            DraftSendFailureDispositionSwap::AttachmentDoesNotExist
        )
    );
    assert_eq!(
        DraftSendFailure::from_draft_error(&DraftError::AttachmentDispositionSwap(
            AttachmentDispositionSwapError::Noop
        )),
        DraftSendFailure::Internal
    );
    assert_eq!(DraftSendFailure::from_draft_error(&DraftError::Other), DraftSendFailure::Internal);
}

#[test]
fn failures_are_reported_as_user_errors() {
    assert_eq!(ProtonMailError::from(DraftSendFailure::NoConnection), ProtonMailError::Network);
    assert_eq!(
        ProtonMailError::from(DraftSendFailure::Server("down".to_string())),
        ProtonMailError::ServerError(UserApiServiceError::OtherHttpError(0, "down".to_string()))
    );
    assert_eq!(
        ProtonMailError::from(DraftSendFailure::Internal),
        ProtonMailError::Unexpected(Unexpected::Internal)
    );
    assert_eq!(
        ProtonMailError::from_draft_send_failure(DraftSendFailure::Save(
            DraftSendFailureSave::MessageUpdateIsNotDraft
        )),
        ProtonMailError::Reason(MailErrorReason::DraftSaveReason(
            DraftSaveErrorReason::MessageIsNotADraft
        ))
    );
    assert_eq!(
        ProtonMailError::from_draft_send_failure(DraftSendFailure::Send(
            DraftSendFailureSend::ScheduleSendLimitExceeded
        )),
        ProtonMailError::Reason(MailErrorReason::DraftSendReason(
            DraftSendErrorReason::ScheduleSendMessageLimitExceeded
        ))
    );
    assert_eq!(
        ProtonMailError::from_draft_send_failure(DraftSendFailure::Attachment(
            DraftSendFailureAttachment::AttachmentAlreadyUploaded
        )),
        ProtonMailError::Unexpected(Unexpected::Draft)
    );
    assert_eq!(
        ProtonMailError::from_draft_send_failure(DraftSendFailure::Attachment(
            DraftSendFailureAttachment::Other("o".to_string())
        )),
        ProtonMailError::Unexpected(Unexpected::Draft)
    );
    assert_eq!(
        ProtonMailError::from_draft_send_failure(DraftSendFailure::Attachment(
            DraftSendFailureAttachment::TotalAttachmentsTooLarge
        )),
        ProtonMailError::Reason(MailErrorReason::DraftAttachmentUploadReason(
            DraftAttachmentUploadErrorReason::TotalAttachmentSizeTooLarge
        ))
    );
    assert_eq!(
        ProtonMailError::from_draft_send_failure(DraftSendFailure::AttachmentDispositionSwap(
            DraftSendFailureDispositionSwap::AttachmentMessagedDoesNotExist
        )),
        ProtonMailError::Reason(MailErrorReason::DraftAttachmentDispositionSwapError(
            DraftAttachmentDispositionSwapErrorReason::AttachmentMessageDoesNotExist
        ))
    );
}

#[test]
fn network_failures_and_only_they_report_network() {
    let cases = vec![
        MailContextError::Api(api(true, "a")),
        MailContextError::Api(api(false, "b")),
        MailContextError::Draft(DraftError::Other),
        MailContextError::Draft(DraftError::Send(SendError::NoRecipients)),
        MailContextError::Other,
    ];
    for c in cases {
        let is_network = matches!(&c, MailContextError::Api(a) if a.network_failure);
        let failure = DraftSendFailure::from_mail_context_error(&c);
        assert_eq!(failure.is_skippable(), is_network);
        assert_eq!(ProtonMailError::from(failure) == ProtonMailError::Network, is_network);
    }
}
