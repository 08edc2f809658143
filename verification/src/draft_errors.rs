//! Why sending a draft failed: the errors of the draft operations, the
//! failure that is recorded for the user, and the error it is reported as.

use vstd::prelude::*;
use crate::errors::AppError;

verus! {

/// Errors of saving a draft.
#[derive(Clone, Debug, PartialEq, Eq)]
pub enum SaveError {
    AddressWithoutPrimaryKey(String),
    AlreadySent,
    AddressNotFound,
    MessageNotADraft,
    AttachmentDoesNotHaveKeyPackets,
    MetadataNotFound,
    DraftDoesNotExistOnServer,
}

/// Errors of packaging a message for its recipients.
#[derive(Clone, Debug, PartialEq, Eq)]
pub enum PackageError {
    RecipientEmailInvalid(String),
    ProtonRecipientDoesNotExist(String),
    /// Any other packaging error, by its message.
    Other(String),
}

/// Errors of sending a draft.
#[derive(Clone, Debug, PartialEq, Eq)]
pub enum SendError {
    SendMessage(PackageError),
    NoRecipients,
    ScheduleSendExpired,
    ExpirationTimeTooSoon,
    EOPasswordDecrypt,
    MessageIsNotADraft,
    MetadataNotFound,
    LocalDraftWithoutMessage,
    DraftDoesNotExistOnServer,
    MessageBodyMissing,
    ScheduleSendMessageLimitExceeded,
    MissingAttachmentUploads,
    MessageTooLarge,
}

/// Errors of uploading an attachment of a draft.
#[derive(Clone, Debug, PartialEq, Eq)]
pub enum AttachmentUploadError {
    MessageDoesNotExist,
    MessageDoesNotExistOnServer,
    /// A cryptography failure, by its message.
    Crypto(String),
    AttachmentAlreadyUploaded,
    TooManyAttachments,
    AttachmentTooLarge,
    TotalAttachmentSizeTooLarge,
    Timeout,
    MetadataNotFound,
    AttachmentMetadataNotFound,
    AttachmentMetadataNotFoundCid,
    AttachmentDataMissing,
    MissingContentId,
    ExistingUploadActionExist,
    MessageAlreadySent,
    RetryInvalidState,
    StorageQuotaExceeded,
}

/// Errors of swapping an attachment between inline and attached.
#[derive(Clone, Copy, Debug, PartialEq, Eq, Structural)]
pub enum AttachmentDispositionSwapError {
    MetadataNotFound,
    AttachmentHasNoRemoteId,
    AttachmentMetadataNotFound,
    Noop,
    NoMessageIdInDraftMetadata,
    InvalidState,
    AttachmentHasNoContentId,
    AttachmentNotFound,
    AttachmentNotFoundCid,
    AttachmentDoesNotExistServer,
    AttachmentMessageDoesNotExist,
    AttachmentMessageIsNotADraft,
    AttachmentDoesNotHaveValidCid,
}

/// Errors of the draft operations.
#[derive(Clone, Debug, PartialEq, Eq)]
pub enum DraftError {
    Save(SaveError),
    Send(SendError),
    AttachmentUpload(AttachmentUploadError),
    AttachmentDispositionSwap(AttachmentDispositionSwapError),
    /// Any other draft error.
    Other,
}

/// An error of a request to the server: whether it failed for want of a
/// network, and its message.
#[derive(Clone, Debug, PartialEq, Eq)]
pub struct ApiServiceError {
    pub network_failure: bool,
    pub message: String,
}

impl ApiServiceError {
    pub fn is_network_failure(&self) -> (r: bool)
        ensures
            r == self.network_failure,
    {
        self.network_failure
    }
}

/// Errors of the mail context.
#[derive(Clone, Debug, PartialEq, Eq)]
pub enum MailContextError {
    Api(ApiServiceError),
    Draft(DraftError),
    /// Encrypting an attachment failed, with this message.
    AttachmentEncryption(String),
    /// An error of the application logic.
    App(AppError),
    /// The data of a local attachment, which the server does not have, was
    /// to be fetched.
    CalledFetchedAttachmentLocalAttachment,
    /// The data of a PGP attachment, which cannot be fetched again, was to be
    /// fetched.
    CalledFetchedAttachmentOnPgp,
    /// Any other error.
    Other,
}

/// Represents the reason why a draft failed to send.
#[derive(Clone, Debug, PartialEq, Eq)]
pub enum DraftSendFailure {
    Save(DraftSendFailureSave),
    Send(DraftSendFailureSend),
    Attachment(DraftSendFailureAttachment),
    NoConnection,
    Server(String),
    AttachmentDispositionSwap(DraftSendFailureDispositionSwap),
    Internal,
}

#[derive(Clone, Debug, PartialEq, Eq)]
pub enum DraftSendFailureSave {
    AddressDisabled(String),
    AddressDoesNotHavePrimaryKey(String),
    AlreadySent,
    MessageUpdateIsNotDraft,
    MessageDoesNotExist,
}

#[derive(Clone, Debug, PartialEq, Eq)]
pub enum DraftSendFailureSend {
    NoRecipients,
    RecipientEmailInvalid(String),
    ProtonRecipientDoesNotExist(String),
    PackageError(String),
    MessageDoesNotExist,
    ScheduleSendExpired,
    ScheduleSendLimitExceeded,
    EOPasswordDecrypt,
    ExpirationTimeTooSoon,
    MissingAttachmentUploads,
    MessageTooLarge,
}

#[derive(Clone, Debug, PartialEq, Eq)]
pub enum DraftSendFailureAttachment {
    Crypto(String),
    TooManyAttachments,
    AttachmentTooLarge,
    AttachmentAlreadyUploaded,
    TotalAttachmentsTooLarge,
    MessageDoesNotExist,
    Timeout,
    StorageQuotaExceeded,
    Other(String),
}

#[derive(Clone, Copy, Debug, PartialEq, Eq, Structural)]
pub enum DraftSendFailureDispositionSwap {
    AttachmentDoesNotExist,
    AttachmentMessagedDoesNotExist,
    AttachmentMessageIsNotADraft,
}

/// Whether a failure is skipped rather than shown: a missing connection, or
/// a draft that was already sent.
pub open spec fn is_skippable_failure(f: DraftSendFailure) -> bool {
    f == DraftSendFailure::NoConnection || f == DraftSendFailure::Save(DraftSendFailureSave::AlreadySent)
}

/// The failure recorded for a packaging error.
pub open spec fn failure_of_package_error(e: PackageError) -> DraftSendFailure {
    match e {
        PackageError::RecipientEmailInvalid(v) => DraftSendFailure::Send(
            DraftSendFailureSend::RecipientEmailInvalid(v),
        ),
        PackageError::ProtonRecipientDoesNotExist(v) => DraftSendFailure::Send(
            DraftSendFailureSend::ProtonRecipientDoesNotExist(v),
        ),
        PackageError::Other(v) => DraftSendFailure::Send(DraftSendFailureSend::PackageError(v)),
    }
}

/// The failure recorded for an error of saving.
pub open spec fn failure_of_save_error(e: SaveError) -> DraftSendFailure {
    match e {
        SaveError::AddressWithoutPrimaryKey(id) => DraftSendFailure::Save(
            DraftSendFailureSave::AddressDoesNotHavePrimaryKey(id),
        ),
        SaveError::AlreadySent => DraftSendFailure::Save(DraftSendFailureSave::AlreadySent),
        _ => DraftSendFailure::Internal,
    }
}

/// The failure recorded for an error of sending.
pub open spec fn failure_of_send_error(e: SendError) -> DraftSendFailure {
    match e {
        SendError::SendMessage(p) => failure_of_package_error(p),
        SendError::NoRecipients => DraftSendFailure::Send(DraftSendFailureSend::NoRecipients),
        SendError::ScheduleSendExpired => DraftSendFailure::Send(
            DraftSendFailureSend::ScheduleSendExpired,
        ),
        SendError::ExpirationTimeTooSoon => DraftSendFailure::Send(
            DraftSendFailureSend::ExpirationTimeTooSoon,
        ),
        SendError::EOPasswordDecrypt => DraftSendFailure::Send(
            DraftSendFailureSend::EOPasswordDecrypt,
        ),
        SendError::ScheduleSendMessageLimitExceeded => DraftSendFailure::Send(
            DraftSendFailureSend::ScheduleSendLimitExceeded,
        ),
        SendError::MissingAttachmentUploads => DraftSendFailure::Send(
            DraftSendFailureSend::MissingAttachmentUploads,
        ),
        SendError::MessageTooLarge => DraftSendFailure::Send(DraftSendFailureSend::MessageTooLarge),
        _ => DraftSendFailure::Internal,
    }
}

/// The failure recorded for an error of uploading an attachment.
pub open spec fn failure_of_upload_error(e: AttachmentUploadError) -> DraftSendFailure {
    match e {
        AttachmentUploadError::MessageDoesNotExist
        | AttachmentUploadError::MessageDoesNotExistOnServer => DraftSendFailure::Attachment(
            DraftSendFailureAttachment::MessageDoesNotExist,
        ),
        AttachmentUploadError::Crypto(v) => DraftSendFailure::Attachment(
            DraftSendFailureAttachment::Crypto(v),
        ),
        AttachmentUploadError::AttachmentAlreadyUploaded => DraftSendFailure::Attachment(
            DraftSendFailureAttachment::AttachmentAlreadyUploaded,
        ),
        AttachmentUploadError::TooManyAttachments => DraftSendFailure::Attachment(
            DraftSendFailureAttachment::TooManyAttachments,
        ),
        AttachmentUploadError::AttachmentTooLarge => DraftSendFailure::Attachment(
            DraftSendFailureAttachment::AttachmentTooLarge,
        ),
        AttachmentUploadError::TotalAttachmentSizeTooLarge => DraftSendFailure::Attachment(
            DraftSendFailureAttachment::TotalAttachmentsTooLarge,
        ),
        AttachmentUploadError::Timeout => DraftSendFailure::Attachment(
            DraftSendFailureAttachment::Timeout,
        ),
        AttachmentUploadError::StorageQuotaExceeded => DraftSendFailure::Attachment(
            DraftSendFailureAttachment::StorageQuotaExceeded,
        ),
        _ => DraftSendFailure::Internal,
    }
}

/// The failure recorded for an error of swapping an attachment's disposition.
pub open spec fn failure_of_swap_error(e: AttachmentDispositionSwapError) -> DraftSendFailure {
    match e {
        AttachmentDispositionSwapError::AttachmentNotFound
        | AttachmentDispositionSwapError::AttachmentNotFoundCid
        | AttachmentDispositionSwapError::AttachmentDoesNotExistServer => DraftSendFailure::AttachmentDispositionSwap(
            DraftSendFailureDispositionSwap::AttachmentDoesNotExist,
        ),
        AttachmentDispositionSwapError::AttachmentMessageDoesNotExist => DraftSendFailure::AttachmentDispositionSwap(
            DraftSendFailureDispositionSwap::AttachmentMessagedDoesNotExist,
        ),
        AttachmentDispositionSwapError::AttachmentMessageIsNotADraft => DraftSendFailure::AttachmentDispositionSwap(
            DraftSendFailureDispositionSwap::AttachmentMessageIsNotADraft,
        ),
        _ => DraftSendFailure::Internal,
    }
}

/// The failure recorded for a draft error.
pub open spec fn failure_of_draft_error(e: DraftError) -> DraftSendFailure {
    match e {
        DraftError::Save(s) => failure_of_save_error(s),
        DraftError::Send(s) => failure_of_send_error(s),
        DraftError::AttachmentUpload(u) => failure_of_upload_error(u),
        DraftError::AttachmentDispositionSwap(d) => failure_of_swap_error(d),
        DraftError::Other => DraftSendFailure::Internal,
    }
}

/// The failure recorded for an error of a request to the server.
pub open spec fn failure_of_api_error(e: ApiServiceError) -> DraftSendFailure {
    if e.network_failure {
        DraftSendFailure::NoConnection
    } else {
        DraftSendFailure::Server(e.message)
    }
}

/// The failure recorded for an error of the mail context.
pub open spec fn failure_of_context_error(e: MailContextError) -> DraftSendFailure {
    match e {
        MailContextError::Api(a) => failure_of_api_error(a),
        MailContextError::Draft(d) => failure_of_draft_error(d),
        _ => DraftSendFailure::Internal,
    }
}

fn clone_string(s: &String) -> (r: String)
    ensures
        r == *s,
{
    s.clone()
}

impl DraftSendFailure {
    /// Returns true if this an error which can be skipped and should not be
    /// presented or handled: a missing connection is handled by the queue,
    /// and a draft that was already sent is an expected outcome.
    pub fn is_skippable(&self) -> (r: bool)
        ensures
            r == is_skippable_failure(*self),
    {
        match self {
            DraftSendFailure::NoConnection => true,
            DraftSendFailure::Save(DraftSendFailureSave::AlreadySent) => true,
            _ => false,
        }
    }

    /// Convert from a draft packaging error.
    pub fn from_draft_package_error(value: &PackageError) -> (r: Self)
        ensures
            r == failure_of_package_error(*value),
    {
        match value {
            PackageError::RecipientEmailInvalid(e) => DraftSendFailure::Send(
                DraftSendFailureSend::RecipientEmailInvalid(clone_string(e)),
            ),
            PackageError::ProtonRecipientDoesNotExist(e) => DraftSendFailure::Send(
                DraftSendFailureSend::ProtonRecipientDoesNotExist(clone_string(e)),
            ),
            PackageError::Other(v) => DraftSendFailure::Send(
                DraftSendFailureSend::PackageError(clone_string(v)),
            ),
        }
    }

    fn from_save_error(err: &SaveError) -> (r: Self)
        ensures
            r == failure_of_save_error(*err),
    {
        match err {
            SaveError::AddressWithoutPrimaryKey(id) => DraftSendFailure::Save(
                DraftSendFailureSave::AddressDoesNotHavePrimaryKey(clone_string(id)),
            ),
            SaveError::AlreadySent => DraftSendFailure::Save(DraftSendFailureSave::AlreadySent),
            SaveError::AddressNotFound
            | SaveError::MessageNotADraft
            | SaveError::AttachmentDoesNotHaveKeyPackets
            | SaveError::MetadataNotFound
            | SaveError::DraftDoesNotExistOnServer => DraftSendFailure::Internal,
        }
    }

    fn from_send_error(err: &SendError) -> (r: Self)
        ensures
            r == failure_of_send_error(*err),
    {
        match err {
            SendError::SendMessage(package_error) => Self::from_draft_package_error(package_error),
            SendError::NoRecipients => DraftSendFailure::Send(DraftSendFailureSend::NoRecipients),
            SendError::ScheduleSendExpired => DraftSendFailure::Send(
                DraftSendFailureSend::ScheduleSendExpired,
            ),
            SendError::ExpirationTimeTooSoon => DraftSendFailure::Send(
                DraftSendFailureSend::ExpirationTimeTooSoon,
            ),
            SendError::EOPasswordDecrypt => DraftSendFailure::Send(
                DraftSendFailureSend::EOPasswordDecrypt,
            ),
            SendError::MessageIsNotADraft
            | SendError::MetadataNotFound
            | SendError::LocalDraftWithoutMessage
            | SendError::DraftDoesNotExistOnServer
            | SendError::MessageBodyMissing => DraftSendFailure::Internal,
            SendError::ScheduleSendMessageLimitExceeded => DraftSendFailure::Send(
                DraftSendFailureSend::ScheduleSendLimitExceeded,
            ),
            SendError::MissingAttachmentUploads => DraftSendFailure::Send(
                DraftSendFailureSend::MissingAttachmentUploads,
            ),
            SendError::MessageTooLarge => DraftSendFailure::Send(
                DraftSendFailureSend::MessageTooLarge,
            ),
        }
    }

    fn from_upload_error(e: &AttachmentUploadError) -> (r: Self)
        ensures
            r == failure_of_upload_error(*e),
    {
        match e {
            AttachmentUploadError::MessageDoesNotExist
            | AttachmentUploadError::MessageDoesNotExistOnServer => DraftSendFailure::Attachment(
                DraftSendFailureAttachment::MessageDoesNotExist,
            ),
            AttachmentUploadError::Crypto(e) => DraftSendFailure::Attachment(
                DraftSendFailureAttachment::Crypto(clone_string(e)),
            ),
            AttachmentUploadError::AttachmentAlreadyUploaded => DraftSendFailure::Attachment(
                DraftSendFailureAttachment::AttachmentAlreadyUploaded,
            ),
            AttachmentUploadError::TooManyAttachments => DraftSendFailure::Attachment(
                DraftSendFailureAttachment::TooManyAttachments,
            ),
            AttachmentUploadError::AttachmentTooLarge => DraftSendFailure::Attachment(
                DraftSendFailureAttachment::AttachmentTooLarge,
            ),
            AttachmentUploadError::TotalAttachmentSizeTooLarge => DraftSendFailure::Attachment(
                DraftSendFailureAttachment::TotalAttachmentsTooLarge,
            ),
            AttachmentUploadError::Timeout => DraftSendFailure::Attachment(
                DraftSendFailureAttachment::Timeout,
            ),
            AttachmentUploadError::MetadataNotFound
            | AttachmentUploadError::AttachmentMetadataNotFound
            | AttachmentUploadError::AttachmentMetadataNotFoundCid
            | AttachmentUploadError::AttachmentDataMissing
            | AttachmentUploadError::MissingContentId
            | AttachmentUploadError::ExistingUploadActionExist
            | AttachmentUploadError::MessageAlreadySent
            | AttachmentUploadError::RetryInvalidState => DraftSendFailure::Internal,
            AttachmentUploadError::StorageQuotaExceeded => DraftSendFailure::Attachment(
                DraftSendFailureAttachment::StorageQuotaExceeded,
            ),
        }
    }

    fn from_swap_error(e: &AttachmentDispositionSwapError) -> (r: Self)
        ensures
            r == failure_of_swap_error(*e),
    {
        match e {
            AttachmentDispositionSwapError::MetadataNotFound
            | AttachmentDispositionSwapError::AttachmentHasNoRemoteId
            | AttachmentDispositionSwapError::AttachmentMetadataNotFound
            | AttachmentDispositionSwapError::Noop
            | AttachmentDispositionSwapError::NoMessageIdInDraftMetadata
            | AttachmentDispositionSwapError::InvalidState
            | AttachmentDispositionSwapError::AttachmentHasNoContentId => DraftSendFailure::Internal,
            AttachmentDispositionSwapError::AttachmentNotFound
            | AttachmentDispositionSwapError::AttachmentNotFoundCid
            | AttachmentDispositionSwapError::AttachmentDoesNotExistServer => DraftSendFailure::AttachmentDispositionSwap(
                DraftSendFailureDispositionSwap::AttachmentDoesNotExist,
            ),
            AttachmentDispositionSwapError::AttachmentMessageDoesNotExist => DraftSendFailure::AttachmentDispositionSwap(
                DraftSendFailureDispositionSwap::AttachmentMessagedDoesNotExist,
            ),
            AttachmentDispositionSwapError::AttachmentMessageIsNotADraft => DraftSendFailure::AttachmentDispositionSwap(
                DraftSendFailureDispositionSwap::AttachmentMessageIsNotADraft,
            ),
            AttachmentDispositionSwapError::AttachmentDoesNotHaveValidCid => DraftSendFailure::Internal,
        }
    }

    /// Convert from a draft error.
    pub fn from_draft_error(error: &DraftError) -> (r: Self)
        ensures
            r == failure_of_draft_error(*error),
    {
        match error {
            DraftError::Save(err) => Self::from_save_error(err),
            DraftError::Send(err) => Self::from_send_error(err),
            DraftError::AttachmentUpload(e) => Self::from_upload_error(e),
            DraftError::AttachmentDispositionSwap(e) => Self::from_swap_error(e),
            DraftError::Other => DraftSendFailure::Internal,
        }
    }

    /// Convert from an error of a request to the server: no connection when
    /// the network failed, else the server's message.
    pub fn from_api_service_error(error: &ApiServiceError) -> (r: Self)
        ensures
            r == failure_of_api_error(*error),
    {
        if error.is_network_failure() {
            return DraftSendFailure::NoConnection;
        }
        DraftSendFailure::Server(clone_string(&error.message))
    }

    /// Convert from an error of the mail context.
    pub fn from_mail_context_error(value: &MailContextError) -> (r: Self)
        ensures
            r == failure_of_context_error(*value),
    {
        match value {
            MailContextError::Api(error) => Self::from_api_service_error(error),
            MailContextError::Draft(error) => Self::from_draft_error(error),
            _ => DraftSendFailure::Internal,
        }
    }
}

/// Kinds of server errors that are shown to the user.
#[derive(Clone, Debug, PartialEq, Eq)]
pub enum UserApiServiceError {
    /// An HTTP error without a more specific kind: its status and message.
    OtherHttpError(u16, String),
}

/// Errors that should not happen.
#[derive(Clone, Copy, Debug, PartialEq, Eq, Structural)]
pub enum Unexpected {
    Internal,
    Draft,
}

#[derive(Clone, Debug, PartialEq, Eq)]
pub enum DraftSaveErrorReason {
    AddressDisabled(String),
    AddressDoesNotHavePrimaryKey(String),
    MessageAlreadySent,
    MessageIsNotADraft,
    MessageDoesNotExist,
}

#[derive(Clone, Debug, PartialEq, Eq)]
pub enum DraftSendErrorReason {
    NoRecipients,
    RecipientEmailInvalid(String),
    ProtonRecipientDoesNotExist(String),
    PackageError(String),
    MessageDoesNotExist,
    ScheduleSendExpired,
    EOPasswordDecrypt,
    ExpirationTimeTooSoon,
    MissingAttachmentUploads,
    MessageTooLarge,
    ScheduleSendMessageLimitExceeded,
}

#[derive(Clone, Copy, Debug, PartialEq, Eq, Structural)]
pub enum DraftAttachmentUploadErrorReason {
    Crypto,
    TooManyAttachments,
    AttachmentTooLarge,
    MessageDoesNotExist,
    TotalAttachmentSizeTooLarge,
    Timeout,
    StorageQuotaExceeded,
}

#[derive(Clone, Copy, Debug, PartialEq, Eq, Structural)]
pub enum DraftAttachmentDispositionSwapErrorReason {
    AttachmentDoesNotExist,
    AttachmentMessageDoesNotExist,
    AttachmentMessageIsNotADraft,
}

/// Reasons of failures that the user can act on.
#[derive(Clone, Debug, PartialEq, Eq)]
pub enum MailErrorReason {
    DraftSaveReason(DraftSaveErrorReason),
    DraftSendReason(DraftSendErrorReason),
    DraftAttachmentUploadReason(DraftAttachmentUploadErrorReason),
    DraftAttachmentDispositionSwapError(DraftAttachmentDispositionSwapErrorReason),
}

/// The error reported to the user.
#[derive(Clone, Debug, PartialEq, Eq)]
pub enum ProtonMailError {
    Network,
    ServerError(UserApiServiceError),
    Unexpected(Unexpected),
    Reason(MailErrorReason),
}

/// The reason reported for a failure of saving.
pub open spec fn save_reason(f: DraftSendFailureSave) -> DraftSaveErrorReason {
    match f {
        DraftSendFailureSave::AddressDisabled(v) => DraftSaveErrorReason::AddressDisabled(v),
        DraftSendFailureSave::AddressDoesNotHavePrimaryKey(v) => DraftSaveErrorReason::AddressDoesNotHavePrimaryKey(v),
        DraftSendFailureSave::AlreadySent => DraftSaveErrorReason::MessageAlreadySent,
        DraftSendFailureSave::MessageUpdateIsNotDraft => DraftSaveErrorReason::MessageIsNotADraft,
        DraftSendFailureSave::MessageDoesNotExist => DraftSaveErrorReason::MessageDoesNotExist,
    }
}

/// The reason reported for a failure of sending.
pub open spec fn send_reason(f: DraftSendFailureSend) -> DraftSendErrorReason {
    match f {
        DraftSendFailureSend::NoRecipients => DraftSendErrorReason::NoRecipients,
        DraftSendFailureSend::RecipientEmailInvalid(v) => DraftSendErrorReason::RecipientEmailInvalid(v),
        DraftSendFailureSend::ProtonRecipientDoesNotExist(v) => DraftSendErrorReason::ProtonRecipientDoesNotExist(v),
        DraftSendFailureSend::PackageError(v) => DraftSendErrorReason::PackageError(v),
        DraftSendFailureSend::MessageDoesNotExist => DraftSendErrorReason::MessageDoesNotExist,
        DraftSendFailureSend::ScheduleSendExpired => DraftSendErrorReason::ScheduleSendExpired,
        DraftSendFailureSend::EOPasswordDecrypt => DraftSendErrorReason::EOPasswordDecrypt,
        DraftSendFailureSend::ExpirationTimeTooSoon => DraftSendErrorReason::ExpirationTimeTooSoon,
        DraftSendFailureSend::MissingAttachmentUploads => DraftSendErrorReason::MissingAttachmentUploads,
        DraftSendFailureSend::MessageTooLarge => DraftSendErrorReason::MessageTooLarge,
        DraftSendFailureSend::ScheduleSendLimitExceeded => DraftSendErrorReason::ScheduleSendMessageLimitExceeded,
    }
}

/// The error reported for a failure of uploading an attachment.
pub open spec fn attachment_error(f: DraftSendFailureAttachment) -> ProtonMailError {
    let upload = |r: DraftAttachmentUploadErrorReason| ProtonMailError::Reason(
        MailErrorReason::DraftAttachmentUploadReason(r),
    );
    match f {
        DraftSendFailureAttachment::Crypto(_) => upload(DraftAttachmentUploadErrorReason::Crypto),
        DraftSendFailureAttachment::TooManyAttachments => upload(
            DraftAttachmentUploadErrorReason::TooManyAttachments,
        ),
        DraftSendFailureAttachment::AttachmentTooLarge => upload(
            DraftAttachmentUploadErrorReason::AttachmentTooLarge,
        ),
        DraftSendFailureAttachment::AttachmentAlreadyUploaded => ProtonMailError::Unexpected(
            Unexpected::Draft,
        ),
        DraftSendFailureAttachment::MessageDoesNotExist => upload(
            DraftAttachmentUploadErrorReason::MessageDoesNotExist,
        ),
        DraftSendFailureAttachment::Other(_) => ProtonMailError::Unexpected(Unexpected::Draft),
        DraftSendFailureAttachment::TotalAttachmentsTooLarge => upload(
            DraftAttachmentUploadErrorReason::TotalAttachmentSizeTooLarge,
        ),
        DraftSendFailureAttachment::Timeout => upload(DraftAttachmentUploadErrorReason::Timeout),
        DraftSendFailureAttachment::StorageQuotaExceeded => upload(
            DraftAttachmentUploadErrorReason::StorageQuotaExceeded,
        ),
    }
}

/// The reason reported for a failure of swapping a disposition.
pub open spec fn swap_reason(f: DraftSendFailureDispositionSwap) -> DraftAttachmentDispositionSwapErrorReason {
    match f {
        DraftSendFailureDispositionSwap::AttachmentDoesNotExist => DraftAttachmentDispositionSwapErrorReason::AttachmentDoesNotExist,
        DraftSendFailureDispositionSwap::AttachmentMessagedDoesNotExist => DraftAttachmentDispositionSwapErrorReason::AttachmentMessageDoesNotExist,
        DraftSendFailureDispositionSwap::AttachmentMessageIsNotADraft => DraftAttachmentDispositionSwapErrorReason::AttachmentMessageIsNotADraft,
    }
}

/// The error reported to the user for a recorded failure.
pub open spec fn error_of_failure(f: DraftSendFailure) -> ProtonMailError {
    match f {
        DraftSendFailure::NoConnection => ProtonMailError::Network,
        DraftSendFailure::Server(v) => ProtonMailError::ServerError(
            UserApiServiceError::OtherHttpError(0, v),
        ),
        DraftSendFailure::Internal => ProtonMailError::Unexpected(Unexpected::Internal),
        DraftSendFailure::Save(e) => ProtonMailError::Reason(
            MailErrorReason::DraftSaveReason(save_reason(e)),
        ),
        DraftSendFailure::Send(e) => ProtonMailError::Reason(
            MailErrorReason::DraftSendReason(send_reason(e)),
        ),
        DraftSendFailure::Attachment(e) => attachment_error(e),
        DraftSendFailure::AttachmentDispositionSwap(e) => ProtonMailError::Reason(
            MailErrorReason::DraftAttachmentDispositionSwapError(swap_reason(e)),
        ),
    }
}

impl ProtonMailError {
    fn save_reason(err: DraftSendFailureSave) -> (r: DraftSaveErrorReason)
        ensures
            r == save_reason(err),
    {
        match err {
            DraftSendFailureSave::AddressDisabled(v) => DraftSaveErrorReason::AddressDisabled(v),
            DraftSendFailureSave::AddressDoesNotHavePrimaryKey(v) => DraftSaveErrorReason::AddressDoesNotHavePrimaryKey(v),
            DraftSendFailureSave::AlreadySent => DraftSaveErrorReason::MessageAlreadySent,
            DraftSendFailureSave::MessageUpdateIsNotDraft => DraftSaveErrorReason::MessageIsNotADraft,
            DraftSendFailureSave::MessageDoesNotExist => DraftSaveErrorReason::MessageDoesNotExist,
        }
    }

    fn send_reason(err: DraftSendFailureSend) -> (r: DraftSendErrorReason)
        ensures
            r == send_reason(err),
    {
        match err {
            DraftSendFailureSend::NoRecipients => DraftSendErrorReason::NoRecipients,
            DraftSendFailureSend::RecipientEmailInvalid(v) => DraftSendErrorReason::RecipientEmailInvalid(v),
            DraftSendFailureSend::ProtonRecipientDoesNotExist(v) => DraftSendErrorReason::ProtonRecipientDoesNotExist(v),
            DraftSendFailureSend::PackageError(v) => DraftSendErrorReason::PackageError(v),
            DraftSendFailureSend::MessageDoesNotExist => DraftSendErrorReason::MessageDoesNotExist,
            DraftSendFailureSend::ScheduleSendExpired => DraftSendErrorReason::ScheduleSendExpired,
            DraftSendFailureSend::EOPasswordDecrypt => DraftSendErrorReason::EOPasswordDecrypt,
            DraftSendFailureSend::ExpirationTimeTooSoon => DraftSendErrorReason::ExpirationTimeTooSoon,
            DraftSendFailureSend::MissingAttachmentUploads => DraftSendErrorReason::MissingAttachmentUploads,
            DraftSendFailureSend::MessageTooLarge => DraftSendErrorReason::MessageTooLarge,
            DraftSendFailureSend::ScheduleSendLimitExceeded => DraftSendErrorReason::ScheduleSendMessageLimitExceeded,
        }
    }

    fn attachment_error(err: DraftSendFailureAttachment) -> (r: ProtonMailError)
        ensures
            r == attachment_error(err),
    {
        let reason = match err {
            DraftSendFailureAttachment::AttachmentAlreadyUploaded
            | DraftSendFailureAttachment::Other(_) => {
                return ProtonMailError::Unexpected(Unexpected::Draft);
            },
            DraftSendFailureAttachment::Crypto(_) => DraftAttachmentUploadErrorReason::Crypto,
            DraftSendFailureAttachment::TooManyAttachments => DraftAttachmentUploadErrorReason::TooManyAttachments,
            DraftSendFailureAttachment::AttachmentTooLarge => DraftAttachmentUploadErrorReason::AttachmentTooLarge,
            DraftSendFailureAttachment::MessageDoesNotExist => DraftAttachmentUploadErrorReason::MessageDoesNotExist,
            DraftSendFailureAttachment::TotalAttachmentsTooLarge => DraftAttachmentUploadErrorReason::TotalAttachmentSizeTooLarge,
            DraftSendFailureAttachment::Timeout => DraftAttachmentUploadErrorReason::Timeout,
            DraftSendFailureAttachment::StorageQuotaExceeded => DraftAttachmentUploadErrorReason::StorageQuotaExceeded,
        };
        ProtonMailError::Reason(MailErrorReason::DraftAttachmentUploadReason(reason))
    }

    /// The error reported to the user for a recorded failure: a missing
    /// connection is a network error, a server message a server error, an
    /// internal failure an unexpected one, and every other failure the reason
    /// of the same name.
    pub fn from_draft_send_failure(value: DraftSendFailure) -> (r: Self)
        ensures
            r == error_of_failure(value),
    {
        match value {
            DraftSendFailure::NoConnection => ProtonMailError::Network,
            DraftSendFailure::Server(v) => ProtonMailError::ServerError(
                UserApiServiceError::OtherHttpError(0, v),
            ),
            DraftSendFailure::Internal => ProtonMailError::Unexpected(Unexpected::Internal),
            DraftSendFailure::Save(err) => ProtonMailError::Reason(
                MailErrorReason::DraftSaveReason(Self::save_reason(err)),
            ),
            DraftSendFailure::Send(err) => ProtonMailError::Reason(
                MailErrorReason::DraftSendReason(Self::send_reason(err)),
            ),
            DraftSendFailure::Attachment(err) => Self::attachment_error(err),
            DraftSendFailure::AttachmentDispositionSwap(e) => {
                let reason = match e {
                    DraftSendFailureDispositionSwap::AttachmentDoesNotExist => DraftAttachmentDispositionSwapErrorReason::AttachmentDoesNotExist,
                    DraftSendFailureDispositionSwap::AttachmentMessagedDoesNotExist => DraftAttachmentDispositionSwapErrorReason::AttachmentMessageDoesNotExist,
                    DraftSendFailureDispositionSwap::AttachmentMessageIsNotADraft => DraftAttachmentDispositionSwapErrorReason::AttachmentMessageIsNotADraft,
                };
                ProtonMailError::Reason(MailErrorReason::DraftAttachmentDispositionSwapError(reason))
            },
        }
    }
}

impl From<DraftSendFailure> for ProtonMailError {
    fn from(value: DraftSendFailure) -> (r: Self) {
        ProtonMailError::from_draft_send_failure(value)
    }
}

impl vstd::std_specs::convert::FromSpecImpl<DraftSendFailure> for ProtonMailError {
    open spec fn obeys_from_spec() -> bool {
        true
    }

    open spec fn from_spec(v: DraftSendFailure) -> ProtonMailError {
        error_of_failure(v)
    }
}

/// How each recorded failure is reported to the user: no connection as a
/// network error, a server message as a server error with that message, an
/// internal failure as unexpected, and a failure of saving or sending as the
/// reason of the same name (with its address or text).
pub proof fn lemma_failures_are_reported_by_name(f: DraftSendFailure)
    ensures
        f == DraftSendFailure::NoConnection ==> error_of_failure(f) == ProtonMailError::Network,
        f matches DraftSendFailure::Server(m) ==> error_of_failure(f) == ProtonMailError::ServerError(
            UserApiServiceError::OtherHttpError(0, m),
        ),
        f == DraftSendFailure::Internal ==> error_of_failure(f) == ProtonMailError::Unexpected(
            Unexpected::Internal,
        ),
        f matches DraftSendFailure::Save(DraftSendFailureSave::AddressDisabled(v)) ==> error_of_failure(f)
            == ProtonMailError::Reason(MailErrorReason::DraftSaveReason(DraftSaveErrorReason::AddressDisabled(v))),
        f matches DraftSendFailure::Save(DraftSendFailureSave::AddressDoesNotHavePrimaryKey(v)) ==> error_of_failure(f)
            == ProtonMailError::Reason(MailErrorReason::DraftSaveReason(DraftSaveErrorReason::AddressDoesNotHavePrimaryKey(v))),
        f == DraftSendFailure::Save(DraftSendFailureSave::AlreadySent) ==> error_of_failure(f)
            == ProtonMailError::Reason(MailErrorReason::DraftSaveReason(DraftSaveErrorReason::MessageAlreadySent)),
        f == DraftSendFailure::Save(DraftSendFailureSave::MessageUpdateIsNotDraft) ==> error_of_failure(f)
            == ProtonMailError::Reason(MailErrorReason::DraftSaveReason(DraftSaveErrorReason::MessageIsNotADraft)),
        f == DraftSendFailure::Save(DraftSendFailureSave::MessageDoesNotExist) ==> error_of_failure(f)
            == ProtonMailError::Reason(MailErrorReason::DraftSaveReason(DraftSaveErrorReason::MessageDoesNotExist)),
        f == DraftSendFailure::Send(DraftSendFailureSend::NoRecipients) ==> error_of_failure(f)
            == ProtonMailError::Reason(MailErrorReason::DraftSendReason(DraftSendErrorReason::NoRecipients)),
        f matches DraftSendFailure::Send(DraftSendFailureSend::RecipientEmailInvalid(v)) ==> error_of_failure(f)
            == ProtonMailError::Reason(MailErrorReason::DraftSendReason(DraftSendErrorReason::RecipientEmailInvalid(v))),
        f matches DraftSendFailure::Send(DraftSendFailureSend::ProtonRecipientDoesNotExist(v)) ==> error_of_failure(f)
            == ProtonMailError::Reason(MailErrorReason::DraftSendReason(DraftSendErrorReason::ProtonRecipientDoesNotExist(v))),
        f matches DraftSendFailure::Send(DraftSendFailureSend::PackageError(v)) ==> error_of_failure(f)
            == ProtonMailError::Reason(MailErrorReason::DraftSendReason(DraftSendErrorReason::PackageError(v))),
        f == DraftSendFailure::Send(DraftSendFailureSend::MessageDoesNotExist) ==> error_of_failure(f)
            == ProtonMailError::Reason(MailErrorReason::DraftSendReason(DraftSendErrorReason::MessageDoesNotExist)),
        f == DraftSendFailure::Send(DraftSendFailureSend::ScheduleSendExpired) ==> error_of_failure(f)
            == ProtonMailError::Reason(MailErrorReason::DraftSendReason(DraftSendErrorReason::ScheduleSendExpired)),
        f == DraftSendFailure::Send(DraftSendFailureSend::ScheduleSendLimitExceeded) ==> error_of_failure(f)
            == ProtonMailError::Reason(MailErrorReason::DraftSendReason(DraftSendErrorReason::ScheduleSendMessageLimitExceeded)),
        f == DraftSendFailure::Send(DraftSendFailureSend::EOPasswordDecrypt) ==> error_of_failure(f)
            == ProtonMailError::Reason(MailErrorReason::DraftSendReason(DraftSendErrorReason::EOPasswordDecrypt)),
        f == DraftSendFailure::Send(DraftSendFailureSend::ExpirationTimeTooSoon) ==> error_of_failure(f)
            == ProtonMailError::Reason(MailErrorReason::DraftSendReason(DraftSendErrorReason::ExpirationTimeTooSoon)),
        f == DraftSendFailure::Send(DraftSendFailureSend::MissingAttachmentUploads) ==> error_of_failure(f)
            == ProtonMailError::Reason(MailErrorReason::DraftSendReason(DraftSendErrorReason::MissingAttachmentUploads)),
        f == DraftSendFailure::Send(DraftSendFailureSend::MessageTooLarge) ==> error_of_failure(f)
            == ProtonMailError::Reason(MailErrorReason::DraftSendReason(DraftSendErrorReason::MessageTooLarge)),
{
}

/// A send error with a send failure of the same name is recorded as that
/// failure and reported as the send reason of the same name (a schedule limit
/// under its own names); a packaging error keeps its kind and text; the
/// errors that only a bug can cause are recorded and reported as internal.
pub proof fn lemma_send_errors_keep_their_names(e: SendError)
    ensures
        e == SendError::NoRecipients ==> failure_of_draft_error(DraftError::Send(e))
            == DraftSendFailure::Send(DraftSendFailureSend::NoRecipients) && error_of_failure(
            failure_of_draft_error(DraftError::Send(e)),
        ) == ProtonMailError::Reason(
            MailErrorReason::DraftSendReason(DraftSendErrorReason::NoRecipients),
        ),
        e == SendError::ScheduleSendExpired ==> failure_of_draft_error(DraftError::Send(e))
            == DraftSendFailure::Send(DraftSendFailureSend::ScheduleSendExpired) && error_of_failure(
            failure_of_draft_error(DraftError::Send(e)),
        ) == ProtonMailError::Reason(
            MailErrorReason::DraftSendReason(DraftSendErrorReason::ScheduleSendExpired),
        ),
        e == SendError::ExpirationTimeTooSoon ==> failure_of_draft_error(DraftError::Send(e))
            == DraftSendFailure::Send(DraftSendFailureSend::ExpirationTimeTooSoon) && error_of_failure(
            failure_of_draft_error(DraftError::Send(e)),
        ) == ProtonMailError::Reason(
            MailErrorReason::DraftSendReason(DraftSendErrorReason::ExpirationTimeTooSoon),
        ),
        e == SendError::EOPasswordDecrypt ==> failure_of_draft_error(DraftError::Send(e))
            == DraftSendFailure::Send(DraftSendFailureSend::EOPasswordDecrypt) && error_of_failure(
            failure_of_draft_error(DraftError::Send(e)),
        ) == ProtonMailError::Reason(
            MailErrorReason::DraftSendReason(DraftSendErrorReason::EOPasswordDecrypt),
        ),
        e == SendError::ScheduleSendMessageLimitExceeded ==> failure_of_draft_error(DraftError::Send(e))
            == DraftSendFailure::Send(DraftSendFailureSend::ScheduleSendLimitExceeded) && error_of_failure(
            failure_of_draft_error(DraftError::Send(e)),
        ) == ProtonMailError::Reason(
            MailErrorReason::DraftSendReason(DraftSendErrorReason::ScheduleSendMessageLimitExceeded),
        ),
        e == SendError::MissingAttachmentUploads ==> failure_of_draft_error(DraftError::Send(e))
            == DraftSendFailure::Send(DraftSendFailureSend::MissingAttachmentUploads) && error_of_failure(
            failure_of_draft_error(DraftError::Send(e)),
        ) == ProtonMailError::Reason(
            MailErrorReason::DraftSendReason(DraftSendErrorReason::MissingAttachmentUploads),
        ),
        e == SendError::MessageTooLarge ==> failure_of_draft_error(DraftError::Send(e))
            == DraftSendFailure::Send(DraftSendFailureSend::MessageTooLarge) && error_of_failure(
            failure_of_draft_error(DraftError::Send(e)),
        ) == ProtonMailError::Reason(
            MailErrorReason::DraftSendReason(DraftSendErrorReason::MessageTooLarge),
        ),
        (e == SendError::MessageIsNotADraft || e == SendError::MetadataNotFound || e == SendError::LocalDraftWithoutMessage || e == SendError::DraftDoesNotExistOnServer || e == SendError::MessageBodyMissing) ==> failure_of_draft_error(DraftError::Send(e))
            == DraftSendFailure::Internal && error_of_failure(
            failure_of_draft_error(DraftError::Send(e)),
        ) == ProtonMailError::Unexpected(Unexpected::Internal),
        e matches SendError::SendMessage(PackageError::RecipientEmailInvalid(a))
            ==> failure_of_draft_error(DraftError::Send(e)) == DraftSendFailure::Send(
            DraftSendFailureSend::RecipientEmailInvalid(a),
        ),
        e matches SendError::SendMessage(PackageError::ProtonRecipientDoesNotExist(a))
            ==> failure_of_draft_error(DraftError::Send(e)) == DraftSendFailure::Send(
            DraftSendFailureSend::ProtonRecipientDoesNotExist(a),
        ),
        e matches SendError::SendMessage(PackageError::Other(m)) ==> failure_of_draft_error(
            DraftError::Send(e),
        ) == DraftSendFailure::Send(DraftSendFailureSend::PackageError(m)),
{
}

/// A save error is recorded as the save failure of the same name where there
/// is one (a missing primary key with its address, an already sent draft),
/// and as internal otherwise; an already sent draft is reported as such.
pub proof fn lemma_save_errors_keep_their_names(e: SaveError)
    ensures
        e matches SaveError::AddressWithoutPrimaryKey(a) ==> failure_of_draft_error(
            DraftError::Save(e),
        ) == DraftSendFailure::Save(DraftSendFailureSave::AddressDoesNotHavePrimaryKey(a)),
        e == SaveError::AlreadySent ==> failure_of_draft_error(DraftError::Save(e))
            == DraftSendFailure::Save(DraftSendFailureSave::AlreadySent) && error_of_failure(
            failure_of_draft_error(DraftError::Save(e)),
        ) == ProtonMailError::Reason(
            MailErrorReason::DraftSaveReason(DraftSaveErrorReason::MessageAlreadySent),
        ),
        (e == SaveError::AddressNotFound || e == SaveError::MessageNotADraft || e
            == SaveError::AttachmentDoesNotHaveKeyPackets || e == SaveError::MetadataNotFound || e
            == SaveError::DraftDoesNotExistOnServer) ==> failure_of_draft_error(DraftError::Save(e))
            == DraftSendFailure::Internal,
{
}

/// An upload error is recorded as the attachment failure of the same name
/// and reported as the upload reason of the same name; an attachment that
/// was uploaded already is unexpected, and the errors that only a bug can
/// cause are internal.
pub proof fn lemma_upload_errors_keep_their_names(e: AttachmentUploadError)
    ensures
        (e == AttachmentUploadError::MessageDoesNotExist || e
            == AttachmentUploadError::MessageDoesNotExistOnServer) ==> failure_of_draft_error(
            DraftError::AttachmentUpload(e),
        ) == DraftSendFailure::Attachment(DraftSendFailureAttachment::MessageDoesNotExist)
            && error_of_failure(failure_of_draft_error(DraftError::AttachmentUpload(e)))
            == ProtonMailError::Reason(
            MailErrorReason::DraftAttachmentUploadReason(
                DraftAttachmentUploadErrorReason::MessageDoesNotExist,
            ),
        ),
        e == AttachmentUploadError::TooManyAttachments ==> error_of_failure(
            failure_of_draft_error(DraftError::AttachmentUpload(e)),
        ) == ProtonMailError::Reason(
            MailErrorReason::DraftAttachmentUploadReason(
                DraftAttachmentUploadErrorReason::TooManyAttachments,
            ),
        ),
        e == AttachmentUploadError::AttachmentTooLarge ==> error_of_failure(
            failure_of_draft_error(DraftError::AttachmentUpload(e)),
        ) == ProtonMailError::Reason(
            MailErrorReason::DraftAttachmentUploadReason(
                DraftAttachmentUploadErrorReason::AttachmentTooLarge,
            ),
        ),
        e == AttachmentUploadError::TotalAttachmentSizeTooLarge ==> error_of_failure(
            failure_of_draft_error(DraftError::AttachmentUpload(e)),
        ) == ProtonMailError::Reason(
            MailErrorReason::DraftAttachmentUploadReason(
                DraftAttachmentUploadErrorReason::TotalAttachmentSizeTooLarge,
            ),
        ),
        e == AttachmentUploadError::Timeout ==> error_of_failure(
            failure_of_draft_error(DraftError::AttachmentUpload(e)),
        ) == ProtonMailError::Reason(
            MailErrorReason::DraftAttachmentUploadReason(DraftAttachmentUploadErrorReason::Timeout),
        ),
        e == AttachmentUploadError::StorageQuotaExceeded ==> error_of_failure(
            failure_of_draft_error(DraftError::AttachmentUpload(e)),
        ) == ProtonMailError::Reason(
            MailErrorReason::DraftAttachmentUploadReason(
                DraftAttachmentUploadErrorReason::StorageQuotaExceeded,
            ),
        ),
        e matches AttachmentUploadError::Crypto(m) ==> failure_of_draft_error(
            DraftError::AttachmentUpload(e),
        ) == DraftSendFailure::Attachment(DraftSendFailureAttachment::Crypto(m))
            && error_of_failure(failure_of_draft_error(DraftError::AttachmentUpload(e)))
            == ProtonMailError::Reason(
            MailErrorReason::DraftAttachmentUploadReason(DraftAttachmentUploadErrorReason::Crypto),
        ),
        e == AttachmentUploadError::AttachmentAlreadyUploaded ==> error_of_failure(
            failure_of_draft_error(DraftError::AttachmentUpload(e)),
        ) == ProtonMailError::Unexpected(Unexpected::Draft),
        (e == AttachmentUploadError::MetadataNotFound || e
            == AttachmentUploadError::AttachmentMetadataNotFound || e
            == AttachmentUploadError::AttachmentMetadataNotFoundCid || e
            == AttachmentUploadError::AttachmentDataMissing || e
            == AttachmentUploadError::MissingContentId || e
            == AttachmentUploadError::ExistingUploadActionExist || e
            == AttachmentUploadError::MessageAlreadySent || e
            == AttachmentUploadError::RetryInvalidState) ==> failure_of_draft_error(
            DraftError::AttachmentUpload(e),
        ) == DraftSendFailure::Internal,
{
}

/// A disposition swap error about a missing attachment, a missing message or
/// a message that is no draft is reported as that reason; the others are
/// internal.
pub proof fn lemma_swap_errors_keep_their_names(e: AttachmentDispositionSwapError)
    ensures
        (e == AttachmentDispositionSwapError::AttachmentNotFound || e
            == AttachmentDispositionSwapError::AttachmentNotFoundCid || e
            == AttachmentDispositionSwapError::AttachmentDoesNotExistServer) ==> error_of_failure(
            failure_of_draft_error(DraftError::AttachmentDispositionSwap(e)),
        ) == ProtonMailError::Reason(
            MailErrorReason::DraftAttachmentDispositionSwapError(
                DraftAttachmentDispositionSwapErrorReason::AttachmentDoesNotExist,
            ),
        ),
        e == AttachmentDispositionSwapError::AttachmentMessageDoesNotExist ==> error_of_failure(
            failure_of_draft_error(DraftError::AttachmentDispositionSwap(e)),
        ) == ProtonMailError::Reason(
            MailErrorReason::DraftAttachmentDispositionSwapError(
                DraftAttachmentDispositionSwapErrorReason::AttachmentMessageDoesNotExist,
            ),
        ),
        e == AttachmentDispositionSwapError::AttachmentMessageIsNotADraft ==> error_of_failure(
            failure_of_draft_error(DraftError::AttachmentDispositionSwap(e)),
        ) == ProtonMailError::Reason(
            MailErrorReason::DraftAttachmentDispositionSwapError(
                DraftAttachmentDispositionSwapErrorReason::AttachmentMessageIsNotADraft,
            ),
        ),
        (e == AttachmentDispositionSwapError::MetadataNotFound || e
            == AttachmentDispositionSwapError::AttachmentHasNoRemoteId || e
            == AttachmentDispositionSwapError::AttachmentMetadataNotFound || e
            == AttachmentDispositionSwapError::Noop || e
            == AttachmentDispositionSwapError::NoMessageIdInDraftMetadata || e
            == AttachmentDispositionSwapError::InvalidState || e
            == AttachmentDispositionSwapError::AttachmentHasNoContentId || e
            == AttachmentDispositionSwapError::AttachmentDoesNotHaveValidCid) ==> error_of_failure(
            failure_of_draft_error(DraftError::AttachmentDispositionSwap(e)),
        ) == ProtonMailError::Unexpected(Unexpected::Internal),
{
}

/// A failure is skipped exactly when it is reported as a network error, or
/// it is a draft that was already sent.
pub proof fn lemma_skippable_iff_network(f: DraftSendFailure)
    ensures
        is_skippable_failure(f) <==> (error_of_failure(f) == ProtonMailError::Network || f
            == DraftSendFailure::Save(DraftSendFailureSave::AlreadySent)),
{
}

/// An error of the mail context is reported as a network error exactly when
/// it is a request to the server that failed for want of a network.
pub proof fn lemma_network_error_iff_network_failure(e: MailContextError)
    ensures
        error_of_failure(failure_of_context_error(e)) == ProtonMailError::Network <==> (
        e is Api && e->Api_0.network_failure),
{
}

/// Every draft error that is recorded as internal is reported as an
/// unexpected internal error, and no draft error is recorded as a missing
/// connection.
pub proof fn lemma_draft_errors_never_network(e: DraftError)
    ensures
        failure_of_draft_error(e) != DraftSendFailure::NoConnection,
        failure_of_draft_error(e) == DraftSendFailure::Internal ==> error_of_failure(
            failure_of_draft_error(e),
        ) == ProtonMailError::Unexpected(Unexpected::Internal),
{
}

} // verus!
