//! Drafts: their metadata (expiration and pending actions), the recorded
//! result of sending one, and the upload state of their attachments.

use vstd::prelude::*;
use crate::draft_errors::{
    AttachmentDispositionSwapError, AttachmentUploadError, DraftError, DraftSendFailure,
    MailContextError,
};
use crate::attachment::{is_public_key_name, Attachment, PGP_KEYS_MIME_TYPE};
use crate::clock::{now_timestamp, now_unix_seconds};
use crate::types::{LocalAttachmentId, LocalConversationId, LocalMessageId, UnixTimestamp};

verus! {

/// When a draft's message expires, as the user chose it.
#[derive(Clone, Copy, Debug, PartialEq, Eq, Structural)]
pub enum DraftExpirationTime {
    Never,
    OneHour,
    OneDay,
    ThreeDays,
    /// At the given time (seconds since the Unix epoch).
    Custom(UnixTimestamp),
}

/// How the expiration of a draft is stored.
#[derive(Clone, Copy, Debug, PartialEq, Eq, Structural)]
pub enum DraftExpirationOption {
    Never,
    OneHour,
    OneDay,
    ThreeDays,
    Custom,
}

/// The number each expiration option is stored as.
pub open spec fn expiration_option_code(o: DraftExpirationOption) -> u8 {
    match o {
        DraftExpirationOption::Never => 0,
        DraftExpirationOption::OneHour => 1,
        DraftExpirationOption::OneDay => 2,
        DraftExpirationOption::ThreeDays => 3,
        DraftExpirationOption::Custom => 4,
    }
}

impl DraftExpirationOption {
    pub fn to_repr(&self) -> (r: u8)
        ensures
            r == expiration_option_code(*self),
    {
        match self {
            DraftExpirationOption::Never => 0,
            DraftExpirationOption::OneHour => 1,
            DraftExpirationOption::OneDay => 2,
            DraftExpirationOption::ThreeDays => 3,
            DraftExpirationOption::Custom => 4,
        }
    }

    /// Reads a stored option back; a number that is no option's is handed
    /// back as the error.
    pub fn try_from_repr(v: u8) -> (r: Result<Self, u8>)
        ensures
            r.is_ok() <==> v <= 4,
            r.is_ok() ==> expiration_option_code(r->Ok_0) == v,
            r.is_err() ==> r->Err_0 == v,
    {
        if v == 0 {
            Ok(DraftExpirationOption::Never)
        } else if v == 1 {
            Ok(DraftExpirationOption::OneHour)
        } else if v == 2 {
            Ok(DraftExpirationOption::OneDay)
        } else if v == 3 {
            Ok(DraftExpirationOption::ThreeDays)
        } else if v == 4 {
            Ok(DraftExpirationOption::Custom)
        } else {
            Err(v)
        }
    }
}

/// The metadata of a draft that is open for editing.
#[derive(Clone, Debug)]
pub struct DraftMetadata {
    pub id: Option<u64>,
    pub local_message_id: Option<LocalMessageId>,
    pub local_conversation_id: Option<LocalConversationId>,
    pub local_parent_id: Option<LocalMessageId>,
    pub reply_mode: Option<u32>,
    pub save_action_id: Option<u64>,
    pub send_action_id: Option<u64>,
    pub expiration_time: Option<UnixTimestamp>,
    pub password: Option<Vec<u8>>,
    pub password_hint: Option<String>,
    pub expiration_option: DraftExpirationOption,
}

/// The expiration a draft has by its stored option and time.
pub open spec fn expiration_of(option: DraftExpirationOption, time: Option<u64>) -> DraftExpirationTime {
    match option {
        DraftExpirationOption::Never => DraftExpirationTime::Never,
        DraftExpirationOption::OneHour => DraftExpirationTime::OneHour,
        DraftExpirationOption::OneDay => DraftExpirationTime::OneDay,
        DraftExpirationOption::ThreeDays => DraftExpirationTime::ThreeDays,
        DraftExpirationOption::Custom => match time {
            Some(v) => DraftExpirationTime::Custom(v),
            None => DraftExpirationTime::Never,
        },
    }
}

impl DraftMetadata {
    pub open spec fn spec_expiration_option(&self) -> DraftExpirationOption {
        self.expiration_option
    }

    pub open spec fn spec_expiration_time(&self) -> Option<UnixTimestamp> {
        self.expiration_time
    }

    /// Metadata of a new empty draft.
    pub fn empty() -> (r: Self)
        ensures
            r.id.is_none() && r.local_message_id.is_none() && r.local_conversation_id.is_none(),
            r.local_parent_id.is_none() && r.reply_mode.is_none(),
            r.save_action_id.is_none() && r.send_action_id.is_none(),
            r.password.is_none() && r.password_hint.is_none(),
            r.spec_expiration_time().is_none(),
            r.spec_expiration_option() == DraftExpirationOption::Never,
    {
        DraftMetadata {
            id: None,
            local_message_id: None,
            local_conversation_id: None,
            local_parent_id: None,
            reply_mode: None,
            save_action_id: None,
            send_action_id: None,
            expiration_time: None,
            password: None,
            password_hint: None,
            expiration_option: DraftExpirationOption::Never,
        }
    }

    /// Metadata of a new reply: it expires at the given time, if any.
    pub fn reply(
        reply_mode: u32,
        source_message_id: LocalMessageId,
        source_conversation_id: LocalConversationId,
        expiration_time: Option<UnixTimestamp>,
    ) -> (r: Self)
        ensures
            r.id.is_none() && r.local_message_id.is_none(),
            r.local_conversation_id == Some(source_conversation_id),
            r.local_parent_id == Some(source_message_id),
            r.reply_mode == Some(reply_mode),
            r.save_action_id.is_none() && r.send_action_id.is_none(),
            r.password.is_none() && r.password_hint.is_none(),
            r.spec_expiration_time() == expiration_time,
            r.spec_expiration_option() == if expiration_time.is_none() {
                DraftExpirationOption::Never
            } else {
                DraftExpirationOption::Custom
            },
    {
        let expiration_option = if expiration_time.is_none() {
            DraftExpirationOption::Never
        } else {
            DraftExpirationOption::Custom
        };
        DraftMetadata {
            id: None,
            local_message_id: None,
            local_conversation_id: Some(source_conversation_id),
            local_parent_id: Some(source_message_id),
            reply_mode: Some(reply_mode),
            send_action_id: None,
            save_action_id: None,
            expiration_time,
            password: None,
            password_hint: None,
            expiration_option,
        }
    }

    pub fn with_ids(message_id: LocalMessageId, conversation_id: LocalConversationId) -> (r: Self)
        ensures
            r.id.is_none(),
            r.local_message_id == Some(message_id),
            r.local_conversation_id == Some(conversation_id),
            r.local_parent_id.is_none() && r.reply_mode.is_none(),
            r.save_action_id.is_none() && r.send_action_id.is_none(),
            r.password.is_none() && r.password_hint.is_none(),
            r.spec_expiration_time().is_none(),
            r.spec_expiration_option() == DraftExpirationOption::Never,
    {
        DraftMetadata {
            id: None,
            local_message_id: Some(message_id),
            local_conversation_id: Some(conversation_id),
            local_parent_id: None,
            reply_mode: None,
            send_action_id: None,
            save_action_id: None,
            expiration_time: None,
            password: None,
            password_hint: None,
            expiration_option: DraftExpirationOption::Never,
        }
    }

    /// Whether the draft has changes not yet sent to the server: a queued
    /// save or send, or attachments still uploading.
    pub fn has_pending_changes(&self, attachment_uploads_pending: bool) -> (r: bool)
        ensures
            r == (self.save_action_id.is_some() || self.send_action_id.is_some()
                || attachment_uploads_pending),
    {
        self.save_action_id.is_some() || self.send_action_id.is_some()
            || attachment_uploads_pending
    }

    pub fn expiration_time(&self) -> (r: DraftExpirationTime)
        ensures
            r == expiration_of(self.spec_expiration_option(), self.spec_expiration_time()),
    {
        match self.expiration_option {
            DraftExpirationOption::Never => DraftExpirationTime::Never,
            DraftExpirationOption::OneHour => DraftExpirationTime::OneHour,
            DraftExpirationOption::OneDay => DraftExpirationTime::OneDay,
            DraftExpirationOption::ThreeDays => DraftExpirationTime::ThreeDays,
            DraftExpirationOption::Custom => match self.expiration_time {
                Some(v) => DraftExpirationTime::Custom(v),
                None => DraftExpirationTime::Never,
            },
        }
    }

    pub fn set_expiration_time(&mut self, expiration: DraftExpirationTime)
        ensures
            final(self).spec_expiration_time() == match expiration {
                DraftExpirationTime::Custom(v) => Some(v),
                _ => None::<UnixTimestamp>,
            },
            final(self).spec_expiration_option() == match expiration {
                DraftExpirationTime::Never => DraftExpirationOption::Never,
                DraftExpirationTime::OneHour => DraftExpirationOption::OneHour,
                DraftExpirationTime::OneDay => DraftExpirationOption::OneDay,
                DraftExpirationTime::ThreeDays => DraftExpirationOption::ThreeDays,
                DraftExpirationTime::Custom(_) => DraftExpirationOption::Custom,
            },
            *final(self) == (DraftMetadata {
                expiration_time: final(self).expiration_time,
                expiration_option: final(self).expiration_option,
                ..*old(self)
            }),
    {
        match expiration {
            DraftExpirationTime::Never => {
                self.expiration_time = None;
                self.expiration_option = DraftExpirationOption::Never;
            },
            DraftExpirationTime::OneHour => {
                self.expiration_time = None;
                self.expiration_option = DraftExpirationOption::OneHour;
            },
            DraftExpirationTime::OneDay => {
                self.expiration_time = None;
                self.expiration_option = DraftExpirationOption::OneDay;
            },
            DraftExpirationTime::ThreeDays => {
                self.expiration_time = None;
                self.expiration_option = DraftExpirationOption::ThreeDays;
            },
            DraftExpirationTime::Custom(v) => {
                self.expiration_time = Some(v);
                self.expiration_option = DraftExpirationOption::Custom;
            },
        }
    }
}

/// Reading back the expiration that was just set gives it back.
pub proof fn lemma_expiration_round_trip(expiration: DraftExpirationTime)
    ensures
        expiration_of(
            match expiration {
                DraftExpirationTime::Never => DraftExpirationOption::Never,
                DraftExpirationTime::OneHour => DraftExpirationOption::OneHour,
                DraftExpirationTime::OneDay => DraftExpirationOption::OneDay,
                DraftExpirationTime::ThreeDays => DraftExpirationOption::ThreeDays,
                DraftExpirationTime::Custom(_) => DraftExpirationOption::Custom,
            },
            match expiration {
                DraftExpirationTime::Custom(v) => Some(v),
                _ => None::<UnixTimestamp>,
            },
        ) == expiration,
{
}

/// Track the origin/context of a draft send result.
#[derive(Clone, Copy, Debug, PartialEq, Eq, Structural)]
pub enum DraftSendResultOrigin {
    /// We failed to update a draft body without sending the message
    Save,
    /// We failed to update a draft body before sending the message
    SaveBeforeSend,
    /// We failed while sending the message
    Send,
    /// We failed while uploading an attachment
    AttachmentUpload,
    /// We failed when scheduling a message send
    ScheduleSend,
    /// We failed to swap the disposition on the message
    AttachmentDispositionSwap,
}

/// The number each origin is stored as.
pub open spec fn origin_code(o: DraftSendResultOrigin) -> u8 {
    match o {
        DraftSendResultOrigin::Save => 0,
        DraftSendResultOrigin::SaveBeforeSend => 1,
        DraftSendResultOrigin::Send => 2,
        DraftSendResultOrigin::AttachmentUpload => 3,
        DraftSendResultOrigin::ScheduleSend => 4,
        DraftSendResultOrigin::AttachmentDispositionSwap => 5,
    }
}

impl DraftSendResultOrigin {
    pub fn to_repr(&self) -> (r: u8)
        ensures
            r == origin_code(*self),
    {
        match self {
            DraftSendResultOrigin::Save => 0,
            DraftSendResultOrigin::SaveBeforeSend => 1,
            DraftSendResultOrigin::Send => 2,
            DraftSendResultOrigin::AttachmentUpload => 3,
            DraftSendResultOrigin::ScheduleSend => 4,
            DraftSendResultOrigin::AttachmentDispositionSwap => 5,
        }
    }

    /// Reads a stored origin back; a number that is no origin's is handed back
    /// as the error.
    pub fn try_from_repr(v: u8) -> (r: Result<Self, u8>)
        ensures
            r.is_ok() <==> v <= 5,
            r.is_ok() ==> origin_code(r->Ok_0) == v,
            r.is_err() ==> r->Err_0 == v,
    {
        if v == 0 {
            Ok(DraftSendResultOrigin::Save)
        } else if v == 1 {
            Ok(DraftSendResultOrigin::SaveBeforeSend)
        } else if v == 2 {
            Ok(DraftSendResultOrigin::Send)
        } else if v == 3 {
            Ok(DraftSendResultOrigin::AttachmentUpload)
        } else if v == 4 {
            Ok(DraftSendResultOrigin::ScheduleSend)
        } else if v == 5 {
            Ok(DraftSendResultOrigin::AttachmentDispositionSwap)
        } else {
            Err(v)
        }
    }
}

/// The recorded result of sending (or saving) a draft.
#[derive(Clone, Debug)]
pub struct DraftSendResult {
    pub local_message_id: LocalMessageId,
    /// Only set when the message was sent successfully.
    pub remote_message_id: Option<String>,
    pub timestamp: UnixTimestamp,
    /// Time by which the sending can still be cancelled: the delivery time.
    pub undo_timestamp: UnixTimestamp,
    pub error: Option<DraftSendFailure>,
    pub seen: bool,
    pub origin: DraftSendResultOrigin,
    pub has_send_action: bool,
}

impl DraftSendResult {
    /// A successful send of the message, recorded at `now`, that can be
    /// undone until `undo_timestamp`.
    pub fn success_at(
        local_message_id: LocalMessageId,
        remote_message_id: String,
        undo_timestamp: UnixTimestamp,
        origin: DraftSendResultOrigin,
        now: UnixTimestamp,
    ) -> (r: Self)
        ensures
            r.local_message_id == local_message_id,
            r.remote_message_id == Some(remote_message_id),
            r.timestamp == now,
            r.undo_timestamp == undo_timestamp,
            r.error.is_none(),
            !r.seen,
            r.origin == origin,
            !r.has_send_action,
    {
        DraftSendResult {
            local_message_id,
            remote_message_id: Some(remote_message_id),
            timestamp: now,
            undo_timestamp,
            error: None,
            seen: false,
            origin,
            has_send_action: false,
        }
    }

    /// A successful send of the message, recorded now.
    pub fn success(
        local_message_id: LocalMessageId,
        remote_message_id: String,
        undo_timestamp: UnixTimestamp,
        origin: DraftSendResultOrigin,
    ) -> (r: Self)
        ensures
            r.local_message_id == local_message_id,
            r.remote_message_id == Some(remote_message_id),
            r.undo_timestamp == undo_timestamp,
            r.error.is_none(),
            !r.seen,
            r.origin == origin,
            !r.has_send_action,
    {
        Self::success_at(
            local_message_id,
            remote_message_id,
            undo_timestamp,
            origin,
            now_unix_seconds(),
        )
    }

    /// A failed send of the message, recorded at `now`.
    pub fn failure_at(
        local_message_id: LocalMessageId,
        origin: DraftSendResultOrigin,
        error: DraftSendFailure,
        now: UnixTimestamp,
    ) -> (r: Self)
        ensures
            r.local_message_id == local_message_id,
            r.remote_message_id.is_none(),
            r.timestamp == now,
            r.undo_timestamp == 0,
            r.error == Some(error),
            !r.seen,
            r.origin == origin,
            !r.has_send_action,
    {
        DraftSendResult {
            local_message_id,
            remote_message_id: None,
            timestamp: now,
            undo_timestamp: 0,
            seen: false,
            error: Some(error),
            has_send_action: false,
            origin,
        }
    }

    /// A failed send of the message, recorded now.
    pub fn failure(
        local_message_id: LocalMessageId,
        origin: DraftSendResultOrigin,
        error: DraftSendFailure,
    ) -> (r: Self)
        ensures
            r.local_message_id == local_message_id,
            r.remote_message_id.is_none(),
            r.undo_timestamp == 0,
            r.error == Some(error),
            !r.seen,
            r.origin == origin,
            !r.has_send_action,
    {
        Self::failure_at(local_message_id, origin, error, now_unix_seconds())
    }

    /// Whether the operation was successful
    pub fn is_success(&self) -> (r: bool)
        ensures
            r == self.error.is_none(),
    {
        self.error.is_none()
    }

    /// Before it is stored, a result records whether its draft has a send
    /// action queued, when the draft's metadata is known.
    pub fn before_save(&mut self, metadata: Option<&DraftMetadata>)
        ensures
            final(self).has_send_action == match metadata {
                Some(m) => m.send_action_id.is_some(),
                None => old(self).has_send_action,
            },
            *final(self) == (DraftSendResult {
                has_send_action: final(self).has_send_action,
                ..*old(self)
            }),
    {
        match metadata {
            Some(m) => {
                self.has_send_action = m.send_action_id.is_some();
            },
            None => {},
        }
    }

    /// Whether the send can still be undone at `now`.
    pub fn is_send_undoable_at(&self, now: UnixTimestamp) -> (r: bool)
        ensures
            r == (now < self.undo_timestamp),
    {
        now < self.undo_timestamp
    }

    /// Whether the send can still be undone now.
    pub fn is_send_undoable(&self) -> (r: bool)
        ensures
            r ==> self.undo_timestamp > 0,
    {
        self.is_send_undoable_at(now_unix_seconds())
    }

    /// The seconds left at `now` until the send can no longer be undone.
    pub fn time_left_for_undo_at(&self, now: UnixTimestamp) -> (r: u64)
        ensures
            r == if now <= self.undo_timestamp {
                (self.undo_timestamp - now) as u64
            } else {
                0
            },
    {
        self.undo_timestamp.saturating_sub(now)
    }

    /// The seconds left until the send can no longer be undone.
    pub fn time_left_for_undo(&self) -> (r: u64)
        ensures
            r <= self.undo_timestamp,
    {
        self.time_left_for_undo_at(now_unix_seconds())
    }
}

/// The upload state of a draft's attachment.
#[derive(Clone, Copy, Debug, PartialEq, Eq, Structural)]
pub enum DraftAttachmentUploadState {
    Uploading,
    Uploaded,
    Error,
    Offline,
    Pending,
    DispositionSwap,
}

/// The number each upload state is stored as.
pub open spec fn upload_state_code(s: DraftAttachmentUploadState) -> i64 {
    match s {
        DraftAttachmentUploadState::Uploading => 0,
        DraftAttachmentUploadState::Uploaded => 1,
        DraftAttachmentUploadState::Error => 2,
        DraftAttachmentUploadState::Offline => 3,
        DraftAttachmentUploadState::Pending => 4,
        DraftAttachmentUploadState::DispositionSwap => 5,
    }
}

impl DraftAttachmentUploadState {
    pub fn to_column(&self) -> (r: i64)
        ensures
            r == upload_state_code(*self),
    {
        match self {
            DraftAttachmentUploadState::Uploading => 0,
            DraftAttachmentUploadState::Uploaded => 1,
            DraftAttachmentUploadState::Error => 2,
            DraftAttachmentUploadState::Offline => 3,
            DraftAttachmentUploadState::Pending => 4,
            DraftAttachmentUploadState::DispositionSwap => 5,
        }
    }

    /// Reads a stored state back; a number that is no state's is handed back
    /// as the error.
    pub fn from_column(v: i64) -> (r: Result<Self, i64>)
        ensures
            r.is_ok() <==> 0 <= v <= 5,
            r.is_ok() ==> upload_state_code(r->Ok_0) == v,
            r.is_err() ==> r->Err_0 == v,
    {
        if v == 0 {
            Ok(DraftAttachmentUploadState::Uploading)
        } else if v == 1 {
            Ok(DraftAttachmentUploadState::Uploaded)
        } else if v == 2 {
            Ok(DraftAttachmentUploadState::Error)
        } else if v == 3 {
            Ok(DraftAttachmentUploadState::Offline)
        } else if v == 4 {
            Ok(DraftAttachmentUploadState::Pending)
        } else if v == 5 {
            Ok(DraftAttachmentUploadState::DispositionSwap)
        } else {
            Err(v)
        }
    }
}

/// Who controls an attachment of a draft.
#[derive(Clone, Copy, Debug, PartialEq, Eq, Structural)]
pub enum DraftAttachmentOwnership {
    /// Inherited from a reply or forward action; it is given new identifiers
    /// the first time the draft is saved.
    Inherited,
    /// This is an attachment that we have full control over.
    Owned,
}

impl Default for DraftAttachmentOwnership {
    fn default() -> (r: Self)
        ensures
            r == DraftAttachmentOwnership::Owned,
    {
        DraftAttachmentOwnership::Owned
    }
}

impl DraftAttachmentOwnership {
    pub fn to_column(&self) -> (r: i64)
        ensures
            r == (if *self == DraftAttachmentOwnership::Inherited {
                0i64
            } else {
                1i64
            }),
    {
        match self {
            DraftAttachmentOwnership::Inherited => 0,
            DraftAttachmentOwnership::Owned => 1,
        }
    }

    pub fn from_column(v: i64) -> (r: Result<Self, i64>)
        ensures
            v == 0 ==> r == Ok::<Self, i64>(DraftAttachmentOwnership::Inherited),
            v == 1 ==> r == Ok::<Self, i64>(DraftAttachmentOwnership::Owned),
            v != 0 && v != 1 ==> r == Err::<Self, i64>(v),
    {
        if v == 0 {
            Ok(DraftAttachmentOwnership::Inherited)
        } else if v == 1 {
            Ok(DraftAttachmentOwnership::Owned)
        } else {
            Err(v)
        }
    }
}

/// Why uploading an attachment failed, as recorded.
#[derive(Clone, Debug, PartialEq, Eq)]
pub enum DraftAttachmentInternalUploadError {
    /// Cryptography failure
    Crypto(String),
    /// Message has too many attachments.
    TooManyAttachments,
    /// The message was already sent.
    MessageAlreadySent,
    /// Server replied with error that we are not aware of.
    Server(String),
    AttachmentTooLarge,
    TotalAttachmentsTooLarge,
    /// Unexpected internal error
    Unexpected,
}

/// Why swapping an attachment's disposition failed, as recorded.
#[derive(Clone, Debug, PartialEq, Eq)]
pub enum DraftAttachmentInternalDispositionError {
    Server(String),
    AttachmentNotFound,
    MessageIsNotDraft,
    MessageDoesNotExist,
    Unexpected,
}

/// Possible attachment errors that are recorded.
#[derive(Clone, Debug, PartialEq, Eq)]
pub enum DraftAttachmentInternalError {
    Upload(DraftAttachmentInternalUploadError),
    DispositionSwap(DraftAttachmentInternalDispositionError),
}

/// The recorded upload error for an error of the mail context.
pub open spec fn upload_error_of(e: MailContextError) -> DraftAttachmentInternalUploadError {
    match e {
        MailContextError::Api(a) => DraftAttachmentInternalUploadError::Server(a.message),
        MailContextError::Draft(DraftError::AttachmentUpload(u)) => match u {
            AttachmentUploadError::MessageAlreadySent => DraftAttachmentInternalUploadError::MessageAlreadySent,
            AttachmentUploadError::TooManyAttachments => DraftAttachmentInternalUploadError::TooManyAttachments,
            AttachmentUploadError::Crypto(m) => DraftAttachmentInternalUploadError::Crypto(m),
            AttachmentUploadError::AttachmentTooLarge => DraftAttachmentInternalUploadError::AttachmentTooLarge,
            AttachmentUploadError::TotalAttachmentSizeTooLarge => DraftAttachmentInternalUploadError::TotalAttachmentsTooLarge,
            _ => DraftAttachmentInternalUploadError::Unexpected,
        },
        MailContextError::AttachmentEncryption(m) => DraftAttachmentInternalUploadError::Crypto(m),
        _ => DraftAttachmentInternalUploadError::Unexpected,
    }
}

/// The recorded disposition swap error for an error of the mail context.
pub open spec fn swap_error_of(e: MailContextError) -> DraftAttachmentInternalDispositionError {
    match e {
        MailContextError::Api(a) => DraftAttachmentInternalDispositionError::Server(a.message),
        MailContextError::Draft(DraftError::AttachmentDispositionSwap(d)) => match d {
            AttachmentDispositionSwapError::AttachmentNotFoundCid
            | AttachmentDispositionSwapError::AttachmentNotFound
            | AttachmentDispositionSwapError::AttachmentDoesNotExistServer => DraftAttachmentInternalDispositionError::AttachmentNotFound,
            AttachmentDispositionSwapError::AttachmentMessageIsNotADraft => DraftAttachmentInternalDispositionError::MessageIsNotDraft,
            AttachmentDispositionSwapError::AttachmentMessageDoesNotExist => DraftAttachmentInternalDispositionError::MessageDoesNotExist,
            _ => DraftAttachmentInternalDispositionError::Unexpected,
        },
        _ => DraftAttachmentInternalDispositionError::Unexpected,
    }
}

fn clone_string(s: &String) -> (r: String)
    ensures
        r == *s,
{
    s.clone()
}

impl DraftAttachmentInternalUploadError {
    pub fn from_mail_context_error(error: &MailContextError) -> (r: Self)
        ensures
            r == upload_error_of(*error),
    {
        match error {
            MailContextError::Api(e) => DraftAttachmentInternalUploadError::Server(
                clone_string(&e.message),
            ),
            MailContextError::Draft(DraftError::AttachmentUpload(u)) => match u {
                AttachmentUploadError::MessageAlreadySent => DraftAttachmentInternalUploadError::MessageAlreadySent,
                AttachmentUploadError::TooManyAttachments => DraftAttachmentInternalUploadError::TooManyAttachments,
                AttachmentUploadError::Crypto(e) => DraftAttachmentInternalUploadError::Crypto(
                    clone_string(e),
                ),
                AttachmentUploadError::AttachmentTooLarge => DraftAttachmentInternalUploadError::AttachmentTooLarge,
                AttachmentUploadError::TotalAttachmentSizeTooLarge => DraftAttachmentInternalUploadError::TotalAttachmentsTooLarge,
                _ => DraftAttachmentInternalUploadError::Unexpected,
            },
            MailContextError::AttachmentEncryption(e) => DraftAttachmentInternalUploadError::Crypto(
                clone_string(e),
            ),
            _ => DraftAttachmentInternalUploadError::Unexpected,
        }
    }
}

impl DraftAttachmentInternalDispositionError {
    pub fn from_mail_context_error(error: &MailContextError) -> (r: Self)
        ensures
            r == swap_error_of(*error),
    {
        match error {
            MailContextError::Api(e) => DraftAttachmentInternalDispositionError::Server(
                clone_string(&e.message),
            ),
            MailContextError::Draft(DraftError::AttachmentDispositionSwap(d)) => match d {
                AttachmentDispositionSwapError::AttachmentNotFoundCid
                | AttachmentDispositionSwapError::AttachmentNotFound
                | AttachmentDispositionSwapError::AttachmentDoesNotExistServer => DraftAttachmentInternalDispositionError::AttachmentNotFound,
                AttachmentDispositionSwapError::AttachmentMessageIsNotADraft => DraftAttachmentInternalDispositionError::MessageIsNotDraft,
                AttachmentDispositionSwapError::AttachmentMessageDoesNotExist => DraftAttachmentInternalDispositionError::MessageDoesNotExist,
                _ => DraftAttachmentInternalDispositionError::Unexpected,
            },
            _ => DraftAttachmentInternalDispositionError::Unexpected,
        }
    }
}

impl DraftAttachmentInternalError {
    /// The recorded error of a failed attachment operation: a disposition
    /// swap error for a swap, an upload error for an upload. Other origins
    /// never record an attachment error.
    pub fn from_mail_context_error(origin: DraftSendResultOrigin, error: &MailContextError) -> (r:
        Self)
        requires
            origin == DraftSendResultOrigin::AttachmentDispositionSwap || origin
                == DraftSendResultOrigin::AttachmentUpload,
        ensures
            origin == DraftSendResultOrigin::AttachmentDispositionSwap ==> r
                == DraftAttachmentInternalError::DispositionSwap(swap_error_of(*error)),
            origin == DraftSendResultOrigin::AttachmentUpload ==> r
                == DraftAttachmentInternalError::Upload(upload_error_of(*error)),
    {
        match origin {
            DraftSendResultOrigin::AttachmentDispositionSwap => DraftAttachmentInternalError::DispositionSwap(
                DraftAttachmentInternalDispositionError::from_mail_context_error(error),
            ),
            _ => DraftAttachmentInternalError::Upload(
                DraftAttachmentInternalUploadError::from_mail_context_error(error),
            ),
        }
    }

    pub fn is_upload_error(&self) -> (r: bool)
        ensures
            r == (*self is Upload),
    {
        match self {
            DraftAttachmentInternalError::Upload(_) => true,
            DraftAttachmentInternalError::DispositionSwap(_) => false,
        }
    }

    pub fn is_disposition_swap_error(&self) -> (r: bool)
        ensures
            r == (*self is DispositionSwap),
    {
        match self {
            DraftAttachmentInternalError::Upload(_) => false,
            DraftAttachmentInternalError::DispositionSwap(_) => true,
        }
    }
}

/// The metadata and upload state of an attachment added to a draft.
#[derive(Clone, Debug)]
pub struct DraftAttachmentMetadata {
    pub local_attachment_id: LocalAttachmentId,
    pub metadata_id: u64,
    pub timestamp: i64,
    pub state: DraftAttachmentUploadState,
    pub ownership: DraftAttachmentOwnership,
    pub error: Option<DraftAttachmentInternalError>,
    pub display_order: usize,
    pub action_id: Option<u64>,
    pub deleted: bool,
    pub is_public_key: bool,
}

impl DraftAttachmentMetadata {
    pub open spec fn spec_state(&self) -> DraftAttachmentUploadState {
        self.state
    }

    pub open spec fn spec_timestamp(&self) -> i64 {
        self.timestamp
    }

    /// An attachment of the draft in the given state and ownership, recorded
    /// at `now`.
    pub open spec fn create_spec(
        metadata_id: u64,
        local_attachment_id: LocalAttachmentId,
        display_order: usize,
        is_public_key: bool,
        state: DraftAttachmentUploadState,
        ownership: DraftAttachmentOwnership,
        now: i64,
    ) -> Self {
        DraftAttachmentMetadata {
            local_attachment_id,
            metadata_id,
            timestamp: now,
            state,
            action_id: None,
            error: None,
            ownership,
            display_order,
            deleted: false,
            is_public_key,
        }
    }

    /// An attachment of the draft in the given state and ownership, recorded
    /// at `now`.
    pub fn create_at(
        metadata_id: u64,
        local_attachment_id: LocalAttachmentId,
        display_order: usize,
        is_public_key: bool,
        state: DraftAttachmentUploadState,
        ownership: DraftAttachmentOwnership,
        now: i64,
    ) -> (r: Self)
        ensures
            r == Self::create_spec(
                metadata_id,
                local_attachment_id,
                display_order,
                is_public_key,
                state,
                ownership,
                now,
            ),
    {
        DraftAttachmentMetadata {
            local_attachment_id,
            metadata_id,
            timestamp: now,
            state,
            action_id: None,
            error: None,
            ownership,
            display_order,
            deleted: false,
            is_public_key,
        }
    }

    /// A new owned attachment that starts uploading at `now`.
    pub fn new_at(
        metadata_id: u64,
        local_attachment_id: LocalAttachmentId,
        display_order: usize,
        is_public_key: bool,
        now: i64,
    ) -> (r: Self)
        ensures
            r == Self::create_spec(
                metadata_id,
                local_attachment_id,
                display_order,
                is_public_key,
                DraftAttachmentUploadState::Uploading,
                DraftAttachmentOwnership::Owned,
                now,
            ),
    {
        Self::create_at(
            metadata_id,
            local_attachment_id,
            display_order,
            is_public_key,
            DraftAttachmentUploadState::Uploading,
            DraftAttachmentOwnership::Owned,
            now,
        )
    }

    /// A new owned attachment that starts uploading now.
    pub fn new(
        metadata_id: u64,
        local_attachment_id: LocalAttachmentId,
        display_order: usize,
        is_public_key: bool,
    ) -> (r: Self)
        ensures
            r == Self::create_spec(
                metadata_id,
                local_attachment_id,
                display_order,
                is_public_key,
                DraftAttachmentUploadState::Uploading,
                DraftAttachmentOwnership::Owned,
                r.spec_timestamp(),
            ),
    {
        Self::new_at(metadata_id, local_attachment_id, display_order, is_public_key, now_timestamp())
    }

    /// A new pending attachment, recorded at `now`: pending attachments start
    /// uploading when the draft is saved.
    pub fn pending_at(
        metadata_id: u64,
        local_attachment_id: LocalAttachmentId,
        display_order: usize,
        is_public_key: bool,
        now: i64,
    ) -> (r: Self)
        ensures
            r == Self::create_spec(
                metadata_id,
                local_attachment_id,
                display_order,
                is_public_key,
                DraftAttachmentUploadState::Pending,
                DraftAttachmentOwnership::Owned,
                now,
            ),
    {
        Self::create_at(
            metadata_id,
            local_attachment_id,
            display_order,
            is_public_key,
            DraftAttachmentUploadState::Pending,
            DraftAttachmentOwnership::Owned,
            now,
        )
    }

    /// A new pending attachment, recorded now.
    pub fn pending(
        metadata_id: u64,
        local_attachment_id: LocalAttachmentId,
        display_order: usize,
        is_public_key: bool,
    ) -> (r: Self)
        ensures
            r == Self::create_spec(
                metadata_id,
                local_attachment_id,
                display_order,
                is_public_key,
                DraftAttachmentUploadState::Pending,
                DraftAttachmentOwnership::Owned,
                r.spec_timestamp(),
            ),
    {
        Self::pending_at(metadata_id, local_attachment_id, display_order, is_public_key, now_timestamp())
    }

    /// An attachment inherited from the message a reply or forward is made
    /// of, recorded at `now`: it is uploaded already, and gets new remote ids
    /// the first time the draft is saved.
    pub fn inherited_at(metadata_id: u64, attachment: &Attachment, display_order: usize, now: i64) -> (r:
        Self)
        requires
            attachment.local_id.is_some(),
        ensures
            r == Self::create_spec(
                metadata_id,
                attachment.local_id.unwrap(),
                display_order,
                attachment.mime_type@ == PGP_KEYS_MIME_TYPE@ && is_public_key_name(
                    attachment.filename@,
                ),
                DraftAttachmentUploadState::Uploaded,
                DraftAttachmentOwnership::Inherited,
                now,
            ),
    {
        let id = match attachment.local_id {
            Some(id) => id,
            None => 0,
        };
        Self::create_at(
            metadata_id,
            id,
            display_order,
            attachment.is_public_key_attachment(),
            DraftAttachmentUploadState::Uploaded,
            DraftAttachmentOwnership::Inherited,
            now,
        )
    }

    /// An attachment inherited from the message a reply or forward is made
    /// of, recorded now.
    pub fn inherited(metadata_id: u64, attachment: &Attachment, display_order: usize) -> (r: Self)
        requires
            attachment.local_id.is_some(),
        ensures
            r == Self::create_spec(
                metadata_id,
                attachment.local_id.unwrap(),
                display_order,
                attachment.mime_type@ == PGP_KEYS_MIME_TYPE@ && is_public_key_name(
                    attachment.filename@,
                ),
                DraftAttachmentUploadState::Uploaded,
                DraftAttachmentOwnership::Inherited,
                r.spec_timestamp(),
            ),
    {
        Self::inherited_at(metadata_id, attachment, display_order, now_timestamp())
    }

    /// A new owned attachment that is uploaded already, recorded at `now`.
    pub fn owned_and_uploaded_at(
        metadata_id: u64,
        attachment_id: LocalAttachmentId,
        display_order: usize,
        is_public_key: bool,
        now: i64,
    ) -> (r: Self)
        ensures
            r == Self::create_spec(
                metadata_id,
                attachment_id,
                display_order,
                is_public_key,
                DraftAttachmentUploadState::Uploaded,
                DraftAttachmentOwnership::Owned,
                now,
            ),
    {
        Self::create_at(
            metadata_id,
            attachment_id,
            display_order,
            is_public_key,
            DraftAttachmentUploadState::Uploaded,
            DraftAttachmentOwnership::Owned,
            now,
        )
    }

    /// A new owned attachment that is uploaded already, recorded now.
    pub fn owned_and_uploaded(
        metadata_id: u64,
        attachment_id: LocalAttachmentId,
        display_order: usize,
        is_public_key: bool,
    ) -> (r: Self)
        ensures
            r == Self::create_spec(
                metadata_id,
                attachment_id,
                display_order,
                is_public_key,
                DraftAttachmentUploadState::Uploaded,
                DraftAttachmentOwnership::Owned,
                r.spec_timestamp(),
            ),
    {
        Self::owned_and_uploaded_at(
            metadata_id,
            attachment_id,
            display_order,
            is_public_key,
            now_timestamp(),
        )
    }

    /// `m` in the given state since `now`, all else unchanged.
    pub open spec fn with_state(m: Self, state: DraftAttachmentUploadState, now: i64) -> Self {
        DraftAttachmentMetadata { timestamp: now, state, ..m }
    }

    fn set_state(&mut self, state: DraftAttachmentUploadState, now: i64)
        ensures
            *final(self) == Self::with_state(*old(self), state, now),
    {
        self.timestamp = now;
        self.state = state;
    }

    /// Update state to error with the given `error`, at `now`.
    pub fn set_error_state_at(&mut self, error: DraftAttachmentInternalError, now: i64)
        ensures
            *final(self) == (DraftAttachmentMetadata {
                error: Some(error),
                ..Self::with_state(*old(self), DraftAttachmentUploadState::Error, now)
            }),
    {
        self.set_state(DraftAttachmentUploadState::Error, now);
        self.error = Some(error);
    }

    /// Update state to error with the given `error`, now.
    pub fn set_error_state(&mut self, error: DraftAttachmentInternalError)
        ensures
            *final(self) == (DraftAttachmentMetadata {
                error: Some(error),
                ..Self::with_state(
                    *old(self),
                    DraftAttachmentUploadState::Error,
                    final(self).spec_timestamp(),
                )
            }),
    {
        self.set_error_state_at(error, now_timestamp());
    }

    /// Update state to uploaded, which clears an error, at `now`.
    pub fn set_uploaded_state_at(&mut self, now: i64)
        ensures
            *final(self) == (DraftAttachmentMetadata {
                error: None,
                ..Self::with_state(*old(self), DraftAttachmentUploadState::Uploaded, now)
            }),
    {
        self.set_state(DraftAttachmentUploadState::Uploaded, now);
        self.error = None;
    }

    /// Update state to uploaded, which clears an error, now.
    pub fn set_uploaded_state(&mut self)
        ensures
            *final(self) == (DraftAttachmentMetadata {
                error: None,
                ..Self::with_state(
                    *old(self),
                    DraftAttachmentUploadState::Uploaded,
                    final(self).spec_timestamp(),
                )
            }),
    {
        self.set_uploaded_state_at(now_timestamp());
    }

    /// Update state to uploading, at `now`.
    pub fn set_uploading_state_at(&mut self, now: i64)
        ensures
            *final(self) == Self::with_state(*old(self), DraftAttachmentUploadState::Uploading, now),
    {
        self.set_state(DraftAttachmentUploadState::Uploading, now);
    }

    /// Update state to uploading, now.
    pub fn set_uploading_state(&mut self)
        ensures
            *final(self) == Self::with_state(
                *old(self),
                DraftAttachmentUploadState::Uploading,
                final(self).spec_timestamp(),
            ),
    {
        self.set_uploading_state_at(now_timestamp());
    }

    /// Update state to swapping the disposition, at `now`.
    pub fn set_disposition_swap_state_at(&mut self, now: i64)
        ensures
            *final(self) == Self::with_state(
                *old(self),
                DraftAttachmentUploadState::DispositionSwap,
                now,
            ),
    {
        self.set_state(DraftAttachmentUploadState::DispositionSwap, now);
    }

    /// Update state to swapping the disposition, now.
    pub fn set_disposition_swap_state(&mut self)
        ensures
            *final(self) == Self::with_state(
                *old(self),
                DraftAttachmentUploadState::DispositionSwap,
                final(self).spec_timestamp(),
            ),
    {
        self.set_disposition_swap_state_at(now_timestamp());
    }

    /// Update to offline, at `now`.
    pub fn set_offline_state_at(&mut self, now: i64)
        ensures
            *final(self) == Self::with_state(*old(self), DraftAttachmentUploadState::Offline, now),
    {
        self.set_state(DraftAttachmentUploadState::Offline, now);
    }

    /// Update to offline, now.
    pub fn set_offline_state(&mut self)
        ensures
            *final(self) == Self::with_state(
                *old(self),
                DraftAttachmentUploadState::Offline,
                final(self).spec_timestamp(),
            ),
    {
        self.set_offline_state_at(now_timestamp());
    }

    /// Get the current state.
    pub fn state(&self) -> (r: DraftAttachmentUploadState)
        ensures
            r == self.spec_state(),
    {
        self.state
    }

    /// Timestamp of the latest state update.
    pub fn state_timestamp(&self) -> (r: i64)
        ensures
            r == self.spec_timestamp(),
    {
        self.timestamp
    }

    pub fn is_upload_error(&self) -> (r: bool)
        ensures
            r == (self.error.is_some() && self.error.unwrap() is Upload),
    {
        match &self.error {
            Some(e) => e.is_upload_error(),
            None => false,
        }
    }

    pub fn is_disposition_swap_error(&self) -> (r: bool)
        ensures
            r == (self.error.is_some() && self.error.unwrap() is DispositionSwap),
    {
        match &self.error {
            Some(e) => e.is_disposition_swap_error(),
            None => false,
        }
    }
}

/// Distinct expiration options, send result origins and upload states are
/// stored as distinct numbers, so each reads back as the value written.
pub proof fn lemma_stored_codes_are_distinct(
    o1: DraftExpirationOption,
    o2: DraftExpirationOption,
    r1: DraftSendResultOrigin,
    r2: DraftSendResultOrigin,
    s1: DraftAttachmentUploadState,
    s2: DraftAttachmentUploadState,
)
    ensures
        expiration_option_code(o1) == expiration_option_code(o2) ==> o1 == o2,
        origin_code(r1) == origin_code(r2) ==> r1 == r2,
        upload_state_code(s1) == upload_state_code(s2) ==> s1 == s2,
{
}

/// Whether a record of an attachment of a draft in the state `s` is kept
/// when the draft is synced from the server: only failed and offline uploads
/// are, for the user to retry.
pub open spec fn kept_after_sync(s: DraftAttachmentUploadState) -> bool {
    s == DraftAttachmentUploadState::Error || s == DraftAttachmentUploadState::Offline
}

impl DraftAttachmentUploadState {
    /// Whether a record in this state is kept when the draft is synced from
    /// the server.
    pub fn is_kept_after_sync(&self) -> (r: bool)
        ensures
            r == kept_after_sync(*self),
    {
        match self {
            DraftAttachmentUploadState::Error | DraftAttachmentUploadState::Offline => true,
            _ => false,
        }
    }
}

impl DraftAttachmentMetadata {
    /// The records of the attachments of a draft just synced from the server:
    /// every attachment of the synced body, in its order, owned and uploaded
    /// at `now`, marked as a public key where it is one.
    pub fn after_sync_at(metadata_id: u64, attachments: &Vec<Attachment>, now: i64) -> (r: Vec<Self>)
        requires
            forall|i: int| 0 <= i < attachments@.len() ==> (#[trigger] attachments@[i]).local_id.is_some(),
        ensures
            r@.len() == attachments@.len(),
            forall|i: int|
                0 <= i < attachments@.len() ==> #[trigger] r@[i] == Self::create_spec(
                    metadata_id,
                    attachments@[i].local_id.unwrap(),
                    i as usize,
                    attachments@[i].mime_type@ == PGP_KEYS_MIME_TYPE@ && is_public_key_name(
                        attachments@[i].filename@,
                    ),
                    DraftAttachmentUploadState::Uploaded,
                    DraftAttachmentOwnership::Owned,
                    now,
                ),
    {
        let mut out: Vec<Self> = Vec::new();
        let mut i: usize = 0;
        while i < attachments.len()
            invariant
                i <= attachments@.len(),
                out@.len() == i,
                forall|k: int|
                    0 <= k < attachments@.len() ==> (#[trigger] attachments@[k]).local_id.is_some(),
                forall|k: int|
                    0 <= k < i ==> #[trigger] out@[k] == Self::create_spec(
                        metadata_id,
                        attachments@[k].local_id.unwrap(),
                        k as usize,
                        attachments@[k].mime_type@ == PGP_KEYS_MIME_TYPE@ && is_public_key_name(
                            attachments@[k].filename@,
                        ),
                        DraftAttachmentUploadState::Uploaded,
                        DraftAttachmentOwnership::Owned,
                        now,
                    ),
            decreases attachments.len() - i,
        {
            let a = &attachments[i];
            let id = match a.local_id {
                Some(id) => id,
                None => 0,
            };
            let is_public_key = a.is_public_key_attachment();
            out.push(
                Self::create_at(
                    metadata_id,
                    id,
                    i,
                    is_public_key,
                    DraftAttachmentUploadState::Uploaded,
                    DraftAttachmentOwnership::Owned,
                    now,
                ),
            );
            i = i + 1;
        }
        out
    }

    /// The records of the attachments of a draft just synced from the server,
    /// all recorded at one time, now.
    pub fn after_sync(metadata_id: u64, attachments: &Vec<Attachment>) -> (r: Vec<Self>)
        requires
            forall|i: int| 0 <= i < attachments@.len() ==> (#[trigger] attachments@[i]).local_id.is_some(),
        ensures
            r@.len() == attachments@.len(),
            forall|i: int|
                0 <= i < attachments@.len() ==> #[trigger] r@[i] == Self::create_spec(
                    metadata_id,
                    attachments@[i].local_id.unwrap(),
                    i as usize,
                    attachments@[i].mime_type@ == PGP_KEYS_MIME_TYPE@ && is_public_key_name(
                        attachments@[i].filename@,
                    ),
                    DraftAttachmentUploadState::Uploaded,
                    DraftAttachmentOwnership::Owned,
                    r@[0].spec_timestamp(),
                ),
    {
        Self::after_sync_at(metadata_id, attachments, now_timestamp())
    }
}

/// The number and total size of a draft's attachments.
#[derive(Clone, Copy, Debug, PartialEq, Eq, Structural)]
pub struct DraftAttachmentsTotalCountAndSize {
    pub total: usize,
    pub total_size: u64,
}

impl DraftMetadata {
    /// The messages of the drafts whose send is under way.
    pub fn messages_with_pending_send(drafts: &Vec<DraftMetadata>) -> (r: Vec<LocalMessageId>)
        ensures
            r@ == drafts@.filter(
                |d: DraftMetadata| d.local_message_id.is_some() && d.send_action_id.is_some(),
            ).map_values(|d: DraftMetadata| d.local_message_id.unwrap()),
    {
        let mut out: Vec<LocalMessageId> = Vec::new();
        let mut i: usize = 0;
        while i < drafts.len()
            invariant
                i <= drafts@.len(),
                out@ == drafts@.take(i as int).filter(
                    |d: DraftMetadata| d.local_message_id.is_some() && d.send_action_id.is_some(),
                ).map_values(|d: DraftMetadata| d.local_message_id.unwrap()),
            decreases drafts.len() - i,
        {
            let d = &drafts[i];
            let ghost pred = |d: DraftMetadata| d.local_message_id.is_some() && d.send_action_id.is_some();
            let ghost f = |d: DraftMetadata| d.local_message_id.unwrap();
            proof {
                assert(drafts@.take(i + 1) =~= drafts@.take(i as int).push(*d));
                drafts@.take(i as int).lemma_filter_push(*d, pred);
                let prefix = drafts@.take(i as int).filter(pred);
                assert(prefix.push(*d).map_values(f) =~= prefix.map_values(f).push(f(*d)));
            }
            match (d.local_message_id, d.send_action_id) {
                (Some(id), Some(_)) => {
                    out.push(id);
                },
                _ => {},
            }
            i = i + 1;
        }
        proof {
            assert(drafts@.take(drafts@.len() as int) =~= drafts@);
        }
        out
    }
}

} // verus!
