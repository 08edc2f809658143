//! Errors of the mail logic.

use vstd::prelude::*;
use crate::draft_errors::ApiServiceError;
use crate::types::{LocalConversationId, LocalLabelId, LocalMessageId};

verus! {

/// Errors of the application logic.
#[derive(Clone, Debug, PartialEq, Eq)]
pub enum AppError {
    /// The conversation holds no message to open.
    ConversationHasNoMessages(LocalConversationId),
    /// No label with this local id exists.
    LabelNotFound(LocalLabelId),
    /// No message with this local id exists.
    MessageNotFound(LocalMessageId),
    /// No label with this remote id exists.
    RemoteLabelDoesNotExist(String),
    /// The time given for a snooze is not in the future.
    SnoozeTimeInThePast,
    /// Conversations cannot be snoozed from (or unsnoozed in) the label with
    /// this name.
    InvalidSnoozeLocation(String),
    /// No conversation with this local id exists.
    ConversationNotFound(LocalConversationId),
    /// The conversation with this local id is not known to the server yet.
    ConversationHasNoRemoteId(LocalConversationId),
    /// The server does not know the conversation with this remote id.
    ConversationDoesNotExistOnServer(String),
    /// A request to the server failed, or could not be made.
    Api(ApiServiceError),
    /// An input or output operation was given an input it cannot use (an
    /// I/O error of kind `InvalidInput`), with this message.
    InvalidInput(String),
    /// An action was asked for no conversation at all.
    EmptyListOfConversations,
    /// An action was asked for no message at all.
    EmptyListOfMessages,
    /// The conversation with this local id is not under the label with this
    /// name.
    ConversationDoesNotHaveLabel(LocalConversationId, String),
}

} // verus!
