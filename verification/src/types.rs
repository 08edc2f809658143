//! Identifiers and small shared enumerations.

use vstd::prelude::*;

verus! {

/// Local (database) identifier of a label.
pub type LocalLabelId = u64;

/// Local (database) identifier of a message.
pub type LocalMessageId = u64;

/// Local (database) identifier of a conversation.
pub type LocalConversationId = u64;

/// Local (database) identifier of an address.
pub type LocalAddressId = u64;

/// Local (database) identifier of an attachment.
pub type LocalAttachmentId = u64;

/// Seconds since the Unix epoch.
pub type UnixTimestamp = u64;

/// Which items of a mailbox a view shows.
#[derive(Clone, Copy, Debug, PartialEq, Eq, Structural)]
pub enum ReadFilter {
    All,
    Unread,
    Read,
}

/// Whether a mailbox is shown as a list of conversations or of messages.
#[derive(Clone, Copy, Debug, PartialEq, Eq, Structural)]
pub enum ViewMode {
    Conversations,
    Messages,
}

/// Kind of an item that is tracked by identifier.
#[derive(Clone, Copy, Debug, PartialEq, Eq, Structural)]
pub enum RollbackItemType {
    Message,
    Conversation,
    Label,
}

/// Kind of an item whose deletion is remembered.
#[derive(Clone, Copy, Debug, PartialEq, Eq, Structural)]
pub enum DeletedItemType {
    Message,
    Conversation,
    Label,
}

/// A stored id of a single-row table was not the one id such a row has.
#[derive(Clone, Copy, Debug, PartialEq, Eq, Structural)]
pub struct NotAMagicLocalIdError {
    pub expected: u32,
    pub got: u32,
}

} // verus!
