//! Labels: system labels and their well-known remote identifiers, custom
//! labels and folders, and the rules that depend on a label's identity.

use vstd::prelude::*;
use crate::text::str_eq;
use crate::types::{LocalLabelId, ViewMode};


verus! {

/// The kind of a label.
#[derive(Clone, Copy, Debug, PartialEq, Eq, Structural)]
pub enum LabelType {
    Label,
    ContactGroup,
    Folder,
    System,
}

/// The system labels, which every account has under fixed remote ids.
#[derive(Clone, Copy, Debug, PartialEq, Eq, Structural)]
pub enum SystemLabelId {
    Inbox,
    AllDrafts,
    AllSent,
    Trash,
    Spam,
    AllMail,
    Archive,
    Sent,
    Drafts,
    Outbox,
    Starred,
    AllScheduled,
    AlmostAllMail,
    Snoozed,
}

/// The remote id of each system label.
pub open spec fn system_remote_id(l: SystemLabelId) -> Seq<char> {
    match l {
        SystemLabelId::Inbox => "0"@,
        SystemLabelId::AllDrafts => "1"@,
        SystemLabelId::AllSent => "2"@,
        SystemLabelId::Trash => "3"@,
        SystemLabelId::Spam => "4"@,
        SystemLabelId::AllMail => "5"@,
        SystemLabelId::Archive => "6"@,
        SystemLabelId::Sent => "7"@,
        SystemLabelId::Drafts => "8"@,
        SystemLabelId::Outbox => "9"@,
        SystemLabelId::Starred => "10"@,
        SystemLabelId::AllScheduled => "12"@,
        SystemLabelId::AlmostAllMail => "15"@,
        SystemLabelId::Snoozed => "16"@,
    }
}

/// Whether the remote label id `id` is the one of the system label `l`.
pub open spec fn is_system(id: Seq<char>, l: SystemLabelId) -> bool {
    id == system_remote_id(l)
}

/// Whether some element of `ids` is the remote id `id`.
pub open spec fn has_label_id(ids: Seq<String>, id: Seq<char>) -> bool {
    exists|i: int| 0 <= i < ids.len() && #[trigger] ids[i]@ == id
}

impl SystemLabelId {
    /// The remote id of this system label.
    pub fn as_str(&self) -> (r: &'static str)
        ensures
            r@ == system_remote_id(*self),
    {
        match self {
            SystemLabelId::Inbox => "0",
            SystemLabelId::AllDrafts => "1",
            SystemLabelId::AllSent => "2",
            SystemLabelId::Trash => "3",
            SystemLabelId::Spam => "4",
            SystemLabelId::AllMail => "5",
            SystemLabelId::Archive => "6",
            SystemLabelId::Sent => "7",
            SystemLabelId::Drafts => "8",
            SystemLabelId::Outbox => "9",
            SystemLabelId::Starred => "10",
            SystemLabelId::AllScheduled => "12",
            SystemLabelId::AlmostAllMail => "15",
            SystemLabelId::Snoozed => "16",
        }
    }

    /// Whether `id` is the remote id of this system label.
    pub fn matches(&self, id: &String) -> (r: bool)
        ensures
            r == is_system(id@, *self),
    {
        str_eq(id.as_str(), self.as_str())
    }
}

/// Whether `ids` holds the remote id of the system label `l`.
pub fn contains_system_label(ids: &Vec<String>, l: SystemLabelId) -> (r: bool)
    ensures
        r == has_label_id(ids@, system_remote_id(l)),
{
    let mut i: usize = 0;
    while i < ids.len()
        invariant
            0 <= i <= ids.len(),
            forall|j: int| 0 <= j < i ==> ids@[j]@ != system_remote_id(l),
        decreases ids.len() - i,
    {
        if l.matches(&ids[i]) {
            return true;
        }
        i = i + 1;
    }
    false
}

/// Whether `ids` holds the remote id `id`.
pub fn contains_label_id(ids: &Vec<String>, id: &String) -> (r: bool)
    ensures
        r == has_label_id(ids@, id@),
{
    let mut i: usize = 0;
    while i < ids.len()
        invariant
            0 <= i <= ids.len(),
            forall|j: int| 0 <= j < i ==> ids@[j]@ != id@,
        decreases ids.len() - i,
    {
        if str_eq(ids[i].as_str(), id.as_str()) {
            return true;
        }
        i = i + 1;
    }
    false
}

/// A label, folder or system label of the account.
#[derive(Clone, Debug)]
pub struct Label {
    /// The id of the record on this device.
    pub local_id: Option<LocalLabelId>,
    /// The id of the label on the server.
    pub remote_id: Option<String>,
    pub local_parent_id: Option<LocalLabelId>,
    pub remote_parent_id: Option<String>,
    pub color: String,
    pub display: bool,
    pub expanded: bool,
    pub label_type: LabelType,
    pub name: String,
    pub notify: bool,
    pub display_order: u32,
    pub path: Option<String>,
    pub sticky: bool,
    /// The internal row ID of the record in the database.
    pub row_id: Option<u64>,
}

/// Whose addresses a list of messages shows.
#[derive(Clone, Copy, Debug, PartialEq, Eq, Structural)]
pub enum MessageRecipientDisplayMode {
    Sender,
    Recipients,
}

/// The system folders that messages can be moved between.
pub open spec fn is_movable_system_folder(id: Seq<char>) -> bool {
    ||| is_system(id, SystemLabelId::Inbox)
    ||| is_system(id, SystemLabelId::Archive)
    ||| is_system(id, SystemLabelId::Spam)
    ||| is_system(id, SystemLabelId::Trash)
}

/// The system labels whose lists hold the user's own outgoing mail.
pub open spec fn is_outgoing_label(id: Seq<char>) -> bool {
    ||| is_system(id, SystemLabelId::Drafts)
    ||| is_system(id, SystemLabelId::Sent)
    ||| is_system(id, SystemLabelId::AllDrafts)
    ||| is_system(id, SystemLabelId::AllSent)
    ||| is_system(id, SystemLabelId::AllScheduled)
    ||| is_system(id, SystemLabelId::Outbox)
}

/// Whether `id` is the remote id of the drafts, sent, all drafts, all sent or
/// all scheduled system label: the lists of the user's own outgoing mail.
pub open spec fn sent_or_drafted(id: Seq<char>) -> bool {
    id == "8"@ || id == "7"@ || id == "1"@ || id == "2"@ || id == "12"@
}

/// Whether `id` is the remote id of a system label of incoming or stored
/// mail: inbox, trash, spam, all mail, archive, starred, almost all mail or
/// snoozed.
pub open spec fn incoming_system_label(id: Seq<char>) -> bool {
    id == "0"@ || id == "3"@ || id == "4"@ || id == "5"@ || id == "6"@ || id == "10"@ || id
        == "15"@ || id == "16"@
}

/// The drafts, sent, all drafts, all sent, all scheduled and outbox lists are
/// lists of outgoing mail; inbox, trash, spam, all mail, archive, starred,
/// almost all mail and snoozed are not.
pub proof fn lemma_outgoing_labels(id: Seq<char>)
    ensures
        sent_or_drafted(id) ==> is_outgoing_label(id),
        is_system(id, SystemLabelId::Outbox) ==> is_outgoing_label(id),
        is_system(id, SystemLabelId::Sent) ==> sent_or_drafted(id),
        is_system(id, SystemLabelId::Drafts) ==> sent_or_drafted(id),
        is_system(id, SystemLabelId::AllSent) ==> sent_or_drafted(id),
        is_system(id, SystemLabelId::AllDrafts) ==> sent_or_drafted(id),
        is_system(id, SystemLabelId::AllScheduled) ==> sent_or_drafted(id),
        incoming_system_label(id) ==> !is_outgoing_label(id),
{
    reveal_strlit("0");
    reveal_strlit("1");
    reveal_strlit("2");
    reveal_strlit("3");
    reveal_strlit("4");
    reveal_strlit("5");
    reveal_strlit("6");
    reveal_strlit("7");
    reveal_strlit("8");
    reveal_strlit("9");
    reveal_strlit("10");
    reveal_strlit("12");
    reveal_strlit("15");
    reveal_strlit("16");
    assert("0"@[0] == '0' && "1"@[0] == '1' && "2"@[0] == '2' && "3"@[0] == '3');
    assert("4"@[0] == '4' && "5"@[0] == '5' && "6"@[0] == '6' && "7"@[0] == '7');
    assert("8"@[0] == '8' && "9"@[0] == '9');
    assert("10"@[1] == '0' && "12"@[1] == '2' && "15"@[1] == '5' && "16"@[1] == '6');
    assert("10"@.len() == 2 && "12"@.len() == 2 && "15"@.len() == 2 && "16"@.len() == 2);
}

impl Label {
    /// Whether the remote id of this label is the system label `s`'s.
    pub fn is_system_label(&self, s: SystemLabelId) -> (r: bool)
        ensures
            r == (self.remote_id.is_some() && is_system(self.remote_id.unwrap()@, s)),
    {
        match &self.remote_id {
            Some(rid) => s.matches(rid),
            None => false,
        }
    }

    /// Checks if label is a System label - starred.
    pub fn is_starred(&self) -> (r: bool)
        ensures
            r == (self.remote_id.is_some() && is_system(
                self.remote_id.unwrap()@,
                SystemLabelId::Starred,
            )),
    {
        self.is_system_label(SystemLabelId::Starred)
    }

    /// Labels that can be applied to messages: custom labels and starred.
    pub fn is_applicable_label(&self) -> (r: bool)
        ensures
            r == (self.label_type == LabelType::Label || (self.remote_id.is_some() && is_system(
                self.remote_id.unwrap()@,
                SystemLabelId::Starred,
            ))),
    {
        self.label_type == LabelType::Label || self.is_starred()
    }

    /// Whether messages can be moved into this label: a custom folder or a
    /// movable system folder.
    pub fn is_movable_into_folder(&self) -> (r: bool)
        ensures
            r == (self.label_type == LabelType::Folder || (self.remote_id.is_some()
                && is_movable_system_folder(self.remote_id.unwrap()@))),
    {
        self.label_type == LabelType::Folder || self.is_system_label(SystemLabelId::Inbox)
            || self.is_system_label(SystemLabelId::Archive) || self.is_system_label(
            SystemLabelId::Spam,
        ) || self.is_system_label(SystemLabelId::Trash)
    }

    /// Whether this label is a movable folder (the same as being a folder
    /// messages can be moved into).
    pub fn is_movable_folder(&self) -> (r: bool)
        ensures
            r == (self.label_type == LabelType::Folder || (self.remote_id.is_some()
                && is_movable_system_folder(self.remote_id.unwrap()@))),
    {
        self.is_movable_into_folder()
    }

    /// Whether messages can be moved out of this label: also out of drafts
    /// and sent.
    pub fn is_movable_out_of_folder(&self) -> (r: bool)
        ensures
            r == (self.label_type == LabelType::Folder || (self.remote_id.is_some() && (
            is_movable_system_folder(self.remote_id.unwrap()@) || is_system(
                self.remote_id.unwrap()@,
                SystemLabelId::Drafts,
            ) || is_system(self.remote_id.unwrap()@, SystemLabelId::Sent)))),
    {
        self.is_movable_into_folder() || self.is_system_label(SystemLabelId::Drafts)
            || self.is_system_label(SystemLabelId::Sent)
    }

    /// Whether this label lists outgoing mail.
    fn is_outgoing(&self) -> (r: bool)
        ensures
            r == (self.remote_id.is_some() && is_outgoing_label(self.remote_id.unwrap()@)),
    {
        self.is_system_label(SystemLabelId::Drafts) || self.is_system_label(SystemLabelId::Sent)
            || self.is_system_label(SystemLabelId::AllDrafts) || self.is_system_label(
            SystemLabelId::AllSent,
        ) || self.is_system_label(SystemLabelId::AllScheduled) || self.is_system_label(
            SystemLabelId::Outbox,
        )
    }

    /// Lists of outgoing mail show the recipients, all others the sender.
    pub fn recipient_display_mode(&self) -> (r: MessageRecipientDisplayMode)
        ensures
            r == if self.remote_id.is_some() && is_outgoing_label(self.remote_id.unwrap()@) {
                MessageRecipientDisplayMode::Recipients
            } else {
                MessageRecipientDisplayMode::Sender
            },
            self.remote_id.is_some() && sent_or_drafted(self.remote_id.unwrap()@) ==> r
                == MessageRecipientDisplayMode::Recipients,
            self.remote_id.is_some() && is_system(self.remote_id.unwrap()@, SystemLabelId::Outbox)
                ==> r == MessageRecipientDisplayMode::Recipients,
            self.remote_id.is_none() ==> r == MessageRecipientDisplayMode::Sender,
            self.remote_id.is_some() && incoming_system_label(self.remote_id.unwrap()@) ==> r
                == MessageRecipientDisplayMode::Sender,
    {
        proof {
            if self.remote_id.is_some() {
                lemma_outgoing_labels(self.remote_id.unwrap()@);
            }
        }
        if self.is_outgoing() {
            MessageRecipientDisplayMode::Recipients
        } else {
            MessageRecipientDisplayMode::Sender
        }
    }

    /// The view mode of this label: lists of outgoing mail always show
    /// messages, all others as the user's settings say.
    pub fn view_mode(&self, settings_view_mode: ViewMode) -> (r: ViewMode)
        ensures
            r == if self.remote_id.is_some() && is_outgoing_label(self.remote_id.unwrap()@) {
                ViewMode::Messages
            } else {
                settings_view_mode
            },
            self.remote_id.is_some() && sent_or_drafted(self.remote_id.unwrap()@) ==> r
                == ViewMode::Messages,
            self.remote_id.is_none() ==> r == settings_view_mode,
            self.remote_id.is_some() && incoming_system_label(self.remote_id.unwrap()@) ==> r
                == settings_view_mode,
    {
        proof {
            if self.remote_id.is_some() {
                lemma_outgoing_labels(self.remote_id.unwrap()@);
            }
        }
        if self.is_outgoing() {
            ViewMode::Messages
        } else {
            settings_view_mode
        }
    }

    /// Conversations are snoozed from the inbox and unsnoozed in the snoozed
    /// folder.
    pub fn is_snooze_location(&self) -> (r: bool)
        ensures
            r == (self.remote_id.is_some() && (is_system(
                self.remote_id.unwrap()@,
                SystemLabelId::Inbox,
            ) || is_system(self.remote_id.unwrap()@, SystemLabelId::Snoozed))),
    {
        self.is_system_label(SystemLabelId::Inbox) || self.is_system_label(SystemLabelId::Snoozed)
    }

    /// Saving a label with the remote id of a stored one overwrites that one:
    /// the stored label's local ids are taken over.
    pub fn adopt_stored(&mut self, stored: Option<&Label>)
        ensures
            match stored {
                Some(l) => final(self).local_id == l.local_id && final(self).local_parent_id
                    == l.local_parent_id && final(self).row_id == l.row_id,
                None => final(self).local_id == old(self).local_id && final(self).local_parent_id
                    == old(self).local_parent_id && final(self).row_id == old(self).row_id,
            },
            *final(self) == (Label {
                local_id: final(self).local_id,
                local_parent_id: final(self).local_parent_id,
                row_id: final(self).row_id,
                ..*old(self)
            }),
    {
        match stored {
            Some(l) => {
                self.local_parent_id = l.local_parent_id;
                self.local_id = l.local_id;
                self.row_id = l.row_id;
            },
            None => {},
        }
    }

    /// After a label is saved its parent is the local counterpart of its
    /// remote parent (none without one).
    pub fn resolve_parent(&mut self, parent_local_id: Option<LocalLabelId>)
        ensures
            final(self).local_parent_id == if old(self).remote_parent_id.is_some() {
                parent_local_id
            } else {
                None::<LocalLabelId>
            },
            *final(self) == (Label { local_parent_id: final(self).local_parent_id, ..*old(self) }),
    {
        self.local_parent_id = match &self.remote_parent_id {
            Some(_) => parent_local_id,
            None => None,
        };
    }
}

/// Movable folders are a subset of the folders messages can be moved out of.
pub proof fn lemma_movable_into_implies_out_of(l: Label)
    ensures
        (l.label_type == LabelType::Folder || (l.remote_id.is_some() && is_movable_system_folder(
            l.remote_id.unwrap()@,
        ))) ==> (l.label_type == LabelType::Folder || (l.remote_id.is_some() && (
        is_movable_system_folder(l.remote_id.unwrap()@) || is_system(
            l.remote_id.unwrap()@,
            SystemLabelId::Drafts,
        ) || is_system(l.remote_id.unwrap()@, SystemLabelId::Sent)))),
{
}

/// Mailbox specific state of a label: whether its mailbox was initialised.
#[derive(Clone, Copy, Debug, PartialEq, Eq, Structural)]
pub struct MailboxLabels {
    pub local_label_id: LocalLabelId,
    pub initialized: bool,
}

impl MailboxLabels {
    pub fn new(local_label_id: LocalLabelId) -> (r: Self)
        ensures
            r == (MailboxLabels { local_label_id, initialized: false }),
    {
        MailboxLabels { local_label_id, initialized: false }
    }
}

/// A label with its message and conversation counters.
#[derive(Clone, Debug)]
pub struct LabelWithCounters {
    pub label: Label,
    pub total_msg: u64,
    pub unread_msg: u64,
    pub total_conv: u64,
    pub unread_conv: u64,
}

/// A label for which a "delete all" action is running: the record exists
/// from when the action is scheduled until the server confirms it.
#[derive(Clone, Copy, Debug, PartialEq, Eq, Structural)]
pub struct MailBusyLabel {
    pub id: LocalLabelId,
}

impl MailBusyLabel {
    /// A label is busy while its record exists, idle otherwise.
    pub fn is_busy(record: Option<MailBusyLabel>) -> (r: bool)
        ensures
            r == record.is_some(),
    {
        record.is_some()
    }
}

} // verus!
