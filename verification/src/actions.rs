//! The actions offered for a selection of conversations or messages: the
//! labels they can be moved to, and what a snooze applies to.

use vstd::prelude::*;
use crate::conversation::{label_with_local_id, Conversation};
use crate::errors::AppError;
use crate::labels::Label;
use crate::message::Message;
use crate::types::{LocalConversationId, LocalLabelId, LocalMessageId, UnixTimestamp};

verus! {

/// Whether the conversation has a context under the label `view`.
pub open spec fn in_view(c: Conversation, view: Option<LocalLabelId>) -> bool {
    exists|i: int| 0 <= i < c.labels@.len() && (#[trigger] c.labels@[i]).local_label_id == view
}

/// Whether a label is any label but `view`.
pub open spec fn is_other_label(view: Option<LocalLabelId>) -> spec_fn(Label) -> bool {
    |l: Label| l.local_id != view
}

/// The labels a selection can be moved to from the label `view`: the system
/// labels but `view` itself, then the custom folders.
pub open spec fn move_targets(view: Option<LocalLabelId>, system: Seq<Label>, folders: Seq<Label>) -> Seq<
    Label,
> {
    system.filter(is_other_label(view)) + folders
}

/// No system label offered as a move target from a view is the view itself.
pub proof fn lemma_move_targets_exclude_view(
    view: Option<LocalLabelId>,
    system: Seq<Label>,
    folders: Seq<Label>,
)
    ensures
        forall|i: int|
            0 <= i < system.filter(is_other_label(view)).len() ==> (#[trigger] move_targets(
                view,
                system,
                folders,
            )[i]).local_id != view,
        move_targets(view, system, folders).len() == system.filter(is_other_label(view)).len()
            + folders.len(),
{
    let kept = system.filter(is_other_label(view));
    assert forall|i: int| 0 <= i < kept.len() implies (#[trigger] move_targets(
        view,
        system,
        folders,
    )[i]).local_id != view by {
        assert(move_targets(view, system, folders)[i] == kept[i]);
        assert(is_other_label(view)(kept[i]));
    }
}

/// Whether the conversation has a context under the label `view`.
fn is_in_view(c: &Conversation, view: Option<LocalLabelId>) -> (r: bool)
    ensures
        r == in_view(*c, view),
{
    let mut i: usize = 0;
    while i < c.labels.len()
        invariant
            i <= c.labels@.len(),
            forall|j: int| 0 <= j < i ==> (#[trigger] c.labels@[j]).local_label_id != view,
        decreases c.labels.len() - i,
    {
        if c.labels[i].local_label_id == view {
            return true;
        }
        i = i + 1;
    }
    false
}

/// The labels of `labels` but `view`, in order.
fn without_view(view: Option<LocalLabelId>, labels: Vec<Label>) -> (r: Vec<Label>)
    ensures
        r@ == labels@.filter(is_other_label(view)),
{
    let ghost orig = labels@;
    let ghost mut k: int = 0;
    let mut rest = labels;
    let mut out: Vec<Label> = Vec::new();
    while rest.len() > 0
        invariant
            0 <= k <= orig.len(),
            rest@ == orig.skip(k),
            out@ == orig.take(k).filter(is_other_label(view)),
        decreases rest.len(),
    {
        let l = rest.remove(0);
        proof {
            assert(orig.take(k + 1) =~= orig.take(k).push(orig[k]));
            orig.take(k).lemma_filter_push(orig[k], is_other_label(view));
            assert(rest@ =~= orig.skip(k + 1));
        }
        if l.local_id != view {
            out.push(l);
        }
        proof {
            k = k + 1;
        }
    }
    proof {
        assert(orig.take(k) =~= orig);
    }
    out
}

/// The move targets from `view`: the system labels but `view`, then the
/// custom folders.
fn move_targets_of(view: Option<LocalLabelId>, system: Vec<Label>, folders: Vec<Label>) -> (r: Vec<
    Label,
>)
    ensures
        r@ == move_targets(view, system@, folders@),
{
    let mut out = without_view(view, system);
    let mut rest = folders;
    out.append(&mut rest);
    out
}

impl Conversation {
    /// The labels the conversations with the local ids `local_ids` can be
    /// moved to from the label `view`, given the conversations found for
    /// them and the system labels and custom folders of the account. Every
    /// conversation must be under `view`: the first one that is not is
    /// reported with the view's name.
    pub fn move_to_labels(
        view: Option<LocalLabelId>,
        view_name: &String,
        local_ids: &Vec<LocalConversationId>,
        conversations: &Vec<Conversation>,
        system: Vec<Label>,
        folders: Vec<Label>,
    ) -> (r: Result<Vec<Label>, AppError>)
        requires
            forall|i: int|
                0 <= i < conversations@.len() ==> (#[trigger] conversations@[i]).local_id.is_some(),
        ensures
            local_ids@.len() == 0 ==> r == Err::<Vec<Label>, AppError>(
                AppError::EmptyListOfConversations,
            ),
            local_ids@.len() > 0 && (forall|i: int|
                0 <= i < conversations@.len() ==> in_view(#[trigger] conversations@[i], view)) ==> r
                is Ok && r->Ok_0@ == move_targets(view, system@, folders@),
            local_ids@.len() > 0 && !(forall|i: int|
                0 <= i < conversations@.len() ==> in_view(#[trigger] conversations@[i], view))
                ==> exists|k: int|
                0 <= k < conversations@.len() && !in_view(#[trigger] conversations@[k], view) && (
                forall|j: int| 0 <= j < k ==> in_view(#[trigger] conversations@[j], view)) && r
                == Err::<Vec<Label>, AppError>(
                AppError::ConversationDoesNotHaveLabel(
                    conversations@[k].local_id.unwrap(),
                    *view_name,
                ),
            ),
    {
        if local_ids.len() == 0 {
            return Err(AppError::EmptyListOfConversations);
        }
        let mut i: usize = 0;
        while i < conversations.len()
            invariant
                i <= conversations@.len(),
                local_ids@.len() > 0,
                forall|j: int|
                    0 <= j < conversations@.len() ==> (#[trigger] conversations@[j]).local_id.is_some(),
                forall|j: int| 0 <= j < i ==> in_view(#[trigger] conversations@[j], view),
            decreases conversations.len() - i,
        {
            if !is_in_view(&conversations[i], view) {
                let id = match conversations[i].local_id {
                    Some(id) => id,
                    None => 0,
                };
                let name = view_name.clone();
                proof {
                    assert(conversations@[i as int].local_id.is_some());
                    assert(!in_view(conversations@[i as int], view));
                }
                return Err(AppError::ConversationDoesNotHaveLabel(id, name));
            }
            i = i + 1;
        }
        Ok(move_targets_of(view, system, folders))
    }

    /// The time until which the conversation is snoozed under the label with
    /// the local id `local_label_id`, when it has a context there.
    pub fn context_snooze_time(&self, local_label_id: LocalLabelId) -> (r: Option<UnixTimestamp>)
        ensures
            r == match label_with_local_id(self.labels@, local_label_id) {
                Some(l) => Some(l.context_snooze_time),
                None => None::<UnixTimestamp>,
            },
    {
        match self.label(local_label_id) {
            Some(l) => Some(l.context_snooze_time),
            None => None,
        }
    }

    /// What a snooze (or unsnooze) of a conversation applies to: the
    /// messages of the conversation that were under the label it leaves, or,
    /// with none of them known, the conversation itself.
    pub fn snooze_target(message_ids: Vec<LocalMessageId>) -> (r: SnoozeTarget)
        ensures
            message_ids@.len() == 0 ==> r == SnoozeTarget::Conversation,
            message_ids@.len() > 0 ==> (r matches SnoozeTarget::Messages(ids) && ids@
                == message_ids@),
    {
        if message_ids.len() == 0 {
            SnoozeTarget::Conversation
        } else {
            SnoozeTarget::Messages(message_ids)
        }
    }
}

/// What a snooze of a conversation applies to.
#[derive(Clone, Debug, PartialEq, Eq)]
pub enum SnoozeTarget {
    /// The conversation's context under the label, whose snooze time is set
    /// directly.
    Conversation,
    /// These messages of the conversation.
    Messages(Vec<LocalMessageId>),
}

impl Message {
    /// The labels the messages with the local ids `message_ids` can be moved
    /// to from the label `view`: the system labels but `view`, then the
    /// custom folders.
    pub fn move_to_labels(
        view: Option<LocalLabelId>,
        message_ids: &Vec<LocalMessageId>,
        system: Vec<Label>,
        folders: Vec<Label>,
    ) -> (r: Result<Vec<Label>, AppError>)
        ensures
            message_ids@.len() == 0 ==> r == Err::<Vec<Label>, AppError>(
                AppError::EmptyListOfMessages,
            ),
            message_ids@.len() > 0 ==> r is Ok && r->Ok_0@ == move_targets(
                view,
                system@,
                folders@,
            ),
    {
        if message_ids.len() == 0 {
            return Err(AppError::EmptyListOfMessages);
        }
        Ok(move_targets_of(view, system, folders))
    }
}

} // verus!
