//! Background prefetching: which locations are prefetched by default, and how
//! many items of a location are.

use vstd::prelude::*;
use crate::types::{LocalConversationId, LocalLabelId, LocalMessageId, ViewMode};

verus! {

/// How many items of a location are prefetched.
pub const PREFETCH_COUNT: usize = 10;

/// Prefetch component for downloading messages and conversations in the background.
#[derive(Clone, Copy, Debug)]
pub struct Prefetch;

/// One piece of prefetching work.
#[derive(Clone, Copy, Debug, PartialEq, Eq, Structural)]
pub enum PrefetchJob {
    LocationCnvView(LocalLabelId),
    LocationMsgView(LocalLabelId),
    Conversation(LocalConversationId, LocalLabelId),
    Message(LocalMessageId),
}

/// The local ids of the system labels that are prefetched by default.
#[derive(Clone, Copy, Debug, PartialEq, Eq, Structural)]
pub struct DefaultPrefetchLabels {
    pub inbox: LocalLabelId,
    pub sent: LocalLabelId,
    pub all_sent: LocalLabelId,
    pub drafts: LocalLabelId,
    pub all_drafts: LocalLabelId,
}

impl PrefetchJob {
    /// The default locations: the inbox in the user's view mode, then the
    /// sent and draft folders as message lists.
    pub fn default_locations(view_mode: ViewMode, labels: DefaultPrefetchLabels) -> (r: Vec<
        PrefetchJob,
    >)
        ensures
            r@ == seq![
                match view_mode {
                    ViewMode::Conversations => PrefetchJob::LocationCnvView(labels.inbox),
                    ViewMode::Messages => PrefetchJob::LocationMsgView(labels.inbox),
                },
                PrefetchJob::LocationMsgView(labels.sent),
                PrefetchJob::LocationMsgView(labels.all_sent),
                PrefetchJob::LocationMsgView(labels.drafts),
                PrefetchJob::LocationMsgView(labels.all_drafts),
            ],
    {
        let first = match view_mode {
            ViewMode::Conversations => PrefetchJob::LocationCnvView(labels.inbox),
            ViewMode::Messages => PrefetchJob::LocationMsgView(labels.inbox),
        };
        let mut v: Vec<PrefetchJob> = Vec::new();
        v.push(first);
        v.push(PrefetchJob::LocationMsgView(labels.sent));
        v.push(PrefetchJob::LocationMsgView(labels.all_sent));
        v.push(PrefetchJob::LocationMsgView(labels.drafts));
        v.push(PrefetchJob::LocationMsgView(labels.all_drafts));
        v
    }
}

impl Prefetch {
    /// The items of a location that are prefetched: the first
    /// `PREFETCH_COUNT` of them.
    pub fn items_to_prefetch(ids: &Vec<u64>) -> (r: Vec<u64>)
        ensures
            r@ == if ids@.len() <= PREFETCH_COUNT {
                ids@
            } else {
                ids@.take(PREFETCH_COUNT as int)
            },
    {
        let mut out: Vec<u64> = Vec::new();
        let mut i: usize = 0;
        while i < ids.len() && i < PREFETCH_COUNT
            invariant
                i <= ids.len(),
                i <= PREFETCH_COUNT,
                out@ == ids@.take(i as int),
            decreases ids.len() - i,
        {
            out.push(ids[i]);
            proof {
                assert(ids@.take(i + 1) =~= ids@.take(i as int).push(ids@[i as int]));
            }
            i = i + 1;
        }
        proof {
            if ids@.len() <= PREFETCH_COUNT {
                assert(ids@.take(ids@.len() as int) =~= ids@);
            }
        }
        out
    }
}

} // verus!
