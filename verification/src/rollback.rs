//! Items whose local state has to be rolled back to the server's: which ones
//! are fetched together, and how the fetched labels are cleaned of parents
//! that could not be resolved.

use vstd::prelude::*;
use crate::labels::{contains_label_id, has_label_id};
use crate::types::RollbackItemType;

verus! {

/// An item whose local state must be replaced by the server's.
#[derive(Clone, Debug)]
pub struct RollbackItem {
    pub remote_id: String,
    pub item_type: RollbackItemType,
}

impl RollbackItem {
    pub fn new(remote_id: String, item_type: RollbackItemType) -> (r: Self)
        ensures
            r.remote_id == remote_id,
            r.item_type == item_type,
    {
        RollbackItem { remote_id, item_type }
    }
}

/// `ranges` cuts `0..n` into consecutive batches of `size` items, the last
/// one possibly shorter, as `slice::chunks` does.
pub open spec fn is_batching(ranges: Seq<(usize, usize)>, n: int, size: int) -> bool {
    &&& n == 0 <==> ranges.len() == 0
    &&& ranges.len() > 0 ==> ranges[0].0 == 0 && ranges.last().1 == n
    &&& forall|k: int| 0 <= k < ranges.len() - 1 ==> #[trigger] ranges[k].1 == ranges[k + 1].0
    &&& forall|k: int|
        0 <= k < ranges.len() - 1 ==> #[trigger] ranges[k].1 - ranges[k].0 == size
    &&& ranges.len() > 0 ==> 0 < ranges.last().1 - ranges.last().0 <= size
}

/// The batch size used when none is given: one batch for everything.
pub open spec fn effective_batch(n: int, batch: Option<usize>) -> int {
    match batch {
        Some(b) => b as int,
        None => n + 1,
    }
}

/// The index ranges of the batches in which `n` items are fetched: batches of
/// `batch` items, or a single batch when no size is given.
pub fn rollback_batches(n: usize, batch: Option<usize>) -> (r: Vec<(usize, usize)>)
    requires
        batch != Some(0usize),
        batch.is_none() ==> n < usize::MAX,
    ensures
        is_batching(r@, n as int, effective_batch(n as int, batch)),
{
    let size: usize = match batch {
        Some(b) => b,
        None => n + 1,
    };
    let mut out: Vec<(usize, usize)> = Vec::new();
    let mut start: usize = 0;
    while start < n
        invariant
            0 < size,
            size == effective_batch(n as int, batch),
            start <= n,
            out@.len() == 0 <==> start == 0,
            out@.len() > 0 ==> out@[0].0 == 0 && out@.last().1 == start,
            forall|k: int| 0 <= k < out@.len() - 1 ==> #[trigger] out@[k].1 == out@[k + 1].0,
            forall|k: int| 0 <= k < out@.len() - 1 ==> #[trigger] out@[k].1 - out@[k].0 == size,
            out@.len() > 0 ==> 0 < out@.last().1 - out@.last().0 <= size,
            out@.len() > 0 && start < n ==> out@.last().1 - out@.last().0 == size,
        decreases n - start,
    {
        let end = if n - start < size {
            n
        } else {
            start + size
        };
        out.push((start, end));
        start = end;
    }
    out
}

/// Whether the parent of a label that is rolled back has to be fetched as a
/// dependency: only when it has one, and it is not rolled back itself.
pub fn needs_parent_check(parent_id: &Option<String>, rollback_ids: &Vec<String>) -> (r: bool)
    ensures
        r == (parent_id.is_some() && !has_label_id(rollback_ids@, parent_id.unwrap()@)),
{
    match parent_id {
        Some(p) => !contains_label_id(rollback_ids, p),
        None => false,
    }
}

/// The parent of a rolled back label, dropped when it could not be resolved.
pub fn prune_unresolved_parent(parent_id: Option<String>, unresolved: &Vec<String>) -> (r: Option<
    String,
>)
    ensures
        r == (if parent_id.is_some() && has_label_id(unresolved@, parent_id.unwrap()@) {
            None
        } else {
            parent_id
        }),
{
    match parent_id {
        Some(p) => {
            if contains_label_id(unresolved, &p) {
                None
            } else {
                Some(p)
            }
        },
        None => None,
    }
}

} // verus!
