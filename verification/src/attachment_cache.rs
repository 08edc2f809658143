//! The cache of downloaded attachment data: when it is cleaned up, which
//! attachments may never be evicted, and which are evicted first.
//!
//! An attachment's utility is ranked by a key that orders as its utility
//! does: 0 for a useless attachment, `RETAINED_UTILITY` for one that must be
//! kept, and in between for the others.

use vstd::prelude::*;
use crate::types::LocalAttachmentId;

verus! {

broadcast use vstd::seq_lib::group_to_multiset_ensures;

/// The utility key of an attachment that must never be evicted.
pub const RETAINED_UTILITY: u64 = 0x7FF0_0000_0000_0000;

/// Where or whether the data of an attachment is downloaded, with what
/// decides whether it is evicted.
#[derive(Clone, Debug, PartialEq, Eq)]
pub struct AttachmentCacheMetadata {
    pub attachment_id: LocalAttachmentId,
    /// Last access time of the attachment.
    pub atime: u64,
    /// Creation time of the attachment. Currently unused.
    pub ctime: u64,
    /// How many times this attachment has been accessed. It starts at 0.
    pub hit_count: u64,
    pub path: String,
    /// The size of the attachment in bytes
    pub size: u64,
}

/// How the eviction ranks an attachment before its score is computed.
#[derive(Clone, Copy, Debug, PartialEq, Eq, Structural)]
pub enum UtilityClass {
    /// Must be kept: a draft's or an outgoing message's attachment, or one
    /// that cannot be downloaded again.
    Retained,
    /// Holds no data: evicted first.
    Useless,
    /// Ranked by its score.
    Scored,
}

/// How an attachment is ranked: attachments of drafts and of the outbox, and
/// those that are not downloadable remote attachments, are retained; empty
/// ones are useless; all others are scored.
pub fn utility_class(is_draft: bool, in_outbox: bool, is_remote_with_id: bool, size: u64) -> (r:
    UtilityClass)
    ensures
        r == if is_draft || in_outbox || !is_remote_with_id {
            UtilityClass::Retained
        } else if size == 0 {
            UtilityClass::Useless
        } else {
            UtilityClass::Scored
        },
{
    if is_draft || in_outbox || !is_remote_with_id {
        UtilityClass::Retained
    } else if size == 0 {
        UtilityClass::Useless
    } else {
        UtilityClass::Scored
    }
}

/// How many bytes a cleanup has to free from a cache of `current_size` bytes
/// that may hold `max_size`; `None` while the cache is not too large. A
/// cleanup frees a tenth of the maximum more than the excess, so that it does
/// not have to run on every store.
pub fn bytes_to_delete(current_size: u64, max_size: u64) -> (r: Option<i64>)
    requires
        current_size <= i64::MAX,
        max_size <= i64::MAX,
    ensures
        current_size < max_size ==> r.is_none(),
        current_size >= max_size ==> r == Some((current_size - max_size + max_size / 10) as i64),
{
    if current_size < max_size {
        return None;
    }
    let current = current_size as i64;
    let max = max_size as i64;
    Some(current - max + max / 10)
}

/// Whether `s` is ordered by utility, least useful first.
pub open spec fn by_utility(s: Seq<(u64, AttachmentCacheMetadata)>) -> bool {
    forall|i: int, j: int| 0 <= i < j < s.len() ==> s[i].0 <= s[j].0
}

/// How many of the ranked attachments `s` are evicted to free `bytes` bytes:
/// they are taken in order until enough was freed and the next one is not
/// useless, or the next one must be retained.
pub open spec fn evicted_count(s: Seq<(u64, AttachmentCacheMetadata)>, bytes: int) -> nat
    decreases s.len(),
{
    if s.len() == 0 {
        0
    } else if (bytes < 0 && s[0].0 > 0) || s[0].0 == RETAINED_UTILITY {
        0
    } else {
        1 + evicted_count(s.subrange(1, s.len() as int), bytes - s[0].1.size)
    }
}

/// The total size of the attachments of `s`.
pub open spec fn total_cached_size(s: Seq<(u64, AttachmentCacheMetadata)>) -> int
    decreases s.len(),
{
    if s.len() == 0 {
        0
    } else {
        s[0].1.size + total_cached_size(s.subrange(1, s.len() as int))
    }
}

/// Orders the attachments by utility, least useful first.
pub fn sort_by_utility(atts: Vec<(u64, AttachmentCacheMetadata)>) -> (r: Vec<
    (u64, AttachmentCacheMetadata),
>)
    ensures
        by_utility(r@),
        r@.to_multiset() == atts@.to_multiset(),
        r@.len() == atts@.len(),
{
    let mut rest = atts;
    let mut sorted: Vec<(u64, AttachmentCacheMetadata)> = Vec::new();
    let ghost input = rest@;
    while rest.len() > 0
        invariant
            by_utility(sorted@),
            sorted@.to_multiset().add(rest@.to_multiset()) == input.to_multiset(),
            sorted@.len() + rest@.len() == input.len(),
        decreases rest.len(),
    {
        let ghost before_rest = rest@;
        let x = rest.pop().unwrap();
        proof {
            assert(before_rest =~= rest@.push(x));
            vstd::seq_lib::to_multiset_build(rest@, x);
        }
        let mut p: usize = 0;
        while p < sorted.len() && sorted[p].0 <= x.0
            invariant
                p <= sorted@.len(),
                by_utility(sorted@),
                forall|k: int| 0 <= k < p ==> sorted@[k].0 <= x.0,
            decreases sorted.len() - p,
        {
            p = p + 1;
        }
        let ghost before = sorted@;
        proof {
            vstd::seq_lib::to_multiset_insert(before, p as int, x);
        }
        sorted.insert(p, x);
        proof {
            assert forall|i: int, j: int| 0 <= i < j < sorted@.len() implies sorted@[i].0
                <= sorted@[j].0 by {
                if j < p {
                    assert(sorted@[i] == before[i] && sorted@[j] == before[j]);
                } else if j == p {
                    assert(sorted@[i] == before[i]);
                } else if i == p {
                    assert(sorted@[j] == before[j - 1]);
                    assert(p < before.len());
                    assert(before[p as int].0 > x.0);
                    if j - 1 > p {
                        assert(before[p as int].0 <= before[j - 1].0);
                    }
                } else if i < p {
                    assert(sorted@[i] == before[i] && sorted@[j] == before[j - 1]);
                } else {
                    assert(sorted@[i] == before[i - 1] && sorted@[j] == before[j - 1]);
                }
            }
            assert(sorted@.to_multiset().add(rest@.to_multiset()) =~= input.to_multiset());
        }
    }
    proof {
        assert(rest@.to_multiset() =~= vstd::multiset::Multiset::empty());
        assert(sorted@.to_multiset() =~= input.to_multiset());
    }
    sorted
}

proof fn lemma_skip_first(s: Seq<(u64, AttachmentCacheMetadata)>, i: int)
    requires
        0 <= i < s.len(),
    ensures
        s.subrange(i, s.len() as int).subrange(1, s.len() - i) == s.subrange(i + 1, s.len() as int),
        s.subrange(i, s.len() as int)[0] == s[i],
{
    assert(s.subrange(i, s.len() as int).subrange(1, s.len() - i) =~= s.subrange(
        i + 1,
        s.len() as int,
    ));
}

proof fn lemma_total_size_nonneg(s: Seq<(u64, AttachmentCacheMetadata)>)
    ensures
        total_cached_size(s) >= 0,
    decreases s.len(),
{
    if s.len() > 0 {
        lemma_total_size_nonneg(s.subrange(1, s.len() as int));
    }
}

proof fn lemma_evicted_count_bounded(s: Seq<(u64, AttachmentCacheMetadata)>, bytes: int)
    ensures
        evicted_count(s, bytes) <= s.len(),
    decreases s.len(),
{
    if s.len() > 0 {
        lemma_evicted_count_bounded(s.subrange(1, s.len() as int), bytes - s[0].1.size);
    }
}

proof fn lemma_sizes_fit_permutation(
    a: Seq<(u64, AttachmentCacheMetadata)>,
    b: Seq<(u64, AttachmentCacheMetadata)>,
)
    requires
        a.to_multiset() == b.to_multiset(),
        sizes_fit(b),
    ensures
        sizes_fit(a),
{
    assert forall|k: int| 0 <= k < a.len() implies a[k].1.size <= i64::MAX by {
        a.to_multiset_ensures();
        b.to_multiset_ensures();
        assert(a.to_multiset().count(a[k]) > 0);
        assert(b.contains(a[k]));
    }
}

/// How many of the ranked attachments are evicted to free `bytes` bytes.
pub fn evicted_prefix(sorted: &Vec<(u64, AttachmentCacheMetadata)>, bytes: i64) -> (r: usize)
    requires
        sizes_fit(sorted@),
        bytes - total_cached_size(sorted@) >= i64::MIN,
    ensures
        r == evicted_count(sorted@, bytes as int),
{
    let n = sorted.len();
    let mut remaining: i64 = bytes;
    let mut i: usize = 0;
    assert(sorted@.subrange(0, n as int) =~= sorted@);
    while i < n
        invariant
            n == sorted@.len(),
            i <= n,
            sizes_fit(sorted@),
            remaining - total_cached_size(sorted@.subrange(i as int, n as int)) >= i64::MIN,
            evicted_count(sorted@, bytes as int) == i + evicted_count(
                sorted@.subrange(i as int, n as int),
                remaining as int,
            ),
        decreases n - i,
    {
        proof {
            lemma_skip_first(sorted@, i as int);
            lemma_total_size_nonneg(sorted@.subrange(i + 1, n as int));
        }
        let (utility, at) = (sorted[i].0, &sorted[i].1);
        if remaining < 0 && utility > 0 {
            return i;
        }
        if utility == RETAINED_UTILITY {
            return i;
        }
        let size = at.size as i64;
        remaining = remaining - size;
        i = i + 1;
    }
    i
}

/// Whether no size in `s` exceeds what an `i64` holds.
pub open spec fn sizes_fit(s: Seq<(u64, AttachmentCacheMetadata)>) -> bool {
    forall|k: int| 0 <= k < s.len() ==> s[k].1.size <= i64::MAX
}

/// The attachments to evict to free `bytes` bytes: the attachments ordered by
/// utility, least useful first, taken while more bytes have to be freed or
/// they are useless, and never one that must be retained.
pub fn attachments_to_delete(atts: Vec<(u64, AttachmentCacheMetadata)>, bytes: i64) -> (r: Vec<
    (u64, AttachmentCacheMetadata),
>)
    requires
        sizes_fit(atts@),
        bytes - total_cached_size(atts@) >= i64::MIN,
    ensures
        exists|s: Seq<(u64, AttachmentCacheMetadata)>|
            #![trigger by_utility(s)]
            by_utility(s) && s.to_multiset() == atts@.to_multiset() && r@ == s.take(
                evicted_count(s, bytes as int) as int,
            ),
{
    let sorted = sort_by_utility(atts);
    proof {
        lemma_total_size_of_permutation(sorted@, atts@);
        lemma_sizes_fit_permutation(sorted@, atts@);
    }
    let k = evicted_prefix(&sorted, bytes);
    proof {
        lemma_evicted_count_bounded(sorted@, bytes as int);
    }
    let mut out = sorted;
    out.truncate(k);
    proof {
        assert(out@ =~= sorted@.take(k as int));
    }
    out
}

proof fn lemma_total_size_of_permutation(
    a: Seq<(u64, AttachmentCacheMetadata)>,
    b: Seq<(u64, AttachmentCacheMetadata)>,
)
    requires
        a.to_multiset() == b.to_multiset(),
    ensures
        total_cached_size(a) == total_cached_size(b),
    decreases a.len(),
{
    broadcast use vstd::multiset::group_multiset_axioms;
    vstd::seq_lib::lemma_multiset_commutative(a, b);
    a.to_multiset_ensures();
    b.to_multiset_ensures();
    if a.len() == 0 {
        assert(b.len() == 0);
    } else {
        let x = a[0];
        assert(b.to_multiset().count(x) > 0);
        assert(b.contains(x));
        let j = b.index_of(x);
        let a1 = a.subrange(1, a.len() as int);
        let b1 = b.remove(j);
        vstd::seq_lib::to_multiset_remove(b, j);
        assert(a =~= seq![x] + a1);
        vstd::seq_lib::lemma_multiset_commutative(seq![x], a1);
        assert(a1.to_multiset() =~= a.to_multiset().remove(x));
        lemma_total_size_of_permutation(a1, b1);
        lemma_total_size_remove(b, j);
    }
}

proof fn lemma_total_size_remove(b: Seq<(u64, AttachmentCacheMetadata)>, j: int)
    requires
        0 <= j < b.len(),
    ensures
        total_cached_size(b) == b[j].1.size + total_cached_size(b.remove(j)),
    decreases b.len(),
{
    if j > 0 {
        let b1 = b.subrange(1, b.len() as int);
        lemma_total_size_remove(b1, j - 1);
        assert(b.remove(j).subrange(1, b.len() - 1) =~= b1.remove(j - 1));
        assert(b.remove(j)[0] == b[0]);
    } else {
        assert(b.remove(0) =~= b.subrange(1, b.len() as int));
    }
}

/// Useless attachments are always evicted: in the ranked order they come
/// first, and each of them is taken whatever is left to free.
pub proof fn lemma_useless_attachments_are_evicted(
    s: Seq<(u64, AttachmentCacheMetadata)>,
    bytes: int,
    i: int,
)
    requires
        by_utility(s),
        0 <= i < s.len(),
        s[i].0 == 0,
    ensures
        i < evicted_count(s, bytes),
    decreases s.len(),
{
    assert(s[0].0 == 0);
    if i > 0 {
        let s1 = s.subrange(1, s.len() as int);
        assert(s1[i - 1] == s[i]);
        lemma_useless_attachments_are_evicted(s1, bytes - s[0].1.size, i - 1);
    }
}

/// Attachments that must be retained are never evicted.
pub proof fn lemma_retained_attachments_are_kept(
    s: Seq<(u64, AttachmentCacheMetadata)>,
    bytes: int,
    i: int,
)
    requires
        0 <= i < s.len(),
        s[i].0 == RETAINED_UTILITY,
    ensures
        evicted_count(s, bytes) <= i,
    decreases s.len(),
{
    if i > 0 && !((bytes < 0 && s[0].0 > 0) || s[0].0 == RETAINED_UTILITY) {
        let s1 = s.subrange(1, s.len() as int);
        assert(s1[i - 1] == s[i]);
        lemma_retained_attachments_are_kept(s1, bytes - s[0].1.size, i - 1);
    }
}

proof fn lemma_total_take_step(s: Seq<(u64, AttachmentCacheMetadata)>, k: int)
    requires
        0 <= k < s.len(),
    ensures
        total_cached_size(s.take(k + 1)) == s[0].1.size + total_cached_size(
            s.subrange(1, s.len() as int).take(k),
        ),
{
    let t = s.take(k + 1);
    assert(t.subrange(1, t.len() as int) =~= s.subrange(1, s.len() as int).take(k));
}

/// What eviction takes: of the attachments ranked by utility, the prefix it
/// evicts is ranked too, holds no attachment that must be retained, and
/// holds every useless attachment of the input, whatever has to be freed.
pub proof fn lemma_evicted_prefix_laws(
    atts: Seq<(u64, AttachmentCacheMetadata)>,
    s: Seq<(u64, AttachmentCacheMetadata)>,
    bytes: int,
)
    requires
        by_utility(s),
        s.to_multiset() == atts.to_multiset(),
    ensures
        evicted_count(s, bytes) <= s.len(),
        by_utility(s.take(evicted_count(s, bytes) as int)),
        forall|i: int|
            0 <= i < evicted_count(s, bytes) ==> (#[trigger] s.take(
                evicted_count(s, bytes) as int,
            )[i]).0 != RETAINED_UTILITY,
        forall|x: (u64, AttachmentCacheMetadata)|
            #[trigger] atts.contains(x) && x.0 == 0 ==> s.take(
                evicted_count(s, bytes) as int,
            ).contains(x),
{
    lemma_evicted_count_bounded(s, bytes);
    let n = evicted_count(s, bytes) as int;
    assert forall|i: int| 0 <= i < n implies (#[trigger] s.take(n)[i]).0 != RETAINED_UTILITY by {
        if s[i].0 == RETAINED_UTILITY {
            lemma_retained_attachments_are_kept(s, bytes, i);
        }
    }
    assert forall|x: (u64, AttachmentCacheMetadata)| #[trigger] atts.contains(x) && x.0 == 0 implies s.take(
        n,
    ).contains(x) by {
        atts.to_multiset_ensures();
        s.to_multiset_ensures();
        assert(s.to_multiset().count(x) > 0);
        let i = s.index_of(x);
        lemma_useless_attachments_are_evicted(s, bytes, i);
        assert(s.take(n)[i] == x);
    }
}

/// Eviction frees just enough: when it stops before an attachment that need
/// not be retained, the evicted ones free more than was asked; and when the
/// last evicted one is not useless, the ones before it did not free more
/// than was asked, so it was needed.
pub proof fn lemma_eviction_frees_just_enough(s: Seq<(u64, AttachmentCacheMetadata)>, bytes: int)
    ensures
        evicted_count(s, bytes) < s.len() && s[evicted_count(s, bytes) as int].0
            != RETAINED_UTILITY ==> total_cached_size(s.take(evicted_count(s, bytes) as int))
            > bytes,
        evicted_count(s, bytes) > 0 && s[evicted_count(s, bytes) - 1].0 > 0 ==> total_cached_size(
            s.take(evicted_count(s, bytes) - 1),
        ) <= bytes,
    decreases s.len(),
{
    if s.len() == 0 {
    } else if (bytes < 0 && s[0].0 > 0) || s[0].0 == RETAINED_UTILITY {
        assert(s.take(0) =~= Seq::<(u64, AttachmentCacheMetadata)>::empty());
    } else {
        let s1 = s.subrange(1, s.len() as int);
        let b1 = bytes - s[0].1.size;
        lemma_eviction_frees_just_enough(s1, b1);
        let n1 = evicted_count(s1, b1) as int;
        assert(evicted_count(s, bytes) == 1 + n1);
        lemma_evicted_count_bounded(s1, b1);
        if n1 < s1.len() {
            assert(s[n1 + 1] == s1[n1]);
        }
        lemma_total_take_step(s, n1);
        if n1 > 0 {
            assert(s[n1] == s1[n1 - 1]);
            lemma_total_take_step(s, n1 - 1);
        } else {
            assert(s.take(0) =~= Seq::<(u64, AttachmentCacheMetadata)>::empty());
        }
    }
}

} // verus!
