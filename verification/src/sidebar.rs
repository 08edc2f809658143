//! The sidebar, where the user navigates between mailbox, folders, labels and
//! settings: which system labels it lists, and in which order.

use vstd::prelude::*;
use crate::labels::{LabelWithCounters, SystemLabelId};
use crate::mail_settings::{AlmostAllMail, MailSettings, ShowMoved};

verus! {

/// Represents the sidebar where user can navigate between mailbox, folders,
/// labels, settings, ...
#[derive(Clone, Copy, Debug)]
pub struct Sidebar;

/// The message and conversation totals of a label.
#[derive(Clone, Copy, Debug, PartialEq, Eq, Structural)]
pub struct LabelTotals {
    pub total_msg: u64,
    pub total_conv: u64,
}

/// A label is listed when it holds a message or a conversation.
pub open spec fn holds_items(t: LabelTotals) -> bool {
    t.total_msg != 0 || t.total_conv != 0
}

/// The system labels of the sidebar, in order.
pub open spec fn sidebar_system_labels(
    show_moved: ShowMoved,
    almost_all_mail: AlmostAllMail,
    scheduled: LabelTotals,
    outbox: LabelTotals,
    snoozed: LabelTotals,
) -> Seq<SystemLabelId> {
    let drafts = if show_moved == ShowMoved::KeepInDrafts || show_moved == ShowMoved::KeepBoth {
        SystemLabelId::AllDrafts
    } else {
        SystemLabelId::Drafts
    };
    let sent = if show_moved == ShowMoved::KeepInSent || show_moved == ShowMoved::KeepBoth {
        SystemLabelId::AllSent
    } else {
        SystemLabelId::Sent
    };
    let all_mail = if almost_all_mail == AlmostAllMail::Enabled {
        SystemLabelId::AlmostAllMail
    } else {
        SystemLabelId::AllMail
    };
    seq![SystemLabelId::Inbox, drafts] + (if holds_items(scheduled) {
        seq![SystemLabelId::AllScheduled]
    } else {
        Seq::empty()
    }) + (if holds_items(outbox) {
        seq![SystemLabelId::Outbox]
    } else {
        Seq::empty()
    }) + (if holds_items(snoozed) {
        seq![SystemLabelId::Snoozed]
    } else {
        Seq::empty()
    }) + seq![
        SystemLabelId::Starred,
        sent,
        SystemLabelId::Spam,
        SystemLabelId::Archive,
        SystemLabelId::Trash,
        all_mail,
    ]
}

/// An element is in `a + b` exactly when it is in `a` or in `b`.
proof fn lemma_contains_add(a: Seq<SystemLabelId>, b: Seq<SystemLabelId>, x: SystemLabelId)
    ensures
        (a + b).contains(x) <==> (a.contains(x) || b.contains(x)),
{
    if (a + b).contains(x) {
        let i = choose|i: int| 0 <= i < (a + b).len() && (a + b)[i] == x;
        if i < a.len() {
            assert(a[i] == x);
        } else {
            assert(b[i - a.len()] == x);
        }
    }
    if a.contains(x) {
        let i = choose|i: int| 0 <= i < a.len() && a[i] == x;
        assert((a + b)[i] == x);
    }
    if b.contains(x) {
        let i = choose|i: int| 0 <= i < b.len() && b[i] == x;
        assert((a + b)[a.len() + i] == x);
    }
}

/// The sidebar follows the settings and the counters: the inbox comes first;
/// the drafts entry is all drafts exactly when moved drafts are kept, the
/// sent entry all sent exactly when moved sent mail is kept, and the all
/// mail entry the one without spam and trash exactly when that is enabled;
/// scheduled, outbox and snoozed are listed exactly while they hold a
/// message or a conversation; starred, spam, archive and trash always are.
pub proof fn lemma_sidebar_follows_settings(
    show_moved: ShowMoved,
    almost_all_mail: AlmostAllMail,
    scheduled: LabelTotals,
    outbox: LabelTotals,
    snoozed: LabelTotals,
)
    ensures
        ({
            let r = sidebar_system_labels(show_moved, almost_all_mail, scheduled, outbox, snoozed);
            &&& r[0] == SystemLabelId::Inbox
            &&& r.contains(SystemLabelId::AllDrafts) <==> (show_moved == ShowMoved::KeepInDrafts
                || show_moved == ShowMoved::KeepBoth)
            &&& r.contains(SystemLabelId::Drafts) <==> !(show_moved == ShowMoved::KeepInDrafts
                || show_moved == ShowMoved::KeepBoth)
            &&& r.contains(SystemLabelId::AllSent) <==> (show_moved == ShowMoved::KeepInSent
                || show_moved == ShowMoved::KeepBoth)
            &&& r.contains(SystemLabelId::Sent) <==> !(show_moved == ShowMoved::KeepInSent
                || show_moved == ShowMoved::KeepBoth)
            &&& r.contains(SystemLabelId::AlmostAllMail) <==> almost_all_mail
                == AlmostAllMail::Enabled
            &&& r.contains(SystemLabelId::AllMail) <==> almost_all_mail != AlmostAllMail::Enabled
            &&& r.contains(SystemLabelId::AllScheduled) <==> (scheduled.total_msg != 0
                || scheduled.total_conv != 0)
            &&& r.contains(SystemLabelId::Outbox) <==> (outbox.total_msg != 0
                || outbox.total_conv != 0)
            &&& r.contains(SystemLabelId::Snoozed) <==> (snoozed.total_msg != 0
                || snoozed.total_conv != 0)
            &&& r.contains(SystemLabelId::Starred)
            &&& r.contains(SystemLabelId::Spam)
            &&& r.contains(SystemLabelId::Archive)
            &&& r.contains(SystemLabelId::Trash)
            &&& r.contains(SystemLabelId::Inbox)
        }),
{
    let drafts = if show_moved == ShowMoved::KeepInDrafts || show_moved == ShowMoved::KeepBoth {
        SystemLabelId::AllDrafts
    } else {
        SystemLabelId::Drafts
    };
    let sent = if show_moved == ShowMoved::KeepInSent || show_moved == ShowMoved::KeepBoth {
        SystemLabelId::AllSent
    } else {
        SystemLabelId::Sent
    };
    let all_mail = if almost_all_mail == AlmostAllMail::Enabled {
        SystemLabelId::AlmostAllMail
    } else {
        SystemLabelId::AllMail
    };
    let a = seq![SystemLabelId::Inbox, drafts];
    let b = if holds_items(scheduled) {
        seq![SystemLabelId::AllScheduled]
    } else {
        Seq::empty()
    };
    let c = if holds_items(outbox) {
        seq![SystemLabelId::Outbox]
    } else {
        Seq::empty()
    };
    let d = if holds_items(snoozed) {
        seq![SystemLabelId::Snoozed]
    } else {
        Seq::empty()
    };
    let e = seq![
        SystemLabelId::Starred,
        sent,
        SystemLabelId::Spam,
        SystemLabelId::Archive,
        SystemLabelId::Trash,
        all_mail,
    ];
    let r = sidebar_system_labels(show_moved, almost_all_mail, scheduled, outbox, snoozed);
    assert(r == a + b + c + d + e);
    assert forall|x: SystemLabelId| #[trigger] r.contains(x) <==> (a.contains(x) || b.contains(x)
        || c.contains(x) || d.contains(x) || e.contains(x)) by {
        lemma_contains_add(a + b + c + d, e, x);
        lemma_contains_add(a + b + c, d, x);
        lemma_contains_add(a + b, c, x);
        lemma_contains_add(a, b, x);
    }
    assert forall|x: SystemLabelId| #[trigger] a.contains(x) <==> (x == SystemLabelId::Inbox || x
        == drafts) by {
        if x == SystemLabelId::Inbox {
            assert(a[0] == x);
        }
        if x == drafts {
            assert(a[1] == x);
        }
    }
    assert forall|x: SystemLabelId| #[trigger] e.contains(x) <==> (x == SystemLabelId::Starred || x
        == sent || x == SystemLabelId::Spam || x == SystemLabelId::Archive || x
        == SystemLabelId::Trash || x == all_mail) by {
        if x == SystemLabelId::Starred {
            assert(e[0] == x);
        }
        if x == sent {
            assert(e[1] == x);
        }
        if x == SystemLabelId::Spam {
            assert(e[2] == x);
        }
        if x == SystemLabelId::Archive {
            assert(e[3] == x);
        }
        if x == SystemLabelId::Trash {
            assert(e[4] == x);
        }
        if x == all_mail {
            assert(e[5] == x);
        }
    }
    assert forall|x: SystemLabelId| #[trigger] b.contains(x) <==> (holds_items(scheduled) && x
        == SystemLabelId::AllScheduled) by {
        if holds_items(scheduled) && x == SystemLabelId::AllScheduled {
            assert(b[0] == x);
        }
    }
    assert forall|x: SystemLabelId| #[trigger] c.contains(x) <==> (holds_items(outbox) && x
        == SystemLabelId::Outbox) by {
        if holds_items(outbox) && x == SystemLabelId::Outbox {
            assert(c[0] == x);
        }
    }
    assert forall|x: SystemLabelId| #[trigger] d.contains(x) <==> (holds_items(snoozed) && x
        == SystemLabelId::Snoozed) by {
        if holds_items(snoozed) && x == SystemLabelId::Snoozed {
            assert(d[0] == x);
        }
    }
    assert(r.contains(SystemLabelId::Starred));
    assert(r.contains(SystemLabelId::Spam));
    assert(r.contains(SystemLabelId::Archive));
    assert(r.contains(SystemLabelId::Trash));
    assert(r.contains(SystemLabelId::Inbox));
    assert(r.contains(SystemLabelId::AllDrafts) == a.contains(SystemLabelId::AllDrafts));
    assert(r.contains(SystemLabelId::Drafts) == a.contains(SystemLabelId::Drafts));
    assert(r.contains(SystemLabelId::AllSent) == e.contains(SystemLabelId::AllSent));
    assert(r.contains(SystemLabelId::Sent) == e.contains(SystemLabelId::Sent));
    assert(r.contains(SystemLabelId::AllMail) == e.contains(SystemLabelId::AllMail));
    assert(r.contains(SystemLabelId::AlmostAllMail) == e.contains(SystemLabelId::AlmostAllMail));
    assert(r.contains(SystemLabelId::AllScheduled) == b.contains(SystemLabelId::AllScheduled));
    assert(r.contains(SystemLabelId::Outbox) == c.contains(SystemLabelId::Outbox));
    assert(r.contains(SystemLabelId::Snoozed) == d.contains(SystemLabelId::Snoozed));
}

impl Sidebar {
    /// The system labels the sidebar lists: inbox, the drafts folder the
    /// settings keep moved drafts in, scheduled, outbox and snoozed while they
    /// hold anything, starred, the sent folder the settings keep moved sent
    /// mail in, spam, archive, trash and all mail.
    pub fn system_labels(
        &self,
        settings: &MailSettings,
        scheduled: LabelTotals,
        outbox: LabelTotals,
        snoozed: LabelTotals,
    ) -> (r: Vec<SystemLabelId>)
        ensures
            r@ == sidebar_system_labels(
                settings.show_moved,
                settings.almost_all_mail,
                scheduled,
                outbox,
                snoozed,
            ),
            r@.contains(SystemLabelId::AllSent) <==> (settings.show_moved == ShowMoved::KeepInSent
                || settings.show_moved == ShowMoved::KeepBoth),
            r@.contains(SystemLabelId::Sent) <==> !(settings.show_moved == ShowMoved::KeepInSent
                || settings.show_moved == ShowMoved::KeepBoth),
            r@.contains(SystemLabelId::AllDrafts) <==> (settings.show_moved
                == ShowMoved::KeepInDrafts || settings.show_moved == ShowMoved::KeepBoth),
            r@.contains(SystemLabelId::Drafts) <==> !(settings.show_moved
                == ShowMoved::KeepInDrafts || settings.show_moved == ShowMoved::KeepBoth),
            r@.contains(SystemLabelId::AlmostAllMail) <==> settings.almost_all_mail
                == AlmostAllMail::Enabled,
            r@.contains(SystemLabelId::AllMail) <==> settings.almost_all_mail
                != AlmostAllMail::Enabled,
    {
        let mut labels: Vec<SystemLabelId> = Vec::new();
        labels.push(SystemLabelId::Inbox);
        if settings.show_moved == ShowMoved::KeepInDrafts || settings.show_moved
            == ShowMoved::KeepBoth {
            labels.push(SystemLabelId::AllDrafts);
        } else {
            labels.push(SystemLabelId::Drafts);
        }
        if scheduled.total_msg != 0 || scheduled.total_conv != 0 {
            labels.push(SystemLabelId::AllScheduled);
        }
        if outbox.total_conv != 0 || outbox.total_msg != 0 {
            labels.push(SystemLabelId::Outbox);
        }
        if snoozed.total_conv != 0 || snoozed.total_msg != 0 {
            labels.push(SystemLabelId::Snoozed);
        }
        labels.push(SystemLabelId::Starred);
        if settings.show_moved == ShowMoved::KeepInSent || settings.show_moved
            == ShowMoved::KeepBoth {
            labels.push(SystemLabelId::AllSent);
        } else {
            labels.push(SystemLabelId::Sent);
        }
        labels.push(SystemLabelId::Spam);
        labels.push(SystemLabelId::Archive);
        labels.push(SystemLabelId::Trash);
        labels.push(settings.all_mail());
        assert(labels@ =~= sidebar_system_labels(
            settings.show_moved,
            settings.almost_all_mail,
            scheduled,
            outbox,
            snoozed,
        ));
        proof {
            lemma_sidebar_follows_settings(
                settings.show_moved,
                settings.almost_all_mail,
                scheduled,
                outbox,
                snoozed,
            );
        }
        labels
    }
}

impl LabelTotals {
    /// The totals of a label with counters.
    pub fn of(label: &LabelWithCounters) -> (r: Self)
        ensures
            r == (LabelTotals { total_msg: label.total_msg, total_conv: label.total_conv }),
    {
        LabelTotals { total_msg: label.total_msg, total_conv: label.total_conv }
    }
}

} // verus!
