//! The incoming default of a sender as kept per address, and how many pages
//! of incoming defaults are fetched.

use vstd::prelude::*;

verus! {

/// Where messages from a sender go by default.
#[derive(Clone, Copy, Debug, PartialEq, Eq, Structural)]
pub enum IncomingDefaultLocation {
    /// The messages are allowed and go to inbox
    Inbox,
    /// Marked as spam by the user, next incoming messages goes to spam directly
    Spam,
    /// Email address blocked by the user; its messages are deleted on arrival
    Blocked,
}

/// The number each location is stored as.
pub open spec fn default_location_code(l: IncomingDefaultLocation) -> u8 {
    match l {
        IncomingDefaultLocation::Inbox => 0,
        IncomingDefaultLocation::Spam => 4,
        IncomingDefaultLocation::Blocked => 14,
    }
}

impl IncomingDefaultLocation {
    /// The number this location is stored as.
    pub fn to_repr(&self) -> (r: u8)
        ensures
            r == default_location_code(*self),
    {
        match self {
            IncomingDefaultLocation::Inbox => 0,
            IncomingDefaultLocation::Spam => 4,
            IncomingDefaultLocation::Blocked => 14,
        }
    }

    /// Reads a stored location back; a number that is no location's is
    /// handed back as the error.
    pub fn try_from_repr(v: u8) -> (r: Result<Self, u8>)
        ensures
            r.is_ok() <==> (v == 0 || v == 4 || v == 14),
            r.is_ok() ==> default_location_code(r->Ok_0) == v,
            r.is_err() ==> r->Err_0 == v,
    {
        if v == 0 {
            Ok(IncomingDefaultLocation::Inbox)
        } else if v == 4 {
            Ok(IncomingDefaultLocation::Spam)
        } else if v == 14 {
            Ok(IncomingDefaultLocation::Blocked)
        } else {
            Err(v)
        }
    }

    /// How many pages follow the first one when `global_total` incoming
    /// defaults are fetched `page` at a time.
    pub fn remaining_pages(global_total: u64, page: u64) -> (r: u64)
        requires
            page > 0,
        ensures
            global_total < page ==> r == 0,
            global_total >= page ==> r * page >= global_total - page,
            global_total >= page && r > 0 ==> (r - 1) * page < global_total - page,
    {
        if global_total < page {
            0
        } else {
            let rem = global_total - page;
            let q = rem / page;
            let r = if rem % page == 0 {
                q
            } else {
                q + 1
            };
            proof {
                assert(rem == q * page + rem % page) by (nonlinear_arith)
                    requires
                        page > 0,
                        q == rem / page,
                ;
                assert(q * page <= rem) by (nonlinear_arith)
                    requires
                        page > 0,
                        q == rem / page,
                ;
                if q > 0 {
                    assert((q - 1) * page == q * page - page) by (nonlinear_arith);
                }
                if rem % page != 0 {
                    assert((q + 1) * page == q * page + page) by (nonlinear_arith);
                    assert(rem % page < page) by (nonlinear_arith)
                        requires
                            page > 0,
                    ;
                }
            }
            r
        }
    }
}

} // verus!
