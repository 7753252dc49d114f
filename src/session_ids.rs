//! Identifiers that tell live sessions apart.

use crate::extranonce::{extranonce1_for, lemma_extranonce1_disjoint};
use crate::handler::subscriptions_for;
use vstd::prelude::*;

verus! {

/// Hands out session identifiers, each at most once. Identifier 0 belongs to
/// the session `Sv1Handler::new` opens, so counting starts at 1.
#[derive(Debug)]
pub struct SessionIds {
    pub next: u64,
}

/// Whether issuing from `pre` left `post` and answered `r`.
pub open spec fn issued(pre: SessionIds, post: SessionIds, r: Option<u64>) -> bool {
    if pre.next < u64::MAX {
        r == Some(pre.next) && post.next == pre.next + 1
    } else {
        r is None && post == pre
    }
}

impl SessionIds {
    /// A counter whose first identifier is 1.
    pub fn new() -> (r: SessionIds)
        ensures
            r.next == 1,
    {
        SessionIds { next: 1 }
    }

    /// The next unused identifier, or `None` once all are used.
    pub fn issue(&mut self) -> (r: Option<u64>)
        ensures
            issued(*old(self), *final(self), r),
            old(self).next <= final(self).next,
    {
        if self.next < u64::MAX {
            let id = self.next;
            self.next = id + 1;
            Some(id)
        } else {
            None
        }
    }
}

/// Two identifiers issued one after the other by the same counter (with any
/// number of issues in between) differ, so the two sessions get distinct
/// subscription identifiers and extranonce1 values of one length that do not
/// coincide.
pub proof fn lemma_issued_sessions_distinct(
    s0: SessionIds,
    s1: SessionIds,
    s2: SessionIds,
    s3: SessionIds,
    a: u64,
    b: u64,
)
    requires
        issued(s0, s1, Some(a)),
        s1.next <= s2.next,
        issued(s2, s3, Some(b)),
    ensures
        a != b,
        forall|i: int, j: int|
            0 <= i < 2 && 0 <= j < 2 ==> subscriptions_for(a)[i].id != subscriptions_for(b)[j].id,
        extranonce1_for(a) != extranonce1_for(b),
        extranonce1_for(a).len() == extranonce1_for(b).len(),
{
    lemma_extranonce1_disjoint(a, b);
}

} // verus!
