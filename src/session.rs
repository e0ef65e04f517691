//! Session counters: 16-bit counters that run through 1..=0xFFFF and skip 0.
use vstd::prelude::*;

verus! {

/// The session ID that follows `s`: one more, or 1 after 0xFFFF.
pub open spec fn spec_next_session(s: u16) -> u16 {
    if s == 0xFFFF {
        1
    } else {
        (s + 1) as u16
    }
}

/// A session counter; it never hands out 0.
#[derive(Clone, Copy, Debug, PartialEq, Eq, Structural)]
pub struct SessionCounter {
    next: u16,
}

impl SessionCounter {
    /// The session ID that the next call of `next_session_id` hands out.
    pub closed spec fn spec_next(self) -> u16 {
        self.next
    }

    pub closed spec fn wf(self) -> bool {
        self.next != 0
    }

    /// A counter that starts at 1.
    pub fn new() -> (r: Self)
        ensures
            r.wf(),
            r.spec_next() == 1,
    {
        SessionCounter { next: 1 }
    }

    /// The session ID that the next call hands out.
    pub fn peek(&self) -> (r: u16)
        ensures
            r == self.spec_next(),
    {
        self.next
    }

    /// Hands out a session ID and advances, skipping 0 on wrap.
    pub fn next_session_id(&mut self) -> (r: u16)
        requires
            old(self).wf(),
        ensures
            final(self).wf(),
            r == old(self).spec_next(),
            1 <= r <= 0xFFFF,
            final(self).spec_next() == spec_next_session(r),
    {
        let r = self.next;
        self.next = if r == 0xFFFF {
            1
        } else {
            r + 1
        };
        r
    }
}

/// Two session IDs handed out one after the other: the second is one more
/// than the first, except after 0xFFFF where it is 1; neither is 0.
pub proof fn lemma_session_monotonic(first: u16)
    requires
        first != 0,
    ensures
        spec_next_session(first) != 0,
        first < 0xFFFF ==> spec_next_session(first) == first + 1 && spec_next_session(first)
            > first,
        first == 0xFFFF ==> spec_next_session(first) == 1,
{
}

} // verus!
