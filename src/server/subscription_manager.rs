//! The subscription table of a service provider.
use vstd::prelude::*;

use super::service_info::{SocketAddress, Subscriber};

verus! {

/// The table after subscribing `sub`: unchanged where `sub` is in it already.
pub open spec fn spec_subscribe(v: Seq<Subscriber>, sub: Subscriber) -> Seq<Subscriber> {
    if v.contains(sub) {
        v
    } else {
        v.push(sub)
    }
}

/// `s` subscribes to the event group `(service_id, instance_id, event_group_id)`.
pub open spec fn in_group(s: Subscriber, service_id: u16, instance_id: u16, event_group_id: u16) -> bool {
    s.service_id == service_id && s.instance_id == instance_id && s.event_group_id == event_group_id
}

/// Subscriptions to event groups, at most one per event group and endpoint.
#[derive(Debug, Clone)]
pub struct SubscriptionManager {
    subscriptions: Vec<Subscriber>,
}

impl View for SubscriptionManager {
    type V = Seq<Subscriber>;

    closed spec fn view(&self) -> Seq<Subscriber> {
        self.subscriptions@
    }
}

impl SubscriptionManager {
    pub open spec fn wf(&self) -> bool {
        self@.no_duplicates()
    }

    pub fn new() -> (r: Self)
        ensures
            r.wf(),
            r@ == Seq::<Subscriber>::empty(),
    {
        let r = SubscriptionManager { subscriptions: Vec::new() };
        assert(r@ =~= Seq::<Subscriber>::empty());
        r
    }

    fn position(&self, sub: Subscriber) -> (r: Option<usize>)
        ensures
            match r {
                Some(i) => i < self@.len() && self@[i as int] == sub,
                None => !self@.contains(sub),
            },
    {
        let mut i: usize = 0;
        while i < self.subscriptions.len()
            invariant
                i <= self@.len(),
                self@ == self.subscriptions@,
                forall|j: int| 0 <= j < i ==> self@[j] != sub,
            decreases self@.len() - i,
        {
            if self.subscriptions[i] == sub {
                return Some(i);
            }
            i = i + 1;
        }
        None
    }

    /// Subscribes `subscriber_addr` to an event group; subscribing again
    /// refreshes and adds nothing.
    pub fn subscribe(
        &mut self,
        service_id: u16,
        instance_id: u16,
        event_group_id: u16,
        subscriber_addr: SocketAddress,
    )
        requires
            old(self).wf(),
        ensures
            final(self).wf(),
            final(self)@ == spec_subscribe(
                old(self)@,
                Subscriber { address: subscriber_addr, event_group_id, service_id, instance_id },
            ),
    {
        let sub = Subscriber::new(subscriber_addr, service_id, instance_id, event_group_id);
        match self.position(sub) {
            Some(_) => {},
            None => {
                self.subscriptions.push(sub);
                assert(self@.no_duplicates()) by {
                    assert forall|a: int, b: int|
                        0 <= a < self@.len() && 0 <= b < self@.len() && a != b implies self@[a]
                        != self@[b] by {
                        if a == self@.len() - 1 {
                            assert(!old(self)@.contains(sub));
                            assert(old(self)@[b] == self@[b]);
                        } else if b == self@.len() - 1 {
                            assert(!old(self)@.contains(sub));
                            assert(old(self)@[a] == self@[a]);
                        }
                    }
                }
            },
        }
    }

    /// Removes `subscriber_addr` from an event group.
    pub fn unsubscribe(
        &mut self,
        service_id: u16,
        instance_id: u16,
        event_group_id: u16,
        subscriber_addr: SocketAddress,
    )
        requires
            old(self).wf(),
        ensures
            final(self).wf(),
            ({
                let sub = Subscriber {
                    address: subscriber_addr,
                    event_group_id,
                    service_id,
                    instance_id,
                };
                &&& forall|s: Subscriber| #[trigger]
                    final(self)@.contains(s) <==> (old(self)@.contains(s) && s != sub)
                &&& final(self)@.len() == if old(self)@.contains(sub) {
                    old(self)@.len() - 1
                } else {
                    old(self)@.len() as int
                }
            }),
    {
        let sub = Subscriber::new(subscriber_addr, service_id, instance_id, event_group_id);
        match self.position(sub) {
            None => {},
            Some(i) => {
                let ghost before = self@;
                self.subscriptions.remove(i);
                assert(self@ == before.remove(i as int));
                assert forall|s: Subscriber| #[trigger]
                    self@.contains(s) <==> (before.contains(s) && s != sub) by {
                    if self@.contains(s) {
                        let k = choose|k: int| 0 <= k < self@.len() && self@[k] == s;
                        if k < i {
                            assert(before[k] == s);
                        } else {
                            assert(before[k + 1] == s);
                        }
                    }
                    if before.contains(s) && s != sub {
                        let k = choose|k: int| 0 <= k < before.len() && before[k] == s;
                        if k < i {
                            assert(self@[k] == s);
                        } else {
                            assert(self@[k - 1] == s);
                        }
                    }
                }
                assert(self@.no_duplicates()) by {
                    assert forall|a: int, b: int|
                        0 <= a < self@.len() && 0 <= b < self@.len() && a != b implies self@[a]
                        != self@[b] by {
                        let a2 = if a < i { a } else { a + 1 };
                        let b2 = if b < i { b } else { b + 1 };
                        assert(self@[a] == before[a2]);
                        assert(self@[b] == before[b2]);
                    }
                }
            },
        }
    }

    /// Subscribers of an event group, in the order they subscribed.
    #[verifier::loop_isolation(false)]
    pub fn get_subscribers(&self, service_id: u16, instance_id: u16, event_group_id: u16) -> (r:
        Vec<Subscriber>)
        ensures
            r@ == self@.filter(|s: Subscriber| in_group(s, service_id, instance_id, event_group_id)),
    {
        let ghost pred = |s: Subscriber| in_group(s, service_id, instance_id, event_group_id);
        let mut r: Vec<Subscriber> = Vec::new();
        let mut i: usize = 0;
        while i < self.subscriptions.len()
            invariant
                i <= self@.len(),
                self@ == self.subscriptions@,
                r@ == self@.take(i as int).filter(pred),
            decreases self@.len() - i,
        {
            let s = self.subscriptions[i];
            proof {
                assert(self@.take(i + 1) =~= self@.take(i as int).push(s));
                self@.take(i as int).lemma_filter_push(s, pred);
                assert(pred(s) == in_group(s, service_id, instance_id, event_group_id));
            }
            if s.service_id == service_id && s.instance_id == instance_id && s.event_group_id
                == event_group_id {
                r.push(s);
            }
            i = i + 1;
        }
        assert(self@.take(self@.len() as int) =~= self@);
        r
    }

    /// Number of subscriptions over all event groups.
    pub fn subscription_count(&self) -> (r: usize)
        ensures
            r == self@.len(),
    {
        self.subscriptions.len()
    }
}

impl Default for SubscriptionManager {
    fn default() -> (r: Self)
        ensures
            r.wf(),
            r@ == Seq::<Subscriber>::empty(),
    {
        Self::new()
    }
}

/// Subscribing the same endpoint to the same event group twice leaves the
/// table as after the first time, with exactly one entry for it.
pub proof fn lemma_subscribe_idempotent(v: Seq<Subscriber>, sub: Subscriber)
    requires
        v.no_duplicates(),
    ensures
        spec_subscribe(spec_subscribe(v, sub), sub) == spec_subscribe(v, sub),
        spec_subscribe(v, sub).no_duplicates(),
        exists|i: int|
            0 <= i < spec_subscribe(v, sub).len() && spec_subscribe(v, sub)[i] == sub && forall|
                j: int,
            |
                0 <= j < spec_subscribe(v, sub).len() && #[trigger] spec_subscribe(v, sub)[j] == sub
                    ==> j == i,
{
    let w = spec_subscribe(v, sub);
    if !v.contains(sub) {
        assert(w.last() == sub);
        assert(w.contains(sub));
        assert(w.no_duplicates()) by {
            assert forall|a: int, b: int|
                0 <= a < w.len() && 0 <= b < w.len() && a != b implies w[a] != w[b] by {
                if a == w.len() - 1 {
                    assert(w[b] == v[b]);
                } else if b == w.len() - 1 {
                    assert(w[a] == v[a]);
                }
            }
        }
    }
    assert(w.contains(sub));
    let i = choose|i: int| 0 <= i < w.len() && w[i] == sub;
    assert(forall|j: int| 0 <= j < w.len() && #[trigger] w[j] == sub ==> j == i);
}

} // verus!
