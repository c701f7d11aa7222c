//! Interrupt-safe event notification: a registry of subscribers,
//! each persistent or oneshot, fanned out synchronously and in
//! registration order when the owning driver signals an event.
//!
//! A subscriber is an opaque token chosen by the registrar; the
//! dispatch layer that owns the callbacks maps each fired token back
//! to the callable it stands for. Keeping the registry pure data lets
//! `trigger` run without allocation decisions of its own and keeps
//! the fan-out logic fully checked.

use vstd::prelude::*;

verus! {

/// One registered subscriber: its dispatch token and whether it is
/// to be invoked at most once.
#[derive(Clone, Copy, PartialEq, Eq, Structural, Debug)]
pub struct Subscriber {
    /// Token under which the dispatch layer finds the callback.
    pub id: u64,
    /// Invoke at most once, then discard.
    pub oneshot: bool,
}

/// The dispatch tokens of `subs`, in registration order.
pub open spec fn ids_of(subs: Seq<Subscriber>) -> Seq<u64> {
    subs.map_values(|s: Subscriber| s.id)
}

/// The subscribers of `subs` that survive a trigger: the persistent
/// ones, in registration order.
pub open spec fn persistent_of(subs: Seq<Subscriber>) -> Seq<Subscriber> {
    subs.filter(|s: Subscriber| !s.oneshot)
}

/// Publish/subscribe primitive: fans a "something happened" signal
/// out to zero or more subscribers.
pub struct EventListener {
    subs: Vec<Subscriber>,
}

impl EventListener {
    /// The current subscribers, in registration order.
    pub closed spec fn subscribers(&self) -> Seq<Subscriber> {
        self.subs@
    }

    /// A listener with no subscribers.
    pub fn new() -> (r: Self)
        ensures
            r.subscribers() == Seq::<Subscriber>::empty(),
    {
        EventListener { subs: Vec::new() }
    }

    /// Add a subscriber; if `oneshot` is set it will be invoked at
    /// most once. Subscribers are never individually deregistered.
    pub fn subscribe(&mut self, id: u64, oneshot: bool)
        ensures
            final(self).subscribers() == old(self).subscribers().push(
                Subscriber { id, oneshot },
            ),
    {
        self.subs.push(Subscriber { id, oneshot });
    }

    /// Signal the event: report every current subscriber, in
    /// registration order, and discard the oneshot ones.
    pub fn trigger(&mut self) -> (fired: Vec<u64>)
        ensures
            fired@ == ids_of(old(self).subscribers()),
            final(self).subscribers() == persistent_of(old(self).subscribers()),
    {
        let ghost all = self.subs@;
        let mut fired: Vec<u64> = Vec::new();
        let mut kept: Vec<Subscriber> = Vec::new();
        let mut i: usize = 0;
        while i < self.subs.len()
            invariant
                i <= all.len(),
                self.subs@ == all,
                fired@ == ids_of(all.take(i as int)),
                kept@ == persistent_of(all.take(i as int)),
            decreases all.len() - i,
        {
            let s = self.subs[i];
            fired.push(s.id);
            if !s.oneshot {
                kept.push(s);
            }
            proof {
                let t = all.take(i + 1);
                assert(t.drop_last() =~= all.take(i as int));
                assert(t.last() == all[i as int]);
                reveal(Seq::filter);
                assert(ids_of(t) =~= ids_of(all.take(i as int)).push(s.id));
            }
            i = i + 1;
        }
        proof {
            assert(all.take(all.len() as int) =~= all);
        }
        self.subs = kept;
        fired
    }
}

} // verus!
