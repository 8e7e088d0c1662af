//! The event bus: a deterministic bounded publish/subscribe channel.
//!
//! Every subscriber owns an independent queue. A publish appends the message
//! to every queue in publish order; a queue already at capacity drops its
//! oldest unread message rather than stalling the publisher. A publish with
//! no subscribers delivers to nobody and is not an error.

use vstd::prelude::*;

use crate::Msg;
use crate::MsgV;

verus! {

/// Appends `m` to `q` under the bounded, drop-oldest discipline: when `q` is
/// already at capacity `cap`, the oldest unread message makes room for `m`.
pub open spec fn bounded_push(q: Seq<MsgV>, m: MsgV, cap: nat) -> Seq<MsgV> {
    if q.len() < cap {
        q.push(m)
    } else {
        q.drop_first().push(m)
    }
}

/// The effect of one publish on every subscriber queue.
pub open spec fn publish_to_all(qs: Seq<Seq<MsgV>>, m: MsgV, cap: nat) -> Seq<Seq<MsgV>> {
    qs.map_values(|q: Seq<MsgV>| bounded_push(q, m, cap))
}

/// The messages a queue holds, as mathematical values.
pub open spec fn queue_view(q: Seq<Msg>) -> Seq<MsgV> {
    q.map_values(|m: Msg| m@)
}

/// A process-wide bus carrying lifecycle messages to zero or more
/// subscribers. Delivery to a given subscriber is in publish order.
pub struct EventBus {
    capacity: usize,
    queues: Vec<Vec<Msg>>,
}

impl EventBus {
    /// Per-subscriber queue capacity.
    pub closed spec fn cap(&self) -> nat {
        self.capacity as nat
    }

    /// The unread messages of each subscriber, oldest first.
    pub closed spec fn queues(&self) -> Seq<Seq<MsgV>> {
        self.queues@.map_values(|q: Vec<Msg>| queue_view(q@))
    }

    /// The bus is well formed: it can hold at least one message per queue.
    pub closed spec fn inv(&self) -> bool {
        self.capacity >= 1
    }

    /// A fresh bus with the given per-subscriber capacity and no subscribers.
    pub fn new(capacity: usize) -> (r: EventBus)
        requires
            capacity >= 1,
        ensures
            r.inv(),
            r.cap() == capacity,
            r.queues() == Seq::<Seq<MsgV>>::empty(),
    {
        let r = EventBus { capacity, queues: Vec::new() };
        proof {
            assert(r.queues() =~= Seq::<Seq<MsgV>>::empty());
        }
        r
    }

    /// How many subscribers are currently registered.
    pub fn subscriber_count(&self) -> (n: usize)
        ensures
            n == self.queues().len(),
    {
        self.queues.len()
    }

    /// Register a new subscriber. The returned receiver index observes only
    /// messages published after this call: its queue starts empty.
    pub fn subscribe(&mut self) -> (id: usize)
        requires
            old(self).inv(),
        ensures
            final(self).inv(),
            final(self).cap() == old(self).cap(),
            id == old(self).queues().len(),
            final(self).queues() == old(self).queues().push(Seq::<MsgV>::empty()),
    {
        let id = self.queues.len();
        self.queues.push(Vec::new());
        proof {
            assert(self.queues() =~~= old(self).queues().push(Seq::<MsgV>::empty()));
        }
        id
    }

    /// Deliver `m` to every currently-registered subscriber's queue, dropping
    /// the oldest unread message of a queue that is already full. Never
    /// blocks the publisher; delivering to no subscribers is not an error.
    pub fn publish(&mut self, m: Msg)
        requires
            old(self).inv(),
        ensures
            final(self).inv(),
            final(self).cap() == old(self).cap(),
            final(self).queues() == publish_to_all(old(self).queues(), m@, old(self).cap()),
    {
        let ghost orig: Seq<Vec<Msg>> = self.queues@;
        let mut updated: Vec<Vec<Msg>> = Vec::new();
        while self.queues.len() > 0
            invariant
                self.capacity == old(self).capacity,
                self.capacity >= 1,
                updated@.len() + self.queues@.len() == orig.len(),
                forall|j: int|
                    0 <= j < updated@.len() ==> queue_view(updated@[j]@) == bounded_push(
                        queue_view(orig[j]@),
                        m@,
                        old(self).capacity as nat,
                    ),
                forall|j: int|
                    0 <= j < self.queues@.len() ==> self.queues@[j] == orig[updated@.len() + j],
            decreases self.queues@.len(),
        {
            let ghost rest0: Seq<Vec<Msg>> = self.queues@;
            let mut q = self.queues.remove(0);
            proof {
                assert(self.queues@ =~= rest0.drop_first());
            }
            let ghost q0: Seq<Msg> = q@;
            if q.len() >= self.capacity {
                let _ = q.remove(0);
            }
            q.push(m.clone());
            proof {
                assert(queue_view(q@) =~= bounded_push(
                    queue_view(q0),
                    m@,
                    old(self).capacity as nat,
                ));
            }
            updated.push(q);
        }
        self.queues = updated;
        proof {
            assert(self.queues() =~~= publish_to_all(old(self).queues(), m@, old(self).cap()));
        }
    }

    /// Take the oldest unread message of subscriber `id`, if any. Other
    /// subscribers' queues are untouched; repeated calls yield a subscriber's
    /// messages in publish order.
    pub fn recv(&mut self, id: usize) -> (r: Option<Msg>)
        requires
            old(self).inv(),
            id < old(self).queues().len(),
        ensures
            final(self).inv(),
            final(self).cap() == old(self).cap(),
            final(self).queues().len() == old(self).queues().len(),
            forall|j: int|
                0 <= j < old(self).queues().len() && j != id ==> final(self).queues()[j] == old(
                    self,
                ).queues()[j],
            old(self).queues()[id as int].len() == 0 ==> r is None && final(self).queues()[
                id as int] == old(self).queues()[id as int],
            old(self).queues()[id as int].len() > 0 ==> {
                &&& r is Some
                &&& r->Some_0@ == old(self).queues()[id as int][0]
                &&& final(self).queues()[id as int] == old(self).queues()[id as int].drop_first()
            },
    {
        let ghost q0: Seq<Msg> = self.queues@[id as int]@;
        let mut q = self.queues.remove(id);
        let r = if q.len() == 0 {
            None
        } else {
            Some(q.remove(0))
        };
        proof {
            if q0.len() > 0 {
                assert(queue_view(q@) =~= queue_view(q0).drop_first());
            }
        }
        let ghost qsnap: Vec<Msg> = q;
        self.queues.insert(id, q);
        proof {
            assert(self.queues@ =~= old(self).queues@.update(id as int, qsnap));
            assert forall|j: int| 0 <= j < old(self).queues().len() && j != id implies self.queues()[
                j] == old(self).queues()[j] by {
                assert(self.queues@[j] == old(self).queues@[j]);
            }
        }
        r
    }
}

} // verus!
