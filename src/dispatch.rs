//! The queue between the arrival of value changes and their presentation:
//! first in, first out, bounded, and when full it drops the oldest change and
//! counts it, so that nothing is lost unseen.

use vstd::prelude::*;
use std::collections::VecDeque;
use crate::node::NodeId;
use crate::presentation::DataValue;

verus! {

/// One value change of one monitored node.
#[derive(Clone, Debug)]
pub struct Notification {
    pub node: NodeId,
    pub data_value: DataValue,
}

/// A bounded first-in first-out queue of notifications that drops the
/// oldest when full.
pub struct NotificationQueue {
    items: VecDeque<Notification>,
    capacity: usize,
    dropped: u64,
}

/// The queue's contents after `n` arrives at a queue holding `q` with room
/// for `capacity`.
pub open spec fn after_push(q: Seq<Notification>, capacity: nat, n: Notification) -> Seq<
    Notification,
> {
    if q.len() < capacity {
        q.push(n)
    } else {
        q.drop_first().push(n)
    }
}

impl View for NotificationQueue {
    type V = Seq<Notification>;

    closed spec fn view(&self) -> Seq<Notification> {
        self.items@
    }
}

impl NotificationQueue {
    /// The most notifications the queue holds.
    pub closed spec fn spec_capacity(&self) -> nat {
        self.capacity as nat
    }

    /// How many notifications were dropped, saturating at `u64::MAX`.
    pub closed spec fn spec_dropped(&self) -> u64 {
        self.dropped
    }

    /// The queue holds no more than its capacity, which is positive.
    pub closed spec fn inv(&self) -> bool {
        0 < self.capacity && self.items@.len() <= self.capacity
    }

    /// An empty queue with room for `capacity` notifications.
    pub fn new(capacity: usize) -> (r: NotificationQueue)
        requires
            capacity > 0,
        ensures
            r.inv(),
            r@ == Seq::<Notification>::empty(),
            r.spec_capacity() == capacity,
            r.spec_dropped() == 0,
    {
        NotificationQueue { items: VecDeque::new(), capacity, dropped: 0 }
    }

    /// The number of queued notifications.
    pub fn len(&self) -> (r: usize)
        ensures
            r == self@.len(),
    {
        self.items.len()
    }

    /// The most notifications the queue holds.
    pub fn capacity(&self) -> (r: usize)
        ensures
            r == self.spec_capacity(),
    {
        self.capacity
    }

    /// How many notifications were dropped to make room.
    pub fn dropped(&self) -> (r: u64)
        ensures
            r == self.spec_dropped(),
    {
        self.dropped
    }

    /// Queues a notification behind the others; when the queue is full the
    /// oldest is dropped first and counted. Returns whether one was dropped.
    pub fn push(&mut self, n: Notification) -> (r: bool)
        requires
            old(self).inv(),
        ensures
            final(self).inv(),
            r == (old(self)@.len() == old(self).spec_capacity()),
            final(self)@ == after_push(old(self)@, old(self).spec_capacity(), n),
            final(self).spec_capacity() == old(self).spec_capacity(),
            final(self).spec_dropped() == if r && old(self).spec_dropped() < u64::MAX {
                (old(self).spec_dropped() + 1) as u64
            } else {
                old(self).spec_dropped()
            },
    {
        let full = self.items.len() == self.capacity;
        if full {
            let _ = self.items.pop_front();
            if self.dropped < u64::MAX {
                self.dropped = self.dropped + 1;
            }
        }
        self.items.push_back(n);
        full
    }

    /// Takes the oldest notification, if any.
    pub fn pop(&mut self) -> (r: Option<Notification>)
        requires
            old(self).inv(),
        ensures
            final(self).inv(),
            final(self).spec_capacity() == old(self).spec_capacity(),
            final(self).spec_dropped() == old(self).spec_dropped(),
            old(self)@.len() == 0 ==> r is None && final(self)@ == old(self)@,
            old(self)@.len() > 0 ==> r == Some(old(self)@[0]) && final(self)@ == old(self)@.drop_first(),
    {
        self.items.pop_front()
    }
}

/// What arrives leaves in the order it arrived: a notification pushed onto
/// a queue with room comes out after everything already queued, and nothing
/// but the oldest is ever dropped.
pub proof fn lemma_fifo(q: Seq<Notification>, capacity: nat, n: Notification)
    requires
        0 < capacity,
        q.len() <= capacity,
    ensures
        after_push(q, capacity, n).len() <= capacity,
        after_push(q, capacity, n).last() == n,
        q.len() < capacity ==> after_push(q, capacity, n).drop_last() == q,
        q.len() == capacity ==> after_push(q, capacity, n).drop_last() == q.drop_first(),
{
    assert(q.push(n).drop_last() =~= q);
    assert(q.drop_first().push(n).drop_last() =~= q.drop_first());
}

} // verus!
