//! The bounded outbound queue of one session: first in, first out, and a unit
//! that finds the queue full is dropped.

use vstd::prelude::*;
use std::collections::VecDeque;
use crate::media::MediaUnit;
use crate::media::VideoCommand;

verus! {

/// What a sequence of units holds.
pub open spec fn units_of(items: Seq<VideoCommand>) -> Seq<MediaUnit> {
    Seq::new(items.len(), |i: int| items[i]@)
}

/// A queue that never holds more than `capacity` units.
pub struct BoundedQueue {
    items: VecDeque<VideoCommand>,
    capacity: usize,
}

impl View for BoundedQueue {
    type V = Seq<MediaUnit>;

    /// The queued units, oldest first.
    closed spec fn view(&self) -> Seq<MediaUnit> {
        units_of(self.items@)
    }
}

impl BoundedQueue {
    /// The most units the queue holds.
    pub closed spec fn bound(&self) -> nat {
        self.capacity as nat
    }

    pub open spec fn wf(&self) -> bool {
        self@.len() <= self.bound()
    }

    /// An empty queue.
    pub fn new(capacity: usize) -> (queue: BoundedQueue)
        ensures
            queue@ == Seq::<MediaUnit>::empty(),
            queue.bound() == capacity,
            queue.wf(),
    {
        let queue = BoundedQueue { items: VecDeque::new(), capacity };
        assert(queue@ =~= Seq::<MediaUnit>::empty());
        queue
    }

    pub fn capacity(&self) -> (capacity: usize)
        ensures
            capacity == self.bound(),
    {
        self.capacity
    }

    pub fn len(&self) -> (len: usize)
        ensures
            len == self@.len(),
    {
        self.items.len()
    }

    pub fn is_empty(&self) -> (empty: bool)
        ensures
            empty == (self@.len() == 0),
    {
        self.items.len() == 0
    }

    /// Queues a unit behind the others, or drops it where the queue is full.
    /// Says whether it was queued.
    pub fn offer(&mut self, unit: VideoCommand) -> (queued: bool)
        ensures
            queued == (old(self)@.len() < old(self).bound()),
            final(self)@ == if queued {
                old(self)@.push(unit@)
            } else {
                old(self)@
            },
            final(self).bound() == old(self).bound(),
            old(self).wf() ==> final(self).wf(),
    {
        if self.items.len() < self.capacity {
            self.items.push_back(unit);
            assert(self@ =~= old(self)@.push(unit@));
            true
        } else {
            false
        }
    }

    /// Takes the oldest unit out, if there is one.
    pub fn take(&mut self) -> (unit: Option<VideoCommand>)
        ensures
            final(self).bound() == old(self).bound(),
            old(self).wf() ==> final(self).wf(),
            match unit {
                Some(u) => old(self)@.len() > 0 && u@ == old(self)@[0] && final(self)@ == old(
                    self,
                )@.drop_first(),
                None => old(self)@.len() == 0 && final(self)@ == old(self)@,
            },
    {
        let unit = self.items.pop_front();
        proof {
            if unit is Some {
                assert(self@ =~= old(self)@.drop_first());
            }
        }
        unit
    }
}

} // verus!
