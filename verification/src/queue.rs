//! The bounded queue of outbound envelopes between the screens and the
//! realtime connection.

use crate::event::PhoenixEvent;
use vstd::prelude::*;

verus! {

/// Bounded first-in first-out queue of outbound envelopes.  An enqueue
/// on a full queue fails and the envelope is dropped; it never blocks
/// and never grows the queue past its capacity.
#[derive(PartialEq, Debug)]
pub struct OutboundQueue {
    pub items: Vec<PhoenixEvent>,
    pub capacity: usize,
}

/// The queue holds room for one more envelope.
pub open spec fn has_room(q: OutboundQueue) -> bool {
    q.items@.len() < q.capacity
}

/// The shape of a queue after one enqueue attempt: the capacity stays,
/// and either there was room and exactly one envelope was added at the
/// back, or there was none and the queue is unchanged.
pub open spec fn send_shape(pre: OutboundQueue, post: OutboundQueue) -> bool {
    &&& post.capacity == pre.capacity
    &&& if has_room(pre) {
        &&& post.items@.len() == pre.items@.len() + 1
        &&& post.items@.subrange(0, pre.items@.len() as int) == pre.items@
    } else {
        post.items@ == pre.items@
    }
}

impl OutboundQueue {
    /// Never fuller than its capacity.
    pub open spec fn wf(self) -> bool {
        self.items@.len() <= self.capacity
    }

    /// An empty queue of the given fixed capacity.
    pub fn new(capacity: usize) -> (r: OutboundQueue)
        ensures
            r.items@ == Seq::<PhoenixEvent>::empty(),
            r.capacity == capacity,
            r.wf(),
    {
        OutboundQueue { items: Vec::new(), capacity }
    }

    /// Fire-and-forget enqueue: with room the envelope joins the back of
    /// the queue and `true` comes back; on a full queue the envelope is
    /// dropped and `false` comes back.  It never blocks.
    pub fn try_send(&mut self, event: PhoenixEvent) -> (r: bool)
        requires
            old(self).wf(),
        ensures
            final(self).wf(),
            final(self).capacity == old(self).capacity,
            r == has_room(*old(self)),
            has_room(*old(self)) ==> final(self).items@ == old(self).items@.push(event),
            !has_room(*old(self)) ==> *final(self) == *old(self),
    {
        if self.items.len() < self.capacity {
            self.items.push(event);
            true
        } else {
            false
        }
    }

    /// Non-blocking dequeue: the oldest envelope, if any.
    pub fn try_recv(&mut self) -> (r: Option<PhoenixEvent>)
        requires
            old(self).wf(),
        ensures
            final(self).wf(),
            final(self).capacity == old(self).capacity,
            old(self).items@.len() == 0 ==> r == None::<PhoenixEvent> && *final(self) == *old(
                self,
            ),
            old(self).items@.len() > 0 ==> r == Some(old(self).items@[0]) && final(self).items@
                == old(self).items@.subrange(1, old(self).items@.len() as int),
    {
        if self.items.len() > 0 {
            let e = self.items.remove(0);
            proof {
                assert(old(self).items@.remove(0) =~= old(self).items@.subrange(
                    1,
                    old(self).items@.len() as int,
                ));
            }
            Some(e)
        } else {
            None
        }
    }
}

} // verus!
