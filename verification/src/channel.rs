//! The bounded FIFO of status updates that couples the decoder to the
//! renderer. Capacity is four; a full queue refuses the update so the
//! sender can suspend until the consumer catches up.

use vstd::prelude::*;
use crate::timebase::TimeBase;

verus! {

/// How many updates the channel holds at most.
pub const CHANNEL_CAPACITY: usize = 4;

/// One message from sampler or decoder to the renderer: either the
/// instantaneous receiver-activity flag, or a freshly decoded time base.
#[derive(Copy, Clone, Debug, Eq, PartialEq, Structural)]
pub enum StatusUpdate {
    JJYStatus(bool),
    TimeBaseUpdate(TimeBase),
}

/// A bounded single-producer/single-consumer queue of status updates,
/// viewed as the sequence of queued values, oldest first.
pub struct StatusChannel {
    items: Vec<StatusUpdate>,
}

impl View for StatusChannel {
    type V = Seq<StatusUpdate>;

    closed spec fn view(&self) -> Seq<StatusUpdate> {
        self.items@
    }
}

impl StatusChannel {
    /// An empty channel.
    pub fn new() -> (r: StatusChannel)
        ensures
            r@ == Seq::<StatusUpdate>::empty(),
    {
        StatusChannel { items: Vec::new() }
    }

    /// How many updates are queued.
    pub fn len(&self) -> (n: usize)
        ensures
            n == self@.len(),
    {
        self.items.len()
    }

    /// Enqueue an update unless the channel is full. Returns whether the
    /// update was taken; a refused update leaves the queue unchanged, so
    /// a suspended sender can retry it without loss.
    pub fn try_send(&mut self, update: StatusUpdate) -> (accepted: bool)
        ensures
            old(self)@.len() < CHANNEL_CAPACITY ==> accepted && final(self)@ == old(self)@.push(
                update,
            ),
            old(self)@.len() >= CHANNEL_CAPACITY ==> !accepted && final(self)@ == old(self)@,
    {
        if self.items.len() < CHANNEL_CAPACITY {
            self.items.push(update);
            true
        } else {
            false
        }
    }

    /// Dequeue the oldest update, if any. Delivery is FIFO: updates come
    /// out in exactly the order they were accepted.
    pub fn try_recv(&mut self) -> (r: Option<StatusUpdate>)
        ensures
            old(self)@.len() == 0 ==> r is None && final(self)@ == old(self)@,
            old(self)@.len() > 0 ==> r == Some(old(self)@[0]) && final(self)@ == old(
                self,
            )@.drop_first(),
    {
        if self.items.len() == 0 {
            None
        } else {
            let v = self.items.remove(0);
            proof {
                assert(final(self)@ =~= old(self)@.drop_first());
            }
            Some(v)
        }
    }
}

} // verus!
