//! Bounded FIFO queue for inbound messages: the system's only backpressure
//! mechanism. Offers past capacity fail and hand the message back; accepted
//! messages come out in the order they went in.

use vstd::prelude::*;

verus! {

/// Bounded first-in-first-out buffer. `try_send` appends at the back while
/// there is room and rejects (returning the message) when the buffer is at
/// capacity; `recv` takes from the front.
pub struct BoundedBuffer<M> {
    items: Vec<M>,
    capacity: usize,
}

impl<M> View for BoundedBuffer<M> {
    type V = Seq<M>;

    closed spec fn view(&self) -> Seq<M> {
        self.items@
    }
}

impl<M> BoundedBuffer<M> {
    /// The bound the buffer was created with.
    pub closed spec fn spec_capacity(self) -> nat {
        self.capacity as nat
    }

    /// An empty buffer with the given bound.
    pub fn new(capacity: usize) -> (buffer: BoundedBuffer<M>)
        ensures
            buffer@ == Seq::<M>::empty(),
            buffer.spec_capacity() == capacity,
    {
        BoundedBuffer { items: Vec::new(), capacity }
    }

    /// How many messages sit in the buffer.
    pub fn len(&self) -> (n: usize)
        ensures
            n == self@.len(),
    {
        self.items.len()
    }

    /// The bound the buffer was created with.
    pub fn capacity(&self) -> (c: usize)
        ensures
            c == self.spec_capacity(),
    {
        self.capacity
    }

    /// Append `message` at the back if there is room. A full buffer rejects
    /// the offer, hands the message back unchanged, and keeps its contents.
    pub fn try_send(&mut self, message: M) -> (outcome: Result<(), M>)
        ensures
            old(self)@.len() < old(self).spec_capacity() ==> outcome is Ok
                && final(self)@ == old(self)@.push(message),
            old(self)@.len() >= old(self).spec_capacity() ==> outcome == Err::<(), M>(message)
                && final(self)@ == old(self)@,
            final(self).spec_capacity() == old(self).spec_capacity(),
    {
        if self.items.len() < self.capacity {
            self.items.push(message);
            Ok(())
        } else {
            Err(message)
        }
    }

    /// Take the oldest message, if any: delivery is first-in-first-out.
    pub fn recv(&mut self) -> (received: Option<M>)
        ensures
            old(self)@.len() == 0 ==> received is None && final(self)@ == old(self)@,
            old(self)@.len() > 0 ==> received == Some(old(self)@[0])
                && final(self)@ == old(self)@.drop_first(),
            final(self).spec_capacity() == old(self).spec_capacity(),
    {
        if self.items.len() == 0 {
            None
        } else {
            let message = self.items.remove(0);
            proof {
                assert(self@ =~= old(self)@.drop_first());
            }
            Some(message)
        }
    }
}

} // verus!
