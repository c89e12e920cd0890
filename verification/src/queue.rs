//! The one way into the application.
//!
//! Every payload, whether it came over the channel or from this process's
//! own launch, waits here until the single consumer takes it. Deliveries
//! therefore happen one at a time and in the order in which they arrived.

use crate::payload::Payload;
use vstd::prelude::*;

verus! {

/// The payloads held by a sequence of payloads, in order.
pub open spec fn payload_views(items: Seq<Payload>) -> Seq<Seq<Seq<char>>> {
    Seq::new(items.len(), |i: int| items[i]@)
}

/// Payloads that wait to be delivered, oldest first.
#[derive(Debug)]
pub struct DeliveryQueue {
    pub pending: Vec<Payload>,
}

impl View for DeliveryQueue {
    type V = Seq<Seq<Seq<char>>>;

    open spec fn view(&self) -> Seq<Seq<Seq<char>>> {
        payload_views(self.pending@)
    }
}

impl DeliveryQueue {
    /// A queue with nothing in it.
    pub fn new() -> (q: DeliveryQueue)
        ensures
            q@ == Seq::<Seq<Seq<char>>>::empty(),
    {
        let q = DeliveryQueue { pending: Vec::new() };
        assert(q@ =~= Seq::<Seq<Seq<char>>>::empty());
        q
    }

    /// Number of payloads that wait.
    pub fn len(&self) -> (n: usize)
        ensures
            n == self@.len(),
    {
        self.pending.len()
    }

    /// Whether nothing waits.
    pub fn is_empty(&self) -> (b: bool)
        ensures
            b == (self@.len() == 0),
    {
        self.pending.len() == 0
    }

    /// Puts a payload behind all that wait already.
    pub fn push(&mut self, payload: Payload)
        ensures
            final(self)@ == old(self)@.push(payload@),
    {
        self.pending.push(payload);
        assert(self@ =~= old(self)@.push(payload@));
    }

    /// Takes the payload that has waited longest, if any waits.
    pub fn pop(&mut self) -> (next: Option<Payload>)
        ensures
            old(self)@.len() == 0 ==> next is None && final(self)@ == old(self)@,
            old(self)@.len() > 0 ==> next is Some && next->0@ == old(self)@[0] && final(self)@
                == old(self)@.drop_first(),
    {
        if self.pending.len() == 0 {
            None
        } else {
            let first = self.pending.remove(0);
            assert(self@ =~= old(self)@.drop_first());
            Some(first)
        }
    }
}

} // verus!
