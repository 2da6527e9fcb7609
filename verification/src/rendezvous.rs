//! The one-shot result rendezvous between the native verification callback
//! and the blocked caller: exactly one producer, exactly one consumer,
//! exactly one value. The blocking receive itself lives in the unverified
//! shell; what is verified here is the single-use discipline — the first
//! result wins and nothing is ever delivered twice.

use vstd::prelude::*;

verus! {

/// The value a one-shot slot holds after one more offer: the first offer
/// fills an empty slot, every later offer changes nothing.
pub open spec fn spec_offer<T>(cur: Option<T>, v: T) -> Option<T> {
    if cur is None {
        Some(v)
    } else {
        cur
    }
}

/// A single-use result slot. The native callback is its only writer; the
/// calling thread is its only reader, and reads exactly one value.
pub struct Rendezvous<T> {
    slot: Option<T>,
}

impl<T> Rendezvous<T> {
    /// The value the slot currently holds, if any.
    pub closed spec fn value(self) -> Option<T> {
        self.slot
    }

    /// An empty slot: nothing has been produced yet.
    pub fn new() -> (r: Self)
        ensures
            r.value() is None,
    {
        Rendezvous { slot: None }
    }

    /// Offers one result. Accepted exactly when the slot was still empty;
    /// a result that already arrived is never displaced or duplicated.
    pub fn offer(&mut self, v: T) -> (accepted: bool)
        ensures
            accepted == (old(self).value() is None),
            final(self).value() == spec_offer(old(self).value(), v),
    {
        match &self.slot {
            Option::None => {
                self.slot = Some(v);
                true
            },
            Option::Some(_) => false,
        }
    }

    /// Whether a result has arrived.
    pub fn is_settled(&self) -> (r: bool)
        ensures
            r == (self.value() is Some),
    {
        match &self.slot {
            Option::Some(_) => true,
            Option::None => false,
        }
    }

    /// Consumes the one result, leaving the slot empty.
    pub fn take(&mut self) -> (r: Option<T>)
        ensures
            r == old(self).value(),
            final(self).value() is None,
    {
        self.slot.take()
    }
}

/// The first result wins: after a result has been offered, a competing
/// second offer leaves the delivered value unchanged — the consumer can
/// never observe a double delivery.
pub proof fn lemma_first_offer_wins<T>(first: T, second: T)
    ensures
        spec_offer(spec_offer(Option::<T>::None, first), second) == Some(first),
{
}

} // verus!
