//! A single-slot hand-off from a callback to a poller.

use vstd::prelude::*;

verus! {

/// What a bridge holds: at most one delivered value, and the waker of the
/// task that last polled it while it was empty.
pub struct BridgeModel<T, W> {
    pub slot: Option<T>,
    pub waiter: Option<W>,
}

/// Publishing into an empty slot stores the value and hands back the
/// waiter to wake; publishing into a filled slot is refused and the value
/// is handed back untouched.
pub open spec fn publish_model<T, W>(m: BridgeModel<T, W>, value: T) -> (BridgeModel<T, W>, Result<Option<W>, T>) {
    match m.slot {
        Option::None => (BridgeModel { slot: Option::Some(value), waiter: Option::None }, Ok(m.waiter)),
        Option::Some(_) => (m, Err(value)),
    }
}

/// Polling a filled slot takes its value out; polling an empty slot
/// records the poller's waker in place of any earlier one.
pub open spec fn poll_model<T, W>(m: BridgeModel<T, W>, waker: W) -> (BridgeModel<T, W>, Option<T>) {
    match m.slot {
        Option::Some(v) => (BridgeModel { slot: Option::None, waiter: Option::None }, Option::Some(v)),
        Option::None => (BridgeModel { slot: Option::None, waiter: Option::Some(waker) }, Option::None),
    }
}

/// Converts one value delivered by an outside callback into something a
/// poll loop can observe. Once its value is taken the slot is empty again,
/// ready for the next delivery.
pub struct Bridge<T, W> {
    slot: Option<T>,
    waiter: Option<W>,
}

impl<T, W> View for Bridge<T, W> {
    type V = BridgeModel<T, W>;

    closed spec fn view(&self) -> BridgeModel<T, W> {
        BridgeModel { slot: self.slot, waiter: self.waiter }
    }
}

impl<T, W> Bridge<T, W> {
    /// An empty bridge with nobody waiting on it.
    pub fn new() -> (r: Self)
        ensures
            r@.slot is None,
            r@.waiter is None,
    {
        Bridge { slot: None, waiter: None }
    }

    /// Called from the callback side. On success the caller must wake the
    /// returned waker, if any.
    pub fn publish(&mut self, value: T) -> (r: Result<Option<W>, T>)
        ensures
            (final(self)@, r) == publish_model(old(self)@, value),
    {
        if self.slot.is_some() {
            return Err(value);
        }
        self.slot = Some(value);
        let w = self.waiter.take();
        Ok(w)
    }

    /// Called from the poll side: the delivered value, or `None` after
    /// recording `waker` to be woken by the next delivery.
    pub fn poll(&mut self, waker: W) -> (r: Option<T>)
        ensures
            (final(self)@, r) == poll_model(old(self)@, waker),
    {
        match self.slot.take() {
            Some(v) => {
                self.waiter = None;
                Some(v)
            },
            None => {
                self.waiter = Some(waker);
                None
            },
        }
    }

    /// Whether a delivered value is waiting to be polled.
    pub fn is_filled(&self) -> (r: bool)
        ensures
            r == self@.slot is Some,
    {
        self.slot.is_some()
    }
}

} // verus!
