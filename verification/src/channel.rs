//! Single-slot overwrite mailbox used for inter-task messages.
//!
//! `send` always succeeds and overwrites any unconsumed prior value;
//! `receive` takes and clears the slot. Latest value wins: there is no
//! backpressure and no multi-item queueing.

use vstd::prelude::*;

verus! {

use core::marker::PhantomData;

/// What `send` leaves in the slot: the new item, whatever was there before.
pub open spec fn spec_send<T>(slot: Option<T>, item: T) -> Option<T> {
    Some(item)
}

/// What `receive` returns and leaves behind: the whole slot, then empty.
pub open spec fn spec_receive<T>(slot: Option<T>) -> (Option<T>, Option<T>) {
    (slot, None)
}

/// A mailbox holding at most one undelivered item.
pub struct Channel<T> {
    pub slot: Option<T>,
}

/// Capability to write a channel's slot. It carries no state of its own;
/// the channel is passed to `send` by the caller, since the slot itself
/// has a single owner.
pub struct Sender<T> {
    pub marker: PhantomData<T>,
}

/// Capability to take from a channel's slot; the counterpart of `Sender`.
pub struct Receiver<T> {
    pub marker: PhantomData<T>,
}

impl<T> Channel<T> {
    pub fn new() -> (c: Self)
        ensures
            c.slot is None,
    {
        Channel { slot: None }
    }

    pub fn get_sender(&self) -> (s: Sender<T>) {
        Sender { marker: PhantomData }
    }

    pub fn get_receiver(&self) -> (r: Receiver<T>) {
        Receiver { marker: PhantomData }
    }

    pub fn send(&mut self, item: T)
        ensures
            final(self).slot == spec_send(old(self).slot, item),
    {
        self.slot = Some(item);
    }

    pub fn receive(&mut self) -> (r: Option<T>)
        ensures
            (r, final(self).slot) == spec_receive(old(self).slot),
    {
        self.slot.take()
    }
}

impl<T> Sender<T> {
    pub fn send(&self, channel: &mut Channel<T>, item: T)
        ensures
            final(channel).slot == spec_send(old(channel).slot, item),
    {
        channel.send(item);
    }
}

impl<T> Receiver<T> {
    pub fn receive(&self, channel: &mut Channel<T>) -> (r: Option<T>)
        ensures
            (r, final(channel).slot) == spec_receive(old(channel).slot),
    {
        channel.receive()
    }
}

/// Law: two sends followed by one receive yield the second item, and a
/// further receive without an intervening send yields nothing — the slot
/// keeps only the latest value.
pub proof fn lemma_mailbox_overwrite<T>(slot: Option<T>, x: T, y: T)
    ensures
        ({
            let after_sends = spec_send(spec_send(slot, x), y);
            let (first, after_first) = spec_receive(after_sends);
            let (second, after_second) = spec_receive(after_first);
            first == Some(y) && second is None && after_second is None
        }),
{
}

} // verus!
