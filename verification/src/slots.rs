//! The std primitives behind the reply slots and the command channel, and
//! the receipts of using them.
//!
//! The receipts' fields are private to this module and only the steps below
//! make receipts, so a receipt held elsewhere shows that its step ran with
//! the slot (or channel) and value it names.
use vstd::prelude::*;

use std::sync::mpsc::{Receiver, Sender};
use std::sync::{Arc, Mutex};

verus! {

/// A lock of std, declared as an opaque value.
#[verifier::external_type_specification]
#[verifier::external_body]
#[verifier::reject_recursive_types(T)]
pub struct ExMutex<T: ?Sized>(Mutex<T>);

/// The sending end of a channel of std, declared as an opaque value.
#[verifier::external_type_specification]
#[verifier::external_body]
#[verifier::reject_recursive_types(T)]
pub struct ExSender<T>(Sender<T>);

/// The receiving end of a channel of std, declared as an opaque value.
#[verifier::external_type_specification]
#[verifier::external_body]
#[verifier::reject_recursive_types(T)]
pub struct ExReceiver<T>(Receiver<T>);

/// The record of one value handed to a reply slot: which slot, and what
/// value. Only `fill_slot` makes one.
#[verifier::reject_recursive_types(T)]
pub struct Delivered<T> {
    slot: Ghost<Arc<Mutex<Option<T>>>>,
    value: Ghost<T>,
}

impl<T> Delivered<T> {
    /// The slot the value was handed to.
    pub closed spec fn slot(&self) -> Arc<Mutex<Option<T>>> {
        self.slot@
    }

    /// The value that was handed to the slot.
    pub closed spec fn value(&self) -> T {
        self.value@
    }
}

/// The record of one read of a reply slot: which slot, and what was taken
/// out of it. Only `take_slot` makes one.
#[verifier::reject_recursive_types(T)]
pub struct Taken<T> {
    slot: Ghost<Arc<Mutex<Option<T>>>>,
    value: Ghost<Option<T>>,
}

impl<T> Taken<T> {
    /// The slot that was read.
    pub closed spec fn slot(&self) -> Arc<Mutex<Option<T>>> {
        self.slot@
    }

    /// What was taken out of the slot.
    pub closed spec fn value(&self) -> Option<T> {
        self.value@
    }
}

/// The record of opening one channel: its two ends. Only `open_channel`
/// makes one.
#[verifier::reject_recursive_types(T)]
pub struct Opened<T> {
    sender: Ghost<Sender<T>>,
    receiver: Ghost<Receiver<T>>,
}

impl<T> Opened<T> {
    /// The sending end of the channel that was opened.
    pub closed spec fn sender(&self) -> Sender<T> {
        self.sender@
    }

    /// The receiving end of the channel that was opened.
    pub closed spec fn receiver(&self) -> Receiver<T> {
        self.receiver@
    }
}

/// `std::sync::Mutex::new`: a lock holding `value`. The lock is opaque;
/// nothing is stated of what it holds.
#[verifier::external_body]
pub(crate) fn new_lock<T>(value: T) -> Mutex<T> {
    Mutex::new(value)
}

/// `Arc::clone`: a second pointer to the same allocation, so the result is
/// the same shared value as `shared`.
#[verifier::external_body]
pub(crate) fn share<T>(shared: &Arc<T>) -> (r: Arc<T>)
    ensures
        r == *shared,
{
    Arc::clone(shared)
}

/// `std::sync::Mutex::lock`, then storing `value` in the slot if the lock was
/// not poisoned. The receipt names the slot and the value it was called
/// with. What the slot holds afterwards is behind the opaque lock and not
/// stated; a poisoned lock drops `value`.
#[verifier::external_body]
pub(crate) fn fill_slot<T>(slot: &Arc<Mutex<Option<T>>>, value: T) -> (r: Delivered<T>)
    ensures
        r.slot() == *slot,
        r.value() == value,
{
    let receipt = Delivered { slot: Ghost(*slot), value: Ghost(value) };
    if let Ok(mut guard) = slot.lock() {
        *guard = Some(value);
    }
    receipt
}

/// `std::sync::Mutex::lock`, then `Option::take` on the slot if the lock was
/// not poisoned (a poisoned lock gives `None`). The receipt names the slot
/// and what was taken. What the slot held depends on other threads and sits
/// behind the opaque lock: which value comes back is not stated.
#[verifier::external_body]
pub(crate) fn take_slot<T>(slot: &Arc<Mutex<Option<T>>>) -> (r: (Option<T>, Taken<T>))
    ensures
        r.1.slot() == *slot,
        r.1.value() == r.0,
{
    let taken = match slot.lock() {
        Ok(mut guard) => guard.take(),
        Err(_) => None,
    };
    let receipt = Taken { slot: Ghost(*slot), value: Ghost(taken) };
    (taken, receipt)
}

/// `std::sync::mpsc::channel`: a new channel's two ends, with the receipt
/// that names both. Nothing else is stated of them.
#[verifier::external_body]
pub(crate) fn open_channel<T>() -> (r: (Sender<T>, Receiver<T>, Opened<T>))
    ensures
        r.2.sender() == r.0,
        r.2.receiver() == r.1,
{
    let (sender, receiver) = std::sync::mpsc::channel();
    let receipt = Opened { sender: Ghost(sender), receiver: Ghost(receiver) };
    (sender, receiver, receipt)
}

} // verus!
