//! A channel that carries one value, once, from one thread to another.
//!
//! The value waits in a slot behind a verified lock, which lets through only
//! what the channel carries. A std channel tells the receiver when to look.

use std::sync::Arc;
use vstd::prelude::*;
use vstd::rwlock::RwLock;
use crate::channel::{link, Inlet, Outlet};

verus! {

/// The sending half: consumed by the one `send`.
#[verifier::reject_recursive_types(T)]
pub struct Sender<T> {
    slot: Arc<RwLock<Option<T>, spec_fn(Option<T>) -> bool>>,
    ready: Outlet<()>,
    accepts: Ghost<spec_fn(T) -> bool>,
}

/// The receiving half: consumed by the one `recv`.
#[verifier::reject_recursive_types(T)]
pub struct Receiver<T> {
    slot: Arc<RwLock<Option<T>, spec_fn(Option<T>) -> bool>>,
    ready: Inlet<()>,
    accepts: Ghost<spec_fn(T) -> bool>,
}

/// The sender was dropped before it sent anything.
#[derive(Debug, Clone, Copy, PartialEq, Eq, Structural)]
pub struct Disconnected;

/// What the slot of a channel may hold: nothing, or a value that the channel
/// carries.
pub open spec fn holds<T>(accepts: spec_fn(T) -> bool) -> spec_fn(Option<T>) -> bool {
    |slot: Option<T>| slot matches Some(value) ==> accepts(value)
}

/// What the receiver learns from the slot: `Disconnected` exactly when the
/// slot was empty.
pub open spec fn received<T>(taken: Option<T>) -> Result<T, Disconnected> {
    match taken {
        Some(value) => Ok(value),
        None => Err(Disconnected),
    }
}

/// Sender and receiver of one channel agree on what may pass.
pub open spec fn paired<T>(sender: Sender<T>, receiver: Receiver<T>) -> bool {
    forall|value: T| #[trigger] sender.accepts(value) == receiver.accepts(value)
}

/// Calls `Clone::clone` on a `std::sync::Arc`: another pointer to the same
/// allocation. Claimed: it points to the value that `handle` points to.
#[verifier::external_body]
fn share<T>(handle: &Arc<T>) -> (twin: Arc<T>)
    ensures
        *twin == **handle,
{
    Arc::clone(handle)
}

/// A fresh channel that carries any value of `T`.
pub fn channel<T>() -> (ends: (Sender<T>, Receiver<T>))
    ensures
        paired(ends.0, ends.1),
        forall|value: T| #[trigger] ends.0.accepts(value),
{
    channel_for(Ghost(|value: T| true))
}

/// A fresh channel that carries only values that satisfy `accepts`.
pub fn channel_for<T>(Ghost(accepts): Ghost<spec_fn(T) -> bool>) -> (ends: (Sender<T>, Receiver<T>))
    ensures
        paired(ends.0, ends.1),
        forall|value: T| #[trigger] ends.0.accepts(value) == accepts(value),
        forall|value: T| #[trigger] ends.1.accepts(value) == accepts(value),
{
    let slot = Arc::new(RwLock::new(None, Ghost(holds(accepts))));
    let twin = share(&slot);
    let (outlet, inlet) = link();
    (
        Sender { slot, ready: outlet, accepts: Ghost(accepts) },
        Receiver { slot: twin, ready: inlet, accepts: Ghost(accepts) },
    )
}

/// Maps what was in the slot to the result of `recv`.
pub fn settle<T>(taken: Option<T>) -> (r: Result<T, Disconnected>)
    ensures
        r == received(taken),
{
    match taken {
        Some(value) => Ok(value),
        None => Err(Disconnected),
    }
}

impl<T> Sender<T> {
    /// The lock lets through what the channel carries, and nothing else.
    #[verifier::type_invariant]
    spec fn inv(&self) -> bool {
        self.slot.pred() == holds(self.accepts@)
    }

    /// Whether this channel carries `value`.
    pub closed spec fn accepts(&self, value: T) -> bool {
        (self.accepts@)(value)
    }

    /// Puts `value` into the slot and tells the receiver. Never blocks. A
    /// receiver that is gone by now never sees the value; that is no failure
    /// of the sender.
    pub fn send(self, value: T)
        requires
            self.accepts(value),
    {
        proof {
            use_type_invariant(&self);
        }
        let (_, handle) = self.slot.acquire_write();
        handle.release_write(Some(value));
        let _ = self.ready.send(());
    }
}

impl<T> Receiver<T> {
    /// The lock lets through what the channel carries, and nothing else.
    #[verifier::type_invariant]
    spec fn inv(&self) -> bool {
        self.slot.pred() == holds(self.accepts@)
    }

    /// Whether `value` may come out of this channel.
    pub closed spec fn accepts(&self, value: T) -> bool {
        (self.accepts@)(value)
    }

    /// Blocks until the sender has sent or is gone, then empties the slot. A
    /// value sent before the call is still seen.
    pub fn recv(self) -> (r: Result<T, Disconnected>)
        ensures
            r matches Ok(value) ==> self.accepts(value),
    {
        proof {
            use_type_invariant(&self);
        }
        let _ = self.ready.recv();
        let (taken, handle) = self.slot.acquire_write();
        handle.release_write(None);
        settle(taken)
    }
}

/// What passed through a channel made for exactly one value is that value.
pub proof fn lemma_single_delivery<T>(sender: Sender<T>, receiver: Receiver<T>, sent: T, got: T)
    requires
        paired(sender, receiver),
        forall|value: T| #[trigger] sender.accepts(value) <==> value == sent,
        receiver.accepts(got),
    ensures
        got == sent,
{
    assert(sender.accepts(got));
}

} // verus!
