//! Links between threads: the sending and the receiving half of a std
//! channel. What comes out of a link is an outside value, of which nothing
//! is known here.

use vstd::prelude::*;

verus! {

/// `std::sync::mpsc::Sender`, carried as a value of which nothing is known.
#[verifier::external_type_specification]
#[verifier::external_body]
#[verifier::reject_recursive_types(T)]
pub struct ExSender<T>(std::sync::mpsc::Sender<T>);

/// `std::sync::mpsc::Receiver`, carried as a value of which nothing is
/// known.
#[verifier::external_type_specification]
#[verifier::external_body]
#[verifier::reject_recursive_types(T)]
pub struct ExReceiver<T>(std::sync::mpsc::Receiver<T>);

/// The sending half of a link.
#[verifier::reject_recursive_types(T)]
pub struct Outlet<T> {
    inner: std::sync::mpsc::Sender<T>,
}

/// The receiving half of a link.
#[verifier::reject_recursive_types(T)]
pub struct Inlet<T> {
    inner: std::sync::mpsc::Receiver<T>,
}

/// Calls `std::sync::mpsc::channel`. Nothing is claimed of the two halves.
#[verifier::external_body]
fn open<T>() -> (ends: (std::sync::mpsc::Sender<T>, std::sync::mpsc::Receiver<T>)) {
    std::sync::mpsc::channel()
}

/// Calls `std::sync::mpsc::Sender::send`, which never blocks. Claimed: where
/// the receiving half is gone, the error holds the very value that was
/// handed in.
#[verifier::external_body]
fn push<T>(sender: &std::sync::mpsc::Sender<T>, value: T) -> (r: Result<(), T>)
    ensures
        r matches Err(back) ==> back == value,
{
    match sender.send(value) {
        Ok(()) => Ok(()),
        Err(e) => Err(e.0),
    }
}

/// Calls `std::sync::mpsc::Receiver::recv`, which blocks until a value
/// arrives or every sending half is gone. Nothing is claimed of what comes
/// out.
#[verifier::external_body]
fn pull<T>(receiver: &std::sync::mpsc::Receiver<T>) -> (r: Option<T>) {
    match receiver.recv() {
        Ok(value) => Some(value),
        Err(_) => None,
    }
}

/// Calls `Clone::clone` on a `std::sync::mpsc::Sender`: a second handle to
/// the same channel. Nothing is claimed of it.
#[verifier::external_body]
fn clone_sender<T>(sender: &std::sync::mpsc::Sender<T>) -> (twin: std::sync::mpsc::Sender<T>) {
    sender.clone()
}

/// A fresh link.
pub fn link<T>() -> (ends: (Outlet<T>, Inlet<T>)) {
    let (sender, receiver) = open();
    (Outlet { inner: sender }, Inlet { inner: receiver })
}

impl<T> Outlet<T> {
    /// Sends `value` without blocking. Fails, handing `value` back, when the
    /// receiving half is gone.
    pub fn send(&self, value: T) -> (r: Result<(), T>)
        ensures
            r matches Err(back) ==> back == value,
    {
        push(&self.inner, value)
    }

    /// Another sending half of the same link.
    pub fn duplicate(&self) -> (twin: Outlet<T>) {
        Outlet { inner: clone_sender(&self.inner) }
    }
}

impl<T> Inlet<T> {
    /// Blocks until a value arrives; `None` once every sending half is gone
    /// and nothing is left to take.
    pub fn recv(&self) -> (r: Option<T>) {
        pull(&self.inner)
    }
}

} // verus!
