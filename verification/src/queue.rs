//! The wake queue of the owning thread: many producers on any thread, one
//! consumer. It is either the event loop of the window system or a queue
//! that an owning thread without a window system drains itself.

use vstd::prelude::*;
use crate::channel::{link, Inlet, Outlet};

verus! {

/// `winit::event_loop::EventLoopProxy`, carried as a value of which nothing
/// is known.
#[verifier::external_type_specification]
#[verifier::external_body]
#[verifier::reject_recursive_types(T)]
pub struct ExEventLoopProxy<T: 'static>(winit::event_loop::EventLoopProxy<T>);

/// Calls `winit::event_loop::EventLoopProxy::send_event`, which hands the
/// event to the event loop and wakes it. Claimed: where the event loop is
/// gone, the error holds the very event that was handed in.
#[verifier::external_body]
fn wake<T: 'static>(event_loop: &winit::event_loop::EventLoopProxy<T>, event: T) -> (r: Result<
    (),
    T,
>)
    ensures
        r matches Err(back) ==> back == event,
{
    match event_loop.send_event(event) {
        Ok(()) => Ok(()),
        Err(winit::event_loop::EventLoopClosed(back)) => Err(back),
    }
}

/// Calls `Clone::clone` on a `winit::event_loop::EventLoopProxy`: a second
/// handle to the same event loop. Nothing is claimed of it.
#[verifier::external_body]
fn clone_proxy<T: 'static>(event_loop: &winit::event_loop::EventLoopProxy<T>) -> (twin:
    winit::event_loop::EventLoopProxy<T>) {
    event_loop.clone()
}

#[verifier::reject_recursive_types(T)]
enum Producer<T: 'static> {
    EventLoop(winit::event_loop::EventLoopProxy<T>),
    Local(Outlet<T>),
}

/// The producing side of a wake queue. Clones feed the same queue.
#[verifier::reject_recursive_types(T)]
pub struct WakeQueue<T: 'static> {
    producer: Producer<T>,
}

/// The consuming side of a local wake queue. The owning thread holds it.
#[verifier::reject_recursive_types(T)]
pub struct EventQueue<T> {
    inlet: Inlet<T>,
}

impl<T: 'static> WakeQueue<T> {
    /// The proxy of the event loop that this queue wakes; `None` for a
    /// local queue.
    pub closed spec fn event_loop_proxy(&self) -> Option<winit::event_loop::EventLoopProxy<T>> {
        match self.producer {
            Producer::EventLoop(event_loop) => Some(event_loop),
            Producer::Local(_) => None,
        }
    }

    /// The wake queue of a window system's event loop: it wakes the loop
    /// through `event_loop`.
    pub fn event_loop(event_loop: winit::event_loop::EventLoopProxy<T>) -> (r: Self)
        ensures
            r.event_loop_proxy() == Some(event_loop),
    {
        WakeQueue { producer: Producer::EventLoop(event_loop) }
    }

    /// A wake queue without a window system, and its consuming side.
    pub fn local() -> (ends: (Self, EventQueue<T>))
        ensures
            ends.0.event_loop_proxy() is None,
    {
        let (outlet, inlet) = link();
        (WakeQueue { producer: Producer::Local(outlet) }, EventQueue { inlet })
    }

    /// Puts `event` at the back of the queue without blocking. Fails,
    /// handing `event` back, when the consuming side is gone.
    pub fn send(&self, event: T) -> (r: Result<(), T>)
        ensures
            r matches Err(back) ==> back == event,
    {
        match &self.producer {
            Producer::EventLoop(event_loop) => wake(event_loop, event),
            Producer::Local(outlet) => outlet.send(event),
        }
    }

    /// Another handle to the same queue: a local queue for a local queue,
    /// a proxy of an event loop for a proxy of an event loop.
    pub fn duplicate(&self) -> (twin: Self)
        ensures
            twin.event_loop_proxy() is None <==> self.event_loop_proxy() is None,
    {
        match &self.producer {
            Producer::EventLoop(event_loop) => WakeQueue {
                producer: Producer::EventLoop(clone_proxy(event_loop)),
            },
            Producer::Local(outlet) => WakeQueue { producer: Producer::Local(outlet.duplicate()) },
        }
    }
}

impl<T> EventQueue<T> {
    /// Blocks until an event is there and takes it from the front of the
    /// queue. `None` once every producer is gone and the queue is empty.
    /// What comes out is an outside value: the contract says nothing of it.
    pub fn next(&self) -> (event: Option<T>) {
        self.inlet.recv()
    }
}

} // verus!
