//! What can go wrong: on the way to the owning thread, or in the work it does.

use vstd::prelude::*;
use vstd::std_specs::convert::FromSpecImpl;
use crate::window::WindowId;

verus! {

/// The owning thread is gone: its wake queue no longer takes anything.
#[derive(Debug, Clone, Copy, PartialEq, Eq, Structural)]
pub struct EventLoopClosedError;

/// No window with this identifier is registered.
#[derive(Debug, Clone, Copy, PartialEq, Eq, Structural)]
pub struct InvalidWindowIdError {
    pub window_id: WindowId,
}

/// The context could not make another window.
#[derive(Debug, Clone, Copy, PartialEq, Eq, Structural)]
pub enum CreateWindowError {
    /// Every window identifier has been handed out.
    IdentifiersExhausted,
}

/// Why a proxy could not create a window.
#[derive(Debug, Clone, Copy, PartialEq, Eq, Structural)]
pub enum ProxyCreateWindowError {
    /// The request never reached the owning thread, or its answer was lost.
    EventLoopClosed(EventLoopClosedError),
    /// The owning thread ran the request and the context refused it.
    CreateWindow(CreateWindowError),
}

/// Why a proxy could not operate on a window.
#[derive(Debug, Clone, Copy, PartialEq, Eq, Structural)]
pub enum ProxyWindowOperationError {
    /// The request never reached the owning thread, or its answer was lost.
    EventLoopClosed(EventLoopClosedError),
    /// The owning thread ran the request and found no such window.
    InvalidWindowId(InvalidWindowIdError),
}

impl From<EventLoopClosedError> for ProxyCreateWindowError {
    fn from(other: EventLoopClosedError) -> (r: Self) {
        ProxyCreateWindowError::EventLoopClosed(other)
    }
}

impl FromSpecImpl<EventLoopClosedError> for ProxyCreateWindowError {
    open spec fn obeys_from_spec() -> bool {
        true
    }

    open spec fn from_spec(other: EventLoopClosedError) -> Self {
        ProxyCreateWindowError::EventLoopClosed(other)
    }
}

impl From<CreateWindowError> for ProxyCreateWindowError {
    fn from(other: CreateWindowError) -> (r: Self) {
        ProxyCreateWindowError::CreateWindow(other)
    }
}

impl FromSpecImpl<CreateWindowError> for ProxyCreateWindowError {
    open spec fn obeys_from_spec() -> bool {
        true
    }

    open spec fn from_spec(other: CreateWindowError) -> Self {
        ProxyCreateWindowError::CreateWindow(other)
    }
}

impl From<EventLoopClosedError> for ProxyWindowOperationError {
    fn from(other: EventLoopClosedError) -> (r: Self) {
        ProxyWindowOperationError::EventLoopClosed(other)
    }
}

impl FromSpecImpl<EventLoopClosedError> for ProxyWindowOperationError {
    open spec fn obeys_from_spec() -> bool {
        true
    }

    open spec fn from_spec(other: EventLoopClosedError) -> Self {
        ProxyWindowOperationError::EventLoopClosed(other)
    }
}

impl From<InvalidWindowIdError> for ProxyWindowOperationError {
    fn from(other: InvalidWindowIdError) -> (r: Self) {
        ProxyWindowOperationError::InvalidWindowId(other)
    }
}

impl FromSpecImpl<InvalidWindowIdError> for ProxyWindowOperationError {
    open spec fn obeys_from_spec() -> bool {
        true
    }

    open spec fn from_spec(other: InvalidWindowIdError) -> Self {
        ProxyWindowOperationError::InvalidWindowId(other)
    }
}

/// The one result of a request that crossed to the owning thread: the outer
/// layer says whether it crossed, the inner layer what the context answered.
/// Either failure keeps its own variant of `E`.
pub open spec fn flattened<T, D, E: From<EventLoopClosedError> + From<D>>(
    outcome: Result<Result<T, D>, EventLoopClosedError>,
) -> Result<T, E> {
    match outcome {
        Ok(Ok(value)) => Ok(value),
        Ok(Err(refused)) => Err(<E as vstd::std_specs::convert::FromSpec<D>>::from_spec(refused)),
        Err(closed) => Err(
            <E as vstd::std_specs::convert::FromSpec<EventLoopClosedError>>::from_spec(closed),
        ),
    }
}

/// Computes [`flattened`].
pub fn flatten<T, D, E: From<EventLoopClosedError> + From<D>>(
    outcome: Result<Result<T, D>, EventLoopClosedError>,
) -> (r: Result<T, E>)
    ensures
        <E as vstd::std_specs::convert::FromSpec<D>>::obeys_from_spec()
            && <E as vstd::std_specs::convert::FromSpec<EventLoopClosedError>>::obeys_from_spec()
            ==> r == flattened::<T, D, E>(outcome),
        r is Ok <==> outcome matches Ok(Ok(_)),
{
    match outcome {
        Ok(Ok(value)) => Ok(value),
        Ok(Err(refused)) => Err(E::from(refused)),
        Err(closed) => Err(E::from(closed)),
    }
}

} // verus!
