use window_dispatch::error::flatten;
use window_dispatch::oneshot::Disconnected;
use window_dispatch::proxy::{answered, delivered};
use window_dispatch::{
    CreateWindowError, EventLoopClosedError, InvalidWindowIdError, ProxyCreateWindowError,
    ProxyWindowOperationError, WindowId,
};

#[test]
fn closed_event_loop_becomes_its_own_variant() {
    assert_eq!(
        ProxyCreateWindowError::from(EventLoopClosedError),
        ProxyCreateWindowError::EventLoopClosed(EventLoopClosedError)
    );
    assert_eq!(
        ProxyWindowOperationError::from(EventLoopClosedError),
        ProxyWindowOperationError::EventLoopClosed(EventLoopClosedError)
    );
}

#[test]
fn refusal_of_the_context_becomes_its_own_variant() {
    assert_eq!(
        ProxyCreateWindowError::from(CreateWindowError::IdentifiersExhausted),
        ProxyCreateWindowError::CreateWindow(CreateWindowError::IdentifiersExhausted)
    );
    let missing = InvalidWindowIdError { window_id: WindowId(3) };
    assert_eq!(
        ProxyWindowOperationError::from(missing),
        ProxyWindowOperationError::InvalidWindowId(missing)
    );
}

#[test]
fn flatten_keeps_the_value() {
    let r: Result<u8, ProxyWindowOperationError> =
        flatten::<u8, InvalidWindowIdError, ProxyWindowOperationError>(Ok(Ok(5)));
    assert_eq!(r, Ok(5));
}

#[test]
fn flatten_keeps_the_inner_failure() {
    let missing = InvalidWindowIdError { window_id: WindowId(8) };
    let r: Result<(), ProxyWindowOperationError> = flatten(Ok(Err(missing)));
    assert_eq!(r, Err(ProxyWindowOperationError::InvalidWindowId(missing)));
    let r: Result<WindowId, ProxyCreateWindowError> =
        flatten(Ok(Err(CreateWindowError::IdentifiersExhausted)));
    assert_eq!(r, Err(ProxyCreateWindowError::CreateWindow(CreateWindowError::IdentifiersExhausted)));
}

#[test]
fn flatten_keeps_the_outer_failure() {
    let r: Result<(), ProxyWindowOperationError> =
        flatten::<(), InvalidWindowIdError, ProxyWindowOperationError>(Err(EventLoopClosedError));
    assert_eq!(r, Err(ProxyWindowOperationError::EventLoopClosed(EventLoopClosedError)));
    let r: Result<WindowId, ProxyCreateWindowError> =
        flatten::<WindowId, CreateWindowError, ProxyCreateWindowError>(Err(EventLoopClosedError));
    assert_eq!(r, Err(ProxyCreateWindowError::EventLoopClosed(EventLoopClosedError)));
}

#[test]
fn event_handed_back_means_closed() {
    assert_eq!(delivered::<u32>(Ok(())), Ok(()));
    assert_eq!(delivered::<u32>(Err(17)), Err(EventLoopClosedError));
}

#[test]
fn lost_answer_means_closed() {
    assert_eq!(answered::<u32>(Ok(3)), Ok(3));
    assert_eq!(answered::<u32>(Err(Disconnected)), Err(EventLoopClosedError));
}
