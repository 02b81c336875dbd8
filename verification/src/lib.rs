//! Thread-safe proxies for a window context that lives on one owning thread.
//!
//! Any thread may hold a [`ContextProxy`] and post work through it; the
//! owning thread takes the work from its wake queue and runs it against the
//! [`ContextHandle`], which no other thread ever touches.

mod channel;
pub mod context;
pub mod error;
pub mod event;
pub mod oneshot;
pub mod proxy;
pub mod queue;
pub mod registry;
pub mod window;

pub use context::ContextHandle;
pub use error::{
    CreateWindowError, EventLoopClosedError, InvalidWindowIdError, ProxyCreateWindowError,
    ProxyWindowOperationError,
};
pub use event::{Event, EventHandlerOutput, WindowEvent, WindowEventKind};
pub use proxy::{ContextEvent, ContextProxy, ExecuteFunction, WindowProxy};
pub use queue::EventQueue;
pub use registry::WindowRegistry;
pub use window::{Image, WindowId, WindowOptions};
