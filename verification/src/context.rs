//! The context of the owning thread: the window registry and the event
//! handlers, and the operations that posted work performs on them.

use vstd::prelude::*;
use crate::error::{
    flattened,
    CreateWindowError,
    InvalidWindowIdError,
    ProxyWindowOperationError,
};
use crate::event::{Event, EventHandlerOutput, WindowEvent};
use crate::registry::{
    lemma_create_window_registers,
    lemma_destroy_window_once,
    RegistryView,
    WindowRegistry,
};
use crate::window::{Image, ImageView, WindowId, WindowOptions};

verus! {

/// A handler for every event of the context. The owning thread calls it.
pub trait EventHandler<UserEvent>: Send {
    /// Whether the handler has nothing left to call and only asks to be
    /// removed.
    spec fn spent(&self) -> bool;

    /// Whether the handler may answer `output` while it takes the registry
    /// and the event from the values that `windows` and `event` hold to the
    /// values that they will hold in the end.
    spec fn answers(
        &self,
        windows: &mut WindowRegistry,
        event: &mut Event<UserEvent>,
        output: EventHandlerOutput,
    ) -> bool;

    /// Passes the event to the handler. A spent handler touches nothing and
    /// asks to be removed; any other changes the registry and the event as
    /// it says, answers as it says, and stays what it was.
    fn handle(&mut self, windows: &mut WindowRegistry, event: &mut Event<UserEvent>) -> (output:
        EventHandlerOutput)
        ensures
            final(self).spent() == old(self).spent(),
            old(self).spent() ==> output == (EventHandlerOutput {
                remove_handler: true,
                stop_propagation: false,
            }) && *final(windows) == *old(windows) && *final(event) == *old(event),
            !old(self).spent() ==> exists|
                changed: &mut WindowRegistry,
                seen: &mut Event<UserEvent>,
            |
                *changed == *old(windows) && *final(changed) == *final(windows) && *seen == *old(
                    event,
                ) && *final(seen) == *final(event) && old(self).answers(changed, seen, output),
            forall|
                changed: &mut WindowRegistry,
                seen: &mut Event<UserEvent>,
                answer: EventHandlerOutput,
            | #[trigger]
                final(self).answers(changed, seen, answer) == old(self).answers(
                    changed,
                    seen,
                    answer,
                ),
    ;
}

/// A handler for the events of one window. The owning thread calls it.
pub trait WindowEventHandler: Send {
    /// Whether the handler has nothing left to call and only asks to be
    /// removed.
    spec fn spent(&self) -> bool;

    /// Whether the handler may answer `output` while it takes the registry
    /// and the event from the values that `windows` and `event` hold to the
    /// values that they will hold in the end.
    spec fn answers(
        &self,
        windows: &mut WindowRegistry,
        event: &mut WindowEvent,
        output: EventHandlerOutput,
    ) -> bool;

    /// Passes the event to the handler. A spent handler touches nothing and
    /// asks to be removed; any other changes the registry and the event as
    /// it says, answers as it says, and stays what it was.
    fn handle(&mut self, windows: &mut WindowRegistry, event: &mut WindowEvent) -> (output:
        EventHandlerOutput)
        ensures
            final(self).spent() == old(self).spent(),
            old(self).spent() ==> output == (EventHandlerOutput {
                remove_handler: true,
                stop_propagation: false,
            }) && *final(windows) == *old(windows) && *final(event) == *old(event),
            !old(self).spent() ==> exists|changed: &mut WindowRegistry, seen: &mut WindowEvent|
                *changed == *old(windows) && *final(changed) == *final(windows) && *seen == *old(
                    event,
                ) && *final(seen) == *final(event) && old(self).answers(changed, seen, output),
            forall|changed: &mut WindowRegistry, seen: &mut WindowEvent, answer: EventHandlerOutput|
             #[trigger]
                final(self).answers(changed, seen, answer) == old(self).answers(
                    changed,
                    seen,
                    answer,
                ),
    ;
}

/// `function` may be called on any registry and any event.
pub open spec fn handles_every_event<UserEvent, F>(function: F) -> bool where
    F: FnMut(&mut WindowRegistry, &mut Event<UserEvent>) -> EventHandlerOutput,
 {
    forall|windows: &mut WindowRegistry, event: &mut Event<UserEvent>|
        call_requires(function, (windows, event))
}

/// `function` may be called on any registry and any window event.
pub open spec fn handles_every_window_event<F>(function: F) -> bool where
    F: FnMut(&mut WindowRegistry, &mut WindowEvent) -> EventHandlerOutput,
 {
    forall|windows: &mut WindowRegistry, event: &mut WindowEvent|
        call_requires(function, (windows, event))
}

/// A closure as an [`EventHandler`]. Should the closure be lost to a panic,
/// the handler is spent.
pub struct FnEventHandler<UserEvent, F> where
    F: FnMut(&mut WindowRegistry, &mut Event<UserEvent>) -> EventHandlerOutput + Send,
 {
    /// Empty only while the closure runs.
    function: Option<F>,
    /// Ties the handler to the kind of event it takes.
    events: Ghost<Option<UserEvent>>,
}

impl<UserEvent, F> FnEventHandler<UserEvent, F> where
    F: FnMut(&mut WindowRegistry, &mut Event<UserEvent>) -> EventHandlerOutput + Send,
 {
    #[verifier::type_invariant]
    spec fn inv(&self) -> bool {
        self.function matches Some(function) ==> handles_every_event(function)
    }

    /// The closure that the handler calls, if it still has one.
    pub closed spec fn closure(&self) -> Option<F> {
        self.function
    }

    /// The handler that calls `function`: it answers what `function`
    /// answers.
    pub fn new(function: F) -> (r: Self)
        requires
            handles_every_event(function),
        ensures
            r.closure() == Some(function),
            !r.spent(),
            forall|
                windows: &mut WindowRegistry,
                event: &mut Event<UserEvent>,
                output: EventHandlerOutput,
            | #[trigger]
                r.answers(windows, event, output) <==> call_ensures(
                    function,
                    (windows, event),
                    output,
                ),
    {
        FnEventHandler { function: Some(function), events: Ghost(None) }
    }
}

impl<UserEvent, F> EventHandler<UserEvent> for FnEventHandler<UserEvent, F> where
    F: FnMut(&mut WindowRegistry, &mut Event<UserEvent>) -> EventHandlerOutput + Send,
 {
    open spec fn spent(&self) -> bool {
        self.closure() is None
    }

    /// The handler answers what its closure answers.
    open spec fn answers(
        &self,
        windows: &mut WindowRegistry,
        event: &mut Event<UserEvent>,
        output: EventHandlerOutput,
    ) -> bool {
        self.closure() matches Some(function) && call_ensures(function, (windows, event), output)
    }

    fn handle(&mut self, windows: &mut WindowRegistry, event: &mut Event<UserEvent>) -> (output:
        EventHandlerOutput)
        ensures
            final(self).closure() == old(self).closure(),
    {
        proof {
            use_type_invariant(&*self);
        }
        let mut function: Option<F> = None;
        core::mem::swap(&mut self.function, &mut function);
        match function {
            Some(mut function) => {
                let ghost called = function;
                let output = function(windows, event);
                proof {
                    let (changed, seen) = choose|
                        changed: &mut WindowRegistry,
                        seen: &mut Event<UserEvent>,
                    |
                        *changed == *old(windows) && *final(changed) == *final(windows) && *seen
                            == *old(event) && *final(seen) == *final(event) && call_ensures(
                            called,
                            (changed, seen),
                            output,
                        );
                    assert(old(self).answers(changed, seen, output));
                }
                self.function = Some(function);
                output
            },
            None => EventHandlerOutput { remove_handler: true, stop_propagation: false },
        }
    }
}

/// A closure as a [`WindowEventHandler`]. Should the closure be lost to a
/// panic, the handler is spent.
pub struct FnWindowEventHandler<F> where
    F: FnMut(&mut WindowRegistry, &mut WindowEvent) -> EventHandlerOutput + Send,
 {
    /// Empty only while the closure runs.
    function: Option<F>,
}

impl<F> FnWindowEventHandler<F> where
    F: FnMut(&mut WindowRegistry, &mut WindowEvent) -> EventHandlerOutput + Send,
 {
    #[verifier::type_invariant]
    spec fn inv(&self) -> bool {
        self.function matches Some(function) ==> handles_every_window_event(function)
    }

    /// The closure that the handler calls, if it still has one.
    pub closed spec fn closure(&self) -> Option<F> {
        self.function
    }

    /// The handler that calls `function`: it answers what `function`
    /// answers.
    pub fn new(function: F) -> (r: Self)
        requires
            handles_every_window_event(function),
        ensures
            r.closure() == Some(function),
            !r.spent(),
            forall|windows: &mut WindowRegistry, event: &mut WindowEvent, output: EventHandlerOutput|
             #[trigger]
                r.answers(windows, event, output) <==> call_ensures(
                    function,
                    (windows, event),
                    output,
                ),
    {
        FnWindowEventHandler { function: Some(function) }
    }
}

impl<F> WindowEventHandler for FnWindowEventHandler<F> where
    F: FnMut(&mut WindowRegistry, &mut WindowEvent) -> EventHandlerOutput + Send,
 {
    open spec fn spent(&self) -> bool {
        self.closure() is None
    }

    /// The handler answers what its closure answers.
    open spec fn answers(
        &self,
        windows: &mut WindowRegistry,
        event: &mut WindowEvent,
        output: EventHandlerOutput,
    ) -> bool {
        self.closure() matches Some(function) && call_ensures(function, (windows, event), output)
    }

    fn handle(&mut self, windows: &mut WindowRegistry, event: &mut WindowEvent) -> (output:
        EventHandlerOutput)
        ensures
            final(self).closure() == old(self).closure(),
    {
        proof {
            use_type_invariant(&*self);
        }
        let mut function: Option<F> = None;
        core::mem::swap(&mut self.function, &mut function);
        match function {
            Some(mut function) => {
                let ghost called = function;
                let output = function(windows, event);
                proof {
                    let (changed, seen) = choose|
                        changed: &mut WindowRegistry,
                        seen: &mut WindowEvent,
                    |
                        *changed == *old(windows) && *final(changed) == *final(windows) && *seen
                            == *old(event) && *final(seen) == *final(event) && call_ensures(
                            called,
                            (changed, seen),
                            output,
                        );
                    assert(old(self).answers(changed, seen, output));
                }
                self.function = Some(function);
                output
            },
            None => EventHandlerOutput { remove_handler: true, stop_propagation: false },
        }
    }
}

/// Boxes a closure as a context-wide handler that calls it.
fn boxed_event_handler<UserEvent, F>(handler: F) -> (entry: ContextHandler<UserEvent>) where
    F: FnMut(&mut WindowRegistry, &mut Event<UserEvent>) -> EventHandlerOutput + Send + 'static,
    UserEvent: 'static,

    requires
        handles_every_event(handler),
    ensures
        calls(entry, handler),
{
    ContextHandler { handler: Box::new(FnEventHandler::new(handler)) }
}

/// Boxes a closure as a handler of the window `window_id` that calls it.
fn boxed_window_event_handler<F>(window_id: WindowId, handler: F) -> (entry: WindowHandler) where
    F: FnMut(&mut WindowRegistry, &mut WindowEvent) -> EventHandlerOutput + Send + 'static,

    requires
        handles_every_window_event(handler),
    ensures
        calls_for_window(entry, window_id, handler),
{
    WindowHandler { window_id, handler: Box::new(FnWindowEventHandler::new(handler)) }
}

/// A context-wide event handler as the context keeps it.
#[verifier::reject_recursive_types(UserEvent)]
pub struct ContextHandler<UserEvent> {
    pub handler: Box<dyn EventHandler<UserEvent>>,
}

/// A window event handler with the window it belongs to.
pub struct WindowHandler {
    pub window_id: WindowId,
    pub handler: Box<dyn WindowEventHandler>,
}

/// The windows that a list of window handlers belongs to, in order.
pub open spec fn owners(handlers: Seq<WindowHandler>) -> Seq<WindowId> {
    handlers.map_values(|entry: WindowHandler| entry.window_id)
}

/// Holds of every window but `id`.
pub open spec fn other_than(id: WindowId) -> spec_fn(WindowId) -> bool {
    |owner: WindowId| owner != id
}

/// Holds of every window handler but those of the window `id`.
pub open spec fn not_of(id: WindowId) -> spec_fn(WindowHandler) -> bool {
    |entry: WindowHandler| entry.window_id != id
}

/// `entry` calls `handler`: it is not spent and answers exactly what
/// `handler` answers.
pub open spec fn calls<UserEvent, F>(entry: ContextHandler<UserEvent>, handler: F) -> bool where
    F: FnMut(&mut WindowRegistry, &mut Event<UserEvent>) -> EventHandlerOutput,
 {
    &&& !entry.handler.spent()
    &&& forall|windows: &mut WindowRegistry, event: &mut Event<UserEvent>, output: EventHandlerOutput|
     #[trigger]
        entry.handler.answers(windows, event, output) <==> call_ensures(
            handler,
            (windows, event),
            output,
        )
}

/// `entry` calls `handler` for the window `id`: it is not spent and answers
/// exactly what `handler` answers.
pub open spec fn calls_for_window<F>(entry: WindowHandler, id: WindowId, handler: F) -> bool where
    F: FnMut(&mut WindowRegistry, &mut WindowEvent) -> EventHandlerOutput,
 {
    &&& entry.window_id == id
    &&& !entry.handler.spent()
    &&& forall|windows: &mut WindowRegistry, event: &mut WindowEvent, output: EventHandlerOutput|
     #[trigger]
        entry.handler.answers(windows, event, output) <==> call_ensures(
            handler,
            (windows, event),
            output,
        )
}

/// The context as plain values.
pub struct ContextView {
    pub windows: RegistryView,
    /// How many context-wide handlers are registered.
    pub event_handlers: nat,
    /// The window of each window handler, in the order of registration.
    pub window_event_handlers: Seq<WindowId>,
}

impl ContextView {
    /// The window registry is well formed.
    pub open spec fn wf(self) -> bool {
        self.windows.wf()
    }

    /// The context after a request for a new window, and the answer.
    pub open spec fn create_window(self, title: Seq<char>, options: WindowOptions) -> (
        ContextView,
        Result<WindowId, CreateWindowError>,
    ) {
        let (windows, r) = self.windows.create_window(title, options);
        (ContextView { windows, ..self }, r)
    }

    /// The context after a request to destroy the window `id`, and the
    /// answer. Destroying a window drops its handlers with it.
    pub open spec fn destroy_window(self, id: WindowId) -> (
        ContextView,
        Result<(), InvalidWindowIdError>,
    ) {
        let (windows, r) = self.windows.destroy_window(id);
        if r is Ok {
            (
                ContextView {
                    windows,
                    window_event_handlers: self.window_event_handlers.filter(other_than(id)),
                    ..self
                },
                r,
            )
        } else {
            (self, r)
        }
    }

    /// The context after a request to show or hide the window `id`, and the
    /// answer.
    pub open spec fn set_window_visible(self, id: WindowId, visible: bool) -> (
        ContextView,
        Result<(), InvalidWindowIdError>,
    ) {
        let (windows, r) = self.windows.set_window_visible(id, visible);
        (ContextView { windows, ..self }, r)
    }

    /// The context after a request to show `image` in the window `id` under
    /// `name`, and the answer.
    pub open spec fn set_window_image(self, id: WindowId, name: Seq<char>, image: ImageView) -> (
        ContextView,
        Result<(), InvalidWindowIdError>,
    ) {
        let (windows, r) = self.windows.set_window_image(id, name, image);
        (ContextView { windows, ..self }, r)
    }

    /// The context with one more context-wide handler.
    pub open spec fn add_event_handler(self) -> ContextView {
        ContextView { event_handlers: self.event_handlers + 1, ..self }
    }

    /// The context after a request to register a handler for the window
    /// `id`, and the answer: the handler stands last.
    pub open spec fn add_window_event_handler(self, id: WindowId) -> (
        ContextView,
        Result<(), InvalidWindowIdError>,
    ) {
        if self.windows.has_window(id) {
            (
                ContextView {
                    window_event_handlers: self.window_event_handlers.push(id),
                    ..self
                },
                Ok(()),
            )
        } else {
            (self, Err(InvalidWindowIdError { window_id: id }))
        }
    }
}

/// A window that was created can be destroyed exactly once: the first
/// request succeeds, the second finds no such window, changes nothing, and
/// reaches the caller as a failure of the window, not of the event loop.
pub proof fn lemma_window_lifecycle(before: ContextView, title: Seq<char>, options: WindowOptions)
    requires
        before.wf(),
        before.windows.next_id < u64::MAX,
    ensures
        ({
            let (created, id) = before.create_window(title, options);
            let (once, first) = created.destroy_window(id->Ok_0);
            let (twice, second) = once.destroy_window(id->Ok_0);
            let missing = InvalidWindowIdError { window_id: id->Ok_0 };
            &&& id == Ok::<WindowId, CreateWindowError>(WindowId(before.windows.next_id))
            &&& created.windows.has_window(id->Ok_0)
            &&& first == Ok::<(), InvalidWindowIdError>(())
            &&& !once.windows.has_window(id->Ok_0)
            &&& second == Err::<(), InvalidWindowIdError>(missing)
            &&& twice == once
            &&& flattened::<(), InvalidWindowIdError, ProxyWindowOperationError>(Ok(second))
                == Err::<(), ProxyWindowOperationError>(
                ProxyWindowOperationError::InvalidWindowId(missing),
            )
        }),
{
    lemma_create_window_registers(before.windows, title, options);
    let (created, id) = before.create_window(title, options);
    lemma_destroy_window_once(created.windows, id->Ok_0);
}

/// The context of the owning thread.
#[verifier::reject_recursive_types(UserEvent)]
pub struct ContextHandle<UserEvent> {
    windows: WindowRegistry,
    event_handlers: Vec<ContextHandler<UserEvent>>,
    window_event_handlers: Vec<WindowHandler>,
}

/// The handlers of `handlers` that do not belong to the window `id`, in
/// their order.
fn without_window(handlers: Vec<WindowHandler>, id: WindowId) -> (kept: Vec<WindowHandler>)
    ensures
        kept@ == handlers@.filter(not_of(id)),
        owners(kept@) == owners(handlers@).filter(other_than(id)),
{
    let ghost entries = handlers@;
    let ghost all = owners(handlers@);
    let mut rest = handlers;
    let mut kept: Vec<WindowHandler> = Vec::new();
    proof {
        reveal(Seq::filter);
        assert(all.take(0) =~= Seq::empty());
        assert(entries.take(0) =~= Seq::empty());
        assert(owners(kept@) =~= all.take(0).filter(other_than(id)));
        assert(kept@ =~= entries.take(0).filter(not_of(id)));
        assert(owners(rest@) =~= all.skip(0));
        assert(rest@ =~= entries.skip(0));
    }
    while rest.len() > 0
        invariant
            rest.len() <= all.len(),
            all.len() == entries.len(),
            rest@ == entries.skip(all.len() - rest.len()),
            kept@ == entries.take(all.len() - rest.len()).filter(not_of(id)),
            owners(rest@) == all.skip(all.len() - rest.len()),
            owners(kept@) == all.take(all.len() - rest.len()).filter(other_than(id)),
        decreases rest.len(),
    {
        let ghost done = all.len() - rest.len();
        let ghost before = owners(kept@);
        let ghost waiting = rest@;
        let entry = rest.remove(0);
        proof {
            assert(entry == entries.skip(done)[0]);
            assert(entry.window_id == owners(waiting)[0]);
            assert(all.skip(done)[0] == all[done]);
            assert forall|k: int| 0 <= k < rest@.len() implies owners(rest@)[k] == all.skip(
                done + 1,
            )[k] by {
                assert(rest@[k] == waiting[k + 1]);
                assert(owners(waiting)[k + 1] == all.skip(done)[k + 1]);
            }
            assert(owners(rest@) =~= all.skip(done + 1));
            assert(rest@ =~= entries.skip(done + 1));
            assert(all.take(done + 1).drop_last() =~= all.take(done));
            assert(all.take(done + 1).last() == all[done]);
            assert(entries.take(done + 1).drop_last() =~= entries.take(done));
            assert(entries.take(done + 1).last() == entries[done]);
            reveal(Seq::filter);
        }
        if entry.window_id != id {
            kept.push(entry);
            assert(owners(kept@) =~= before.push(entry.window_id));
        }
    }
    assert(all.take(all.len() as int) =~= all);
    assert(entries.take(entries.len() as int) =~= entries);
    kept
}

impl<UserEvent> ContextHandle<UserEvent> {
    /// The context-wide handlers, in the order of registration.
    pub closed spec fn event_handlers(&self) -> Seq<ContextHandler<UserEvent>> {
        self.event_handlers@
    }

    /// The window handlers, in the order of registration.
    pub closed spec fn window_event_handlers(&self) -> Seq<WindowHandler> {
        self.window_event_handlers@
    }

    /// The view counts the context-wide handlers and names the window of
    /// each window handler.
    pub proof fn lemma_view_of_handlers(&self)
        ensures
            self@.event_handlers == self.event_handlers().len(),
            self@.window_event_handlers == owners(self.window_event_handlers()),
    {
    }

    pub closed spec fn view(&self) -> ContextView {
        ContextView {
            windows: self.windows@,
            event_handlers: self.event_handlers.len() as nat,
            window_event_handlers: owners(self.window_event_handlers@),
        }
    }

    /// An empty context whose first window gets the identifier 0.
    pub fn new() -> (r: Self)
        ensures
            r@ == (ContextView {
                windows: RegistryView { windows: Seq::empty(), next_id: 0 },
                event_handlers: 0,
                window_event_handlers: Seq::empty(),
            }),
    {
        Self::starting_at(0)
    }

    /// An empty context whose first window gets the identifier `first_id`.
    pub fn starting_at(first_id: u64) -> (r: Self)
        ensures
            r@ == (ContextView {
                windows: RegistryView { windows: Seq::empty(), next_id: first_id },
                event_handlers: 0,
                window_event_handlers: Seq::empty(),
            }),
    {
        let r = ContextHandle {
            windows: WindowRegistry::starting_at(first_id),
            event_handlers: Vec::new(),
            window_event_handlers: Vec::new(),
        };
        assert(r@.window_event_handlers =~= Seq::empty());
        r
    }

    /// Registers a new window and hands out its identifier.
    pub fn create_window(&mut self, title: String, options: WindowOptions) -> (r: Result<
        WindowId,
        CreateWindowError,
    >)
        ensures
            old(self)@.wf(),
            final(self)@.wf(),
            (final(self)@, r) == old(self)@.create_window(title@, options),
            final(self).event_handlers() == old(self).event_handlers(),
            final(self).window_event_handlers() == old(self).window_event_handlers(),
    {
        self.windows.create_window(title, options)
    }

    /// Removes the window `id` and the handlers that belong to it.
    pub fn destroy_window(&mut self, id: WindowId) -> (r: Result<(), InvalidWindowIdError>)
        ensures
            old(self)@.wf(),
            final(self)@.wf(),
            (final(self)@, r) == old(self)@.destroy_window(id),
            final(self).event_handlers() == old(self).event_handlers(),
            final(self).window_event_handlers() == if r is Ok {
                old(self).window_event_handlers().filter(not_of(id))
            } else {
                old(self).window_event_handlers()
            },
    {
        let r = self.windows.destroy_window(id);
        if r.is_ok() {
            let mut handlers: Vec<WindowHandler> = Vec::new();
            core::mem::swap(&mut self.window_event_handlers, &mut handlers);
            self.window_event_handlers = without_window(handlers, id);
        }
        r
    }

    /// Shows or hides the window `id`.
    pub fn set_window_visible(&mut self, id: WindowId, visible: bool) -> (r: Result<
        (),
        InvalidWindowIdError,
    >)
        ensures
            old(self)@.wf(),
            final(self)@.wf(),
            (final(self)@, r) == old(self)@.set_window_visible(id, visible),
            final(self).event_handlers() == old(self).event_handlers(),
            final(self).window_event_handlers() == old(self).window_event_handlers(),
    {
        self.windows.set_window_visible(id, visible)
    }

    /// Puts `image` on show in the window `id`, under `name`.
    pub fn set_window_image(&mut self, id: WindowId, name: String, image: Image) -> (r: Result<
        (),
        InvalidWindowIdError,
    >)
        ensures
            old(self)@.wf(),
            final(self)@.wf(),
            (final(self)@, r) == old(self)@.set_window_image(id, name@, image@),
            final(self).event_handlers() == old(self).event_handlers(),
            final(self).window_event_handlers() == old(self).window_event_handlers(),
    {
        self.windows.set_window_image(id, name, image)
    }

    /// Registers `handler` for every event of the context.
    pub fn add_event_handler<F>(&mut self, handler: F) where
        F: FnMut(&mut WindowRegistry, &mut Event<UserEvent>) -> EventHandlerOutput + Send + 'static,
        UserEvent: 'static,

        requires
            handles_every_event(handler),
        ensures
            old(self)@.wf(),
            final(self)@.wf(),
            final(self)@ == old(self)@.add_event_handler(),
            exists|entry: ContextHandler<UserEvent>|
                calls(entry, handler) && final(self).event_handlers() == old(
                    self,
                ).event_handlers().push(entry),
            final(self).window_event_handlers() == old(self).window_event_handlers(),
    {
        proof {
            use_type_invariant(&self.windows);
        }
        let entry = boxed_event_handler(handler);
        let mut handlers: Vec<ContextHandler<UserEvent>> = Vec::new();
        core::mem::swap(&mut self.event_handlers, &mut handlers);
        handlers.push(entry);
        self.event_handlers = handlers;
        assert(self.event_handlers() == old(self).event_handlers().push(entry));
    }

    /// Registers `handler` for the events of the window `id`.
    pub fn add_window_event_handler<F>(&mut self, id: WindowId, handler: F) -> (r: Result<
        (),
        InvalidWindowIdError,
    >) where F: FnMut(&mut WindowRegistry, &mut WindowEvent) -> EventHandlerOutput + Send + 'static
        requires
            handles_every_window_event(handler),
        ensures
            old(self)@.wf(),
            final(self)@.wf(),
            (final(self)@, r) == old(self)@.add_window_event_handler(id),
            final(self).event_handlers() == old(self).event_handlers(),
            r is Ok ==> exists|entry: WindowHandler|
                calls_for_window(entry, id, handler) && final(self).window_event_handlers() == old(
                    self,
                ).window_event_handlers().push(entry),
            r is Err ==> final(self).window_event_handlers() == old(self).window_event_handlers(),
    {
        proof {
            use_type_invariant(&self.windows);
        }
        if !self.windows.has_window(id) {
            return Err(InvalidWindowIdError { window_id: id });
        }
        let entry = boxed_window_event_handler(id, handler);
        let mut handlers: Vec<WindowHandler> = Vec::new();
        core::mem::swap(&mut self.window_event_handlers, &mut handlers);
        let ghost before = handlers@;
        handlers.push(entry);
        assert(handlers@ == before.push(entry));
        assert(owners(handlers@) =~= owners(before).push(id));
        self.window_event_handlers = handlers;
        assert(self.window_event_handlers() == old(self).window_event_handlers().push(entry));
        Ok(())
    }

    /// How many context-wide handlers are registered.
    pub fn event_handler_count(&self) -> (r: usize)
        ensures
            r == self@.event_handlers,
    {
        self.event_handlers.len()
    }

    /// How many window handlers are registered, over all windows.
    pub fn window_event_handler_count(&self) -> (r: usize)
        ensures
            r == self@.window_event_handlers.len(),
    {
        self.window_event_handlers.len()
    }

    /// The window registry, to look at.
    pub fn windows(&self) -> (r: &WindowRegistry)
        ensures
            r@ == self@.windows,
    {
        &self.windows
    }

    /// The window registry, for the handlers that the owning thread calls.
    pub fn windows_mut(&mut self) -> (r: &mut WindowRegistry)
        ensures
            r@ == old(self)@.windows,
            final(self)@ == (ContextView { windows: final(r)@, ..old(self)@ }),
            final(self).event_handlers() == old(self).event_handlers(),
            final(self).window_event_handlers() == old(self).window_event_handlers(),
    {
        &mut self.windows
    }

    /// Hands the context-wide handlers to the owning thread, which calls
    /// them and gives back those to keep.
    pub fn take_event_handlers(&mut self) -> (handlers: Vec<ContextHandler<UserEvent>>)
        ensures
            handlers@ == old(self).event_handlers(),
            handlers.len() == old(self)@.event_handlers,
            final(self)@ == (ContextView { event_handlers: 0, ..old(self)@ }),
            final(self).event_handlers() == Seq::<ContextHandler<UserEvent>>::empty(),
            final(self).window_event_handlers() == old(self).window_event_handlers(),
    {
        let mut handlers: Vec<ContextHandler<UserEvent>> = Vec::new();
        core::mem::swap(&mut self.event_handlers, &mut handlers);
        handlers
    }

    /// Puts `kept` back in front of the handlers registered since they were
    /// taken.
    pub fn restore_event_handlers(&mut self, kept: Vec<ContextHandler<UserEvent>>)
        ensures
            final(self)@ == (ContextView {
                event_handlers: (kept.len() + old(self)@.event_handlers) as nat,
                ..old(self)@
            }),
            final(self).event_handlers() == kept@ + old(self).event_handlers(),
            final(self).window_event_handlers() == old(self).window_event_handlers(),
    {
        let mut handlers = kept;
        handlers.append(&mut self.event_handlers);
        self.event_handlers = handlers;
    }

    /// Hands the window handlers to the owning thread, which calls them and
    /// gives back those to keep.
    pub fn take_window_event_handlers(&mut self) -> (handlers: Vec<WindowHandler>)
        ensures
            handlers@ == old(self).window_event_handlers(),
            owners(handlers@) == old(self)@.window_event_handlers,
            final(self)@ == (ContextView { window_event_handlers: Seq::empty(), ..old(self)@ }),
            final(self).window_event_handlers() == Seq::<WindowHandler>::empty(),
            final(self).event_handlers() == old(self).event_handlers(),
    {
        let mut handlers: Vec<WindowHandler> = Vec::new();
        core::mem::swap(&mut self.window_event_handlers, &mut handlers);
        assert(owners(self.window_event_handlers@) =~= Seq::empty());
        handlers
    }

    /// Puts `kept` back in front of the handlers registered since they were
    /// taken.
    pub fn restore_window_event_handlers(&mut self, kept: Vec<WindowHandler>)
        ensures
            final(self)@ == (ContextView {
                window_event_handlers: owners(kept@) + old(self)@.window_event_handlers,
                ..old(self)@
            }),
            final(self).window_event_handlers() == kept@ + old(self).window_event_handlers(),
            final(self).event_handlers() == old(self).event_handlers(),
    {
        let mut handlers = kept;
        handlers.append(&mut self.window_event_handlers);
        assert(owners(handlers@) =~= owners(kept@) + owners(old(self).window_event_handlers@));
        self.window_event_handlers = handlers;
    }
}

} // verus!
