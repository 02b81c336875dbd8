//! Proxies: handles that any thread may hold to post work to the owning
//! thread, and to wait for what it answers.

use vstd::prelude::*;
use vstd::std_specs::convert::FromSpecImpl;
use crate::context::{
    calls,
    calls_for_window,
    handles_every_event,
    handles_every_window_event,
    ContextHandle,
    ContextHandler,
    ContextView,
    WindowHandler,
};
use crate::error::{
    flatten,
    flattened,
    CreateWindowError,
    EventLoopClosedError,
    InvalidWindowIdError,
    ProxyCreateWindowError,
    ProxyWindowOperationError,
};
use crate::event::{Event, EventHandlerOutput, WindowEvent};
use crate::oneshot;
use crate::queue::{EventQueue, WakeQueue};
use crate::registry::WindowRegistry;
use crate::window::{Image, ImageView, WindowId, WindowOptions};

verus! {

/// A unit of work for the owning thread: it runs once, against the context.
pub trait Task<UserEvent>: Send {
    /// Whether the task may take a context from the value that `context`
    /// holds to the value that it will hold in the end.
    spec fn runs(&self, context: &mut ContextHandle<UserEvent>) -> bool;

    /// Runs the task: the context changes as the task says.
    fn execute(self: Box<Self>, context: &mut ContextHandle<UserEvent>)
        ensures
            exists|changed: &mut ContextHandle<UserEvent>|
                *changed == *old(context) && *final(changed) == *final(context) && self.runs(
                    changed,
                ),
    ;
}

/// `function` may be called on any context.
pub open spec fn runs_on_every_context<UserEvent, T, F>(function: F) -> bool where
    F: FnOnce(&mut ContextHandle<UserEvent>) -> T,
 {
    forall|context: &mut ContextHandle<UserEvent>| call_requires(function, (context,))
}

/// `value` is what `function` returns on some context.
pub open spec fn returned_by<UserEvent, T, F>(function: F, value: T) -> bool where
    F: FnOnce(&mut ContextHandle<UserEvent>) -> T,
 {
    exists|context: &mut ContextHandle<UserEvent>| call_ensures(function, (context,), value)
}

/// A closure as a [`Task`].
pub struct FnTask<UserEvent, F> where F: FnOnce(&mut ContextHandle<UserEvent>) + Send {
    function: F,
    /// Ties the task to the kind of context it runs against.
    events: Ghost<Option<UserEvent>>,
}

impl<UserEvent, F> FnTask<UserEvent, F> where F: FnOnce(&mut ContextHandle<UserEvent>) + Send {
    #[verifier::type_invariant]
    spec fn inv(&self) -> bool {
        runs_on_every_context(self.function)
    }

    /// The closure that the task runs.
    pub closed spec fn function(&self) -> F {
        self.function
    }

    /// The task that runs `function`: it does what `function` does.
    pub fn new(function: F) -> (r: Self)
        requires
            runs_on_every_context(function),
        ensures
            r.function() == function,
            forall|context: &mut ContextHandle<UserEvent>| #[trigger]
                r.runs(context) <==> call_ensures(function, (context,), ()),
    {
        FnTask { function, events: Ghost(None) }
    }
}

impl<UserEvent, F> Task<UserEvent> for FnTask<UserEvent, F> where
    F: FnOnce(&mut ContextHandle<UserEvent>) + Send,
 {
    /// The task does what its closure does.
    open spec fn runs(&self, context: &mut ContextHandle<UserEvent>) -> bool {
        call_ensures(self.function(), (context,), ())
    }

    fn execute(self: Box<Self>, context: &mut ContextHandle<UserEvent>) {
        let this = *self;
        proof {
            use_type_invariant(&this);
        }
        (this.function)(context);
        proof {
            let changed = choose|changed: &mut ContextHandle<UserEvent>|
                *changed == *old(context) && *final(changed) == *final(context) && call_ensures(
                    this.function,
                    (changed,),
                    (),
                );
            assert(self.runs(changed));
        }
    }
}

/// The command to run a function on the owning thread.
#[verifier::reject_recursive_types(UserEvent)]
pub struct ExecuteFunction<UserEvent: 'static> {
    pub function: Box<dyn Task<UserEvent>>,
}

/// What travels through the wake queue to the owning thread.
#[verifier::reject_recursive_types(UserEvent)]
pub enum ContextEvent<UserEvent: 'static> {
    /// Run this function against the context.
    ExecuteFunction(ExecuteFunction<UserEvent>),
    /// Pass this payload to the event handlers, unchanged.
    UserEvent(UserEvent),
}

impl<UserEvent: 'static> ExecuteFunction<UserEvent> {
    /// The command to run `function`: its task does what `function` does.
    pub fn new<F>(function: F) -> (r: Self) where
        F: 'static + FnOnce(&mut ContextHandle<UserEvent>) + Send,

        requires
            runs_on_every_context(function),
        ensures
            forall|context: &mut ContextHandle<UserEvent>| #[trigger]
                r.function.runs(context) <==> call_ensures(function, (context,), ()),
    {
        ExecuteFunction { function: Box::new(FnTask::new(function)) }
    }

    /// Runs the function: the context changes as the task says. The owning
    /// thread does this with each command it takes from the queue.
    pub fn run(self, context: &mut ContextHandle<UserEvent>)
        ensures
            exists|changed: &mut ContextHandle<UserEvent>|
                *changed == *old(context) && *final(changed) == *final(context)
                    && self.function.runs(changed),
    {
        self.function.execute(context)
    }
}

impl<UserEvent: 'static> From<ExecuteFunction<UserEvent>> for ContextEvent<UserEvent> {
    fn from(other: ExecuteFunction<UserEvent>) -> (r: Self) {
        ContextEvent::ExecuteFunction(other)
    }
}

impl<UserEvent: 'static> FromSpecImpl<ExecuteFunction<UserEvent>> for ContextEvent<UserEvent> {
    open spec fn obeys_from_spec() -> bool {
        true
    }

    open spec fn from_spec(other: ExecuteFunction<UserEvent>) -> Self {
        ContextEvent::ExecuteFunction(other)
    }
}

/// What the sender of an event learns: the event loop is closed exactly when
/// the queue handed the event back.
pub open spec fn delivery<T>(sent: Result<(), T>) -> Result<(), EventLoopClosedError> {
    match sent {
        Ok(()) => Ok(()),
        Err(_) => Err(EventLoopClosedError),
    }
}

/// Computes [`delivery`].
pub fn delivered<T>(sent: Result<(), T>) -> (r: Result<(), EventLoopClosedError>)
    ensures
        r == delivery(sent),
{
    match sent {
        Ok(()) => Ok(()),
        Err(_) => Err(EventLoopClosedError),
    }
}

/// What the caller learns from the channel of an answer: the event loop is
/// closed exactly when the sender was dropped before it sent.
pub open spec fn answer<T>(received: Result<T, oneshot::Disconnected>) -> Result<
    T,
    EventLoopClosedError,
> {
    match received {
        Ok(value) => Ok(value),
        Err(_) => Err(EventLoopClosedError),
    }
}

/// Computes [`answer`].
pub fn answered<T>(received: Result<T, oneshot::Disconnected>) -> (r: Result<
    T,
    EventLoopClosedError,
>)
    ensures
        r == answer(received),
{
    match received {
        Ok(value) => Ok(value),
        Err(_) => Err(EventLoopClosedError),
    }
}

/// What a request that crossed to the owning thread may come back with: the
/// event loop was closed, or the context gave the answer `answers(before)`
/// in some well-formed state `before`, flattened into `E`.
pub open spec fn crossed<T, D, E: From<EventLoopClosedError> + From<D>>(
    r: Result<T, E>,
    answers: spec_fn(ContextView) -> Result<T, D>,
) -> bool {
    ||| r == flattened::<T, D, E>(Err(EventLoopClosedError))
    ||| exists|before: ContextView|
        before.wf() && r == flattened::<T, D, E>(Ok(#[trigger] answers(before)))
}

/// A request on the window `id` comes back in one of three ways: done, no
/// such window, or event loop closed. The last two stay apart.
pub proof fn lemma_window_operation_answers(
    r: Result<(), ProxyWindowOperationError>,
    id: WindowId,
    answers: spec_fn(ContextView) -> Result<(), InvalidWindowIdError>,
)
    requires
        crossed::<(), InvalidWindowIdError, ProxyWindowOperationError>(r, answers),
        forall|before: ContextView|
            #[trigger] answers(before) is Err ==> answers(before) == Err::<
                (),
                InvalidWindowIdError,
            >(InvalidWindowIdError { window_id: id }),
    ensures
        r == Ok::<(), ProxyWindowOperationError>(()) || r == Err::<(), ProxyWindowOperationError>(
            ProxyWindowOperationError::InvalidWindowId(InvalidWindowIdError { window_id: id }),
        ) || r == Err::<(), ProxyWindowOperationError>(
            ProxyWindowOperationError::EventLoopClosed(EventLoopClosedError),
        ),
{
}

/// The request for a window comes back in one of three ways: with the new
/// window's identifier, refused by the context, or event loop closed. The
/// last two stay apart.
pub proof fn lemma_create_window_answers(
    r: Result<WindowId, ProxyCreateWindowError>,
    title: Seq<char>,
    options: WindowOptions,
)
    requires
        crossed::<WindowId, CreateWindowError, ProxyCreateWindowError>(r, creates(title, options)),
    ensures
        r is Ok || r == Err::<WindowId, ProxyCreateWindowError>(
            ProxyCreateWindowError::CreateWindow(CreateWindowError::IdentifiersExhausted),
        ) || r == Err::<WindowId, ProxyCreateWindowError>(
            ProxyCreateWindowError::EventLoopClosed(EventLoopClosedError),
        ),
{
}

/// The result of creating a window, with the new window's identifier in the
/// place of its proxy.
pub open spec fn created<UserEvent>(
    r: Result<WindowProxy<UserEvent>, ProxyCreateWindowError>,
) -> Result<WindowId, ProxyCreateWindowError> {
    match r {
        Ok(proxy) => Ok(proxy.id()),
        Err(e) => Err(e),
    }
}

/// What the context answers, in the state `before`, to the request to
/// destroy the window `id`.
pub open spec fn destroys(id: WindowId) -> spec_fn(ContextView) -> Result<
    (),
    InvalidWindowIdError,
> {
    |before: ContextView| before.destroy_window(id).1
}

/// What the context answers, in the state `before`, to the request to show
/// or hide the window `id`.
pub open spec fn sets_visible(id: WindowId, visible: bool) -> spec_fn(ContextView) -> Result<
    (),
    InvalidWindowIdError,
> {
    |before: ContextView| before.set_window_visible(id, visible).1
}

/// What the context answers, in the state `before`, to the request to
/// register a handler for the window `id`.
pub open spec fn adds_window_event_handler(id: WindowId) -> spec_fn(ContextView) -> Result<
    (),
    InvalidWindowIdError,
> {
    |before: ContextView| before.add_window_event_handler(id).1
}

/// What the context answers, in the state `before`, to the request for a
/// window with this title and these options.
pub open spec fn creates(title: Seq<char>, options: WindowOptions) -> spec_fn(
    ContextView,
) -> Result<WindowId, CreateWindowError> {
    |before: ContextView| before.create_window(title, options).1
}

/// What the context answers, in the state `before`, to the request to show
/// `image` in the window `id` under `name`.
pub open spec fn shows(id: WindowId, name: Seq<char>, image: ImageView) -> spec_fn(
    ContextView,
) -> Result<(), InvalidWindowIdError> {
    |before: ContextView| before.set_window_image(id, name, image).1
}

/// `text` is what `source` turns into: the characters of a string that
/// `source.into()` returns.
pub open spec fn named<S: Into<String>>(source: S, text: Seq<char>) -> bool {
    exists|made: String| #[trigger]
        call_ensures(<S as Into<String>>::into, (source,), made) && made@ == text
}

/// `pixels` is what `source` turns into: the view of an image that
/// `source.into()` returns.
pub open spec fn pictured<I: Into<Image>>(source: I, pixels: ImageView) -> bool {
    exists|made: Image| #[trigger]
        call_ensures(<I as Into<Image>>::into, (source,), made) && made@ == pixels
}

/// The owning thread made a window: the context went from `before` to
/// `after` as `create_window` says, and gave `answer`.
pub open spec fn window_created<UserEvent>(title: Seq<char>, options: WindowOptions) -> spec_fn(
    ContextHandle<UserEvent>,
    ContextHandle<UserEvent>,
    Result<WindowId, CreateWindowError>,
) -> bool {
    |
        before: ContextHandle<UserEvent>,
        after: ContextHandle<UserEvent>,
        answer: Result<WindowId, CreateWindowError>,
    |
        {
            &&& before@.wf()
            &&& (after@, answer) == before@.create_window(title, options)
            &&& after.event_handlers() == before.event_handlers()
            &&& after.window_event_handlers() == before.window_event_handlers()
        }
}

/// The owning thread destroyed a window: the context went from `before` to
/// `after` as `destroy_window` says, and gave `answer`.
pub open spec fn window_destroyed<UserEvent>(id: WindowId) -> spec_fn(
    ContextHandle<UserEvent>,
    ContextHandle<UserEvent>,
    Result<(), InvalidWindowIdError>,
) -> bool {
    |
        before: ContextHandle<UserEvent>,
        after: ContextHandle<UserEvent>,
        answer: Result<(), InvalidWindowIdError>,
    |
        {
            &&& before@.wf()
            &&& (after@, answer) == before@.destroy_window(id)
            &&& after.event_handlers() == before.event_handlers()
            &&& after.window_event_handlers() == if answer is Ok {
                before.window_event_handlers().filter(crate::context::not_of(id))
            } else {
                before.window_event_handlers()
            }
        }
}

/// The owning thread showed or hid a window: the context went from `before`
/// to `after` as `set_window_visible` says, and gave `answer`.
pub open spec fn visibility_set<UserEvent>(id: WindowId, visible: bool) -> spec_fn(
    ContextHandle<UserEvent>,
    ContextHandle<UserEvent>,
    Result<(), InvalidWindowIdError>,
) -> bool {
    |
        before: ContextHandle<UserEvent>,
        after: ContextHandle<UserEvent>,
        answer: Result<(), InvalidWindowIdError>,
    |
        {
            &&& before@.wf()
            &&& (after@, answer) == before@.set_window_visible(id, visible)
            &&& after.event_handlers() == before.event_handlers()
            &&& after.window_event_handlers() == before.window_event_handlers()
        }
}

/// The owning thread put an image on show: the context went from `before`
/// to `after` as `set_window_image` says, and gave `answer`.
pub open spec fn image_set<UserEvent>(id: WindowId, name: Seq<char>, image: ImageView) -> spec_fn(
    ContextHandle<UserEvent>,
    ContextHandle<UserEvent>,
    Result<(), InvalidWindowIdError>,
) -> bool {
    |
        before: ContextHandle<UserEvent>,
        after: ContextHandle<UserEvent>,
        answer: Result<(), InvalidWindowIdError>,
    |
        {
            &&& before@.wf()
            &&& (after@, answer) == before@.set_window_image(id, name, image)
            &&& after.event_handlers() == before.event_handlers()
            &&& after.window_event_handlers() == before.window_event_handlers()
        }
}

/// The owning thread registered `handler` for the window `id`: the context
/// went from `before` to `after` as `add_window_event_handler` says, with a
/// last window handler that calls `handler`, and gave `answer`.
pub open spec fn window_event_handler_added<UserEvent, F>(id: WindowId, handler: F) -> spec_fn(
    ContextHandle<UserEvent>,
    ContextHandle<UserEvent>,
    Result<(), InvalidWindowIdError>,
) -> bool where F: FnMut(&mut WindowRegistry, &mut WindowEvent) -> EventHandlerOutput {
    |
        before: ContextHandle<UserEvent>,
        after: ContextHandle<UserEvent>,
        answer: Result<(), InvalidWindowIdError>,
    |
        {
            &&& before@.wf()
            &&& (after@, answer) == before@.add_window_event_handler(id)
            &&& after.event_handlers() == before.event_handlers()
            &&& answer is Ok ==> exists|entry: WindowHandler|
                calls_for_window(entry, id, handler) && after.window_event_handlers()
                    == before.window_event_handlers().push(entry)
            &&& answer is Err ==> after.window_event_handlers() == before.window_event_handlers()
        }
}

/// The owning thread registered `handler` for every event: the context went
/// from `before` to `after` as `add_event_handler` says, with a last
/// context-wide handler that calls `handler`.
pub open spec fn event_handler_added<UserEvent, F>(
    handler: F,
    before: ContextHandle<UserEvent>,
    after: ContextHandle<UserEvent>,
) -> bool where F: FnMut(&mut WindowRegistry, &mut Event<UserEvent>) -> EventHandlerOutput {
    &&& before@.wf()
    &&& after@ == before@.add_event_handler()
    &&& after.window_event_handlers() == before.window_event_handlers()
    &&& exists|entry: ContextHandler<UserEvent>|
        calls(entry, handler) && after.event_handlers() == before.event_handlers().push(entry)
}

/// A proxy to the context, for use from any thread.
#[verifier::reject_recursive_types(UserEvent)]
pub struct ContextProxy<UserEvent: 'static> {
    event_loop: WakeQueue<ContextEvent<UserEvent>>,
}

/// A proxy to one window, for use from any thread. Dropping it leaves the
/// window as it is.
#[verifier::reject_recursive_types(UserEvent)]
pub struct WindowProxy<UserEvent: 'static> {
    window_id: WindowId,
    context_proxy: ContextProxy<UserEvent>,
}

impl<UserEvent: 'static> Clone for ContextProxy<UserEvent> {
    /// Another proxy to the same context: to a local queue for a local
    /// queue, to an event loop for an event loop.
    fn clone(&self) -> (r: Self)
        ensures
            r.event_loop_proxy() is None <==> self.event_loop_proxy() is None,
    {
        ContextProxy { event_loop: self.event_loop.duplicate() }
    }
}

impl<UserEvent: 'static> ContextProxy<UserEvent> {
    /// The proxy of the event loop that this proxy wakes; `None` where the
    /// context has no window system.
    pub closed spec fn event_loop_proxy(&self) -> Option<
        winit::event_loop::EventLoopProxy<ContextEvent<UserEvent>>,
    > {
        self.event_loop.event_loop_proxy()
    }

    /// A proxy to the context whose event loop `event_loop` wakes.
    pub fn new(event_loop: winit::event_loop::EventLoopProxy<ContextEvent<UserEvent>>) -> (r: Self)
        ensures
            r.event_loop_proxy() == Some(event_loop),
    {
        ContextProxy { event_loop: WakeQueue::event_loop(event_loop) }
    }

    /// A proxy to a context without a window system, and the queue that its
    /// owning thread drains.
    pub fn local() -> (ends: (Self, EventQueue<ContextEvent<UserEvent>>))
        ensures
            ends.0.event_loop_proxy() is None,
    {
        let (event_loop, queue) = WakeQueue::local();
        (ContextProxy { event_loop }, queue)
    }

    /// Posts `function` for the owning thread to run, and returns at once.
    /// The event loop is closed exactly when the wake queue hands the
    /// command back; the command handed over runs `function`.
    pub fn run_function<F>(&self, function: F) -> (r: Result<(), EventLoopClosedError>) where
        F: 'static + FnOnce(&mut ContextHandle<UserEvent>) + Send,

        requires
            runs_on_every_context(function),
        ensures
            exists|sent: Result<(), ContextEvent<UserEvent>>|
                r == #[trigger] delivery(sent) && (sent matches Err(
                    ContextEvent::ExecuteFunction(back),
                ) ==> forall|context: &mut ContextHandle<UserEvent>| #[trigger]
                    back.function.runs(context) <==> call_ensures(function, (context,), ())),
    {
        let event = ContextEvent::from(ExecuteFunction::new(function));
        let sent = self.event_loop.send(event);
        delivered(sent)
    }

    /// Posts `function` and returns the channel on which its result will
    /// arrive, without waiting for it. The function posted runs `function`
    /// and sends what it returned.
    pub fn post_function<F, T>(&self, function: F) -> (r: Result<
        oneshot::Receiver<T>,
        EventLoopClosedError,
    >) where
        F: FnOnce(&mut ContextHandle<UserEvent>) -> T + Send + 'static,
        T: Send + Sync + 'static,

        requires
            runs_on_every_context(function),
        ensures
            r matches Ok(result_rx) ==> forall|value: T| #[trigger]
                result_rx.accepts(value) <==> returned_by(function, value),
    {
        let ghost accepts = |value: T| returned_by(function, value);
        let (result_tx, result_rx) = oneshot::channel_for(Ghost(accepts));
        let task = move |context: &mut ContextHandle<UserEvent>|
            ensures
                exists|changed: &mut ContextHandle<UserEvent>, value: T|
                    *changed == *old(context) && *final(changed) == *final(context)
                        && call_ensures(function, (changed,), value),
            {
                let value = function(context);
                proof {
                    let changed = choose|changed: &mut ContextHandle<UserEvent>|
                        *changed == *old(context) && *final(changed) == *final(context)
                            && call_ensures(function, (changed,), value);
                    assert(call_ensures(function, (changed,), value));
                }
                result_tx.send(value)
            };
        let sent = self.run_function(task);
        let r = match sent {
            Ok(()) => Ok(result_rx),
            Err(closed) => Err(closed),
        };
        r
    }

    /// Posts `function`, waits until the owning thread has run it, and
    /// returns what it returned. The wait ends with `EventLoopClosedError`
    /// when the owning thread drops the function unrun, or leaves it by a
    /// panic.
    pub fn run_function_wait<F, T>(&self, function: F) -> (r: Result<T, EventLoopClosedError>) where
        F: FnOnce(&mut ContextHandle<UserEvent>) -> T + Send + 'static,
        T: Send + Sync + 'static,

        requires
            runs_on_every_context(function),
        ensures
            r matches Ok(value) ==> returned_by(function, value),
    {
        let posted = self.post_function(function);
        let r = match posted {
            Ok(result_rx) => answered(result_rx.recv()),
            Err(closed) => Err(closed),
        };
        r
    }

    /// Sends a user event to the context. The event loop is closed exactly
    /// when the wake queue hands the event back.
    pub fn send_user_event(&self, event: UserEvent) -> (r: Result<(), EventLoopClosedError>)
        ensures
            exists|sent: Result<(), ContextEvent<UserEvent>>|
                r == #[trigger] delivery(sent) && (sent matches Err(back) ==> back
                    == ContextEvent::UserEvent(event)),
    {
        let sent = self.event_loop.send(ContextEvent::UserEvent(event));
        delivered(sent)
    }

    /// Posts `task`, waits for its answer and flattens it. Unless the event
    /// loop was closed, some context went through `task`, as `done` says,
    /// and gave the answer that comes back.
    fn request<F, T, D, E>(
        &self,
        task: F,
        Ghost(done): Ghost<
            spec_fn(ContextHandle<UserEvent>, ContextHandle<UserEvent>, Result<T, D>) -> bool,
        >,
        Ghost(answers): Ghost<spec_fn(ContextView) -> Result<T, D>>,
    ) -> (r: Result<T, E>) where
        F: FnOnce(&mut ContextHandle<UserEvent>) -> Result<T, D> + Send + 'static,
        T: Send + Sync + 'static,
        D: Send + Sync + 'static,
        E: From<EventLoopClosedError> + From<D>,

        requires
            runs_on_every_context(task),
            forall|context: &mut ContextHandle<UserEvent>, answer: Result<T, D>|
                call_ensures(task, (context,), answer) ==> done(*context, *final(context), answer),
            forall|
                before: ContextHandle<UserEvent>,
                after: ContextHandle<UserEvent>,
                answer: Result<T, D>,
            | #[trigger]
                done(before, after, answer) ==> before@.wf() && answer == answers(before@),
            <E as vstd::std_specs::convert::FromSpec<D>>::obeys_from_spec(),
            <E as vstd::std_specs::convert::FromSpec<EventLoopClosedError>>::obeys_from_spec(),
        ensures
            crossed::<T, D, E>(r, answers),
            r == flattened::<T, D, E>(Err(EventLoopClosedError)) || exists|
                changed: &mut ContextHandle<UserEvent>,
                answer: Result<T, D>,
            |
                #[trigger] done(*changed, *final(changed), answer) && r == flattened::<T, D, E>(
                    Ok(answer),
                ),
    {
        let outcome = self.run_function_wait(task);
        let ghost crossing = outcome;
        let r: Result<T, E> = flatten(outcome);
        proof {
            if let Ok(answer) = crossing {
                let changed = choose|changed: &mut ContextHandle<UserEvent>|
                    call_ensures(task, (changed,), answer);
                assert(done(*changed, *final(changed), answer));
                assert(answer == answers((*changed)@));
                assert(r == flattened::<T, D, E>(Ok(answer)));
            }
        }
        r
    }

    /// Creates a window. Blocks until the owning thread has done so, and
    /// returns a proxy to the new window, which holds a clone of this proxy.
    pub fn create_window<S: Into<String>>(&self, title: S, options: WindowOptions) -> (r: Result<
        WindowProxy<UserEvent>,
        ProxyCreateWindowError,
    >)
        ensures
            exists|text: Seq<char>|
                named(title, text) && crossed::<WindowId, CreateWindowError, ProxyCreateWindowError>(
                    created(r),
                    #[trigger] creates(text, options),
                ),
            r matches Err(ProxyCreateWindowError::EventLoopClosed(_)) || exists|
                changed: &mut ContextHandle<UserEvent>,
                answer: Result<WindowId, CreateWindowError>,
                text: Seq<char>,
            |
                named(title, text) && #[trigger] window_created(text, options)(
                    *changed,
                    *final(changed),
                    answer,
                ) && created(r) == flattened::<WindowId, CreateWindowError, ProxyCreateWindowError>(
                    Ok(answer),
                ),
            r matches Ok(proxy) ==> (proxy.context_proxy().event_loop_proxy() is None
                <==> self.event_loop_proxy() is None),
    {
        let title_text: String = title.into();
        let ghost made = title_text;
        let ghost text = title_text@;
        let task = move |context: &mut ContextHandle<UserEvent>| -> (answer: Result<
            WindowId,
            CreateWindowError,
        >)
            ensures
                window_created(text, options)(*old(context), *final(context), answer),
            { context.create_window(title_text, options) };
        let flat: Result<WindowId, ProxyCreateWindowError> = self.request(
            task,
            Ghost(window_created(text, options)),
            Ghost(creates(text, options)),
        );
        let r = match flat {
            Ok(window_id) => Ok(WindowProxy::new(window_id, self.clone())),
            Err(e) => Err(e),
        };
        proof {
            assert(created(r) == flat);
            assert(call_ensures(<S as Into<String>>::into, (title,), made));
            assert(named(title, text));
            assert(crossed::<WindowId, CreateWindowError, ProxyCreateWindowError>(
                created(r),
                creates(text, options),
            ));
        }
        r
    }

    /// Destroys the window `window_id`. Blocks until the owning thread has
    /// done so.
    pub fn destroy_window(&self, window_id: WindowId) -> (r: Result<(), ProxyWindowOperationError>)
        ensures
            crossed::<(), InvalidWindowIdError, ProxyWindowOperationError>(r, destroys(window_id)),
            r matches Err(ProxyWindowOperationError::EventLoopClosed(_)) || exists|
                changed: &mut ContextHandle<UserEvent>,
                answer: Result<(), InvalidWindowIdError>,
            |
                #[trigger] window_destroyed(window_id)(*changed, *final(changed), answer) && r
                    == flattened::<(), InvalidWindowIdError, ProxyWindowOperationError>(Ok(answer)),
    {
        let task = move |context: &mut ContextHandle<UserEvent>| -> (answer: Result<
            (),
            InvalidWindowIdError,
        >)
            ensures
                window_destroyed(window_id)(*old(context), *final(context), answer),
            { context.destroy_window(window_id) };
        self.request(task, Ghost(window_destroyed(window_id)), Ghost(destroys(window_id)))
    }

    /// Shows or hides the window `window_id`. Blocks until the owning thread
    /// has done so.
    pub fn set_window_visible(&self, window_id: WindowId, visible: bool) -> (r: Result<
        (),
        ProxyWindowOperationError,
    >)
        ensures
            crossed::<(), InvalidWindowIdError, ProxyWindowOperationError>(
                r,
                sets_visible(window_id, visible),
            ),
            r matches Err(ProxyWindowOperationError::EventLoopClosed(_)) || exists|
                changed: &mut ContextHandle<UserEvent>,
                answer: Result<(), InvalidWindowIdError>,
            |
                #[trigger] visibility_set(window_id, visible)(*changed, *final(changed), answer)
                    && r == flattened::<(), InvalidWindowIdError, ProxyWindowOperationError>(
                    Ok(answer),
                ),
    {
        let task = move |context: &mut ContextHandle<UserEvent>| -> (answer: Result<
            (),
            InvalidWindowIdError,
        >)
            ensures
                visibility_set(window_id, visible)(*old(context), *final(context), answer),
            { context.set_window_visible(window_id, visible) };
        self.request(
            task,
            Ghost(visibility_set(window_id, visible)),
            Ghost(sets_visible(window_id, visible)),
        )
    }

    /// Puts `image` on show in the window `window_id`, under `name`. Blocks
    /// until the owning thread has done so.
    pub fn show_image(&self, window_id: WindowId, name: String, image: Image) -> (r: Result<
        (),
        ProxyWindowOperationError,
    >)
        ensures
            crossed::<(), InvalidWindowIdError, ProxyWindowOperationError>(
                r,
                shows(window_id, name@, image@),
            ),
            r matches Err(ProxyWindowOperationError::EventLoopClosed(_)) || exists|
                changed: &mut ContextHandle<UserEvent>,
                answer: Result<(), InvalidWindowIdError>,
            |
                #[trigger] image_set(window_id, name@, image@)(*changed, *final(changed), answer)
                    && r == flattened::<(), InvalidWindowIdError, ProxyWindowOperationError>(
                    Ok(answer),
                ),
    {
        let ghost text = name@;
        let ghost pixels = image@;
        let task = move |context: &mut ContextHandle<UserEvent>| -> (answer: Result<
            (),
            InvalidWindowIdError,
        >)
            ensures
                image_set(window_id, text, pixels)(*old(context), *final(context), answer),
            { context.set_window_image(window_id, name, image) };
        self.request(
            task,
            Ghost(image_set(window_id, text, pixels)),
            Ghost(shows(window_id, text, pixels)),
        )
    }

    /// Puts what `image` turns into on show in the window `window_id`, under
    /// what `name` turns into. Blocks until the owning thread has done so.
    pub fn set_window_image<N: Into<String>, I: Into<Image>>(
        &self,
        window_id: WindowId,
        name: N,
        image: I,
    ) -> (r: Result<(), ProxyWindowOperationError>)
        ensures
            exists|text: Seq<char>, pixels: ImageView|
                named(name, text) && pictured(image, pixels) && crossed::<
                    (),
                    InvalidWindowIdError,
                    ProxyWindowOperationError,
                >(r, #[trigger] shows(window_id, text, pixels)),
            r matches Err(ProxyWindowOperationError::EventLoopClosed(_)) || exists|
                changed: &mut ContextHandle<UserEvent>,
                answer: Result<(), InvalidWindowIdError>,
                text: Seq<char>,
                pixels: ImageView,
            |
                named(name, text) && pictured(image, pixels) && #[trigger] image_set(
                    window_id,
                    text,
                    pixels,
                )(*changed, *final(changed), answer) && r == flattened::<
                    (),
                    InvalidWindowIdError,
                    ProxyWindowOperationError,
                >(Ok(answer)),
    {
        let name_text: String = name.into();
        let image_pixels: Image = image.into();
        proof {
            assert(call_ensures(<N as Into<String>>::into, (name,), name_text));
            assert(call_ensures(<I as Into<Image>>::into, (image,), image_pixels));
            assert(named(name, name_text@));
            assert(pictured(image, image_pixels@));
        }
        let ghost text = name_text@;
        let ghost pixels = image_pixels@;
        let r = self.show_image(window_id, name_text, image_pixels);
        proof {
            assert(crossed::<(), InvalidWindowIdError, ProxyWindowOperationError>(
                r,
                shows(window_id, text, pixels),
            ));
        }
        r
    }

    /// Registers `handler` for every event of the context. Blocks until the
    /// owning thread has done so. Events that are queued already are not
    /// passed to the handler.
    pub fn add_event_handler<F>(&mut self, handler: F) -> (r: Result<(), EventLoopClosedError>) where
        F: FnMut(&mut WindowRegistry, &mut Event<UserEvent>) -> EventHandlerOutput + Send + 'static,

        requires
            handles_every_event(handler),
        ensures
            *final(self) == *old(self),
            r is Ok ==> exists|changed: &mut ContextHandle<UserEvent>| #[trigger]
                event_handler_added(handler, *changed, *final(changed)),
    {
        let task = move |context: &mut ContextHandle<UserEvent>|
            ensures
                event_handler_added(handler, *old(context), *final(context)),
            { context.add_event_handler(handler) };
        let r = self.run_function_wait(task);
        proof {
            if r is Ok {
                let changed = choose|changed: &mut ContextHandle<UserEvent>|
                    call_ensures(task, (changed,), ());
                assert(event_handler_added(handler, *changed, *final(changed)));
            }
        }
        r
    }

    /// Registers `handler` for the events of the window `window_id`. Blocks
    /// until the owning thread has done so. Events that are queued already
    /// are not passed to the handler.
    pub fn add_window_event_handler<F>(&mut self, window_id: WindowId, handler: F) -> (r: Result<
        (),
        ProxyWindowOperationError,
    >) where F: FnMut(&mut WindowRegistry, &mut WindowEvent) -> EventHandlerOutput + Send + 'static
        requires
            handles_every_window_event(handler),
        ensures
            *final(self) == *old(self),
            crossed::<(), InvalidWindowIdError, ProxyWindowOperationError>(
                r,
                adds_window_event_handler(window_id),
            ),
            r matches Err(ProxyWindowOperationError::EventLoopClosed(_)) || exists|
                changed: &mut ContextHandle<UserEvent>,
                answer: Result<(), InvalidWindowIdError>,
            |
                #[trigger] window_event_handler_added(window_id, handler)(
                    *changed,
                    *final(changed),
                    answer,
                ) && r == flattened::<(), InvalidWindowIdError, ProxyWindowOperationError>(
                    Ok(answer),
                ),
    {
        let task = move |context: &mut ContextHandle<UserEvent>| -> (answer: Result<
            (),
            InvalidWindowIdError,
        >)
            ensures
                window_event_handler_added(window_id, handler)(
                    *old(context),
                    *final(context),
                    answer,
                ),
            { context.add_window_event_handler(window_id, handler) };
        self.request(
            task,
            Ghost(window_event_handler_added(window_id, handler)),
            Ghost(adds_window_event_handler(window_id)),
        )
    }
}

impl<UserEvent: 'static> Clone for WindowProxy<UserEvent> {
    /// Another proxy to the same window.
    fn clone(&self) -> (r: Self)
        ensures
            r.id() == self.id(),
            r.context_proxy().event_loop_proxy() is None
                <==> self.context_proxy().event_loop_proxy() is None,
    {
        WindowProxy { window_id: self.window_id, context_proxy: self.context_proxy.clone() }
    }
}

impl<UserEvent: 'static> WindowProxy<UserEvent> {
    /// The identifier of the window, in contracts.
    pub closed spec fn spec_id(&self) -> WindowId {
        self.window_id
    }

    /// A proxy to the window `window_id` of the context behind
    /// `context_proxy`. Whether such a window exists shows only when an
    /// operation reaches the owning thread.
    pub fn new(window_id: WindowId, context_proxy: ContextProxy<UserEvent>) -> (r: Self)
        ensures
            r.id() == window_id,
            *r.context_proxy() == context_proxy,
    {
        WindowProxy { window_id, context_proxy }
    }

    /// The identifier of the window.
    #[verifier::when_used_as_spec(spec_id)]
    pub fn id(&self) -> (r: WindowId)
        ensures
            r == self.id(),
    {
        self.window_id
    }

    /// The proxy to the context of the window, in contracts.
    pub closed spec fn spec_context_proxy(&self) -> &ContextProxy<UserEvent> {
        &self.context_proxy
    }

    /// The proxy to the context of the window.
    #[verifier::when_used_as_spec(spec_context_proxy)]
    pub fn context_proxy(&self) -> (r: &ContextProxy<UserEvent>)
        ensures
            r == self.context_proxy(),
    {
        &self.context_proxy
    }

    /// Destroys the window: what `ContextProxy::destroy_window` does for
    /// the window's identifier.
    pub fn destroy(&self) -> (r: Result<(), ProxyWindowOperationError>)
        ensures
            crossed::<(), InvalidWindowIdError, ProxyWindowOperationError>(r, destroys(self.id())),
            r matches Err(ProxyWindowOperationError::EventLoopClosed(_)) || exists|
                changed: &mut ContextHandle<UserEvent>,
                answer: Result<(), InvalidWindowIdError>,
            |
                #[trigger] window_destroyed(self.id())(*changed, *final(changed), answer) && r
                    == flattened::<(), InvalidWindowIdError, ProxyWindowOperationError>(Ok(answer)),
    {
        let r = self.context_proxy.destroy_window(self.window_id);
        proof {
            if !(r matches Err(ProxyWindowOperationError::EventLoopClosed(_))) {
                let (changed, answer) = choose|
                    changed: &mut ContextHandle<UserEvent>,
                    answer: Result<(), InvalidWindowIdError>,
                |
                    #[trigger] window_destroyed(self.window_id)(*changed, *final(changed), answer)
                        && r == flattened::<(), InvalidWindowIdError, ProxyWindowOperationError>(
                        Ok(answer),
                    );
                assert(window_destroyed(self.id())(*changed, *final(changed), answer));
            }
        }
        r
    }

    /// Shows or hides the window: what `ContextProxy::set_window_visible`
    /// does for the window's identifier.
    pub fn set_visible(&self, visible: bool) -> (r: Result<(), ProxyWindowOperationError>)
        ensures
            crossed::<(), InvalidWindowIdError, ProxyWindowOperationError>(
                r,
                sets_visible(self.id(), visible),
            ),
            r matches Err(ProxyWindowOperationError::EventLoopClosed(_)) || exists|
                changed: &mut ContextHandle<UserEvent>,
                answer: Result<(), InvalidWindowIdError>,
            |
                #[trigger] visibility_set(self.id(), visible)(*changed, *final(changed), answer)
                    && r == flattened::<(), InvalidWindowIdError, ProxyWindowOperationError>(
                    Ok(answer),
                ),
    {
        let r = self.context_proxy.set_window_visible(self.window_id, visible);
        proof {
            if !(r matches Err(ProxyWindowOperationError::EventLoopClosed(_))) {
                let (changed, answer) = choose|
                    changed: &mut ContextHandle<UserEvent>,
                    answer: Result<(), InvalidWindowIdError>,
                |
                    #[trigger] visibility_set(self.window_id, visible)(
                        *changed,
                        *final(changed),
                        answer,
                    ) && r == flattened::<(), InvalidWindowIdError, ProxyWindowOperationError>(
                        Ok(answer),
                    );
                assert(visibility_set(self.id(), visible)(*changed, *final(changed), answer));
            }
        }
        r
    }

    /// Puts `image` on show in the window, under what `name` turns into.
    pub fn set_image<N: Into<String>>(&self, name: N, image: Image) -> (r: Result<
        (),
        ProxyWindowOperationError,
    >)
        ensures
            exists|text: Seq<char>|
                named(name, text) && crossed::<(), InvalidWindowIdError, ProxyWindowOperationError>(
                    r,
                    #[trigger] shows(self.id(), text, image@),
                ),
            r matches Err(ProxyWindowOperationError::EventLoopClosed(_)) || exists|
                changed: &mut ContextHandle<UserEvent>,
                answer: Result<(), InvalidWindowIdError>,
                text: Seq<char>,
            |
                named(name, text) && #[trigger] image_set(self.id(), text, image@)(
                    *changed,
                    *final(changed),
                    answer,
                ) && r == flattened::<(), InvalidWindowIdError, ProxyWindowOperationError>(
                    Ok(answer),
                ),
    {
        let name_text: String = name.into();
        proof {
            assert(call_ensures(<N as Into<String>>::into, (name,), name_text));
            assert(named(name, name_text@));
        }
        let ghost text = name_text@;
        let r = self.context_proxy.show_image(self.window_id, name_text, image);
        proof {
            assert(crossed::<(), InvalidWindowIdError, ProxyWindowOperationError>(
                r,
                shows(self.id(), text, image@),
            ));
        }
        r
    }

    /// Registers `handler` for the events of the window: what
    /// `ContextProxy::add_window_event_handler` does for the window's
    /// identifier.
    pub fn add_window_event_handler<F>(&mut self, handler: F) -> (r: Result<
        (),
        ProxyWindowOperationError,
    >) where F: FnMut(&mut WindowRegistry, &mut WindowEvent) -> EventHandlerOutput + Send + 'static
        requires
            handles_every_window_event(handler),
        ensures
            *final(self) == *old(self),
            crossed::<(), InvalidWindowIdError, ProxyWindowOperationError>(
                r,
                adds_window_event_handler(old(self).id()),
            ),
            r matches Err(ProxyWindowOperationError::EventLoopClosed(_)) || exists|
                changed: &mut ContextHandle<UserEvent>,
                answer: Result<(), InvalidWindowIdError>,
            |
                #[trigger] window_event_handler_added(old(self).id(), handler)(
                    *changed,
                    *final(changed),
                    answer,
                ) && r == flattened::<(), InvalidWindowIdError, ProxyWindowOperationError>(
                    Ok(answer),
                ),
    {
        let r = self.context_proxy.add_window_event_handler(self.window_id, handler);
        proof {
            if !(r matches Err(ProxyWindowOperationError::EventLoopClosed(_))) {
                let (changed, answer) = choose|
                    changed: &mut ContextHandle<UserEvent>,
                    answer: Result<(), InvalidWindowIdError>,
                |
                    #[trigger] window_event_handler_added(old(self).window_id, handler)(
                        *changed,
                        *final(changed),
                        answer,
                    ) && r == flattened::<(), InvalidWindowIdError, ProxyWindowOperationError>(
                        Ok(answer),
                    );
                assert(window_event_handler_added(old(self).id(), handler)(
                    *changed,
                    *final(changed),
                    answer,
                ));
            }
        }
        r
    }
}

} // verus!
