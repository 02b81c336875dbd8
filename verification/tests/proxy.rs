use std::sync::atomic::{AtomicUsize, Ordering};
use std::sync::{Arc, Mutex};

use window_dispatch::oneshot::Disconnected;
use window_dispatch::{
    ContextEvent, ContextHandle, ContextProxy, CreateWindowError, Event, EventHandlerOutput,
    EventLoopClosedError, EventQueue, ExecuteFunction, Image, InvalidWindowIdError,
    ProxyCreateWindowError, ProxyWindowOperationError, WindowEvent, WindowId, WindowOptions,
    WindowProxy, WindowRegistry,
};

/// The owning thread: takes events until every proxy is gone, and returns
/// the user events it saw.
fn serve(queue: EventQueue<ContextEvent<u32>>, context: &mut ContextHandle<u32>) -> Vec<u32> {
    let mut seen = Vec::new();
    while let Some(event) = queue.next() {
        match event {
            ContextEvent::ExecuteFunction(command) => command.run(context),
            ContextEvent::UserEvent(payload) => seen.push(payload),
        }
    }
    seen
}

/// Runs `caller` on this thread while another thread owns a fresh context.
/// Returns what the caller returned and the context as the owner left it.
fn with_owner<R: Send>(
    first_id: u64,
    caller: impl FnOnce(ContextProxy<u32>) -> R + Send,
) -> (R, ContextHandle<u32>, Vec<u32>) {
    let (proxy, queue) = ContextProxy::<u32>::local();
    let mut context = ContextHandle::<u32>::starting_at(first_id);
    let (result, seen) = crossbeam_utils::thread::scope(|scope| {
        let owner = scope.spawn(|_| serve(queue, &mut context));
        let result = caller(proxy);
        (result, owner.join().unwrap())
    })
    .unwrap();
    (result, context, seen)
}

fn hidden() -> WindowOptions {
    WindowOptions { start_hidden: true, ..WindowOptions::default() }
}

#[test]
fn functions_run_in_the_order_they_were_posted() {
    let (proxy, queue) = ContextProxy::<u32>::local();
    let counter = Arc::new(AtomicUsize::new(0));
    let observed = Arc::new(Mutex::new(Vec::new()));
    for label in ["first", "second", "third"] {
        let counter = counter.clone();
        let observed = observed.clone();
        let posted = proxy.run_function(move |_: &mut ContextHandle<u32>| {
            let count = counter.fetch_add(1, Ordering::SeqCst) + 1;
            observed.lock().unwrap().push((label, count));
        });
        assert_eq!(posted, Ok(()));
    }
    assert_eq!(counter.load(Ordering::SeqCst), 0);
    drop(proxy);
    let mut context = ContextHandle::new();
    assert_eq!(serve(queue, &mut context), Vec::<u32>::new());
    assert_eq!(*observed.lock().unwrap(), vec![("first", 1), ("second", 2), ("third", 3)]);
}

#[test]
fn clones_feed_the_same_queue() {
    let (proxy, queue) = ContextProxy::<u32>::local();
    let twin = proxy.clone();
    assert_eq!(proxy.send_user_event(1), Ok(()));
    assert_eq!(twin.send_user_event(2), Ok(()));
    assert_eq!(proxy.send_user_event(3), Ok(()));
    drop(proxy);
    drop(twin);
    let mut context = ContextHandle::new();
    assert_eq!(serve(queue, &mut context), vec![1, 2, 3]);
}

#[test]
fn user_event_arrives_unchanged() {
    let (proxy, queue) = ContextProxy::<String>::local();
    assert_eq!(proxy.send_user_event(String::from("payload")), Ok(()));
    match queue.next() {
        Some(ContextEvent::UserEvent(payload)) => assert_eq!(payload, "payload"),
        _ => panic!("expected the user event"),
    }
}

#[test]
fn posted_function_is_an_execute_function_event() {
    let (proxy, queue) = ContextProxy::<u32>::local();
    proxy
        .run_function(|context: &mut ContextHandle<u32>| {
            context.create_window(String::from("t"), WindowOptions::default()).unwrap();
        })
        .unwrap();
    let mut context = ContextHandle::new();
    match queue.next() {
        Some(ContextEvent::ExecuteFunction(command)) => command.run(&mut context),
        _ => panic!("expected a function to execute"),
    }
    assert_eq!(context.windows().window_count(), 1);
}

#[test]
fn execute_function_converts_into_an_event() {
    let command = ExecuteFunction::new(|context: &mut ContextHandle<u32>| {
        context.create_window(String::from("made"), hidden()).unwrap();
    });
    let event = ContextEvent::from(command);
    let mut context = ContextHandle::new();
    match event {
        ContextEvent::ExecuteFunction(command) => command.function.execute(&mut context),
        ContextEvent::UserEvent(_) => panic!("expected a function to execute"),
    }
    assert!(context.windows().has_window(WindowId(0)));
}

#[test]
fn posted_result_arrives_once_the_owner_has_run_the_function() {
    let (proxy, queue) = ContextProxy::<u32>::local();
    let pending = proxy.post_function(|_: &mut ContextHandle<u32>| 42).unwrap();
    let mut context = ContextHandle::new();
    drop(proxy);
    serve(queue, &mut context);
    assert_eq!(pending.recv(), Ok(42));
}

#[test]
fn posted_result_is_lost_when_the_owner_quits_first() {
    let (proxy, queue) = ContextProxy::<u32>::local();
    let pending = proxy.post_function(|_: &mut ContextHandle<u32>| 42).unwrap();
    drop(queue);
    assert_eq!(pending.recv(), Err(Disconnected));
}

#[test]
fn posted_result_is_lost_when_the_function_panics() {
    let (proxy, queue) = ContextProxy::<u32>::local();
    let pending = proxy
        .post_function(|context: &mut ContextHandle<u32>| -> u32 {
            context.destroy_window(WindowId(0)).unwrap();
            1
        })
        .unwrap();
    let owner = crossbeam_utils::thread::scope(|scope| {
        scope.spawn(move |_| {
            let mut context = ContextHandle::new();
            if let Some(ContextEvent::ExecuteFunction(command)) = queue.next() {
                command.run(&mut context);
            }
        });
    });
    assert!(owner.is_err());
    assert_eq!(pending.recv(), Err(Disconnected));
}

#[test]
fn blocking_round_trip() {
    let (result, _, _) =
        with_owner(0, |proxy| proxy.run_function_wait(|_: &mut ContextHandle<u32>| 42));
    assert_eq!(result, Ok(42));
}

#[test]
fn waiting_function_sees_what_was_posted_before_it() {
    let (result, context, _) = with_owner(0, |proxy| {
        proxy
            .run_function(|context: &mut ContextHandle<u32>| {
                context.create_window(String::from("early"), hidden()).unwrap();
            })
            .unwrap();
        proxy.run_function_wait(|context: &mut ContextHandle<u32>| {
            context.windows().window_title(WindowId(0)).cloned()
        })
    });
    assert_eq!(result, Ok(Some(String::from("early"))));
    assert_eq!(context.windows().window_count(), 1);
}

#[test]
fn everything_fails_once_the_queue_is_gone() {
    let (mut proxy, queue) = ContextProxy::<u32>::local();
    drop(queue);
    assert_eq!(proxy.run_function(|_: &mut ContextHandle<u32>| ()), Err(EventLoopClosedError));
    assert_eq!(
        proxy.run_function_wait(|_: &mut ContextHandle<u32>| 42),
        Err(EventLoopClosedError)
    );
    assert!(proxy.post_function(|_: &mut ContextHandle<u32>| 42).is_err());
    assert_eq!(proxy.send_user_event(5), Err(EventLoopClosedError));
    assert_eq!(
        proxy.create_window("t", WindowOptions::default()).map(|window| window.id()),
        Err(ProxyCreateWindowError::EventLoopClosed(EventLoopClosedError))
    );
    let closed = Err(ProxyWindowOperationError::EventLoopClosed(EventLoopClosedError));
    assert_eq!(proxy.destroy_window(WindowId(0)), closed);
    assert_eq!(proxy.set_window_visible(WindowId(0), true), closed);
    let image = Image { width: 1, height: 1, data: vec![0, 0, 0] };
    assert_eq!(proxy.set_window_image(WindowId(0), "n", image), closed);
    assert_eq!(
        proxy.add_event_handler(|_: &mut WindowRegistry, _: &mut Event<u32>| {
            EventHandlerOutput::default()
        }),
        Err(EventLoopClosedError)
    );
    assert_eq!(
        proxy.add_window_event_handler(WindowId(0), |_: &mut WindowRegistry, _: &mut WindowEvent| {
            EventHandlerOutput::default()
        }),
        closed
    );
}

#[test]
fn window_proxy_fails_once_the_queue_is_gone() {
    let (proxy, queue) = ContextProxy::<u32>::local();
    let mut window = WindowProxy::new(WindowId(3), proxy);
    drop(queue);
    let closed = Err(ProxyWindowOperationError::EventLoopClosed(EventLoopClosedError));
    assert_eq!(window.destroy(), closed);
    assert_eq!(window.set_visible(true), closed);
    let image = Image { width: 1, height: 1, data: vec![0, 0, 0] };
    assert_eq!(window.set_image("n", image), closed);
    assert_eq!(
        window.add_window_event_handler(|_: &mut WindowRegistry, _: &mut WindowEvent| {
            EventHandlerOutput::default()
        }),
        closed
    );
    assert_eq!(window.context_proxy().send_user_event(1), Err(EventLoopClosedError));
}

#[test]
fn window_proxy_accessors() {
    let (proxy, _queue) = ContextProxy::<u32>::local();
    let window = WindowProxy::new(WindowId(12), proxy);
    assert_eq!(window.id(), WindowId(12));
    assert_eq!(window.clone().id(), WindowId(12));
}

#[test]
fn window_lifecycle() {
    let ((id, first, second), context, _) = with_owner(7, |proxy| {
        let window = proxy.create_window("t", WindowOptions::default()).unwrap();
        let first = window.destroy();
        let second = window.destroy();
        (window.id(), first, second)
    });
    assert_eq!(id, WindowId(7));
    assert_eq!(first, Ok(()));
    assert_eq!(
        second,
        Err(ProxyWindowOperationError::InvalidWindowId(InvalidWindowIdError { window_id: id }))
    );
    assert_eq!(context.windows().window_count(), 0);
}

#[test]
fn created_window_is_registered_with_its_title() {
    let (id, context, _) = with_owner(0, |proxy| {
        proxy.create_window(String::from("titled"), hidden()).map(|window| window.id())
    });
    let id = id.unwrap();
    assert_eq!(context.windows().window_title(id).map(|t| t.as_str()), Some("titled"));
    assert_eq!(context.windows().is_window_visible(id), Some(false));
}

#[test]
fn dropping_a_window_proxy_keeps_the_window() {
    let (id, context, _) = with_owner(0, |proxy| {
        let window = proxy.create_window("kept", WindowOptions::default()).unwrap();
        let id = window.id();
        drop(window);
        id
    });
    assert!(context.windows().has_window(id));
}

#[test]
fn window_creation_refused_by_the_context() {
    let (result, context, _) = with_owner(u64::MAX, |proxy| {
        proxy.create_window("t", WindowOptions::default()).map(|window| window.id())
    });
    assert_eq!(
        result,
        Err(ProxyCreateWindowError::CreateWindow(CreateWindowError::IdentifiersExhausted))
    );
    assert_eq!(context.windows().window_count(), 0);
}

#[test]
fn a_failed_request_leaves_the_proxy_usable() {
    let ((missing, made), _, _) = with_owner(0, |proxy| {
        let missing = proxy.destroy_window(WindowId(5));
        let made = proxy.create_window("t", WindowOptions::default()).map(|window| window.id());
        (missing, made)
    });
    assert_eq!(
        missing,
        Err(ProxyWindowOperationError::InvalidWindowId(InvalidWindowIdError {
            window_id: WindowId(5)
        }))
    );
    assert_eq!(made, Ok(WindowId(0)));
}

#[test]
fn window_proxy_and_context_proxy_do_the_same() {
    let ((a, b, through_window, through_context), context, _) = with_owner(0, |proxy| {
        let a = proxy.create_window("a", hidden()).unwrap();
        let b = proxy.create_window("b", hidden()).unwrap();
        let through_window = a.set_visible(true);
        let through_context = proxy.set_window_visible(b.id(), true);
        (a.id(), b.id(), through_window, through_context)
    });
    assert_eq!(through_window, Ok(()));
    assert_eq!(through_context, Ok(()));
    assert_eq!(context.windows().is_window_visible(a), Some(true));
    assert_eq!(context.windows().is_window_visible(b), Some(true));
}

#[test]
fn window_proxy_and_context_proxy_fail_the_same() {
    let ((through_window, through_context), _, _) = with_owner(0, |proxy| {
        let window = WindowProxy::new(WindowId(4), proxy.clone());
        (window.set_visible(true), proxy.set_window_visible(WindowId(4), true))
    });
    assert_eq!(through_window, through_context);
    assert_eq!(
        through_window,
        Err(ProxyWindowOperationError::InvalidWindowId(InvalidWindowIdError {
            window_id: WindowId(4)
        }))
    );
}

#[test]
fn image_set_through_either_proxy() {
    let ((a, b), context, _) = with_owner(0, |proxy| {
        let a = proxy.create_window("a", hidden()).unwrap();
        let b = proxy.create_window("b", hidden()).unwrap();
        let image = Image { width: 1, height: 1, data: vec![1, 2, 3] };
        a.set_image("through the window", image).unwrap();
        let image = Image { width: 1, height: 1, data: vec![4, 5, 6] };
        proxy.set_window_image(b.id(), String::from("through the context"), image).unwrap();
        (a.id(), b.id())
    });
    assert_eq!(
        context.windows().window_image_name(a).map(|n| n.as_str()),
        Some("through the window")
    );
    assert_eq!(
        context.windows().window_image_name(b).map(|n| n.as_str()),
        Some("through the context")
    );
}

#[test]
fn owned_name_and_image_are_shown_as_given() {
    let (id, context, _) = with_owner(0, |proxy| {
        let window = proxy.create_window("t", hidden()).unwrap();
        let image = Image { width: 1, height: 2, data: vec![1, 2, 3, 4, 5, 6] };
        proxy.show_image(window.id(), String::from("owned"), image).unwrap();
        window.id()
    });
    assert_eq!(context.windows().window_image_name(id).map(|n| n.as_str()), Some("owned"));
}

#[test]
fn showing_an_image_in_an_unknown_window_fails_and_changes_nothing() {
    let (result, context, _) = with_owner(0, |proxy| {
        let image = Image { width: 1, height: 1, data: vec![0, 0, 0] };
        proxy.show_image(WindowId(2), String::from("n"), image)
    });
    assert_eq!(
        result,
        Err(ProxyWindowOperationError::InvalidWindowId(InvalidWindowIdError {
            window_id: WindowId(2)
        }))
    );
    assert_eq!(context.windows().window_count(), 0);
}

#[test]
fn clones_of_a_local_proxy_are_local() {
    let (proxy, queue) = ContextProxy::<u32>::local();
    let window = WindowProxy::new(WindowId(1), proxy.clone());
    assert_eq!(window.context_proxy().send_user_event(5), Ok(()));
    assert_eq!(window.clone().context_proxy().send_user_event(6), Ok(()));
    drop(window);
    drop(proxy);
    let mut context = ContextHandle::new();
    assert_eq!(serve(queue, &mut context), vec![5, 6]);
}

#[test]
fn handlers_are_registered_on_the_owning_thread() {
    let ((context_wide, for_window, for_missing), context, _) = with_owner(0, |mut proxy| {
        let mut window = proxy.create_window("t", hidden()).unwrap();
        let context_wide = proxy.add_event_handler(|_: &mut WindowRegistry, _: &mut Event<u32>| {
            EventHandlerOutput::default()
        });
        let for_window =
            window.add_window_event_handler(|_: &mut WindowRegistry, _: &mut WindowEvent| {
                EventHandlerOutput::default()
            });
        let for_missing = proxy.add_window_event_handler(
            WindowId(9),
            |_: &mut WindowRegistry, _: &mut WindowEvent| EventHandlerOutput::default(),
        );
        (context_wide, for_window, for_missing)
    });
    assert_eq!(context_wide, Ok(()));
    assert_eq!(for_window, Ok(()));
    assert_eq!(
        for_missing,
        Err(ProxyWindowOperationError::InvalidWindowId(InvalidWindowIdError {
            window_id: WindowId(9)
        }))
    );
    assert_eq!(context.event_handler_count(), 1);
    assert_eq!(context.window_event_handler_count(), 1);
}

#[test]
fn user_events_reach_the_owner_between_functions() {
    let (_, context, seen) = with_owner(0, |proxy| {
        proxy.send_user_event(10).unwrap();
        proxy.create_window("t", hidden()).unwrap();
        proxy.send_user_event(20).unwrap();
    });
    assert_eq!(seen, vec![10, 20]);
    assert_eq!(context.windows().window_count(), 1);
}
