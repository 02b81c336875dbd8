use window_dispatch::{
    ContextHandle, CreateWindowError, Event, EventHandlerOutput, Image, InvalidWindowIdError,
    WindowEvent, WindowEventKind, WindowId, WindowOptions, WindowRegistry,
};

fn keep() -> EventHandlerOutput {
    EventHandlerOutput::default()
}

#[test]
fn default_output_keeps_the_handler_and_the_event() {
    let output = EventHandlerOutput::default();
    assert!(!output.remove_handler);
    assert!(!output.stop_propagation);
}

#[test]
fn new_context_is_empty() {
    let context = ContextHandle::<u32>::new();
    assert_eq!(context.windows().window_count(), 0);
    assert_eq!(context.event_handler_count(), 0);
    assert_eq!(context.window_event_handler_count(), 0);
}

#[test]
fn context_numbers_windows_from_zero() {
    let mut context = ContextHandle::<u32>::new();
    let a = context.create_window(String::from("a"), WindowOptions::default());
    let b = context.create_window(String::from("b"), WindowOptions::default());
    assert_eq!(a, Ok(WindowId(0)));
    assert_eq!(b, Ok(WindowId(1)));
}

#[test]
fn context_runs_out_of_identifiers() {
    let mut context = ContextHandle::<u32>::starting_at(u64::MAX);
    assert_eq!(
        context.create_window(String::from("t"), WindowOptions::default()),
        Err(CreateWindowError::IdentifiersExhausted)
    );
}

#[test]
fn context_operations_reach_the_registry() {
    let mut context = ContextHandle::<u32>::new();
    let id = context.create_window(String::from("t"), WindowOptions::default()).unwrap();
    assert_eq!(context.set_window_visible(id, false), Ok(()));
    assert_eq!(context.windows().is_window_visible(id), Some(false));
    let image = Image { width: 1, height: 1, data: vec![7, 7, 7] };
    assert_eq!(context.set_window_image(id, String::from("pixel"), image), Ok(()));
    assert_eq!(context.windows().window_image_name(id).map(|n| n.as_str()), Some("pixel"));
    assert_eq!(context.destroy_window(id), Ok(()));
    assert_eq!(context.destroy_window(id), Err(InvalidWindowIdError { window_id: id }));
    assert_eq!(
        context.set_window_visible(id, true),
        Err(InvalidWindowIdError { window_id: id })
    );
}

#[test]
fn event_handlers_are_counted() {
    let mut context = ContextHandle::<u32>::new();
    context.add_event_handler(|_: &mut WindowRegistry, _: &mut Event<u32>| keep());
    context.add_event_handler(|_: &mut WindowRegistry, _: &mut Event<u32>| keep());
    assert_eq!(context.event_handler_count(), 2);
    assert_eq!(context.windows().window_count(), 0);
}

#[test]
fn window_handler_needs_its_window() {
    let mut context = ContextHandle::<u32>::new();
    let missing = WindowId(4);
    let r = context
        .add_window_event_handler(missing, |_: &mut WindowRegistry, _: &mut WindowEvent| keep());
    assert_eq!(r, Err(InvalidWindowIdError { window_id: missing }));
    assert_eq!(context.window_event_handler_count(), 0);
    let id = context.create_window(String::from("t"), WindowOptions::default()).unwrap();
    let r =
        context.add_window_event_handler(id, |_: &mut WindowRegistry, _: &mut WindowEvent| keep());
    assert_eq!(r, Ok(()));
    assert_eq!(context.window_event_handler_count(), 1);
}

#[test]
fn destroying_a_window_drops_its_handlers_only() {
    let mut context = ContextHandle::<u32>::new();
    let a = context.create_window(String::from("a"), WindowOptions::default()).unwrap();
    let b = context.create_window(String::from("b"), WindowOptions::default()).unwrap();
    for id in [a, b, a, a, b] {
        context
            .add_window_event_handler(id, |_: &mut WindowRegistry, _: &mut WindowEvent| keep())
            .unwrap();
    }
    assert_eq!(context.window_event_handler_count(), 5);
    assert_eq!(context.destroy_window(a), Ok(()));
    assert_eq!(context.window_event_handler_count(), 2);
    let left = context.take_window_event_handlers();
    let owners: Vec<WindowId> = left.iter().map(|entry| entry.window_id).collect();
    assert_eq!(owners, vec![b, b]);
}

#[test]
fn failed_destroy_keeps_every_handler() {
    let mut context = ContextHandle::<u32>::new();
    let a = context.create_window(String::from("a"), WindowOptions::default()).unwrap();
    context
        .add_window_event_handler(a, |_: &mut WindowRegistry, _: &mut WindowEvent| keep())
        .unwrap();
    assert_eq!(context.destroy_window(WindowId(9)), Err(InvalidWindowIdError {
        window_id: WindowId(9)
    }));
    assert_eq!(context.window_event_handler_count(), 1);
}

#[test]
fn taken_handlers_can_be_called_and_restored() {
    let mut context = ContextHandle::<u32>::new();
    let id = context.create_window(String::from("t"), WindowOptions::default()).unwrap();
    context.add_event_handler(move |windows: &mut WindowRegistry, event: &mut Event<u32>| {
        if let Event::UserEvent(payload) = event {
            *payload += 1;
        }
        windows.set_window_visible(id, false).unwrap();
        EventHandlerOutput { remove_handler: false, stop_propagation: true }
    });
    let mut taken = context.take_event_handlers();
    assert_eq!(taken.len(), 1);
    assert_eq!(context.event_handler_count(), 0);

    let mut event = Event::UserEvent(41);
    let output = taken[0].handler.handle(context.windows_mut(), &mut event);
    assert_eq!(output, EventHandlerOutput { remove_handler: false, stop_propagation: true });
    assert!(matches!(event, Event::UserEvent(42)));
    assert_eq!(context.windows().is_window_visible(id), Some(false));

    context.add_event_handler(|_: &mut WindowRegistry, _: &mut Event<u32>| keep());
    context.restore_event_handlers(taken);
    assert_eq!(context.event_handler_count(), 2);
}

#[test]
fn taken_window_handlers_can_be_called_and_restored() {
    let mut context = ContextHandle::<u32>::new();
    let a = context.create_window(String::from("a"), WindowOptions::default()).unwrap();
    let b = context.create_window(String::from("b"), WindowOptions::default()).unwrap();
    context
        .add_window_event_handler(a, |windows: &mut WindowRegistry, event: &mut WindowEvent| {
            windows.destroy_window(event.window_id).unwrap();
            EventHandlerOutput { remove_handler: true, stop_propagation: false }
        })
        .unwrap();
    let mut taken = context.take_window_event_handlers();
    assert_eq!(taken.len(), 1);
    assert_eq!(taken[0].window_id, a);
    assert_eq!(context.window_event_handler_count(), 0);

    let mut event = WindowEvent { window_id: a, kind: WindowEventKind::CloseRequested };
    let output = taken[0].handler.handle(context.windows_mut(), &mut event);
    assert!(output.remove_handler);
    assert!(!context.windows().has_window(a));
    assert!(context.windows().has_window(b));

    context
        .add_window_event_handler(b, |_: &mut WindowRegistry, _: &mut WindowEvent| keep())
        .unwrap();
    context.restore_window_event_handlers(taken);
    let owners: Vec<WindowId> =
        context.take_window_event_handlers().iter().map(|entry| entry.window_id).collect();
    assert_eq!(owners, vec![a, b]);
}
