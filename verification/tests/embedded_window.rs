use native_events::attributes::{CreationError, CursorState, MouseCursor, WindowAttributes};
use native_events::events::{ElementState, Event, MouseButton, VirtualKeyCode};
use native_events::native_monitor::NativeMonitorId;
use native_events::platform::macos_vst::event::{NativeEvent, NativeEventSubtype};
use native_events::platform::macos_vst::modifiers::SHIFT_KEY_MASK;
use native_events::platform::macos_vst::responder::{key_event, mouse_event};
use native_events::platform::macos_vst::{
    get_available_monitors, get_primary_monitor, ActivationPolicy, MonitorId, NSEventToEvent,
    PlatformSpecificWindowBuilderAttributes, Window, WindowProxy, NIL,
};

type Attributes = WindowAttributes<MonitorId, fn(u32, u32)>;

fn plain() -> Attributes {
    WindowAttributes {
        dimensions: None,
        min_dimensions: None,
        max_dimensions: None,
        monitor: None,
        title: "window".to_string(),
        visible: true,
        transparent: false,
        decorations: true,
        multitouch: false,
        resize_callback: None,
        parent: None,
    }
}

fn window_in(parent: usize) -> Window {
    let mut attributes = plain();
    attributes.parent = Some(parent);
    Window::new(&attributes, &PlatformSpecificWindowBuilderAttributes::default()).unwrap()
}

fn drain(window: &mut Window) -> Vec<Event> {
    let mut events = Vec::new();
    let mut iter = window.poll_events();
    while let Some(event) = iter.next() {
        events.push(event);
    }
    events
}

#[test]
fn a_window_without_a_parent_is_refused() {
    let attributes = plain();
    let created = Window::new(&attributes, &PlatformSpecificWindowBuilderAttributes::default());
    match created {
        Err(error) => {
            assert_eq!(error, CreationError::OsError("Parent view is null.".to_string()));
        }
        Ok(_) => panic!("a window without a parent was made"),
    }
}

#[test]
fn a_window_with_a_nil_parent_is_refused() {
    let mut attributes = plain();
    attributes.parent = Some(NIL);
    let created = Window::new(&attributes, &PlatformSpecificWindowBuilderAttributes::default());
    match created {
        Err(error) => {
            assert_eq!(error, CreationError::OsError("Parent view is null.".to_string()));
        }
        Ok(_) => panic!("a window in no view was made"),
    }
}

#[test]
fn a_new_window_lives_in_its_parent_and_has_nothing_pending() {
    let mut window = window_in(0x1000);
    assert_eq!(window.host_view(), 0x1000);
    assert_eq!(window.platform_window(), NIL);
    assert_eq!(window.platform_display(), NIL);
    assert_eq!(window.poll_events().next(), None);
    assert_eq!(window.wait_events().next(), None);
}

#[test]
fn attach_records_the_handles() {
    let mut window = window_in(0x1000);
    window.attach(0x2000, 0x3000);
    assert_eq!(window.platform_window(), 0x2000);
    assert_eq!(window.platform_display(), 0x3000);
    assert_eq!(window.host_view(), 0x1000);
}

#[test]
fn poll_returns_queued_events_in_order_and_then_none() {
    let mut window = window_in(1);
    let a = NativeEvent::MouseEntered;
    let b = NativeEvent::MouseMoved { x: 4, y: 5 };
    let c = NativeEvent::MouseExited;
    window.handle_event(&a);
    window.handle_event(&b);
    window.handle_event(&c);
    let mut iter = window.poll_events();
    assert_eq!(iter.next(), Some(Event::MouseEntered));
    assert_eq!(iter.next(), Some(Event::MouseMoved(4, 5)));
    assert_eq!(iter.next(), Some(Event::MouseLeft));
    assert_eq!(iter.next(), None);
    assert_eq!(iter.next(), None);
}

#[test]
fn polling_can_be_taken_up_again() {
    let mut window = window_in(1);
    window.handle_event(&NativeEvent::LeftMouseDown);
    window.handle_event(&NativeEvent::LeftMouseUp);
    assert_eq!(
        window.poll_events().next(),
        Some(Event::MouseInput(ElementState::Pressed, MouseButton::Left))
    );
    window.handle_event(&NativeEvent::MouseExited);
    assert_eq!(
        window.poll_events().next(),
        Some(Event::MouseInput(ElementState::Released, MouseButton::Left))
    );
    assert_eq!(window.wait_events().next(), Some(Event::MouseLeft));
    assert_eq!(window.wait_events().next(), None);
}

#[test]
fn left_button_down_and_up_give_pressed_then_released_and_nothing_else() {
    let mut window = window_in(1);
    window.handle_event(&NativeEvent::LeftMouseDown);
    window.handle_event(&NativeEvent::LeftMouseUp);
    assert_eq!(
        drain(&mut window),
        vec![
            Event::MouseInput(ElementState::Pressed, MouseButton::Left),
            Event::MouseInput(ElementState::Released, MouseButton::Left),
        ]
    );
    assert_eq!(drain(&mut window), Vec::<Event>::new());
}

#[test]
fn key_down_with_text_fi_gives_two_characters_and_the_key() {
    let mut window = window_in(1);
    window.handle_event(&NativeEvent::KeyDown { key_code: 0x03, characters: "fi".to_string() });
    assert_eq!(
        drain(&mut window),
        vec![
            Event::ReceivedCharacter('f'),
            Event::ReceivedCharacter('i'),
            Event::KeyboardInput(ElementState::Pressed, 0x03, Some(VirtualKeyCode::F)),
        ]
    );
}

#[test]
fn an_unknown_native_event_leaves_the_queue_alone() {
    let mut window = window_in(1);
    window.handle_event(&NativeEvent::Other);
    window.handle_event(&NativeEvent::ApplicationDefined {
        subtype: NativeEventSubtype::WindowMoved,
    });
    assert_eq!(drain(&mut window), Vec::<Event>::new());
}

#[test]
fn each_window_has_a_latch_of_its_own() {
    let mut one = window_in(1);
    let mut two = window_in(2);
    let shift_down = NativeEvent::FlagsChanged { key_code: 0x38, modifier_flags: SHIFT_KEY_MASK };
    one.handle_event(&shift_down);
    one.handle_event(&shift_down);
    two.handle_event(&shift_down);
    let pressed = Event::KeyboardInput(ElementState::Pressed, 0x38, Some(VirtualKeyCode::LShift));
    assert_eq!(drain(&mut one), vec![pressed]);
    assert_eq!(drain(&mut two), vec![pressed]);
}

#[test]
fn inline_translation_returns_the_first_event_and_queues_the_rest() {
    let mut window = window_in(1);
    let native = NativeEvent::KeyDown { key_code: 0x03, characters: "fi".to_string() };
    assert_eq!(NSEventToEvent(&mut window, Some(&native)), Some(Event::ReceivedCharacter('f')));
    assert_eq!(
        drain(&mut window),
        vec![
            Event::ReceivedCharacter('i'),
            Event::KeyboardInput(ElementState::Pressed, 0x03, Some(VirtualKeyCode::F)),
        ]
    );
}

#[test]
fn inline_translation_of_nothing_gives_nothing() {
    let mut window = window_in(1);
    assert_eq!(NSEventToEvent(&mut window, None), None);
    assert_eq!(NSEventToEvent(&mut window, Some(&NativeEvent::Other)), None);
    let unchanged = NativeEvent::FlagsChanged { key_code: 0, modifier_flags: 0 };
    assert_eq!(NSEventToEvent(&mut window, Some(&unchanged)), None);
    assert_eq!(drain(&mut window), Vec::<Event>::new());
}

#[test]
fn inline_translation_keeps_the_latch_of_the_window() {
    let mut window = window_in(1);
    let shift_down = NativeEvent::FlagsChanged { key_code: 0x38, modifier_flags: SHIFT_KEY_MASK };
    assert_eq!(
        NSEventToEvent(&mut window, Some(&shift_down)),
        Some(Event::KeyboardInput(ElementState::Pressed, 0x38, Some(VirtualKeyCode::LShift)))
    );
    assert_eq!(NSEventToEvent(&mut window, Some(&shift_down)), None);
}

#[test]
fn waking_the_event_loop_delivers_awakened() {
    let mut window = window_in(1);
    let proxy = window.create_window_proxy();
    assert_eq!(proxy, WindowProxy);
    let wake = proxy.wakeup_event_loop();
    assert_eq!(
        wake,
        NativeEvent::ApplicationDefined { subtype: NativeEventSubtype::ApplicationActivated }
    );
    assert_eq!(window.wait_events().next(), None);
    assert_eq!(NSEventToEvent(&mut window, Some(&wake)), Some(Event::Awakened));
    assert_eq!(window.wait_events().next(), None);
}

#[test]
fn what_the_host_owns_is_accepted_and_ignored() {
    let mut window = window_in(1);
    window.attach(2, 3);
    window.set_title("title");
    window.set_position(10, 10);
    window.show();
    window.hide_window();
    window.set_cursor(MouseCursor::Hand);
    window.set_window_resize_callback(None::<fn(u32, u32)>);
    assert_eq!(window.set_cursor_state(CursorState::Grab), Ok(()));
    assert_eq!(window.set_cursor_position(1, 2), Ok(()));
    assert_eq!(window.platform_window(), 2);
    assert_eq!(window.platform_display(), 3);
    assert_eq!(drain(&mut window), Vec::<Event>::new());
}

#[test]
fn the_canvas_is_the_only_monitor() {
    let monitors = get_available_monitors();
    assert_eq!(monitors.len(), 1);
    assert_eq!(monitors[0], MonitorId);
    assert_eq!(get_primary_monitor(), MonitorId);
    assert_eq!(MonitorId.get_name(), Some("Canvas".to_string()));
    assert_eq!(MonitorId.get_native_identifier(), NativeMonitorId::Unavailable);
}

#[test]
fn the_default_activation_policy_is_regular() {
    let attributes = PlatformSpecificWindowBuilderAttributes::default();
    assert_eq!(attributes.activation_policy, ActivationPolicy::Regular);
}

#[test]
fn a_snapshot_is_not_reached_by_later_changes() {
    let mut attributes = plain();
    attributes.title = "before".to_string();
    attributes.dimensions = Some((3, 4));
    let copy = attributes.snapshot();
    attributes.title = "after".to_string();
    attributes.dimensions = None;
    assert_eq!(copy.title, "before");
    assert_eq!(copy.dimensions, Some((3, 4)));
    assert!(copy.visible);
}

#[test]
fn events_pushed_directly_are_polled_in_order() {
    let mut window = window_in(1);
    let a = Event::MouseEntered;
    let b = Event::ReceivedCharacter('b');
    let c = Event::Awakened;
    window.push_event(a);
    window.push_event(b);
    window.push_event(c);
    let mut iter = window.poll_events();
    assert_eq!(iter.next(), Some(a));
    assert_eq!(iter.next(), Some(b));
    assert_eq!(iter.next(), Some(c));
    assert_eq!(iter.next(), None);
}

#[test]
fn what_the_handlers_queue_is_queued_in_the_window() {
    let mut window = window_in(1);
    {
        let (pending_events, modifiers) = window.delivery();
        mouse_event(pending_events, &NativeEvent::LeftMouseDown);
        key_event(
            pending_events,
            modifiers,
            &NativeEvent::FlagsChanged { key_code: 0x38, modifier_flags: SHIFT_KEY_MASK },
        );
    }
    let shift_down = NativeEvent::FlagsChanged { key_code: 0x38, modifier_flags: SHIFT_KEY_MASK };
    window.handle_event(&shift_down);
    assert_eq!(
        drain(&mut window),
        vec![
            Event::MouseInput(ElementState::Pressed, MouseButton::Left),
            Event::KeyboardInput(ElementState::Pressed, 0x38, Some(VirtualKeyCode::LShift)),
        ]
    );
}
