use native_events::events::{ElementState, Event, MouseButton, VirtualKeyCode};
use native_events::platform::macos_vst::event::NativeEvent;
use native_events::platform::macos_vst::modifiers::{ModifierLatchState, SHIFT_KEY_MASK};
use native_events::registry::{WindowContext, WindowRegistry};

type Registry = WindowRegistry<&'static str, u32>;

fn context(win: usize, sender: &'static str) -> WindowContext<&'static str, u32> {
    WindowContext::new(win, sender, 0)
}

#[test]
fn a_new_context_has_the_pointer_outside_and_nothing_down() {
    let made = context(5, "five");
    assert_eq!(made.win, 5);
    assert_eq!(made.sender, "five");
    assert_eq!(made.window_state, 0);
    assert!(!made.mouse_in_window);
    assert_eq!(made.modifiers, ModifierLatchState::new());
}

#[test]
fn lookup_finds_what_was_registered() {
    let mut registry = Registry::new();
    assert_eq!(registry.len(), 0);
    assert!(registry.lookup(10).is_none());
    registry.register(10, context(10, "ten"));
    registry.register(20, context(20, "twenty"));
    assert_eq!(registry.len(), 2);
    let found = registry.lookup(10).unwrap();
    assert_eq!(found.win, 10);
    assert_eq!(found.sender, "ten");
    assert_eq!(registry.lookup(20).unwrap().sender, "twenty");
    assert!(registry.lookup(30).is_none());
}

#[test]
fn lookup_finds_nothing_after_unregister() {
    let mut registry = Registry::new();
    registry.register(10, context(10, "ten"));
    registry.register(20, context(20, "twenty"));
    let taken = registry.unregister(10).unwrap();
    assert_eq!(taken.sender, "ten");
    assert!(registry.lookup(10).is_none());
    assert_eq!(registry.lookup(20).unwrap().sender, "twenty");
    assert_eq!(registry.len(), 1);
    assert!(registry.unregister(10).is_none());
    assert_eq!(registry.len(), 1);
}

#[test]
fn registering_a_handle_again_replaces_its_context() {
    let mut registry = Registry::new();
    registry.register(10, context(10, "old"));
    registry.register(10, context(10, "new"));
    assert_eq!(registry.len(), 1);
    assert_eq!(registry.lookup(10).unwrap().sender, "new");
}

#[test]
fn a_message_for_an_unknown_window_is_dropped() {
    let mut registry = Registry::new();
    registry.register(10, context(10, "ten"));
    assert_eq!(registry.dispatch(11, &NativeEvent::LeftMouseDown), None);
    registry.unregister(10);
    assert_eq!(registry.dispatch(10, &NativeEvent::LeftMouseDown), None);
    assert_eq!(registry.len(), 0);
}

#[test]
fn a_message_is_translated_for_its_window() {
    let mut registry = Registry::new();
    registry.register(10, context(10, "ten"));
    assert_eq!(
        registry.dispatch(10, &NativeEvent::LeftMouseDown),
        Some(vec![Event::MouseInput(ElementState::Pressed, MouseButton::Left)])
    );
    assert_eq!(
        registry.dispatch(10, &NativeEvent::LeftMouseUp),
        Some(vec![Event::MouseInput(ElementState::Released, MouseButton::Left)])
    );
    assert_eq!(registry.dispatch(10, &NativeEvent::Other), Some(Vec::new()));
    assert_eq!(registry.lookup(10).unwrap().sender, "ten");
    assert_eq!(registry.len(), 1);
}

#[test]
fn each_window_keeps_its_own_latch_and_pointer_flag() {
    let mut registry = Registry::new();
    registry.register(1, context(1, "one"));
    registry.register(2, context(2, "two"));
    let shift_down = NativeEvent::FlagsChanged { key_code: 0x38, modifier_flags: SHIFT_KEY_MASK };
    let pressed = Event::KeyboardInput(ElementState::Pressed, 0x38, Some(VirtualKeyCode::LShift));
    assert_eq!(registry.dispatch(1, &shift_down), Some(vec![pressed]));
    assert_eq!(registry.dispatch(1, &shift_down), Some(Vec::new()));
    assert_eq!(registry.dispatch(2, &shift_down), Some(vec![pressed]));
    assert!(registry.lookup(1).unwrap().modifiers.shift);

    assert_eq!(registry.dispatch(1, &NativeEvent::MouseEntered), Some(vec![Event::MouseEntered]));
    assert!(registry.lookup(1).unwrap().mouse_in_window);
    assert!(!registry.lookup(2).unwrap().mouse_in_window);
    assert_eq!(
        registry.dispatch(1, &NativeEvent::MouseMoved { x: 1, y: 2 }),
        Some(vec![Event::MouseMoved(1, 2)])
    );
    assert!(registry.lookup(1).unwrap().mouse_in_window);
    assert_eq!(registry.dispatch(1, &NativeEvent::MouseExited), Some(vec![Event::MouseLeft]));
    assert!(!registry.lookup(1).unwrap().mouse_in_window);
}
