use native_events::events::{ElementState, Event, VirtualKeyCode};
use native_events::platform::macos_vst::modifiers::{
    modifier_event, scancode_low_byte, ModifierLatchState, ALTERNATE_KEY_MASK, COMMAND_KEY_MASK,
    CONTROL_KEY_MASK, SHIFT_KEY_MASK,
};

fn key(state: ElementState, code: u8, key: VirtualKeyCode) -> Event {
    Event::KeyboardInput(state, code, Some(key))
}

#[test]
fn masks_are_the_documented_bits() {
    assert_eq!(SHIFT_KEY_MASK, 1 << 17);
    assert_eq!(CONTROL_KEY_MASK, 1 << 18);
    assert_eq!(ALTERNATE_KEY_MASK, 1 << 19);
    assert_eq!(COMMAND_KEY_MASK, 1 << 20);
}

#[test]
fn a_new_latch_has_nothing_down() {
    let latch = ModifierLatchState::new();
    assert_eq!(latch, ModifierLatchState { shift: false, ctrl: false, win: false, alt: false });
}

#[test]
fn same_flags_twice_are_silent_the_second_time() {
    let mut latch = ModifierLatchState::new();
    let first = latch.on_raw_modifier_snapshot(SHIFT_KEY_MASK, 0x38);
    assert_eq!(first, vec![key(ElementState::Pressed, 0x38, VirtualKeyCode::LShift)]);
    let second = latch.on_raw_modifier_snapshot(SHIFT_KEY_MASK, 0x38);
    assert_eq!(second, Vec::<Event>::new());
    assert!(latch.shift);
}

#[test]
fn a_flip_gives_one_event_with_the_new_state() {
    let mut latch = ModifierLatchState::new();
    let down = latch.on_raw_modifier_snapshot(CONTROL_KEY_MASK, 0x3b);
    assert_eq!(down, vec![key(ElementState::Pressed, 0x3b, VirtualKeyCode::LControl)]);
    assert!(latch.ctrl);
    let up = latch.on_raw_modifier_snapshot(0, 0x3b);
    assert_eq!(up, vec![key(ElementState::Released, 0x3b, VirtualKeyCode::LControl)]);
    assert!(!latch.ctrl);
}

#[test]
fn four_flips_come_in_the_fixed_order() {
    let mut latch = ModifierLatchState::new();
    let all = SHIFT_KEY_MASK | CONTROL_KEY_MASK | ALTERNATE_KEY_MASK | COMMAND_KEY_MASK;
    let down = latch.on_raw_modifier_snapshot(all, 7);
    assert_eq!(
        down,
        vec![
            key(ElementState::Pressed, 7, VirtualKeyCode::LShift),
            key(ElementState::Pressed, 7, VirtualKeyCode::LControl),
            key(ElementState::Pressed, 7, VirtualKeyCode::LWin),
            key(ElementState::Pressed, 7, VirtualKeyCode::LAlt),
        ]
    );
    assert_eq!(latch, ModifierLatchState { shift: true, ctrl: true, win: true, alt: true });
    let up = latch.on_raw_modifier_snapshot(0, 7);
    assert_eq!(
        up,
        vec![
            key(ElementState::Released, 7, VirtualKeyCode::LShift),
            key(ElementState::Released, 7, VirtualKeyCode::LControl),
            key(ElementState::Released, 7, VirtualKeyCode::LWin),
            key(ElementState::Released, 7, VirtualKeyCode::LAlt),
        ]
    );
    assert_eq!(latch, ModifierLatchState::new());
}

#[test]
fn mixed_flips_report_each_modifier_its_own_way() {
    let mut latch = ModifierLatchState { shift: true, ctrl: false, win: true, alt: false };
    let events = latch.on_raw_modifier_snapshot(CONTROL_KEY_MASK | COMMAND_KEY_MASK, 0);
    assert_eq!(
        events,
        vec![
            key(ElementState::Released, 0, VirtualKeyCode::LShift),
            key(ElementState::Pressed, 0, VirtualKeyCode::LControl),
        ]
    );
    assert_eq!(latch, ModifierLatchState { shift: false, ctrl: true, win: true, alt: false });
}

#[test]
fn other_bits_of_the_flags_are_ignored() {
    let mut latch = ModifierLatchState::new();
    let caps_lock_and_function: u64 = (1 << 16) | (1 << 23) | 0xffff;
    assert_eq!(latch.on_raw_modifier_snapshot(caps_lock_and_function, 1), Vec::<Event>::new());
    assert_eq!(latch, ModifierLatchState::new());
}

#[test]
fn the_scan_code_is_cut_to_its_low_byte() {
    assert_eq!(scancode_low_byte(0x0038), 0x38);
    assert_eq!(scancode_low_byte(0x0138), 0x38);
    assert_eq!(scancode_low_byte(0xffff), 0xff);
    let mut latch = ModifierLatchState::new();
    let events = latch.on_raw_modifier_snapshot(ALTERNATE_KEY_MASK, 0x123);
    assert_eq!(events, vec![key(ElementState::Pressed, 0x23, VirtualKeyCode::LAlt)]);
}

#[test]
fn modifier_event_compares_flag_and_latch() {
    let shift = VirtualKeyCode::LShift;
    assert_eq!(
        modifier_event(SHIFT_KEY_MASK, SHIFT_KEY_MASK, shift, false, 9),
        Some(key(ElementState::Pressed, 9, shift))
    );
    assert_eq!(
        modifier_event(0, SHIFT_KEY_MASK, shift, true, 9),
        Some(key(ElementState::Released, 9, shift))
    );
    assert_eq!(modifier_event(SHIFT_KEY_MASK, SHIFT_KEY_MASK, shift, true, 9), None);
    assert_eq!(modifier_event(0, SHIFT_KEY_MASK, shift, false, 9), None);
    assert_eq!(modifier_event(CONTROL_KEY_MASK, SHIFT_KEY_MASK, shift, false, 9), None);
}
