//! Translation of what the window server reports into [`Event`]s.
//!
//! The window server describes each input occurrence by an object. What the
//! translation reads of such an object is held here as a [`NativeEvent`]: the
//! class of the event and the values that belong to that class. The caller
//! fills it in from the object; the translation itself is a function of these
//! plain values and of the latched state of the modifier keys.

use vstd::prelude::*;

use crate::events::{ElementState, Event, FloatBits, MouseButton, VirtualKeyCode};
use crate::platform::macos_vst::modifiers::{
    modifier_transitions, scancode_byte, scancode_low_byte, ModifierLatchState,
};

verus! {

broadcast use vstd::string::group_string_axioms;

/// What an application-defined event says it is about.
#[derive(Clone, Copy, Debug, PartialEq, Eq, Structural)]
pub enum NativeEventSubtype {
    WindowExposed,
    ApplicationActivated,
    ApplicationDeactivated,
    WindowMoved,
    ScreenChanged,
    Awt,
}

/// One input occurrence as the window server reports it: its class, and with
/// it what the translation reads of an event of that class.
///
/// Positions are in pixels from the top-left corner of the view, the pixel
/// scale of the window already applied.
#[derive(Clone, Debug, PartialEq, Eq)]
pub enum NativeEvent {
    LeftMouseDown,
    LeftMouseUp,
    RightMouseDown,
    RightMouseUp,
    OtherMouseDown,
    OtherMouseUp,
    MouseEntered,
    MouseExited,
    MouseMoved { x: i32, y: i32 },
    LeftMouseDragged { x: i32, y: i32 },
    RightMouseDragged { x: i32, y: i32 },
    OtherMouseDragged { x: i32, y: i32 },
    /// A key went down: its scan code and the text that the key press
    /// produced.
    KeyDown { key_code: u16, characters: String },
    /// A key came up.
    KeyUp { key_code: u16 },
    /// A modifier key changed: the scan code of the key and the raw modifier
    /// flags as they are now.
    FlagsChanged { key_code: u16, modifier_flags: u64 },
    /// A pressure-sensitive trackpad reports the pressure and the stage.
    Pressure { pressure: FloatBits, stage: i64 },
    /// An event that an application posted to itself.
    ApplicationDefined { subtype: NativeEventSubtype },
    /// An event of any other class.
    Other,
}

/// The key table: the symbolic key that a hardware scan code stands for, or
/// `None` for a code that has no key in the shared vocabulary.
///
/// The codes are those of this platform's keyboards. They are not the codes
/// of any other platform.
pub open spec fn scancode_to_virtual_key(code: u16) -> Option<VirtualKeyCode> {
    match code {
        0x00 => Some(VirtualKeyCode::A),
        0x01 => Some(VirtualKeyCode::S),
        0x02 => Some(VirtualKeyCode::D),
        0x03 => Some(VirtualKeyCode::F),
        0x04 => Some(VirtualKeyCode::H),
        0x05 => Some(VirtualKeyCode::G),
        0x06 => Some(VirtualKeyCode::Z),
        0x07 => Some(VirtualKeyCode::X),
        0x08 => Some(VirtualKeyCode::C),
        0x09 => Some(VirtualKeyCode::V),
        0x0b => Some(VirtualKeyCode::B),
        0x0c => Some(VirtualKeyCode::Q),
        0x0d => Some(VirtualKeyCode::W),
        0x0e => Some(VirtualKeyCode::E),
        0x0f => Some(VirtualKeyCode::R),
        0x10 => Some(VirtualKeyCode::Y),
        0x11 => Some(VirtualKeyCode::T),
        0x12 => Some(VirtualKeyCode::Key1),
        0x13 => Some(VirtualKeyCode::Key2),
        0x14 => Some(VirtualKeyCode::Key3),
        0x15 => Some(VirtualKeyCode::Key4),
        0x16 => Some(VirtualKeyCode::Key6),
        0x17 => Some(VirtualKeyCode::Key5),
        0x18 => Some(VirtualKeyCode::Equals),
        0x19 => Some(VirtualKeyCode::Key9),
        0x1a => Some(VirtualKeyCode::Key7),
        0x1b => Some(VirtualKeyCode::Minus),
        0x1c => Some(VirtualKeyCode::Key8),
        0x1d => Some(VirtualKeyCode::Key0),
        0x1e => Some(VirtualKeyCode::RBracket),
        0x1f => Some(VirtualKeyCode::O),
        0x20 => Some(VirtualKeyCode::U),
        0x21 => Some(VirtualKeyCode::LBracket),
        0x22 => Some(VirtualKeyCode::I),
        0x23 => Some(VirtualKeyCode::P),
        0x24 => Some(VirtualKeyCode::Return),
        0x25 => Some(VirtualKeyCode::L),
        0x26 => Some(VirtualKeyCode::J),
        0x27 => Some(VirtualKeyCode::Apostrophe),
        0x28 => Some(VirtualKeyCode::K),
        0x29 => Some(VirtualKeyCode::Semicolon),
        0x2a => Some(VirtualKeyCode::Backslash),
        0x2b => Some(VirtualKeyCode::Comma),
        0x2c => Some(VirtualKeyCode::Slash),
        0x2d => Some(VirtualKeyCode::N),
        0x2e => Some(VirtualKeyCode::M),
        0x2f => Some(VirtualKeyCode::Period),
        0x30 => Some(VirtualKeyCode::Tab),
        0x31 => Some(VirtualKeyCode::Space),
        0x32 => Some(VirtualKeyCode::Grave),
        0x33 => Some(VirtualKeyCode::Back),
        0x35 => Some(VirtualKeyCode::Escape),
        0x36 => Some(VirtualKeyCode::RWin),
        0x37 => Some(VirtualKeyCode::LWin),
        0x38 => Some(VirtualKeyCode::LShift),
        0x3b => Some(VirtualKeyCode::LControl),
        0x3c => Some(VirtualKeyCode::RShift),
        0x3e => Some(VirtualKeyCode::RControl),
        0x41 => Some(VirtualKeyCode::Decimal),
        0x43 => Some(VirtualKeyCode::Multiply),
        0x45 => Some(VirtualKeyCode::Add),
        0x47 => Some(VirtualKeyCode::Numlock),
        0x49 => Some(VirtualKeyCode::VolumeUp),
        0x4a => Some(VirtualKeyCode::VolumeDown),
        0x4b => Some(VirtualKeyCode::Divide),
        0x4c => Some(VirtualKeyCode::NumpadEnter),
        0x4e => Some(VirtualKeyCode::Subtract),
        0x51 => Some(VirtualKeyCode::NumpadEquals),
        0x52 => Some(VirtualKeyCode::Numpad0),
        0x53 => Some(VirtualKeyCode::Numpad1),
        0x54 => Some(VirtualKeyCode::Numpad2),
        0x55 => Some(VirtualKeyCode::Numpad3),
        0x56 => Some(VirtualKeyCode::Numpad4),
        0x57 => Some(VirtualKeyCode::Numpad5),
        0x58 => Some(VirtualKeyCode::Numpad6),
        0x59 => Some(VirtualKeyCode::Numpad7),
        0x5b => Some(VirtualKeyCode::Numpad8),
        0x5c => Some(VirtualKeyCode::Numpad9),
        0x60 => Some(VirtualKeyCode::F5),
        0x61 => Some(VirtualKeyCode::F6),
        0x62 => Some(VirtualKeyCode::F7),
        0x63 => Some(VirtualKeyCode::F3),
        0x64 => Some(VirtualKeyCode::F8),
        0x65 => Some(VirtualKeyCode::F9),
        0x67 => Some(VirtualKeyCode::F11),
        0x69 => Some(VirtualKeyCode::F13),
        0x6b => Some(VirtualKeyCode::F14),
        0x6d => Some(VirtualKeyCode::F10),
        0x6f => Some(VirtualKeyCode::F12),
        0x71 => Some(VirtualKeyCode::F15),
        0x72 => Some(VirtualKeyCode::Insert),
        0x73 => Some(VirtualKeyCode::Home),
        0x74 => Some(VirtualKeyCode::PageUp),
        0x75 => Some(VirtualKeyCode::Delete),
        0x76 => Some(VirtualKeyCode::F4),
        0x77 => Some(VirtualKeyCode::End),
        0x78 => Some(VirtualKeyCode::F2),
        0x79 => Some(VirtualKeyCode::PageDown),
        0x7a => Some(VirtualKeyCode::F1),
        0x7b => Some(VirtualKeyCode::Left),
        0x7c => Some(VirtualKeyCode::Right),
        0x7d => Some(VirtualKeyCode::Down),
        0x7e => Some(VirtualKeyCode::Up),
        _ => None,
    }
}

/// The codes that the key table has a key for: everything up to `0x7e` but
/// for the codes of the keys that the shared vocabulary leaves out (caps
/// lock, the option keys, the function-row keys beyond F15, keypad clear) and
/// the codes that no key sends.
pub open spec fn is_mapped_scancode(code: u16) -> bool {
    &&& code <= 0x7e
    &&& code != 0x0a
    &&& code != 0x34
    &&& code != 0x39
    &&& code != 0x3a
    &&& code != 0x3d
    &&& code != 0x3f
    &&& code != 0x40
    &&& code != 0x42
    &&& code != 0x44
    &&& code != 0x46
    &&& code != 0x48
    &&& code != 0x4d
    &&& code != 0x4f
    &&& code != 0x50
    &&& code != 0x5a
    &&& code != 0x5d
    &&& code != 0x5e
    &&& code != 0x5f
    &&& code != 0x66
    &&& code != 0x68
    &&& code != 0x6a
    &&& code != 0x6c
    &&& code != 0x6e
    &&& code != 0x70
}

/// Looks a hardware scan code up in the key table.
pub fn vkeycode_to_element(code: u16) -> (key: Option<VirtualKeyCode>)
    ensures
        key == scancode_to_virtual_key(code),
        key is Some <==> is_mapped_scancode(code),
{
    Some(match code {
        0x00 => VirtualKeyCode::A,
        0x01 => VirtualKeyCode::S,
        0x02 => VirtualKeyCode::D,
        0x03 => VirtualKeyCode::F,
        0x04 => VirtualKeyCode::H,
        0x05 => VirtualKeyCode::G,
        0x06 => VirtualKeyCode::Z,
        0x07 => VirtualKeyCode::X,
        0x08 => VirtualKeyCode::C,
        0x09 => VirtualKeyCode::V,
        0x0b => VirtualKeyCode::B,
        0x0c => VirtualKeyCode::Q,
        0x0d => VirtualKeyCode::W,
        0x0e => VirtualKeyCode::E,
        0x0f => VirtualKeyCode::R,
        0x10 => VirtualKeyCode::Y,
        0x11 => VirtualKeyCode::T,
        0x12 => VirtualKeyCode::Key1,
        0x13 => VirtualKeyCode::Key2,
        0x14 => VirtualKeyCode::Key3,
        0x15 => VirtualKeyCode::Key4,
        0x16 => VirtualKeyCode::Key6,
        0x17 => VirtualKeyCode::Key5,
        0x18 => VirtualKeyCode::Equals,
        0x19 => VirtualKeyCode::Key9,
        0x1a => VirtualKeyCode::Key7,
        0x1b => VirtualKeyCode::Minus,
        0x1c => VirtualKeyCode::Key8,
        0x1d => VirtualKeyCode::Key0,
        0x1e => VirtualKeyCode::RBracket,
        0x1f => VirtualKeyCode::O,
        0x20 => VirtualKeyCode::U,
        0x21 => VirtualKeyCode::LBracket,
        0x22 => VirtualKeyCode::I,
        0x23 => VirtualKeyCode::P,
        0x24 => VirtualKeyCode::Return,
        0x25 => VirtualKeyCode::L,
        0x26 => VirtualKeyCode::J,
        0x27 => VirtualKeyCode::Apostrophe,
        0x28 => VirtualKeyCode::K,
        0x29 => VirtualKeyCode::Semicolon,
        0x2a => VirtualKeyCode::Backslash,
        0x2b => VirtualKeyCode::Comma,
        0x2c => VirtualKeyCode::Slash,
        0x2d => VirtualKeyCode::N,
        0x2e => VirtualKeyCode::M,
        0x2f => VirtualKeyCode::Period,
        0x30 => VirtualKeyCode::Tab,
        0x31 => VirtualKeyCode::Space,
        0x32 => VirtualKeyCode::Grave,
        0x33 => VirtualKeyCode::Back,
        0x35 => VirtualKeyCode::Escape,
        0x36 => VirtualKeyCode::RWin,
        0x37 => VirtualKeyCode::LWin,
        0x38 => VirtualKeyCode::LShift,
        0x3b => VirtualKeyCode::LControl,
        0x3c => VirtualKeyCode::RShift,
        0x3e => VirtualKeyCode::RControl,
        0x41 => VirtualKeyCode::Decimal,
        0x43 => VirtualKeyCode::Multiply,
        0x45 => VirtualKeyCode::Add,
        0x47 => VirtualKeyCode::Numlock,
        0x49 => VirtualKeyCode::VolumeUp,
        0x4a => VirtualKeyCode::VolumeDown,
        0x4b => VirtualKeyCode::Divide,
        0x4c => VirtualKeyCode::NumpadEnter,
        0x4e => VirtualKeyCode::Subtract,
        0x51 => VirtualKeyCode::NumpadEquals,
        0x52 => VirtualKeyCode::Numpad0,
        0x53 => VirtualKeyCode::Numpad1,
        0x54 => VirtualKeyCode::Numpad2,
        0x55 => VirtualKeyCode::Numpad3,
        0x56 => VirtualKeyCode::Numpad4,
        0x57 => VirtualKeyCode::Numpad5,
        0x58 => VirtualKeyCode::Numpad6,
        0x59 => VirtualKeyCode::Numpad7,
        0x5b => VirtualKeyCode::Numpad8,
        0x5c => VirtualKeyCode::Numpad9,
        0x60 => VirtualKeyCode::F5,
        0x61 => VirtualKeyCode::F6,
        0x62 => VirtualKeyCode::F7,
        0x63 => VirtualKeyCode::F3,
        0x64 => VirtualKeyCode::F8,
        0x65 => VirtualKeyCode::F9,
        0x67 => VirtualKeyCode::F11,
        0x69 => VirtualKeyCode::F13,
        0x6b => VirtualKeyCode::F14,
        0x6d => VirtualKeyCode::F10,
        0x6f => VirtualKeyCode::F12,
        0x71 => VirtualKeyCode::F15,
        0x72 => VirtualKeyCode::Insert,
        0x73 => VirtualKeyCode::Home,
        0x74 => VirtualKeyCode::PageUp,
        0x75 => VirtualKeyCode::Delete,
        0x76 => VirtualKeyCode::F4,
        0x77 => VirtualKeyCode::End,
        0x78 => VirtualKeyCode::F2,
        0x79 => VirtualKeyCode::PageDown,
        0x7a => VirtualKeyCode::F1,
        0x7b => VirtualKeyCode::Left,
        0x7c => VirtualKeyCode::Right,
        0x7d => VirtualKeyCode::Down,
        0x7e => VirtualKeyCode::Up,
        _ => return None,
    })
}

/// A scan code has a key exactly when it is one of the mapped codes.
pub proof fn lemma_mapped_scancodes(code: u16)
    ensures
        scancode_to_virtual_key(code) is Some <==> is_mapped_scancode(code),
{
}

/// No two scan codes share a key.
pub proof fn lemma_scancode_keys_distinct(a: u16, b: u16)
    requires
        scancode_to_virtual_key(a) is Some,
        scancode_to_virtual_key(a) == scancode_to_virtual_key(b),
    ensures
        a == b,
{
}

/// The event that a typed character is reported as.
pub fn received_character(c: char) -> (event: Event)
    ensures
        event == Event::ReceivedCharacter(c),
{
    Event::ReceivedCharacter(c)
}

/// Whether the events report the text: one event per Unicode scalar value,
/// in the order of the text.
pub open spec fn spells(events: Seq<Event>, text: Seq<char>) -> bool {
    &&& events.len() == text.len()
    &&& forall|i: int| 0 <= i < text.len() ==> events[i] == Event::ReceivedCharacter(text[i])
}

/// The events that a text is reported as: the one sequence that spells it.
pub open spec fn typed_characters(text: Seq<char>) -> Seq<Event> {
    choose|events: Seq<Event>| spells(events, text)
}

/// Events that spell a text are the events that the text is reported as.
pub proof fn lemma_typed_characters(events: Seq<Event>, text: Seq<char>)
    requires
        spells(events, text),
    ensures
        typed_characters(text) == events,
{
    assert(spells(typed_characters(text), text));
    assert(typed_characters(text) =~= events);
}

/// The event that reports a key as going down or coming up: the low byte of
/// its scan code and the key that the key table has for the code.
pub open spec fn key_event(state: ElementState, key_code: u16) -> Event {
    Event::KeyboardInput(state, scancode_byte(key_code), scancode_to_virtual_key(key_code))
}

/// What a pointer event is reported as: buttons by their identity and state,
/// entering and leaving as such, motion and dragging as a move to the
/// position. `None` for an event of any other class.
pub open spec fn pointer_event(native: NativeEvent) -> Option<Event> {
    match native {
        NativeEvent::LeftMouseDown => Some(
            Event::MouseInput(ElementState::Pressed, MouseButton::Left),
        ),
        NativeEvent::LeftMouseUp => Some(
            Event::MouseInput(ElementState::Released, MouseButton::Left),
        ),
        NativeEvent::RightMouseDown => Some(
            Event::MouseInput(ElementState::Pressed, MouseButton::Right),
        ),
        NativeEvent::RightMouseUp => Some(
            Event::MouseInput(ElementState::Released, MouseButton::Right),
        ),
        NativeEvent::OtherMouseDown => Some(
            Event::MouseInput(ElementState::Pressed, MouseButton::Middle),
        ),
        NativeEvent::OtherMouseUp => Some(
            Event::MouseInput(ElementState::Released, MouseButton::Middle),
        ),
        NativeEvent::MouseEntered => Some(Event::MouseEntered),
        NativeEvent::MouseExited => Some(Event::MouseLeft),
        NativeEvent::MouseMoved { x, y } => Some(Event::MouseMoved(x, y)),
        NativeEvent::LeftMouseDragged { x, y } => Some(Event::MouseMoved(x, y)),
        NativeEvent::RightMouseDragged { x, y } => Some(Event::MouseMoved(x, y)),
        NativeEvent::OtherMouseDragged { x, y } => Some(Event::MouseMoved(x, y)),
        _ => None,
    }
}

/// What a native event is reported as, seen with the given latch of the
/// modifiers: the events in the order in which they are to be delivered, or
/// `None` for an event that says nothing in the shared vocabulary.
///
/// A key that goes down gives the characters of its text and then the key
/// itself. A change of the modifiers gives what the modifier tracker makes of
/// the raw flags, which may be nothing. An application-defined event is the
/// wake-up call if its subtype says so, and nothing else.
pub open spec fn translated(native: NativeEvent, latch: ModifierLatchState) -> Option<Seq<Event>> {
    match native {
        NativeEvent::KeyDown { key_code, characters } => Some(
            typed_characters(characters@).push(key_event(ElementState::Pressed, key_code)),
        ),
        NativeEvent::KeyUp { key_code } => Some(seq![key_event(ElementState::Released, key_code)]),
        NativeEvent::FlagsChanged { key_code, modifier_flags } => Some(
            modifier_transitions(latch, modifier_flags, key_code),
        ),
        NativeEvent::Pressure { pressure, stage } => Some(
            seq![Event::TouchpadPressure(pressure, stage)],
        ),
        NativeEvent::ApplicationDefined { subtype } => if subtype
            == NativeEventSubtype::ApplicationActivated {
            Some(seq![Event::Awakened])
        } else {
            None
        },
        _ => match pointer_event(native) {
            Some(event) => Some(seq![event]),
            None => None,
        },
    }
}

/// The latch of the modifiers after a native event was translated: a change
/// of the modifiers latches its raw flags, any other event leaves the latch
/// as it is.
pub open spec fn latch_after(native: NativeEvent, latch: ModifierLatchState) -> ModifierLatchState {
    match native {
        NativeEvent::FlagsChanged { modifier_flags, .. } => ModifierLatchState::latched_from(
            modifier_flags,
        ),
        _ => latch,
    }
}

/// Translates a pointer event: the one event that it is reported as, or
/// `None` for an event of another class.
pub fn translate_pointer_event(nsevent: &NativeEvent) -> (event: Option<Event>)
    ensures
        event == pointer_event(*nsevent),
{
    match nsevent {
        NativeEvent::LeftMouseDown => Some(
            Event::MouseInput(ElementState::Pressed, MouseButton::Left),
        ),
        NativeEvent::LeftMouseUp => Some(
            Event::MouseInput(ElementState::Released, MouseButton::Left),
        ),
        NativeEvent::RightMouseDown => Some(
            Event::MouseInput(ElementState::Pressed, MouseButton::Right),
        ),
        NativeEvent::RightMouseUp => Some(
            Event::MouseInput(ElementState::Released, MouseButton::Right),
        ),
        NativeEvent::OtherMouseDown => Some(
            Event::MouseInput(ElementState::Pressed, MouseButton::Middle),
        ),
        NativeEvent::OtherMouseUp => Some(
            Event::MouseInput(ElementState::Released, MouseButton::Middle),
        ),
        NativeEvent::MouseEntered => Some(Event::MouseEntered),
        NativeEvent::MouseExited => Some(Event::MouseLeft),
        NativeEvent::MouseMoved { x, y }
        | NativeEvent::LeftMouseDragged { x, y }
        | NativeEvent::RightMouseDragged { x, y }
        | NativeEvent::OtherMouseDragged { x, y } => Some(Event::MouseMoved(*x, *y)),
        _ => None,
    }
}

/// The events of a key that goes down with the given text.
fn key_down_events(key_code: u16, characters: &String) -> (events: Vec<Event>)
    ensures
        events@ == typed_characters(characters@).push(key_event(ElementState::Pressed, key_code)),
{
    let mut events: Vec<Event> = Vec::new();
    let text: &str = characters.as_str();
    for received_char in chars: text.chars()
        invariant
            chars.seq() == text@,
            events@.len() == chars.index(),
            forall|i: int|
                0 <= i < events@.len() ==> events@[i] == Event::ReceivedCharacter(text@[i]),
    {
        events.push(received_character(received_char));
    }
    proof {
        lemma_typed_characters(events@, characters@);
    }
    let vkey = vkeycode_to_element(key_code);
    events.push(Event::KeyboardInput(ElementState::Pressed, scancode_low_byte(key_code), vkey));
    events
}

/// Translates a native event, if there is one, with the latch of the
/// modifiers as it stands, and brings the latch up to date.
///
/// The result is `Some` with the events to deliver, in order, for an event
/// that the shared vocabulary has words for, and `None` where there is no
/// native event or the event is of no recognised kind. `None` is no error:
/// such an event is dropped.
#[allow(non_snake_case)]
pub fn NSEventToEvent(nsevent: Option<&NativeEvent>, modifiers: &mut ModifierLatchState) -> (events:
    Option<Vec<Event>>)
    ensures
        nsevent is None ==> events is None && *final(modifiers) == *old(modifiers),
        nsevent matches Some(native) ==> {
            &&& match events {
                Some(list) => translated(*native, *old(modifiers)) == Some(list@),
                None => translated(*native, *old(modifiers)) is None,
            }
            &&& *final(modifiers) == latch_after(*native, *old(modifiers))
        },
{
    let native = match nsevent {
        Some(native) => native,
        None => {
            return None;
        },
    };
    match native {
        NativeEvent::KeyDown { key_code, characters } => Some(
            key_down_events(*key_code, characters),
        ),
        NativeEvent::KeyUp { key_code } => {
            let vkey = vkeycode_to_element(*key_code);
            let mut events: Vec<Event> = Vec::new();
            events.push(
                Event::KeyboardInput(ElementState::Released, scancode_low_byte(*key_code), vkey),
            );
            assert(events@ =~= seq![key_event(ElementState::Released, *key_code)]);
            Some(events)
        },
        NativeEvent::FlagsChanged { key_code, modifier_flags } => Some(
            modifiers.on_raw_modifier_snapshot(*modifier_flags, *key_code),
        ),
        NativeEvent::Pressure { pressure, stage } => {
            let mut events: Vec<Event> = Vec::new();
            events.push(Event::TouchpadPressure(*pressure, *stage));
            assert(events@ =~= seq![Event::TouchpadPressure(*pressure, *stage)]);
            Some(events)
        },
        NativeEvent::ApplicationDefined { subtype } => {
            match subtype {
                NativeEventSubtype::ApplicationActivated => {
                    let mut events: Vec<Event> = Vec::new();
                    events.push(Event::Awakened);
                    assert(events@ =~= seq![Event::Awakened]);
                    Some(events)
                },
                _ => None,
            }
        },
        _ => {
            match translate_pointer_event(native) {
                Some(event) => {
                    let mut events: Vec<Event> = Vec::new();
                    events.push(event);
                    assert(events@ =~= seq![event]);
                    Some(events)
                },
                None => None,
            }
        },
    }
}

} // verus!
