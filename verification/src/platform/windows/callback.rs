//! Reading the messages of the window manager.
//!
//! A message is a number that says what happened, and two parameters whose
//! meaning depends on the number. What is read here are the messages of the
//! pointer. The messages of the keyboard are not: their scan codes are those
//! of another keyboard than the key table knows.

use vstd::prelude::*;

use crate::platform::macos_vst::event::NativeEvent;

verus! {

/// The pointer moved over the window.
pub const WM_MOUSEMOVE: u32 = 0x0200;

/// The left button went down.
pub const WM_LBUTTONDOWN: u32 = 0x0201;

/// The left button came up.
pub const WM_LBUTTONUP: u32 = 0x0202;

/// The right button went down.
pub const WM_RBUTTONDOWN: u32 = 0x0204;

/// The right button came up.
pub const WM_RBUTTONUP: u32 = 0x0205;

/// The middle button went down.
pub const WM_MBUTTONDOWN: u32 = 0x0207;

/// The middle button came up.
pub const WM_MBUTTONUP: u32 = 0x0208;

/// The pointer left the window.
pub const WM_MOUSELEAVE: u32 = 0x02A3;

/// A 16-bit word, read as a signed number.
pub open spec fn signed_word(word: int) -> int {
    if word >= 0x8000 {
        word - 0x1_0000
    } else {
        word
    }
}

/// The position that a message of the pointer carries in its second
/// parameter: the horizontal coordinate in the low word, the vertical one in
/// the word above, both signed.
pub open spec fn position_of(lparam: isize) -> (int, int) {
    (signed_word((lparam & 0xffff) as int), signed_word(((lparam >> 16) & 0xffff) as int))
}

/// The native event that a message stands for: the buttons, the motion and
/// the leaving of the pointer. Any other message is an event of another
/// class.
pub open spec fn message_event(msg: u32, lparam: isize) -> NativeEvent {
    if msg == WM_LBUTTONDOWN {
        NativeEvent::LeftMouseDown
    } else if msg == WM_LBUTTONUP {
        NativeEvent::LeftMouseUp
    } else if msg == WM_RBUTTONDOWN {
        NativeEvent::RightMouseDown
    } else if msg == WM_RBUTTONUP {
        NativeEvent::RightMouseUp
    } else if msg == WM_MBUTTONDOWN {
        NativeEvent::OtherMouseDown
    } else if msg == WM_MBUTTONUP {
        NativeEvent::OtherMouseUp
    } else if msg == WM_MOUSEMOVE {
        NativeEvent::MouseMoved {
            x: position_of(lparam).0 as i32,
            y: position_of(lparam).1 as i32,
        }
    } else if msg == WM_MOUSELEAVE {
        NativeEvent::MouseExited
    } else {
        NativeEvent::Other
    }
}

/// A 16-bit word, read as a signed number.
fn read_signed_word(word: isize) -> (value: i32)
    requires
        0 <= word <= 0xffff,
    ensures
        value == signed_word(word as int),
        -0x8000 <= value < 0x8000,
{
    if word >= 0x8000 {
        (word - 0x1_0000) as i32
    } else {
        word as i32
    }
}

/// The position that a message of the pointer carries.
pub fn read_position(lparam: isize) -> (position: (i32, i32))
    ensures
        position.0 == position_of(lparam).0,
        position.1 == position_of(lparam).1,
        -0x8000 <= position.0 < 0x8000,
        -0x8000 <= position.1 < 0x8000,
{
    let low: isize = lparam & 0xffff;
    let high: isize = (lparam >> 16) & 0xffff;
    assert(0 <= lparam & 0xffff <= 0xffff) by (bit_vector);
    assert(0 <= (lparam >> 16) & 0xffff <= 0xffff) by (bit_vector);
    (read_signed_word(low), read_signed_word(high))
}

/// Reads a message into the native event that it stands for.
pub fn read_message(msg: u32, lparam: isize) -> (native: NativeEvent)
    ensures
        native == message_event(msg, lparam),
{
    if msg == WM_LBUTTONDOWN {
        NativeEvent::LeftMouseDown
    } else if msg == WM_LBUTTONUP {
        NativeEvent::LeftMouseUp
    } else if msg == WM_RBUTTONDOWN {
        NativeEvent::RightMouseDown
    } else if msg == WM_RBUTTONUP {
        NativeEvent::RightMouseUp
    } else if msg == WM_MBUTTONDOWN {
        NativeEvent::OtherMouseDown
    } else if msg == WM_MBUTTONUP {
        NativeEvent::OtherMouseUp
    } else if msg == WM_MOUSEMOVE {
        let (x, y) = read_position(lparam);
        NativeEvent::MouseMoved { x, y }
    } else if msg == WM_MOUSELEAVE {
        NativeEvent::MouseExited
    } else {
        NativeEvent::Other
    }
}

} // verus!
