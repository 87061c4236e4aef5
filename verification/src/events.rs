//! The unified event vocabulary.
//!
//! Every native notification that the platform layers understand is turned
//! into one of the variants of [`Event`]. Values are plain data: they are
//! built once and handed on by value.

use vstd::prelude::*;

verus! {

/// Whether a key or a button went down or came up.
#[derive(Clone, Copy, Debug, PartialEq, Eq, Structural)]
pub enum ElementState {
    Pressed,
    Released,
}

impl ElementState {
    /// The state that a raw "is down" flag stands for.
    pub open spec fn spec_from_down(down: bool) -> ElementState {
        if down {
            ElementState::Pressed
        } else {
            ElementState::Released
        }
    }

    /// `Pressed` for a flag that is set, `Released` for one that is clear.
    pub fn from_down(down: bool) -> (state: ElementState)
        ensures
            state == Self::spec_from_down(down),
    {
        if down {
            ElementState::Pressed
        } else {
            ElementState::Released
        }
    }
}

/// Which mouse button an event is about.
#[derive(Clone, Copy, Debug, PartialEq, Eq, Structural)]
pub enum MouseButton {
    Left,
    Right,
    Middle,
    Other(u8),
}

/// The phase of a scroll or touch gesture.
#[derive(Clone, Copy, Debug, PartialEq, Eq, Structural)]
pub enum TouchPhase {
    Started,
    Moved,
    Ended,
    Cancelled,
}

/// A single-precision number carried as its IEEE-754 bit pattern.
///
/// The library never computes with such a number; it only passes it on, so
/// the 32 bits are all it keeps.
#[derive(Clone, Copy, Debug, PartialEq, Eq, Structural)]
pub struct FloatBits(pub u32);

/// How far a wheel or a trackpad scrolled, horizontally and vertically.
#[derive(Clone, Copy, Debug, PartialEq, Eq, Structural)]
pub enum MouseScrollDelta {
    /// Lines or rows, as a classic wheel reports them.
    LineDelta(FloatBits, FloatBits),
    /// Pixels, as a precise device reports them.
    PixelDelta(FloatBits, FloatBits),
}

/// The symbolic identity of a key, independent of the platform.
#[derive(Clone, Copy, Debug, PartialEq, Eq, Structural)]
pub enum VirtualKeyCode {
    Key1,
    Key2,
    Key3,
    Key4,
    Key5,
    Key6,
    Key7,
    Key8,
    Key9,
    Key0,
    A,
    B,
    C,
    D,
    E,
    F,
    G,
    H,
    I,
    J,
    K,
    L,
    M,
    N,
    O,
    P,
    Q,
    R,
    S,
    T,
    U,
    V,
    W,
    X,
    Y,
    Z,
    Escape,
    F1,
    F2,
    F3,
    F4,
    F5,
    F6,
    F7,
    F8,
    F9,
    F10,
    F11,
    F12,
    F13,
    F14,
    F15,
    Snapshot,
    Scroll,
    Pause,
    Insert,
    Home,
    Delete,
    End,
    PageDown,
    PageUp,
    Left,
    Up,
    Right,
    Down,
    Back,
    Return,
    Space,
    Compose,
    Numlock,
    Numpad0,
    Numpad1,
    Numpad2,
    Numpad3,
    Numpad4,
    Numpad5,
    Numpad6,
    Numpad7,
    Numpad8,
    Numpad9,
    AbntC1,
    AbntC2,
    Add,
    Apostrophe,
    Apps,
    At,
    Ax,
    Backslash,
    Calculator,
    Capital,
    Colon,
    Comma,
    Convert,
    Decimal,
    Divide,
    Equals,
    Grave,
    Kana,
    Kanji,
    LAlt,
    LBracket,
    LControl,
    LMenu,
    LShift,
    LWin,
    Mail,
    MediaSelect,
    MediaStop,
    Minus,
    Multiply,
    Mute,
    MyComputer,
    NavigateForward,
    NavigateBackward,
    NextTrack,
    NoConvert,
    NumpadComma,
    NumpadEnter,
    NumpadEquals,
    OEM102,
    Period,
    PlayPause,
    Power,
    PrevTrack,
    RAlt,
    RBracket,
    RControl,
    RMenu,
    RShift,
    RWin,
    Semicolon,
    Slash,
    Sleep,
    Stop,
    Subtract,
    Sysrq,
    Tab,
    Underline,
    Unlabeled,
    VolumeDown,
    VolumeUp,
    Wake,
    WebBack,
    WebFavorites,
    WebForward,
    WebHome,
    WebRefresh,
    WebSearch,
    WebStop,
    Yen,
}

/// One occurrence of input, in the vocabulary that every platform shares.
#[derive(Clone, Copy, Debug, PartialEq, Eq, Structural)]
pub enum Event {
    /// A mouse button changed state.
    MouseInput(ElementState, MouseButton),
    /// The pointer moved to the given position, in pixels from the top-left
    /// corner of the window.
    MouseMoved(i32, i32),
    /// The pointer came into the window.
    MouseEntered,
    /// The pointer went out of the window.
    MouseLeft,
    /// A wheel or trackpad scrolled.
    MouseWheel(MouseScrollDelta, TouchPhase),
    /// A key changed state: the new state, the low byte of the hardware scan
    /// code, and the symbolic key where the scan code has one.
    KeyboardInput(ElementState, u8, Option<VirtualKeyCode>),
    /// The keyboard produced a character.
    ReceivedCharacter(char),
    /// A pressure-sensitive trackpad reported the pressure and the stage of
    /// the click.
    TouchpadPressure(FloatBits, i64),
    /// Another thread asked the event loop to wake up.
    Awakened,
}

} // verus!
