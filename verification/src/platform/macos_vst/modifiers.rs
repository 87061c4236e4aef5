//! The modifier tracker.
//!
//! The window server does not report a modifier key as a key that goes down
//! and comes up. It reports, with any event, the raw modifier flags as they
//! are at that moment. The tracker keeps the state that it saw last, the
//! latch, and turns each snapshot of the raw flags into the key events that
//! account for the difference.

use vstd::prelude::*;

use crate::events::{ElementState, Event, VirtualKeyCode};

verus! {

/// The bit of the raw modifier flags that is set while a shift key is down.
pub const SHIFT_KEY_MASK: u64 = 0x0002_0000;

/// The bit of the raw modifier flags that is set while a control key is down.
pub const CONTROL_KEY_MASK: u64 = 0x0004_0000;

/// The bit of the raw modifier flags that is set while an option key is down.
pub const ALTERNATE_KEY_MASK: u64 = 0x0008_0000;

/// The bit of the raw modifier flags that is set while a command key is down.
pub const COMMAND_KEY_MASK: u64 = 0x0010_0000;

/// The latched state of the four modifiers: for each, whether the last raw
/// flags that were seen had it down.
#[derive(Clone, Copy, Debug, PartialEq, Eq, Structural)]
pub struct ModifierLatchState {
    pub shift: bool,
    pub ctrl: bool,
    pub win: bool,
    pub alt: bool,
}

/// Whether the raw modifier flags have the modifier of `mask` down.
pub open spec fn flag_down(raw_flags: u64, mask: u64) -> bool {
    raw_flags & mask == mask
}

/// The part of a scan code that a key event carries: its low byte.
pub open spec fn scancode_byte(key_code: u16) -> u8 {
    (key_code % 256) as u8
}

/// What one modifier contributes to a snapshot of the raw flags: nothing
/// while the flag agrees with the latch, else the one key event that says
/// which way the modifier went.
pub open spec fn modifier_transition(
    latched: bool,
    down: bool,
    key_code: u16,
    key: VirtualKeyCode,
) -> Seq<Event> {
    if latched == down {
        Seq::empty()
    } else {
        seq![
            Event::KeyboardInput(
                ElementState::spec_from_down(down),
                scancode_byte(key_code),
                Some(key),
            ),
        ]
    }
}

/// The key events of a snapshot of the raw flags, seen with the given latch:
/// those of shift, control, command and option, in this order. Each is
/// reported as the left-hand key of its pair, since the raw flags do not tell
/// left from right.
pub open spec fn modifier_transitions(
    latch: ModifierLatchState,
    raw_flags: u64,
    key_code: u16,
) -> Seq<Event> {
    modifier_transition(
        latch.shift,
        flag_down(raw_flags, SHIFT_KEY_MASK),
        key_code,
        VirtualKeyCode::LShift,
    ) + modifier_transition(
        latch.ctrl,
        flag_down(raw_flags, CONTROL_KEY_MASK),
        key_code,
        VirtualKeyCode::LControl,
    ) + modifier_transition(
        latch.win,
        flag_down(raw_flags, COMMAND_KEY_MASK),
        key_code,
        VirtualKeyCode::LWin,
    ) + modifier_transition(
        latch.alt,
        flag_down(raw_flags, ALTERNATE_KEY_MASK),
        key_code,
        VirtualKeyCode::LAlt,
    )
}

/// The low byte of a scan code.
pub fn scancode_low_byte(key_code: u16) -> (byte: u8)
    ensures
        byte == scancode_byte(key_code),
{
    (key_code % 256) as u8
}

/// The key event of one modifier, if its raw flag differs from what is
/// latched: `Pressed` where the flag is now set, `Released` where it is now
/// clear.
pub fn modifier_event(
    raw_flags: u64,
    keymask: u64,
    key: VirtualKeyCode,
    key_pressed: bool,
    key_code: u16,
) -> (event: Option<Event>)
    ensures
        event is Some <==> key_pressed != flag_down(raw_flags, keymask),
        event matches Some(e) ==> seq![e] == modifier_transition(
            key_pressed,
            flag_down(raw_flags, keymask),
            key_code,
            key,
        ),
{
    let down = raw_flags & keymask == keymask;
    if key_pressed != down {
        Some(
            Event::KeyboardInput(
                ElementState::from_down(down),
                scancode_low_byte(key_code),
                Some(key),
            ),
        )
    } else {
        None
    }
}

impl ModifierLatchState {
    /// The latch before any raw flags were seen: no modifier is down.
    pub fn new() -> (latch: ModifierLatchState)
        ensures
            latch == (ModifierLatchState { shift: false, ctrl: false, win: false, alt: false }),
    {
        ModifierLatchState { shift: false, ctrl: false, win: false, alt: false }
    }

    /// The latch that agrees with the given raw flags on every modifier.
    pub open spec fn latched_from(raw_flags: u64) -> ModifierLatchState {
        ModifierLatchState {
            shift: flag_down(raw_flags, SHIFT_KEY_MASK),
            ctrl: flag_down(raw_flags, CONTROL_KEY_MASK),
            win: flag_down(raw_flags, COMMAND_KEY_MASK),
            alt: flag_down(raw_flags, ALTERNATE_KEY_MASK),
        }
    }

    /// Takes a snapshot of the raw modifier flags: reports each modifier
    /// whose flag differs from the latch, and latches the flags.
    pub fn on_raw_modifier_snapshot(&mut self, raw_flags: u64, key_code: u16) -> (events: Vec<
        Event,
    >)
        ensures
            events@ == modifier_transitions(*old(self), raw_flags, key_code),
            *final(self) == Self::latched_from(raw_flags),
            events@.len() <= 4,
    {
        let mut events: Vec<Event> = Vec::new();
        let ghost shift_part = modifier_transition(
            self.shift,
            flag_down(raw_flags, SHIFT_KEY_MASK),
            key_code,
            VirtualKeyCode::LShift,
        );
        let ghost ctrl_part = modifier_transition(
            self.ctrl,
            flag_down(raw_flags, CONTROL_KEY_MASK),
            key_code,
            VirtualKeyCode::LControl,
        );
        let ghost win_part = modifier_transition(
            self.win,
            flag_down(raw_flags, COMMAND_KEY_MASK),
            key_code,
            VirtualKeyCode::LWin,
        );
        let ghost alt_part = modifier_transition(
            self.alt,
            flag_down(raw_flags, ALTERNATE_KEY_MASK),
            key_code,
            VirtualKeyCode::LAlt,
        );
        let shift_modifier = modifier_event(
            raw_flags,
            SHIFT_KEY_MASK,
            VirtualKeyCode::LShift,
            self.shift,
            key_code,
        );
        if let Some(event) = shift_modifier {
            self.shift = !self.shift;
            events.push(event);
        }
        assert(events@ =~= shift_part);
        let ctrl_modifier = modifier_event(
            raw_flags,
            CONTROL_KEY_MASK,
            VirtualKeyCode::LControl,
            self.ctrl,
            key_code,
        );
        if let Some(event) = ctrl_modifier {
            self.ctrl = !self.ctrl;
            events.push(event);
        }
        assert(events@ =~= shift_part + ctrl_part);
        let win_modifier = modifier_event(
            raw_flags,
            COMMAND_KEY_MASK,
            VirtualKeyCode::LWin,
            self.win,
            key_code,
        );
        if let Some(event) = win_modifier {
            self.win = !self.win;
            events.push(event);
        }
        assert(events@ =~= shift_part + ctrl_part + win_part);
        let alt_modifier = modifier_event(
            raw_flags,
            ALTERNATE_KEY_MASK,
            VirtualKeyCode::LAlt,
            self.alt,
            key_code,
        );
        if let Some(event) = alt_modifier {
            self.alt = !self.alt;
            events.push(event);
        }
        assert(events@ =~= shift_part + ctrl_part + win_part + alt_part);
        events
    }
}

/// One of the four modifiers that are tracked.
#[derive(Clone, Copy, Debug, PartialEq, Eq, Structural)]
pub enum Modifier {
    Shift,
    Ctrl,
    Win,
    Alt,
}

impl Modifier {
    /// The bit of the raw flags that tells whether the modifier is down.
    pub open spec fn mask(self) -> u64 {
        match self {
            Modifier::Shift => SHIFT_KEY_MASK,
            Modifier::Ctrl => CONTROL_KEY_MASK,
            Modifier::Win => COMMAND_KEY_MASK,
            Modifier::Alt => ALTERNATE_KEY_MASK,
        }
    }

    /// The key that a change of the modifier is reported as.
    pub open spec fn key(self) -> VirtualKeyCode {
        match self {
            Modifier::Shift => VirtualKeyCode::LShift,
            Modifier::Ctrl => VirtualKeyCode::LControl,
            Modifier::Win => VirtualKeyCode::LWin,
            Modifier::Alt => VirtualKeyCode::LAlt,
        }
    }

    /// Whether the latch has the modifier down.
    pub open spec fn latched(self, latch: ModifierLatchState) -> bool {
        match self {
            Modifier::Shift => latch.shift,
            Modifier::Ctrl => latch.ctrl,
            Modifier::Win => latch.win,
            Modifier::Alt => latch.alt,
        }
    }

    /// Whether the raw flags differ from the latch on the modifier.
    pub open spec fn flips(self, latch: ModifierLatchState, raw_flags: u64) -> bool {
        self.latched(latch) != flag_down(raw_flags, self.mask())
    }

    /// The key event that reports the modifier as the raw flags have it.
    pub open spec fn event(self, raw_flags: u64, key_code: u16) -> Event {
        Event::KeyboardInput(
            ElementState::spec_from_down(flag_down(raw_flags, self.mask())),
            scancode_byte(key_code),
            Some(self.key()),
        )
    }
}

/// What toggling one of the four bits does to the raw flags.
proof fn lemma_toggle_bits(raw_flags: u64, toggled: u64, other: u64)
    by (bit_vector)
    requires
        toggled == 0x0002_0000u64 || toggled == 0x0004_0000u64 || toggled == 0x0008_0000u64
            || toggled == 0x0010_0000u64,
        other == 0x0002_0000u64 || other == 0x0004_0000u64 || other == 0x0008_0000u64 || other
            == 0x0010_0000u64,
    ensures
        ((raw_flags ^ toggled) & toggled == toggled) == !(raw_flags & toggled == toggled),
        other != toggled ==> ((raw_flags ^ toggled) & other == other) == (raw_flags & other
            == other),
{
}

/// The four modifiers are independent: toggling the bit of one of them in
/// the raw flags turns that modifier the other way, and leaves every other
/// modifier as it was.
pub proof fn lemma_modifiers_are_independent(raw_flags: u64, toggled: Modifier, other: Modifier)
    ensures
        flag_down(raw_flags ^ toggled.mask(), toggled.mask()) == !flag_down(
            raw_flags,
            toggled.mask(),
        ),
        other != toggled ==> flag_down(raw_flags ^ toggled.mask(), other.mask()) == flag_down(
            raw_flags,
            other.mask(),
        ),
{
    lemma_toggle_bits(raw_flags, toggled.mask(), other.mask());
}

/// Raw flags that agree with the latch on every modifier give no event. So
/// the same flags, seen a second time, are silent.
pub proof fn lemma_unchanged_flags_are_silent(
    latch: ModifierLatchState,
    raw_flags: u64,
    key_code: u16,
)
    requires
        latch == ModifierLatchState::latched_from(raw_flags),
    ensures
        modifier_transitions(latch, raw_flags, key_code) == Seq::<Event>::empty(),
{
    assert(modifier_transitions(latch, raw_flags, key_code) =~= Seq::<Event>::empty());
}

/// Where the raw flags differ from the latch on one modifier only, the
/// snapshot gives exactly one event: the key of that modifier, `Pressed` if
/// its flag is now set and `Released` if it is now clear.
pub proof fn lemma_one_flip_one_event(
    latch: ModifierLatchState,
    raw_flags: u64,
    key_code: u16,
    flipped: Modifier,
)
    requires
        forall|m: Modifier| m.flips(latch, raw_flags) <==> m == flipped,
    ensures
        modifier_transitions(latch, raw_flags, key_code) == seq![
            flipped.event(raw_flags, key_code),
        ],
{
    assert(Modifier::Shift.flips(latch, raw_flags) <==> Modifier::Shift == flipped);
    assert(Modifier::Ctrl.flips(latch, raw_flags) <==> Modifier::Ctrl == flipped);
    assert(Modifier::Win.flips(latch, raw_flags) <==> Modifier::Win == flipped);
    assert(Modifier::Alt.flips(latch, raw_flags) <==> Modifier::Alt == flipped);
    assert(modifier_transitions(latch, raw_flags, key_code) =~= seq![
        flipped.event(raw_flags, key_code),
    ]);
}

/// Where the raw flags differ from the latch on all four modifiers, the
/// snapshot gives four events, in the order shift, control, command, option.
pub proof fn lemma_four_flips_in_order(latch: ModifierLatchState, raw_flags: u64, key_code: u16)
    requires
        forall|m: Modifier| m.flips(latch, raw_flags),
    ensures
        modifier_transitions(latch, raw_flags, key_code) == seq![
            Modifier::Shift.event(raw_flags, key_code),
            Modifier::Ctrl.event(raw_flags, key_code),
            Modifier::Win.event(raw_flags, key_code),
            Modifier::Alt.event(raw_flags, key_code),
        ],
{
    assert(Modifier::Shift.flips(latch, raw_flags));
    assert(Modifier::Ctrl.flips(latch, raw_flags));
    assert(Modifier::Win.flips(latch, raw_flags));
    assert(Modifier::Alt.flips(latch, raw_flags));
    assert(modifier_transitions(latch, raw_flags, key_code) =~= seq![
        Modifier::Shift.event(raw_flags, key_code),
        Modifier::Ctrl.event(raw_flags, key_code),
        Modifier::Win.event(raw_flags, key_code),
        Modifier::Alt.event(raw_flags, key_code),
    ]);
}

/// The number of modifiers on which the raw flags differ from the latch.
pub open spec fn flip_count(latch: ModifierLatchState, raw_flags: u64) -> nat {
    let one = |m: Modifier| if m.flips(latch, raw_flags) { 1nat } else { 0nat };
    one(Modifier::Shift) + one(Modifier::Ctrl) + one(Modifier::Win) + one(Modifier::Alt)
}

/// A snapshot gives one event for each modifier on which the raw flags
/// differ from the latch, so at most four.
pub proof fn lemma_one_event_per_flip(latch: ModifierLatchState, raw_flags: u64, key_code: u16)
    ensures
        modifier_transitions(latch, raw_flags, key_code).len() == flip_count(latch, raw_flags),
        flip_count(latch, raw_flags) <= 4,
{
}

} // verus!
