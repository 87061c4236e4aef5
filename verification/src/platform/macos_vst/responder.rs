//! The responder: the class of the view that takes the native events of an
//! embedded window.
//!
//! The class is described here as plain data, and so is what each of its
//! methods does with an event. The caller registers the class with the
//! runtime, once, and routes each method to its handler.

use vstd::prelude::*;

use crate::events::Event;
use crate::platform::macos_vst::event::{
    latch_after, pointer_event, translate_pointer_event, translated, NSEventToEvent, NativeEvent,
};
use crate::platform::macos_vst::modifiers::ModifierLatchState;
use crate::queue::PendingQueue;

verus! {

/// What a method of the responder does when the runtime calls it.
#[derive(Clone, Copy, Debug, PartialEq, Eq, Structural)]
pub enum ResponderHandler {
    /// Says that the view takes keyboard focus.
    AcceptsFirstResponder,
    /// Says that the view takes the click that activates its window.
    AcceptsFirstMouse,
    /// Takes the tick of the periodic timer.
    TimerFired,
    /// Takes a pointer event: see [`mouse_event`].
    MouseEvent,
    /// Takes a key or a change of the modifiers: see [`key_event`].
    KeyEvent,
}

/// One method of the responder: the selector that the runtime calls it by,
/// and what it does.
#[derive(Clone, Copy, Debug, PartialEq, Eq)]
pub struct ResponderMethod {
    pub selector: &'static str,
    pub handler: ResponderHandler,
}

/// The class of the responder: its name, the class it extends, the instance
/// variables that its handlers find their window's state in, and its
/// methods.
pub struct ResponderClass {
    pub name: &'static str,
    pub superclass: &'static str,
    pub ivars: Vec<&'static str>,
    pub methods: Vec<ResponderMethod>,
}

/// The methods of the responder, as selector and handler, in the order in
/// which they are registered.
pub open spec fn responder_methods() -> Seq<(Seq<char>, ResponderHandler)> {
    seq![
        ("acceptsFirstResponder"@, ResponderHandler::AcceptsFirstResponder),
        ("acceptsFirstMouse:"@, ResponderHandler::AcceptsFirstMouse),
        ("timerFired:"@, ResponderHandler::TimerFired),
        ("mouseDown:"@, ResponderHandler::MouseEvent),
        ("mouseUp:"@, ResponderHandler::MouseEvent),
        ("mouseMoved:"@, ResponderHandler::MouseEvent),
        ("mouseDragged:"@, ResponderHandler::MouseEvent),
        ("keyDown:"@, ResponderHandler::KeyEvent),
        ("keyUp:"@, ResponderHandler::KeyEvent),
        ("flagsChanged:"@, ResponderHandler::KeyEvent),
    ]
}

impl ResponderClass {
    /// The methods of a class, as selector and handler.
    pub open spec fn method_list(self) -> Seq<(Seq<char>, ResponderHandler)> {
        Seq::new(
            self.methods@.len(),
            |i: int| (self.methods@[i].selector@, self.methods@[i].handler),
        )
    }

    /// The names of the instance variables of a class.
    pub open spec fn ivar_list(self) -> Seq<Seq<char>> {
        Seq::new(self.ivars@.len(), |i: int| self.ivars@[i]@)
    }
}

/// The class of the responder: `ViewResponder`, a view, with one instance
/// variable for the queue of its window and one for the latch of the
/// modifiers, and with the methods of [`responder_methods`].
pub fn get_window_responder_class() -> (class: ResponderClass)
    ensures
        class.name@ == "ViewResponder"@,
        class.superclass@ == "NSView"@,
        class.ivar_list() == seq!["pendingEvents"@, "modifiers"@],
        class.method_list() == responder_methods(),
{
    let mut ivars: Vec<&'static str> = Vec::new();
    ivars.push("pendingEvents");
    ivars.push("modifiers");
    let mut methods: Vec<ResponderMethod> = Vec::new();
    methods.push(
        ResponderMethod {
            selector: "acceptsFirstResponder",
            handler: ResponderHandler::AcceptsFirstResponder,
        },
    );
    methods.push(
        ResponderMethod {
            selector: "acceptsFirstMouse:",
            handler: ResponderHandler::AcceptsFirstMouse,
        },
    );
    methods.push(ResponderMethod { selector: "timerFired:", handler: ResponderHandler::TimerFired });
    methods.push(ResponderMethod { selector: "mouseDown:", handler: ResponderHandler::MouseEvent });
    methods.push(ResponderMethod { selector: "mouseUp:", handler: ResponderHandler::MouseEvent });
    methods.push(ResponderMethod { selector: "mouseMoved:", handler: ResponderHandler::MouseEvent });
    methods.push(
        ResponderMethod { selector: "mouseDragged:", handler: ResponderHandler::MouseEvent },
    );
    methods.push(ResponderMethod { selector: "keyDown:", handler: ResponderHandler::KeyEvent });
    methods.push(ResponderMethod { selector: "keyUp:", handler: ResponderHandler::KeyEvent });
    methods.push(ResponderMethod { selector: "flagsChanged:", handler: ResponderHandler::KeyEvent });
    let class = ResponderClass { name: "ViewResponder", superclass: "NSView", ivars, methods };
    assert(class.ivar_list() =~= seq!["pendingEvents"@, "modifiers"@]);
    assert(class.method_list() =~= responder_methods());
    class
}

/// The handler of the responder that the runtime calls for a native event,
/// if the responder has a method for events of its class: pointer events of
/// the left button and of motion go to the mouse handler, keys and changes of
/// the modifiers to the key handler. An event of any other class does not
/// reach the responder.
pub open spec fn handler_of(native: NativeEvent) -> Option<ResponderHandler> {
    match native {
        NativeEvent::LeftMouseDown => Some(ResponderHandler::MouseEvent),
        NativeEvent::LeftMouseUp => Some(ResponderHandler::MouseEvent),
        NativeEvent::MouseMoved { .. } => Some(ResponderHandler::MouseEvent),
        NativeEvent::LeftMouseDragged { .. } => Some(ResponderHandler::MouseEvent),
        NativeEvent::KeyDown { .. } => Some(ResponderHandler::KeyEvent),
        NativeEvent::KeyUp { .. } => Some(ResponderHandler::KeyEvent),
        NativeEvent::FlagsChanged { .. } => Some(ResponderHandler::KeyEvent),
        _ => None,
    }
}

/// Whether a native event reaches a handler of the responder once it is
/// handed to the default processing of the application. Such an event is
/// queued by its handler, and is not to be translated a second time.
pub fn takes(nsevent: &NativeEvent) -> (taken: bool)
    ensures
        taken == handler_of(*nsevent) is Some,
{
    match nsevent {
        NativeEvent::LeftMouseDown
        | NativeEvent::LeftMouseUp
        | NativeEvent::MouseMoved { .. }
        | NativeEvent::LeftMouseDragged { .. }
        | NativeEvent::KeyDown { .. }
        | NativeEvent::KeyUp { .. }
        | NativeEvent::FlagsChanged { .. } => true,
        _ => false,
    }
}

/// Whether the view takes keyboard focus: it does.
pub fn accepts_first_responder() -> (accepts: bool)
    ensures
        accepts,
{
    true
}

/// Whether the view takes the click that activates its window: it does.
pub fn accepts_first_mouse() -> (accepts: bool)
    ensures
        accepts,
{
    true
}

/// Takes a pointer event: what it is reported as goes to the tail of the
/// queue. An event of another class leaves the queue as it is.
pub fn mouse_event(pending_events: &mut PendingQueue, nsevent: &NativeEvent)
    ensures
        final(pending_events)@ == match pointer_event(*nsevent) {
            Some(event) => old(pending_events)@.push(event),
            None => old(pending_events)@,
        },
{
    let event = translate_pointer_event(nsevent);
    if let Some(ev) = event {
        pending_events.push(ev);
    }
}

/// Takes a key or a change of the modifiers: the events of its translation
/// go to the tail of the queue, in their order, and the latch is brought up
/// to date. An event that translates to nothing leaves the queue as it is.
pub fn key_event(
    pending_events: &mut PendingQueue,
    modifiers: &mut ModifierLatchState,
    nsevent: &NativeEvent,
)
    ensures
        final(pending_events)@ == old(pending_events)@ + match translated(
            *nsevent,
            *old(modifiers),
        ) {
            Some(events) => events,
            None => Seq::<Event>::empty(),
        },
        *final(modifiers) == latch_after(*nsevent, *old(modifiers)),
{
    match NSEventToEvent(Some(nsevent), modifiers) {
        Some(events) => {
            pending_events.extend(events);
        },
        None => {
            assert(pending_events@ =~= old(pending_events)@ + Seq::<Event>::empty());
        },
    }
}

} // verus!
