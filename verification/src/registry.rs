//! The window registry: which window a native message belongs to.
//!
//! The window manager calls one function for every message of every window
//! of a thread. The registry is the map from the handle in the message to the
//! context of the window. The thread that pumps the messages owns it, and
//! hands it to whatever takes a message; no other thread looks a handle up in
//! it. A window puts its context in when it is made, and takes it out, on the
//! same thread, before it goes.

use std::collections::HashMap;
use vstd::prelude::*;

use crate::events::Event;
use crate::platform::macos_vst::event::{latch_after, translated, NSEventToEvent, NativeEvent};
use crate::platform::macos_vst::modifiers::ModifierLatchState;

verus! {

broadcast use vstd::std_specs::hash::group_hash_axioms;

/// What the handler of the messages knows of one window.
///
/// `S` is the end of the channel that the events of the window are sent
/// into, `W` the state that the handler shares with the window. Neither is
/// looked into here.
pub struct WindowContext<S, W> {
    /// The handle of the window.
    pub win: usize,
    /// Where the events of the window go.
    pub sender: S,
    /// The state that the handler shares with the window.
    pub window_state: W,
    /// Whether the pointer is inside the window.
    pub mouse_in_window: bool,
    /// The latch of the modifier keys.
    pub modifiers: ModifierLatchState,
}

impl<S, W> WindowContext<S, W> {
    /// The context that a window starts with: the pointer is outside, and no
    /// modifier is down.
    pub fn new(win: usize, sender: S, window_state: W) -> (context: WindowContext<S, W>)
        ensures
            context == (WindowContext {
                win,
                sender,
                window_state,
                mouse_in_window: false,
                modifiers: ModifierLatchState { shift: false, ctrl: false, win: false, alt: false },
            }),
    {
        WindowContext {
            win,
            sender,
            window_state,
            mouse_in_window: false,
            modifiers: ModifierLatchState::new(),
        }
    }
}

/// The context that a handle is registered with, if it is registered.
pub open spec fn found<S, W>(
    contexts: Map<usize, WindowContext<S, W>>,
    handle: usize,
) -> Option<WindowContext<S, W>> {
    if contexts.contains_key(handle) {
        Some(contexts[handle])
    } else {
        None
    }
}

/// Whether the pointer is inside a window after a native event: it is after
/// it came in or moved over the window, it is not after it went out, and any
/// other event leaves it where it was.
pub open spec fn pointer_inside_after(native: NativeEvent, inside: bool) -> bool {
    match native {
        NativeEvent::MouseEntered => true,
        NativeEvent::MouseMoved { .. } => true,
        NativeEvent::LeftMouseDragged { .. } => true,
        NativeEvent::RightMouseDragged { .. } => true,
        NativeEvent::OtherMouseDragged { .. } => true,
        NativeEvent::MouseExited => false,
        _ => inside,
    }
}

/// The context of a window after a native event was translated for it.
pub open spec fn context_after<S, W>(
    context: WindowContext<S, W>,
    native: NativeEvent,
) -> WindowContext<S, W> {
    WindowContext {
        mouse_in_window: pointer_inside_after(native, context.mouse_in_window),
        modifiers: latch_after(native, context.modifiers),
        ..context
    }
}

/// The events that a native event gives for a window with the given
/// context: its translation, which is nothing for an event of no recognised
/// kind.
pub open spec fn events_for<S, W>(context: WindowContext<S, W>, native: NativeEvent) -> Seq<Event> {
    match translated(native, context.modifiers) {
        Some(events) => events,
        None => Seq::empty(),
    }
}

/// The contexts of the windows of one thread, by handle.
pub struct WindowRegistry<S, W> {
    contexts: HashMap<usize, WindowContext<S, W>>,
}

impl<S, W> View for WindowRegistry<S, W> {
    type V = Map<usize, WindowContext<S, W>>;

    closed spec fn view(&self) -> Map<usize, WindowContext<S, W>> {
        self.contexts@
    }
}

impl<S, W> WindowRegistry<S, W> {
    /// A registry with no window in it.
    pub fn new() -> (registry: WindowRegistry<S, W>)
        ensures
            registry@ == Map::<usize, WindowContext<S, W>>::empty(),
    {
        WindowRegistry { contexts: HashMap::new() }
    }

    /// The number of windows that are registered.
    pub fn len(&self) -> (len: usize)
        ensures
            len == self@.len(),
    {
        self.contexts.len()
    }

    /// Puts the context of a window in, under its handle. A context that was
    /// there under the same handle is replaced.
    pub fn register(&mut self, native_handle: usize, context: WindowContext<S, W>)
        ensures
            final(self)@ == old(self)@.insert(native_handle, context),
    {
        let _replaced = self.contexts.insert(native_handle, context);
    }

    /// The context of the window with the given handle. `None` for a handle
    /// that is not registered: the window is gone, or never was.
    pub fn lookup(&self, native_handle: usize) -> (context: Option<&WindowContext<S, W>>)
        ensures
            match context {
                Some(found_context) => found(self@, native_handle) == Some(*found_context),
                None => found(self@, native_handle) is None,
            },
    {
        self.contexts.get(&native_handle)
    }

    /// Takes the context of a window out, and hands it back. `None`, and
    /// nothing changes, for a handle that is not registered.
    ///
    /// A window that goes calls this before anything of it is destroyed.
    /// The context is handed back, so it cannot be destroyed before it has
    /// left the registry, and no message that comes later finds it.
    pub fn unregister(&mut self, native_handle: usize) -> (context: Option<WindowContext<S, W>>)
        ensures
            final(self)@ == old(self)@.remove(native_handle),
            context == found(old(self)@, native_handle),
    {
        self.contexts.remove(&native_handle)
    }

    /// Takes a native message for the window with the given handle.
    ///
    /// For a window that is registered, the result is `Some` with the events
    /// that the message translates to, in the order in which they are to be
    /// sent; the latch of the modifiers and the place of the pointer in the
    /// context of the window are brought up to date. For a handle that is not
    /// registered the result is `None` and nothing changes: the message is
    /// dropped.
    pub fn dispatch(&mut self, native_handle: usize, nsevent: &NativeEvent) -> (events: Option<
        Vec<Event>,
    >)
        ensures
            match found(old(self)@, native_handle) {
                Some(context) => {
                    &&& events matches Some(list)
                    &&& list@ == events_for(context, *nsevent)
                    &&& final(self)@ == old(self)@.insert(
                        native_handle,
                        context_after(context, *nsevent),
                    )
                },
                None => events is None && final(self)@ == old(self)@,
            },
    {
        match self.contexts.remove(&native_handle) {
            Some(context) => {
                let mut context = context;
                let translation = NSEventToEvent(Some(nsevent), &mut context.modifiers);
                match nsevent {
                    NativeEvent::MouseEntered
                    | NativeEvent::MouseMoved { .. }
                    | NativeEvent::LeftMouseDragged { .. }
                    | NativeEvent::RightMouseDragged { .. }
                    | NativeEvent::OtherMouseDragged { .. } => {
                        context.mouse_in_window = true;
                    },
                    NativeEvent::MouseExited => {
                        context.mouse_in_window = false;
                    },
                    _ => {},
                }
                let _none = self.contexts.insert(native_handle, context);
                assert(self@ =~= old(self)@.insert(
                    native_handle,
                    context_after(old(self)@[native_handle], *nsevent),
                ));
                match translation {
                    Some(list) => Some(list),
                    None => Some(Vec::new()),
                }
            },
            None => {
                assert(self@ =~= old(self)@);
                None
            },
        }
    }
}

/// A context that was registered under a handle is the one that the handle
/// is found with, and no other handle is found with anything else than
/// before.
pub proof fn lemma_register_then_lookup<S, W>(
    contexts: Map<usize, WindowContext<S, W>>,
    handle: usize,
    context: WindowContext<S, W>,
    other: usize,
)
    ensures
        found(contexts.insert(handle, context), handle) == Some(context),
        other != handle ==> found(contexts.insert(handle, context), other) == found(
            contexts,
            other,
        ),
{
}

/// A handle that was unregistered is not found, and no other handle is found
/// with anything else than before.
pub proof fn lemma_unregister_then_lookup<S, W>(
    contexts: Map<usize, WindowContext<S, W>>,
    handle: usize,
    other: usize,
)
    ensures
        found(contexts.remove(handle), handle) is None,
        other != handle ==> found(contexts.remove(handle), other) == found(contexts, other),
{
}

} // verus!
