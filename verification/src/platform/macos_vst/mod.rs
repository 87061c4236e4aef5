//! A view embedded in the window of a host application.
//!
//! The host owns the window and the thread that events arrive on. The window
//! here is the logical side of the embedded view: the handles it was attached
//! with, the events that wait for the consumer, and the latch of the modifier
//! keys. The caller attaches the native view, reads each native event into a
//! [`event::NativeEvent`], and hands it in.

pub mod event;
pub mod modifiers;
pub mod responder;

use std::collections::VecDeque;
use vstd::prelude::*;

use crate::attributes::{CreationError, CursorState, MouseCursor, WindowAttributes};
use crate::events::Event;
use crate::native_monitor::NativeMonitorId;
use crate::platform::macos_vst::event::{
    latch_after, translated, NativeEvent, NativeEventSubtype,
};
use crate::platform::macos_vst::modifiers::ModifierLatchState;
use crate::queue::{after_pop, front, PendingQueue};

verus! {

/// Whether an application takes part in the dock and the menu bar.
#[derive(Clone, Copy, Debug, PartialEq, Eq, Structural)]
pub enum ActivationPolicy {
    Regular,
    Accessory,
    Prohibited,
}

/// What only this platform can be asked of a window.
#[derive(Clone, Copy, Debug, PartialEq, Eq, Structural)]
pub struct PlatformSpecificWindowBuilderAttributes {
    pub activation_policy: ActivationPolicy,
}

impl Default for PlatformSpecificWindowBuilderAttributes {
    fn default() -> (attributes: PlatformSpecificWindowBuilderAttributes)
        ensures
            attributes.activation_policy == ActivationPolicy::Regular,
    {
        PlatformSpecificWindowBuilderAttributes { activation_policy: ActivationPolicy::Regular }
    }
}

/// A handle by which another thread wakes the event loop of a window.
#[derive(Clone, Copy, Debug, PartialEq, Eq, Structural)]
pub struct WindowProxy;

/// The native event that wakes the event loop: an application-defined event
/// whose subtype the translation knows as the wake-up call.
pub open spec fn wakeup_event() -> NativeEvent {
    NativeEvent::ApplicationDefined { subtype: NativeEventSubtype::ApplicationActivated }
}

impl WindowProxy {
    /// The native event to post to the application so that a consumer that
    /// waits for the next event gets [`Event::Awakened`].
    #[inline]
    pub fn wakeup_event_loop(&self) -> (nsevent: NativeEvent)
        ensures
            nsevent == wakeup_event(),
    {
        NativeEvent::ApplicationDefined { subtype: NativeEventSubtype::ApplicationActivated }
    }
}

/// The one monitor that an embedded view knows of: the canvas of its host.
#[derive(Clone, Copy, Debug, PartialEq, Eq, Structural)]
pub struct MonitorId;

/// The monitors that a window can be put on: the canvas, and nothing else.
#[inline]
pub fn get_available_monitors() -> (list: VecDeque<MonitorId>)
    ensures
        list@ == seq![MonitorId],
{
    let mut list = VecDeque::new();
    list.push_back(MonitorId);
    assert(list@ =~= seq![MonitorId]);
    list
}

/// The monitor that a window is put on if it asks for none.
#[inline]
pub fn get_primary_monitor() -> (monitor: MonitorId)
    ensures
        monitor == MonitorId,
{
    MonitorId
}

impl MonitorId {
    /// The name of the monitor: always `Canvas`.
    #[inline]
    pub fn get_name(&self) -> (name: Option<String>)
        ensures
            name matches Some(text) && text@ == "Canvas"@,
    {
        Some("Canvas".to_owned())
    }

    /// The identifier that the operating system has for the monitor: none.
    #[inline]
    pub fn get_native_identifier(&self) -> (id: NativeMonitorId)
        ensures
            id is Unavailable,
    {
        NativeMonitorId::Unavailable
    }
}

/// The handle that stands for no object.
pub const NIL: usize = 0;

/// What a window is, as the contracts see it.
pub struct WindowView {
    /// The handle of the host's window, `NIL` until the view is attached.
    pub window: usize,
    /// The handle of the host's view that the window lives in.
    pub host_view: usize,
    /// The handle of the view of the window itself, `NIL` until it is
    /// attached.
    pub view: usize,
    /// The events that wait for the consumer, the head first.
    pub pending: Seq<Event>,
    /// The latch of the modifier keys.
    pub modifiers: ModifierLatchState,
}

/// The logical side of a view that is embedded in a host's window.
pub struct Window {
    window: usize,
    host_view: usize,
    view: usize,
    pending_events: PendingQueue,
    modifiers: ModifierLatchState,
}

impl View for Window {
    type V = WindowView;

    closed spec fn view(&self) -> WindowView {
        WindowView {
            window: self.window,
            host_view: self.host_view,
            view: self.view,
            pending: self.pending_events@,
            modifiers: self.modifiers,
        }
    }
}

/// The events that a native event delivers, seen with the given latch: its
/// translation, or nothing where there is no native event or it translates to
/// nothing.
pub open spec fn delivered(nsevent: Option<NativeEvent>, latch: ModifierLatchState) -> Seq<Event> {
    match nsevent {
        Some(native) => match translated(native, latch) {
            Some(events) => events,
            None => Seq::empty(),
        },
        None => Seq::empty(),
    }
}

/// The latch of the modifiers after a native event, if there was one.
pub open spec fn latch_after_delivery(
    nsevent: Option<NativeEvent>,
    latch: ModifierLatchState,
) -> ModifierLatchState {
    match nsevent {
        Some(native) => latch_after(native, latch),
        None => latch,
    }
}

/// The native event behind a reference, where there is one.
pub open spec fn native_of(nsevent: Option<&NativeEvent>) -> Option<NativeEvent> {
    match nsevent {
        Some(native) => Some(*native),
        None => None,
    }
}

/// Takes a native event that the operating system had for the window, and
/// translates it on the spot: the first event of the translation is returned,
/// the others are put at the tail of the window's queue, in their order.
///
/// `None` where there is no native event, or where the event translates to
/// nothing. The queue is then left as it is.
#[allow(non_snake_case)]
pub fn NSEventToEvent(window: &mut Window, nsevent: Option<&NativeEvent>) -> (event: Option<Event>)
    ensures
        event == front(delivered(native_of(nsevent), old(window)@.modifiers)),
        final(window)@ == (WindowView {
            pending: old(window)@.pending + after_pop(
                delivered(native_of(nsevent), old(window)@.modifiers),
            ),
            modifiers: latch_after_delivery(native_of(nsevent), old(window)@.modifiers),
            ..old(window)@
        }),
{
    let translation = event::NSEventToEvent(nsevent, &mut window.modifiers);
    match translation {
        Some(events) => {
            if events.len() == 0 {
                assert(window@.pending =~= old(window)@.pending + after_pop(events@));
                None
            } else {
                let first = events[0];
                let mut i: usize = 1;
                while i < events.len()
                    invariant
                        1 <= i <= events@.len(),
                        window@ == (WindowView {
                            pending: old(window)@.pending + events@.subrange(1, i as int),
                            modifiers: latch_after_delivery(
                                native_of(nsevent),
                                old(window)@.modifiers,
                            ),
                            ..old(window)@
                        }),
                    decreases events@.len() - i,
                {
                    window.pending_events.push(events[i]);
                    assert(old(window)@.pending + events@.subrange(1, i as int + 1) =~= (old(
                        window,
                    )@.pending + events@.subrange(1, i as int)).push(events@[i as int]));
                    i += 1;
                }
                assert(events@.subrange(1, events@.len() as int) =~= after_pop(events@));
                Some(first)
            }
        },
        None => {
            assert(window@.pending =~= old(window)@.pending + Seq::<Event>::empty());
            None
        },
    }
}

impl Window {
    /// Makes the logical side of a window that is to be embedded in the
    /// parent that the attributes name.
    ///
    /// A window of this platform lives in a view of its host. Without a
    /// parent, or with one that is `NIL`, there is nothing to live in, and the
    /// result is the error `OsError("Parent view is null.")`. With a parent
    /// the window starts with the parent as its host view, no event waiting
    /// and no modifier down. Its own handles are `NIL` until the caller has
    /// attached the native view and says so with [`Window::attach`].
    #[inline]
    pub fn new<M, C>(
        win_attribs: &WindowAttributes<M, C>,
        _pl_attribs: &PlatformSpecificWindowBuilderAttributes,
    ) -> (created: Result<Window, CreationError>)
        ensures
            match created {
                Ok(window) => {
                    &&& win_attribs.parent matches Some(parent)
                    &&& parent != NIL
                    &&& window@ == (WindowView {
                        window: NIL,
                        host_view: parent,
                        view: NIL,
                        pending: Seq::empty(),
                        modifiers: ModifierLatchState {
                            shift: false,
                            ctrl: false,
                            win: false,
                            alt: false,
                        },
                    })
                },
                Err(error) => {
                    &&& win_attribs.parent is None || win_attribs.parent == Some(NIL)
                    &&& error matches CreationError::OsError(text)
                    &&& text@ == "Parent view is null."@
                },
            },
    {
        match win_attribs.parent {
            Some(parent) => {
                if parent == NIL {
                    Err(CreationError::OsError("Parent view is null.".to_owned()))
                } else {
                    Ok(
                        Window {
                            window: NIL,
                            host_view: parent,
                            view: NIL,
                            pending_events: PendingQueue::new(),
                            modifiers: ModifierLatchState::new(),
                        },
                    )
                }
            },
            None => Err(CreationError::OsError("Parent view is null.".to_owned())),
        }
    }

    /// Records the handles that the native view was attached with: that of
    /// the host's window and that of the window's own view.
    pub fn attach(&mut self, window: usize, view: usize)
        ensures
            final(self)@ == (WindowView { window, view, ..old(self)@ }),
    {
        self.window = window;
        self.view = view;
    }

    /// The handle of the host's view that the window lives in.
    pub fn host_view(&self) -> (handle: usize)
        ensures
            handle == self@.host_view,
    {
        self.host_view
    }

    /// Does nothing: the host owns the title.
    #[inline]
    pub fn set_title(&self, _title: &str) {
    }

    /// Does nothing: the host owns the position.
    #[inline]
    pub fn set_position(&self, _x: i32, _y: i32) {
    }

    /// The two parts of the window that the handlers of its view work on:
    /// the queue of events that wait, and the latch of the modifier keys.
    /// What the handlers do to them is done to the window.
    pub fn delivery(&mut self) -> (parts: (&mut PendingQueue, &mut ModifierLatchState))
        ensures
            parts.0@ == old(self)@.pending,
            *parts.1 == old(self)@.modifiers,
            final(self)@ == (WindowView {
                pending: final(parts.0)@,
                modifiers: *final(parts.1),
                ..old(self)@
            }),
    {
        (&mut self.pending_events, &mut self.modifiers)
    }

    /// Puts an event at the tail of the queue, as it is.
    pub fn push_event(&mut self, event: Event)
        ensures
            final(self)@ == (WindowView { pending: old(self)@.pending.push(event), ..old(self)@ }),
    {
        self.pending_events.push(event);
    }

    /// Takes what a native event delivers into the queue: the events of its
    /// translation, in their order, behind what waits already.
    pub fn handle_event(&mut self, nsevent: &NativeEvent)
        ensures
            final(self)@ == (WindowView {
                pending: old(self)@.pending + delivered(Some(*nsevent), old(self)@.modifiers),
                modifiers: latch_after(*nsevent, old(self)@.modifiers),
                ..old(self)@
            }),
    {
        responder::key_event(&mut self.pending_events, &mut self.modifiers, nsevent);
    }

    /// The events that wait, for a consumer that does not block.
    #[inline]
    pub fn poll_events(&mut self) -> (iter: PollEventsIterator<'_>)
        ensures
            *iter.window == *old(self),
            *final(iter.window) == *final(self),
    {
        PollEventsIterator { window: self }
    }

    /// The events that wait, for a consumer that may block until the
    /// operating system has another native event.
    #[inline]
    pub fn wait_events(&mut self) -> (iter: WaitEventsIterator<'_>)
        ensures
            *iter.window == *old(self),
            *final(iter.window) == *final(self),
    {
        WaitEventsIterator { window: self }
    }

    /// A handle by which another thread wakes the event loop.
    #[inline]
    pub fn create_window_proxy(&self) -> (proxy: WindowProxy)
        ensures
            proxy == WindowProxy,
    {
        WindowProxy
    }

    /// Does nothing: the host shows and hides its window.
    #[inline]
    pub fn show(&self) {
    }

    /// Does nothing: the host shows and hides its window.
    #[inline]
    pub fn hide_window(&self) {
    }

    /// The handle of the view that is drawn into.
    #[inline]
    pub fn platform_display(&self) -> (handle: usize)
        ensures
            handle == self@.view,
    {
        self.view
    }

    /// The handle of the host's window.
    #[inline]
    pub fn platform_window(&self) -> (handle: usize)
        ensures
            handle == self@.window,
    {
        self.window
    }

    /// Does nothing, and forgets the callback: the host tells of a new size
    /// in its own way.
    #[inline]
    pub fn set_window_resize_callback<C>(&mut self, _callback: Option<C>)
        ensures
            final(self)@ == old(self)@,
    {
    }

    /// Does nothing: the host owns the pointer.
    #[inline]
    pub fn set_cursor(&self, _cursor: MouseCursor) {
    }

    /// Accepts any state of the pointer, and changes nothing.
    #[inline]
    pub fn set_cursor_state(&self, _state: CursorState) -> (done: Result<(), String>)
        ensures
            done is Ok,
    {
        Ok(())
    }

    /// Accepts any position of the pointer, and changes nothing.
    #[inline]
    pub fn set_cursor_position(&self, _x: i32, _y: i32) -> (done: Result<(), ()>)
        ensures
            done is Ok,
    {
        Ok(())
    }
}

/// The events of a window, one per call, for a consumer that does not block.
pub struct PollEventsIterator<'a> {
    pub window: &'a mut Window,
}

impl<'a> PollEventsIterator<'a> {
    /// The event at the head of the window's queue, which it leaves. `None`
    /// if no event waits; the call does not wait for one.
    #[inline]
    pub fn next(&mut self) -> (event: Option<Event>)
        ensures
            event == front(old(self).window@.pending),
            final(self).window@ == (WindowView {
                pending: after_pop(old(self).window@.pending),
                ..old(self).window@
            }),
            *final(final(self).window) == *final(old(self).window),
    {
        self.window.pending_events.pop_front()
    }
}

/// The events of a window, one per call, for a consumer that has nothing else
/// to do: where no event waits, the caller may block until the operating
/// system has a native event, and hand that in.
pub struct WaitEventsIterator<'a> {
    pub window: &'a mut Window,
}

impl<'a> WaitEventsIterator<'a> {
    /// The event at the head of the window's queue, which it leaves. `None`
    /// if no event waits.
    #[inline]
    pub fn next(&mut self) -> (event: Option<Event>)
        ensures
            event == front(old(self).window@.pending),
            final(self).window@ == (WindowView {
                pending: after_pop(old(self).window@.pending),
                ..old(self).window@
            }),
            *final(final(self).window) == *final(old(self).window),
    {
        self.window.pending_events.pop_front()
    }
}

/// Waking the event loop delivers `Awakened`, and nothing else, whatever the
/// latch of the modifiers.
pub proof fn lemma_wakeup_awakens(latch: ModifierLatchState)
    ensures
        delivered(Some(wakeup_event()), latch) == seq![Event::Awakened],
        latch_after(wakeup_event(), latch) == latch,
{
}

} // verus!
