//! Windows that the window manager sends messages to.
//!
//! A window of this platform belongs to the thread that made it: only that
//! thread gets its messages. So a window without a parent gets a thread of its
//! own, which makes it and then pumps its messages, while a window with a
//! parent is made on the thread that the parent lives on. Either way the
//! caller waits for one answer: the window, or why there is none.
//!
//! What is here are the decisions. The caller makes the calls into the window
//! manager that they ask for, and hands back what the calls returned.

pub mod callback;
pub mod handshake;
pub mod init;
pub mod wide;

use vstd::prelude::*;

use crate::attributes::{CursorState, WindowAttributes};

verus! {

/// The handle that stands for no object.
pub const NULL: usize = 0;

/// The resource number of the arrow, the pointer that a window starts with.
pub const IDC_ARROW: usize = 32512;

/// A monitor, as far as a window that covers it needs to know it.
#[derive(Clone, Copy, Debug, PartialEq, Eq)]
pub struct MonitorId {
    /// The name of the display adapter, in UTF-16, as the window manager
    /// gave it.
    adapter_name: [u16; 32],
    /// The position of the monitor on the desktop.
    position: (u32, u32),
    /// The size of the monitor.
    dimensions: (u32, u32),
}

impl MonitorId {
    /// A monitor with the given adapter, position and size.
    pub fn new(adapter_name: [u16; 32], position: (u32, u32), dimensions: (u32, u32)) -> (monitor:
        MonitorId)
        ensures
            monitor.spec_adapter_name() == adapter_name,
            monitor.spec_position() == position,
            monitor.spec_dimensions() == dimensions,
    {
        MonitorId { adapter_name, position, dimensions }
    }

    pub closed spec fn spec_adapter_name(&self) -> [u16; 32] {
        self.adapter_name
    }

    pub closed spec fn spec_position(&self) -> (u32, u32) {
        self.position
    }

    pub closed spec fn spec_dimensions(&self) -> (u32, u32) {
        self.dimensions
    }

    /// The name of the display adapter.
    #[inline]
    pub fn get_adapter_name(&self) -> (name: &[u16; 32])
        ensures
            *name == self.spec_adapter_name(),
    {
        &self.adapter_name
    }

    /// The position of the monitor on the desktop.
    #[inline]
    pub fn get_position(&self) -> (position: (u32, u32))
        ensures
            position == self.spec_position(),
    {
        self.position
    }

    /// The size of the monitor.
    #[inline]
    pub fn get_dimensions(&self) -> (dimensions: (u32, u32))
        ensures
            dimensions == self.spec_dimensions(),
    {
        self.dimensions
    }
}

/// What only this platform can be asked of a window: nothing.
#[derive(Clone, Copy, Debug, PartialEq, Eq, Structural)]
pub struct PlatformSpecificWindowBuilderAttributes;

/// The state of a window that the window and the handler of its messages
/// share.
pub struct WindowState<C> {
    /// The resource number of the pointer shown over the window.
    pub cursor: usize,
    /// How the pointer behaves over the window.
    pub cursor_state: CursorState,
    /// The attributes that the window was made with.
    pub attributes: WindowAttributes<MonitorId, C>,
}

/// The handle of a window and that of its device context.
#[derive(Clone, Copy, Debug, PartialEq, Eq, Structural)]
pub struct WindowWrapper(pub usize, pub usize);

} // verus!
