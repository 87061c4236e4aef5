//! What a caller asks of a window, and how the making of one can fail.

use vstd::prelude::*;

verus! {

/// Why a window could not be made.
#[derive(Clone, Debug, PartialEq, Eq)]
pub enum CreationError {
    /// The operating system refused. The text says which step failed.
    OsError(String),
    /// The platform cannot make a window with the attributes asked for.
    NotSupported,
}

/// How the pointer behaves while it is over a window.
#[derive(Clone, Copy, Debug, PartialEq, Eq, Structural)]
pub enum CursorState {
    /// The pointer is shown and moves freely.
    Normal,
    /// The pointer is not shown.
    Hide,
    /// The pointer is kept inside the window.
    Grab,
}

/// The shape of the pointer.
#[derive(Clone, Copy, Debug, PartialEq, Eq, Structural)]
pub enum MouseCursor {
    Default,
    Crosshair,
    Hand,
    Arrow,
    Move,
    Text,
    Wait,
    Help,
    Progress,
    NotAllowed,
    ContextMenu,
    NoneCursor,
    Cell,
    VerticalText,
    Alias,
    Copy,
    NoDrop,
    Grab,
    Grabbing,
    AllScroll,
    ZoomIn,
    ZoomOut,
    EResize,
    NResize,
    NeResize,
    NwResize,
    SResize,
    SeResize,
    SwResize,
    WResize,
    EwResize,
    NsResize,
    NeswResize,
    NwseResize,
    ColResize,
    RowResize,
}

/// The attributes that a window is asked for.
///
/// `M` is what the platform knows a monitor by, `C` the function that the
/// caller wants called when the window changes size. A parent is the handle
/// of the view or window that the new window is to live in.
pub struct WindowAttributes<M, C> {
    /// The size of the window. `None` leaves the size to the platform.
    pub dimensions: Option<(u32, u32)>,
    /// The least size that the window can be given.
    pub min_dimensions: Option<(u32, u32)>,
    /// The greatest size that the window can be given.
    pub max_dimensions: Option<(u32, u32)>,
    /// If `Some`, the window covers that monitor.
    pub monitor: Option<M>,
    /// The title of the window.
    pub title: String,
    /// Whether the window is shown as soon as it is made.
    pub visible: bool,
    /// Whether the background of the window lets through what is behind it.
    pub transparent: bool,
    /// Whether the window has a border and a title bar.
    pub decorations: bool,
    /// Whether the window takes more than one touch at a time.
    pub multitouch: bool,
    /// Called with the new size when the window changes size.
    pub resize_callback: Option<C>,
    /// The handle of the parent, if the window is to be embedded.
    pub parent: Option<usize>,
}

impl<M, C> WindowAttributes<M, C> {
    /// Whether two sets of attributes ask for the same window.
    pub open spec fn same_as(self, other: WindowAttributes<M, C>) -> bool {
        &&& self.dimensions == other.dimensions
        &&& self.min_dimensions == other.min_dimensions
        &&& self.max_dimensions == other.max_dimensions
        &&& self.monitor == other.monitor
        &&& self.title@ == other.title@
        &&& self.visible == other.visible
        &&& self.transparent == other.transparent
        &&& self.decorations == other.decorations
        &&& self.multitouch == other.multitouch
        &&& self.resize_callback == other.resize_callback
        &&& self.parent == other.parent
    }
}

impl<M: Copy, C: Copy> WindowAttributes<M, C> {
    /// A copy of the attributes as they are now. What the caller does to its
    /// own value afterwards does not reach the copy.
    pub fn snapshot(&self) -> (copy: WindowAttributes<M, C>)
        ensures
            copy.same_as(*self),
    {
        WindowAttributes {
            dimensions: self.dimensions,
            min_dimensions: self.min_dimensions,
            max_dimensions: self.max_dimensions,
            monitor: self.monitor,
            title: self.title.clone(),
            visible: self.visible,
            transparent: self.transparent,
            decorations: self.decorations,
            multitouch: self.multitouch,
            resize_callback: self.resize_callback,
            parent: self.parent,
        }
    }
}

} // verus!
