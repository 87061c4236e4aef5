//! Making a window.
//!
//! A window is made by a run of calls into the window manager, and what one
//! call returns decides what the next one is. [`Init`] holds how far the run
//! has come. [`Init::action`] says which call is due, with its arguments, and
//! [`Init::on_event`] takes what the call returned. The run ends with the
//! handles of the window, or with the one step that failed; no step is tried
//! a second time.
//!
//! [`new_window`] stands before the run: it takes a copy of what the caller
//! asked for, and says on which thread the window is to be made.

use vstd::prelude::*;
use vstd::std_specs::convert::FromSpecImpl;

use crate::attributes::{CreationError, CursorState, WindowAttributes};
use crate::platform::windows::wide::{encode_wide, wide};
use crate::platform::windows::{
    MonitorId, PlatformSpecificWindowBuilderAttributes, WindowState, WindowWrapper, IDC_ARROW, NULL,
};
use crate::text::{decimal, join, push_decimal};

verus! {

/// Class style: redraw the whole window when its height changes.
pub const CS_VREDRAW: u32 = 0x0001;

/// Class style: redraw the whole window when its width changes.
pub const CS_HREDRAW: u32 = 0x0002;

/// Class style: each window of the class has a device context of its own.
pub const CS_OWNDC: u32 = 0x0020;

/// Window style: a pop-up window, with no frame.
pub const WS_POPUP: u32 = 0x8000_0000;

/// Window style: a child of another window.
pub const WS_CHILD: u32 = 0x4000_0000;

/// Window style: shown as soon as it is made.
pub const WS_VISIBLE: u32 = 0x1000_0000;

/// Window style: does not draw over its siblings.
pub const WS_CLIPSIBLINGS: u32 = 0x0400_0000;

/// Window style: does not draw over its children.
pub const WS_CLIPCHILDREN: u32 = 0x0200_0000;

/// Window style: a title bar, a sizing border, a window menu and the buttons
/// to minimise and maximise.
pub const WS_OVERLAPPEDWINDOW: u32 = 0x00CF_0000;

/// Extended window style: takes files that are dropped on it.
pub const WS_EX_ACCEPTFILES: u32 = 0x0000_0010;

/// Extended window style: a border with a raised edge.
pub const WS_EX_WINDOWEDGE: u32 = 0x0000_0100;

/// Extended window style: shown on the taskbar.
pub const WS_EX_APPWINDOW: u32 = 0x0004_0000;

/// A position or a size that is left to the window manager.
pub const CW_USEDEFAULT: i32 = -0x8000_0000;

/// Display settings: the colour depth is given.
pub const DM_BITSPERPEL: u32 = 0x0004_0000;

/// Display settings: the width is given.
pub const DM_PELSWIDTH: u32 = 0x0008_0000;

/// Display settings: the height is given.
pub const DM_PELSHEIGHT: u32 = 0x0010_0000;

/// Display settings: the change is for a window that covers the screen, and
/// is undone when the window goes.
pub const CDS_FULLSCREEN: u32 = 0x0000_0004;

/// What a change of the display settings returns when it went through.
pub const DISP_CHANGE_SUCCESSFUL: i32 = 0;

/// A rectangle on the desktop.
#[derive(Clone, Copy, Debug, PartialEq, Eq, Structural)]
pub struct Rect {
    pub left: i32,
    pub top: i32,
    pub right: i32,
    pub bottom: i32,
}

/// The copy of the attributes that a window is made from. It has everything
/// that the caller asked for but the parent, which is handed on by itself.
pub struct WindowAttributes2<C> {
    /// The size of the window. `None` leaves the size to the platform.
    pub dimensions: Option<(u32, u32)>,
    /// The least size that the window can be given.
    pub min_dimensions: Option<(u32, u32)>,
    /// The greatest size that the window can be given.
    pub max_dimensions: Option<(u32, u32)>,
    /// If `Some`, the window covers that monitor.
    pub monitor: Option<MonitorId>,
    /// The title of the window.
    pub title: String,
    /// Whether the window is shown as soon as it is made.
    pub visible: bool,
    /// Whether the background of the window lets through what is behind it.
    pub transparent: bool,
    /// Whether the window has a border and a title bar.
    pub decorations: bool,
    /// Whether the window takes more than one touch at a time.
    pub multitouch: bool,
    /// Called with the new size when the window changes size.
    pub resize_callback: Option<C>,
}

impl<C> From<WindowAttributes<MonitorId, C>> for WindowAttributes2<C> {
    fn from(window: WindowAttributes<MonitorId, C>) -> (copy: WindowAttributes2<C>) {
        WindowAttributes2 {
            dimensions: window.dimensions,
            min_dimensions: window.min_dimensions,
            max_dimensions: window.max_dimensions,
            monitor: window.monitor,
            title: window.title,
            visible: window.visible,
            transparent: window.transparent,
            decorations: window.decorations,
            multitouch: window.multitouch,
            resize_callback: window.resize_callback,
        }
    }
}

impl<C> FromSpecImpl<WindowAttributes<MonitorId, C>> for WindowAttributes2<C> {
    open spec fn obeys_from_spec() -> bool {
        true
    }

    open spec fn from_spec(window: WindowAttributes<MonitorId, C>) -> WindowAttributes2<C> {
        WindowAttributes2 {
            dimensions: window.dimensions,
            min_dimensions: window.min_dimensions,
            max_dimensions: window.max_dimensions,
            monitor: window.monitor,
            title: window.title,
            visible: window.visible,
            transparent: window.transparent,
            decorations: window.decorations,
            multitouch: window.multitouch,
            resize_callback: window.resize_callback,
        }
    }
}

/// On which thread a window is made.
#[derive(Clone, Copy, Debug, PartialEq, Eq, Structural)]
pub enum CreationPath {
    /// On the thread of the caller, which is the thread that the parent lives
    /// on.
    Embedded { parent: usize },
    /// On a thread of its own, which goes on to pump the messages of the
    /// window for as long as the window lives.
    Standalone,
}

impl CreationPath {
    /// The path that a parent, or the lack of one, calls for: embedded for a
    /// parent that is not `NULL`, else standalone.
    pub open spec fn of(parent: Option<usize>) -> CreationPath {
        match parent {
            Some(handle) => if handle != NULL {
                CreationPath::Embedded { parent: handle }
            } else {
                CreationPath::Standalone
            },
            None => CreationPath::Standalone,
        }
    }

    /// The parent to make the window with: `NULL` for none.
    pub open spec fn spec_parent(self) -> usize {
        match self {
            CreationPath::Embedded { parent } => parent,
            CreationPath::Standalone => NULL,
        }
    }

    /// The parent to make the window with: `NULL` for none.
    pub fn parent(&self) -> (handle: usize)
        ensures
            handle == self.spec_parent(),
    {
        match self {
            CreationPath::Embedded { parent } => *parent,
            CreationPath::Standalone => NULL,
        }
    }
}

/// What is settled before a window is made.
pub struct CreationPlan<C> {
    /// The title, as the window manager takes it.
    pub title: Vec<u16>,
    /// The copy of the attributes to make the window from.
    pub window: WindowAttributes2<C>,
    /// On which thread the window is made.
    pub path: CreationPath,
}

/// Settles how a window is made: takes a copy of the attributes as they are
/// now, puts the title in the form that the window manager takes, and picks
/// the thread by the parent.
pub fn new_window<C: Copy>(
    window: &WindowAttributes<MonitorId, C>,
    _pl_attribs: &PlatformSpecificWindowBuilderAttributes,
) -> (plan: CreationPlan<C>)
    ensures
        plan.title@ == wide(window.title@),
        plan.path == CreationPath::of(window.parent),
        plan.window.dimensions == window.dimensions,
        plan.window.min_dimensions == window.min_dimensions,
        plan.window.max_dimensions == window.max_dimensions,
        plan.window.monitor == window.monitor,
        plan.window.title@ == window.title@,
        plan.window.visible == window.visible,
        plan.window.transparent == window.transparent,
        plan.window.decorations == window.decorations,
        plan.window.multitouch == window.multitouch,
        plan.window.resize_callback == window.resize_callback,
{
    let title = encode_wide(window.title.as_str());
    let window2 = WindowAttributes2::from(window.snapshot());
    let path = match window.parent {
        Some(parent) => {
            if parent != NULL {
                CreationPath::Embedded { parent }
            } else {
                CreationPath::Standalone
            }
        },
        None => CreationPath::Standalone,
    };
    CreationPlan { title, window: window2, path }
}

/// A window class, as it is registered with the window manager.
pub struct WindowClass {
    /// The name of the class, as the window manager takes it.
    pub name: Vec<u16>,
    /// The style of the class.
    pub style: u32,
}

/// The class that every window is made of: `Window Class`, redrawn as a
/// whole when its size changes, each window with a device context of its
/// own. The caller registers it before each window; a class that is
/// registered already is as good as one that was registered now.
pub fn register_window_class() -> (class: WindowClass)
    ensures
        class.name@ == wide("Window Class"@),
        class.style == CS_HREDRAW | CS_VREDRAW | CS_OWNDC,
{
    WindowClass { name: encode_wide("Window Class"), style: CS_HREDRAW | CS_VREDRAW | CS_OWNDC }
}

/// The display settings that a window asks for when it covers a monitor.
#[derive(Clone, Copy, Debug, PartialEq, Eq, Structural)]
pub struct DisplaySettings {
    /// The width of the screen, in pixels.
    pub width: u32,
    /// The height of the screen, in pixels.
    pub height: u32,
    /// The colour depth, in bits per pixel.
    pub bits_per_pixel: u32,
    /// Which of the settings are given.
    pub fields: u32,
    /// How the change is made.
    pub flags: u32,
}

/// A rectangle moved by the given distance.
pub open spec fn moved(rect: Rect, by: (u32, u32)) -> Rect {
    Rect {
        left: (rect.left + by.0) as i32,
        top: (rect.top + by.1) as i32,
        right: (rect.right + by.0) as i32,
        bottom: (rect.bottom + by.1) as i32,
    }
}

/// Whether a rectangle can be moved by the given distance and still be told
/// in 32-bit coordinates, its right and bottom edge not before its left and
/// top edge.
pub open spec fn can_move(rect: Rect, by: (u32, u32)) -> bool {
    &&& rect.left <= rect.right
    &&& rect.top <= rect.bottom
    &&& rect.right - rect.left <= i32::MAX
    &&& rect.bottom - rect.top <= i32::MAX
    &&& i32::MIN <= rect.left + by.0
    &&& rect.right + by.0 <= i32::MAX
    &&& i32::MIN <= rect.top + by.1
    &&& rect.bottom + by.1 <= i32::MAX
}

/// The display settings for a screen of the given size: 32 bits per pixel,
/// for as long as the window covers the screen.
pub open spec fn display_settings(size: (u32, u32)) -> DisplaySettings {
    DisplaySettings {
        width: size.0,
        height: size.1,
        bits_per_pixel: 32,
        fields: DM_BITSPERPEL | DM_PELSWIDTH | DM_PELSHEIGHT,
        flags: CDS_FULLSCREEN,
    }
}

/// Prepares a window to cover a monitor: moves its rectangle to where the
/// monitor is, and gives the display settings to ask the monitor for.
pub fn switch_to_fullscreen(rect: &mut Rect, monitor: &MonitorId) -> (settings: DisplaySettings)
    requires
        can_move(*old(rect), monitor.spec_position()),
    ensures
        *final(rect) == moved(*old(rect), monitor.spec_position()),
        settings == display_settings(
            ((old(rect).right - old(rect).left) as u32, (old(rect).bottom - old(rect).top) as u32),
        ),
{
    let pos = monitor.get_position();
    let dx: i64 = pos.0 as i64;
    let dy: i64 = pos.1 as i64;
    rect.left = (rect.left as i64 + dx) as i32;
    rect.right = (rect.right as i64 + dx) as i32;
    rect.top = (rect.top as i64 + dy) as i32;
    rect.bottom = (rect.bottom as i64 + dy) as i32;
    DisplaySettings {
        width: (rect.right as i64 - rect.left as i64) as u32,
        height: (rect.bottom as i64 - rect.top as i64) as u32,
        bits_per_pixel: 32,
        fields: DM_BITSPERPEL | DM_PELSWIDTH | DM_PELSHEIGHT,
        flags: CDS_FULLSCREEN,
    }
}

/// The step of making a window that failed.
#[derive(Clone, Copy, Debug, PartialEq, Eq, Structural)]
pub enum InitFailure {
    /// The window manager did not take the class of the window.
    RegisterClass,
    /// The display settings could not be changed. `result` is what the
    /// window manager returned.
    DisplayChange { result: i32 },
    /// The window manager made no window.
    CreateWindow,
    /// The window manager gave no device context for the window.
    DeviceContext,
}

/// The text of the error for a step that failed. `os_error` is what the
/// operating system says of its last error; a change of the display settings
/// tells its own result instead.
pub open spec fn error_text(failure: InitFailure, os_error: Seq<char>) -> Seq<char> {
    match failure {
        InitFailure::RegisterClass => "RegisterClassEx function failed: "@ + os_error,
        InitFailure::DisplayChange { result } => "ChangeDisplaySettings failed: "@ + decimal(
            result as int,
        ),
        InitFailure::CreateWindow => "CreateWindowEx function failed: "@ + os_error,
        InitFailure::DeviceContext => "GetDC function failed: "@ + os_error,
    }
}

impl InitFailure {
    /// The error that the caller is told: an `OsError` with the text of
    /// [`error_text`].
    pub fn into_error(self, os_error: &str) -> (error: CreationError)
        ensures
            error matches CreationError::OsError(text) && text@ == error_text(self, os_error@),
    {
        match self {
            InitFailure::RegisterClass => CreationError::OsError(
                join("RegisterClassEx function failed: ", os_error),
            ),
            InitFailure::DisplayChange { result } => {
                let mut text = "ChangeDisplaySettings failed: ".to_owned();
                push_decimal(&mut text, result);
                CreationError::OsError(text)
            },
            InitFailure::CreateWindow => CreationError::OsError(
                join("CreateWindowEx function failed: ", os_error),
            ),
            InitFailure::DeviceContext => CreationError::OsError(
                join("GetDC function failed: ", os_error),
            ),
        }
    }
}

/// The extended style and the style that a window starts from. A window
/// that covers a monitor, or has no decorations, has no frame: it is a
/// pop-up, unless it has a parent, since a child cannot be a pop-up. Any
/// other window has the frame of an overlapped window.
pub open spec fn window_styles(fullscreen: bool, decorations: bool, has_parent: bool) -> (
    u32,
    u32,
) {
    if fullscreen || !decorations {
        (
            WS_EX_APPWINDOW,
            if has_parent {
                WS_CLIPSIBLINGS | WS_CLIPCHILDREN
            } else {
                WS_POPUP | WS_CLIPSIBLINGS | WS_CLIPCHILDREN
            },
        )
    } else {
        (
            WS_EX_APPWINDOW | WS_EX_WINDOWEDGE,
            WS_OVERLAPPEDWINDOW | WS_CLIPSIBLINGS | WS_CLIPCHILDREN,
        )
    }
}

/// The style that a window is made with: the style it starts from, visible
/// if it is to be shown at once, a child if it has a parent.
pub open spec fn creation_style(style: u32, visible: bool, has_parent: bool) -> u32 {
    let shown = if visible {
        style | WS_VISIBLE
    } else {
        style
    };
    let placed = if has_parent {
        shown | WS_CHILD
    } else {
        shown
    };
    placed | WS_CLIPSIBLINGS | WS_CLIPCHILDREN
}

/// What `init` reads of the attributes and the parent.
#[derive(Clone, Copy, Debug, PartialEq, Eq)]
pub struct InitRequest {
    /// The size asked for, if any.
    pub dimensions: Option<(u32, u32)>,
    /// The position of the monitor to cover, if the window is to cover one.
    pub monitor: Option<(u32, u32)>,
    pub visible: bool,
    pub transparent: bool,
    pub decorations: bool,
    /// The parent, `NULL` for none.
    pub parent: usize,
}

impl InitRequest {
    /// Whether the window is to cover a monitor.
    pub open spec fn fullscreen(self) -> bool {
        self.monitor is Some
    }

    /// Whether the window has a parent.
    pub open spec fn has_parent(self) -> bool {
        self.parent != NULL
    }

    /// The size of the client area asked for: 1024 by 768 if none was.
    pub open spec fn client_size(self) -> (u32, u32) {
        match self.dimensions {
            Some(size) => size,
            None => (1024u32, 768u32),
        }
    }

    /// The rectangle of the client area before it is moved to a monitor.
    pub open spec fn client_rect(self) -> Rect {
        Rect {
            left: 0,
            top: 0,
            right: self.client_size().0 as i32,
            bottom: self.client_size().1 as i32,
        }
    }

    /// The rectangle of the client area, on the monitor if the window is to
    /// cover one.
    pub open spec fn placed_rect(self) -> Rect {
        match self.monitor {
            Some(position) => moved(self.client_rect(), position),
            None => self.client_rect(),
        }
    }

    /// Whether the rectangle of the client area can be told in 32-bit
    /// coordinates.
    pub open spec fn fits(self) -> bool {
        &&& self.client_size().0 <= i32::MAX
        &&& self.client_size().1 <= i32::MAX
        &&& self.monitor matches Some(position) ==> can_move(self.client_rect(), position)
    }
}

/// The arguments that a window is made with.
#[derive(Clone, Copy, Debug, PartialEq, Eq, Structural)]
pub struct CreateRequest {
    pub ex_style: u32,
    pub style: u32,
    pub x: i32,
    pub y: i32,
    pub width: i32,
    pub height: i32,
    pub parent: usize,
}

/// How far the making of a window has come: which call is due.
#[derive(Clone, Copy, Debug, PartialEq, Eq, Structural)]
pub enum InitPhase {
    RegisterClass,
    ChangeDisplaySettings,
    AdjustWindowRect,
    CreateWindow,
    GetDeviceContext,
    EnableBlurBehind,
    SetForegroundWindow,
    Done,
}

/// The call into the window manager that is due, or how the run ended.
#[derive(Clone, Copy, Debug, PartialEq, Eq, Structural)]
pub enum InitAction {
    /// Register the class of [`register_window_class`].
    RegisterClass,
    /// Change the settings of the display that the window is to cover.
    ChangeDisplaySettings { settings: DisplaySettings },
    /// Have the rectangle of the client area grown by the frame that the
    /// styles call for.
    AdjustWindowRect { rect: Rect, style: u32, ex_style: u32 },
    /// Make the window.
    CreateWindow { request: CreateRequest },
    /// Get the device context of the window.
    GetDeviceContext { handle: usize },
    /// Let through what is behind the window.
    EnableBlurBehind { handle: usize },
    /// Bring the window to the front.
    SetForegroundWindow { handle: usize },
    /// Nothing more: the window is made.
    Succeed { window: WindowWrapper },
    /// Nothing more: the step named failed.
    Fail { failure: InitFailure },
}

/// What a call into the window manager returned.
#[derive(Clone, Copy, Debug, PartialEq, Eq, Structural)]
pub enum InitEvent {
    /// Whether the window manager has the class now: it took it, or had it
    /// already.
    ClassRegistered { registered: bool },
    /// The change of the display settings returned `result`.
    DisplaySettingsChanged { result: i32 },
    /// The rectangle, grown by the frame.
    RectAdjusted { rect: Rect },
    /// The handle of the window that was made, `NULL` if none was.
    WindowCreated { handle: usize },
    /// The device context of the window, `NULL` if there is none.
    DeviceContext { hdc: usize },
    /// What is behind the window is let through.
    BlurEnabled,
    /// The window was brought to the front.
    ForegroundSet,
}

/// The making of one window, as far as it has come.
#[derive(Clone, Copy, Debug, PartialEq, Eq)]
pub struct Init {
    /// What was asked for.
    pub request: InitRequest,
    /// Which call is due.
    pub phase: InitPhase,
    /// The rectangle of the client area, on the monitor if the window is to
    /// cover one.
    pub rect: Rect,
    /// The arguments to make the window with, once the rectangle was grown
    /// by the frame.
    pub create: CreateRequest,
    /// The handles of the window, as far as they are known; `NULL` before.
    pub window: WindowWrapper,
    /// The step that failed, if one did.
    pub failure: Option<InitFailure>,
}

/// The phase that follows once the device context is there, or once what is
/// behind the window is let through: what is still to do of the two calls
/// that only some windows need.
pub open spec fn phase_after(phase: InitPhase, request: InitRequest) -> InitPhase {
    if phase == InitPhase::GetDeviceContext && request.transparent {
        InitPhase::EnableBlurBehind
    } else if request.fullscreen() {
        InitPhase::SetForegroundWindow
    } else {
        InitPhase::Done
    }
}

/// The arguments to make a window with, given the rectangle that the window
/// manager grew by the frame. Size and position are those of the rectangle
/// where the caller asked for a size or a monitor, and are left to the window
/// manager where the caller did not.
pub open spec fn create_request(request: InitRequest, adjusted: Rect) -> CreateRequest {
    let styles = window_styles(request.fullscreen(), request.decorations, request.has_parent());
    CreateRequest {
        ex_style: styles.0 | WS_EX_ACCEPTFILES,
        style: creation_style(styles.1, request.visible, request.has_parent()),
        x: if request.fullscreen() {
            adjusted.left
        } else {
            CW_USEDEFAULT
        },
        y: if request.fullscreen() {
            adjusted.top
        } else {
            CW_USEDEFAULT
        },
        width: if request.fullscreen() || request.dimensions is Some {
            (adjusted.right - adjusted.left) as i32
        } else {
            CW_USEDEFAULT
        },
        height: if request.fullscreen() || request.dimensions is Some {
            (adjusted.bottom - adjusted.top) as i32
        } else {
            CW_USEDEFAULT
        },
        parent: request.parent,
    }
}

impl Init {
    /// The start of a run: nothing is done yet, and the class is to be
    /// registered.
    pub open spec fn start(request: InitRequest) -> Init {
        Init {
            request,
            phase: InitPhase::RegisterClass,
            rect: request.placed_rect(),
            create: CreateRequest {
                ex_style: 0,
                style: 0,
                x: 0,
                y: 0,
                width: 0,
                height: 0,
                parent: request.parent,
            },
            window: WindowWrapper(NULL, NULL),
            failure: None,
        }
    }

    /// The run, ended by the failure of a step.
    pub open spec fn failed(self, failure: InitFailure) -> Init {
        Init { phase: InitPhase::Done, failure: Some(failure), ..self }
    }

    /// Whether the run has ended.
    pub open spec fn is_done(self) -> bool {
        self.phase == InitPhase::Done
    }

    /// Whether an event is what the call that is due returns.
    pub open spec fn answers(self, event: InitEvent) -> bool {
        match (self.phase, event) {
            (InitPhase::RegisterClass, InitEvent::ClassRegistered { .. }) => true,
            (InitPhase::ChangeDisplaySettings, InitEvent::DisplaySettingsChanged { .. }) => true,
            (InitPhase::AdjustWindowRect, InitEvent::RectAdjusted { .. }) => true,
            (InitPhase::CreateWindow, InitEvent::WindowCreated { .. }) => true,
            (InitPhase::GetDeviceContext, InitEvent::DeviceContext { .. }) => true,
            (InitPhase::EnableBlurBehind, InitEvent::BlurEnabled) => true,
            (InitPhase::SetForegroundWindow, InitEvent::ForegroundSet) => true,
            _ => false,
        }
    }

    /// Whether the numbers of an event can be worked with: the size of a
    /// rectangle that the window manager grew can be told in 32 bits.
    pub open spec fn fits(self, event: InitEvent) -> bool {
        self.phase == InitPhase::AdjustWindowRect ==> (event matches InitEvent::RectAdjusted {
            rect,
        } ==> {
            &&& i32::MIN <= rect.right - rect.left <= i32::MAX
            &&& i32::MIN <= rect.bottom - rect.top <= i32::MAX
        })
    }

    /// The run after the call that was due returned the given event.
    ///
    /// An event that does not answer the call that is due changes nothing. A
    /// class that the window manager does not have, a change of the display
    /// settings that did not go through, a window that was not made and a
    /// device context that was not given each end the run with their failure.
    /// Anything else moves the run on to the next call.
    pub open spec fn step(self, event: InitEvent) -> Init {
        match (self.phase, event) {
            (InitPhase::RegisterClass, InitEvent::ClassRegistered { registered }) => {
                if !registered {
                    self.failed(InitFailure::RegisterClass)
                } else {
                    Init {
                        phase: if self.request.fullscreen() {
                            InitPhase::ChangeDisplaySettings
                        } else {
                            InitPhase::AdjustWindowRect
                        },
                        ..self
                    }
                }
            },
            (InitPhase::ChangeDisplaySettings, InitEvent::DisplaySettingsChanged { result }) => {
                if result != DISP_CHANGE_SUCCESSFUL {
                    self.failed(InitFailure::DisplayChange { result })
                } else {
                    Init { phase: InitPhase::AdjustWindowRect, ..self }
                }
            },
            (InitPhase::AdjustWindowRect, InitEvent::RectAdjusted { rect }) => Init {
                phase: InitPhase::CreateWindow,
                create: create_request(self.request, rect),
                ..self
            },
            (InitPhase::CreateWindow, InitEvent::WindowCreated { handle }) => {
                if handle == NULL {
                    self.failed(InitFailure::CreateWindow)
                } else {
                    Init {
                        phase: InitPhase::GetDeviceContext,
                        window: WindowWrapper(handle, NULL),
                        ..self
                    }
                }
            },
            (InitPhase::GetDeviceContext, InitEvent::DeviceContext { hdc }) => {
                if hdc == NULL {
                    self.failed(InitFailure::DeviceContext)
                } else {
                    Init {
                        phase: phase_after(InitPhase::GetDeviceContext, self.request),
                        window: WindowWrapper(self.window.0, hdc),
                        ..self
                    }
                }
            },
            (InitPhase::EnableBlurBehind, InitEvent::BlurEnabled) => Init {
                phase: phase_after(InitPhase::EnableBlurBehind, self.request),
                ..self
            },
            (InitPhase::SetForegroundWindow, InitEvent::ForegroundSet) => Init {
                phase: InitPhase::Done,
                ..self
            },
            _ => self,
        }
    }

    /// The call that is due, or how the run ended.
    pub open spec fn spec_action(self) -> InitAction {
        match self.phase {
            InitPhase::RegisterClass => InitAction::RegisterClass,
            InitPhase::ChangeDisplaySettings => InitAction::ChangeDisplaySettings {
                settings: display_settings(self.request.client_size()),
            },
            InitPhase::AdjustWindowRect => {
                let styles = window_styles(
                    self.request.fullscreen(),
                    self.request.decorations,
                    self.request.has_parent(),
                );
                InitAction::AdjustWindowRect { rect: self.rect, style: styles.1, ex_style: styles.0 }
            },
            InitPhase::CreateWindow => InitAction::CreateWindow { request: self.create },
            InitPhase::GetDeviceContext => InitAction::GetDeviceContext { handle: self.window.0 },
            InitPhase::EnableBlurBehind => InitAction::EnableBlurBehind { handle: self.window.0 },
            InitPhase::SetForegroundWindow => InitAction::SetForegroundWindow {
                handle: self.window.0,
            },
            InitPhase::Done => match self.failure {
                Some(failure) => InitAction::Fail { failure },
                None => InitAction::Succeed { window: self.window },
            },
        }
    }

    /// The call that is due, or how the run ended.
    pub fn action(&self) -> (action: InitAction)
        ensures
            action == self.spec_action(),
    {
        match self.phase {
            InitPhase::RegisterClass => InitAction::RegisterClass,
            InitPhase::ChangeDisplaySettings => {
                let size = client_size(&self.request);
                InitAction::ChangeDisplaySettings {
                    settings: DisplaySettings {
                        width: size.0,
                        height: size.1,
                        bits_per_pixel: 32,
                        fields: DM_BITSPERPEL | DM_PELSWIDTH | DM_PELSHEIGHT,
                        flags: CDS_FULLSCREEN,
                    },
                }
            },
            InitPhase::AdjustWindowRect => {
                let styles = styles_of(&self.request);
                InitAction::AdjustWindowRect { rect: self.rect, style: styles.1, ex_style: styles.0 }
            },
            InitPhase::CreateWindow => InitAction::CreateWindow { request: self.create },
            InitPhase::GetDeviceContext => InitAction::GetDeviceContext { handle: self.window.0 },
            InitPhase::EnableBlurBehind => InitAction::EnableBlurBehind { handle: self.window.0 },
            InitPhase::SetForegroundWindow => InitAction::SetForegroundWindow {
                handle: self.window.0,
            },
            InitPhase::Done => match self.failure {
                Some(failure) => InitAction::Fail { failure },
                None => InitAction::Succeed { window: self.window },
            },
        }
    }

    /// Takes what the call that was due returned, and moves the run on.
    pub fn on_event(&mut self, event: InitEvent)
        requires
            old(self).fits(event),
        ensures
            *final(self) == old(self).step(event),
    {
        match (self.phase, event) {
            (InitPhase::RegisterClass, InitEvent::ClassRegistered { registered }) => {
                if !registered {
                    self.phase = InitPhase::Done;
                    self.failure = Some(InitFailure::RegisterClass);
                } else if self.request.monitor.is_some() {
                    self.phase = InitPhase::ChangeDisplaySettings;
                } else {
                    self.phase = InitPhase::AdjustWindowRect;
                }
            },
            (InitPhase::ChangeDisplaySettings, InitEvent::DisplaySettingsChanged { result }) => {
                if result != DISP_CHANGE_SUCCESSFUL {
                    self.phase = InitPhase::Done;
                    self.failure = Some(InitFailure::DisplayChange { result });
                } else {
                    self.phase = InitPhase::AdjustWindowRect;
                }
            },
            (InitPhase::AdjustWindowRect, InitEvent::RectAdjusted { rect }) => {
                self.create = make_create_request(&self.request, rect);
                self.phase = InitPhase::CreateWindow;
            },
            (InitPhase::CreateWindow, InitEvent::WindowCreated { handle }) => {
                if handle == NULL {
                    self.phase = InitPhase::Done;
                    self.failure = Some(InitFailure::CreateWindow);
                } else {
                    self.window = WindowWrapper(handle, NULL);
                    self.phase = InitPhase::GetDeviceContext;
                }
            },
            (InitPhase::GetDeviceContext, InitEvent::DeviceContext { hdc }) => {
                if hdc == NULL {
                    self.phase = InitPhase::Done;
                    self.failure = Some(InitFailure::DeviceContext);
                } else {
                    self.window = WindowWrapper(self.window.0, hdc);
                    if self.request.transparent {
                        self.phase = InitPhase::EnableBlurBehind;
                    } else if self.request.monitor.is_some() {
                        self.phase = InitPhase::SetForegroundWindow;
                    } else {
                        self.phase = InitPhase::Done;
                    }
                }
            },
            (InitPhase::EnableBlurBehind, InitEvent::BlurEnabled) => {
                if self.request.monitor.is_some() {
                    self.phase = InitPhase::SetForegroundWindow;
                } else {
                    self.phase = InitPhase::Done;
                }
            },
            (InitPhase::SetForegroundWindow, InitEvent::ForegroundSet) => {
                self.phase = InitPhase::Done;
            },
            _ => {},
        }
    }
}

/// The size of the client area asked for: 1024 by 768 if none was.
fn client_size(request: &InitRequest) -> (size: (u32, u32))
    ensures
        size == request.client_size(),
{
    match request.dimensions {
        Some(size) => size,
        None => (1024, 768),
    }
}

/// The extended style and the style that the window starts from.
fn styles_of(request: &InitRequest) -> (styles: (u32, u32))
    ensures
        styles == window_styles(request.fullscreen(), request.decorations, request.has_parent()),
{
    if request.monitor.is_some() || !request.decorations {
        (
            WS_EX_APPWINDOW,
            if request.parent != NULL {
                WS_CLIPSIBLINGS | WS_CLIPCHILDREN
            } else {
                WS_POPUP | WS_CLIPSIBLINGS | WS_CLIPCHILDREN
            },
        )
    } else {
        (
            WS_EX_APPWINDOW | WS_EX_WINDOWEDGE,
            WS_OVERLAPPEDWINDOW | WS_CLIPSIBLINGS | WS_CLIPCHILDREN,
        )
    }
}

/// The arguments to make the window with, given the rectangle that the
/// window manager grew by the frame.
fn make_create_request(request: &InitRequest, adjusted: Rect) -> (create: CreateRequest)
    requires
        i32::MIN <= adjusted.right - adjusted.left <= i32::MAX,
        i32::MIN <= adjusted.bottom - adjusted.top <= i32::MAX,
    ensures
        create == create_request(*request, adjusted),
{
    let (ex_style, style) = styles_of(request);
    let fullscreen = request.monitor.is_some();
    let (width, height) = if fullscreen || request.dimensions.is_some() {
        (Some(adjusted.right - adjusted.left), Some(adjusted.bottom - adjusted.top))
    } else {
        (None, None)
    };
    let (x, y) = if fullscreen {
        (Some(adjusted.left), Some(adjusted.top))
    } else {
        (None, None)
    };
    let mut style = if !request.visible {
        style
    } else {
        style | WS_VISIBLE
    };
    if request.parent != NULL {
        style = style | WS_CHILD;
    }
    CreateRequest {
        ex_style: ex_style | WS_EX_ACCEPTFILES,
        style: style | WS_CLIPSIBLINGS | WS_CLIPCHILDREN,
        x: x.unwrap_or(CW_USEDEFAULT),
        y: y.unwrap_or(CW_USEDEFAULT),
        width: width.unwrap_or(CW_USEDEFAULT),
        height: height.unwrap_or(CW_USEDEFAULT),
        parent: request.parent,
    }
}

/// The calls that a run can still make, at most, from a phase.
pub open spec fn calls_left(phase: InitPhase) -> nat {
    match phase {
        InitPhase::RegisterClass => 7,
        InitPhase::ChangeDisplaySettings => 6,
        InitPhase::AdjustWindowRect => 5,
        InitPhase::CreateWindow => 4,
        InitPhase::GetDeviceContext => 3,
        InitPhase::EnableBlurBehind => 2,
        InitPhase::SetForegroundWindow => 1,
        InitPhase::Done => 0,
    }
}

/// A run after a list of events, taken one after the other.
pub open spec fn run(from: Init, events: Seq<InitEvent>) -> Init
    decreases events.len(),
{
    if events.len() == 0 {
        from
    } else {
        run(from.step(events[0]), events.drop_first())
    }
}

/// What the calls return, in order, when each of them goes through: the
/// window manager has the class, changes the display settings where a
/// monitor is to be covered, grows the rectangle to `adjusted`, makes the
/// window `handle` with the device context `hdc`, and does the calls that
/// only a transparent window and a window that covers a monitor need.
pub open spec fn events_of_success(
    request: InitRequest,
    adjusted: Rect,
    handle: usize,
    hdc: usize,
) -> Seq<InitEvent> {
    seq![InitEvent::ClassRegistered { registered: true }] + (if request.fullscreen() {
        seq![InitEvent::DisplaySettingsChanged { result: DISP_CHANGE_SUCCESSFUL }]
    } else {
        Seq::empty()
    }) + seq![
        InitEvent::RectAdjusted { rect: adjusted },
        InitEvent::WindowCreated { handle },
        InitEvent::DeviceContext { hdc },
    ] + (if request.transparent {
        seq![InitEvent::BlurEnabled]
    } else {
        Seq::empty()
    }) + (if request.fullscreen() {
        seq![InitEvent::ForegroundSet]
    } else {
        Seq::empty()
    })
}

/// Each step that can fail ends the run when it does, with the failure of
/// that step and no other.
pub proof fn lemma_failure_ends_run(at: Init, event: InitEvent)
    ensures
        at.phase == InitPhase::RegisterClass && event == (InitEvent::ClassRegistered {
            registered: false,
        }) ==> at.step(event).spec_action() == (InitAction::Fail {
            failure: InitFailure::RegisterClass,
        }),
        at.phase == InitPhase::ChangeDisplaySettings ==> (event
            matches InitEvent::DisplaySettingsChanged { result } ==> (result
            != DISP_CHANGE_SUCCESSFUL ==> at.step(event).spec_action() == (InitAction::Fail {
            failure: InitFailure::DisplayChange { result },
        }))),
        at.phase == InitPhase::CreateWindow && event == (InitEvent::WindowCreated {
            handle: NULL,
        }) ==> at.step(event).spec_action() == (InitAction::Fail {
            failure: InitFailure::CreateWindow,
        }),
        at.phase == InitPhase::GetDeviceContext && event == (InitEvent::DeviceContext {
            hdc: NULL,
        }) ==> at.step(event).spec_action() == (InitAction::Fail {
            failure: InitFailure::DeviceContext,
        }),
{
}

/// A run that has ended stays as it is, whatever comes: nothing is tried a
/// second time, and how the run ended does not change.
pub proof fn lemma_done_is_final(at: Init, event: InitEvent)
    requires
        at.is_done(),
    ensures
        at.step(event) == at,
{
}

/// An event that answers the call that is due brings the run nearer to its
/// end, and any other event leaves it where it is. So a run makes seven
/// calls at most.
pub proof fn lemma_run_is_short(at: Init, event: InitEvent)
    ensures
        at.answers(event) ==> calls_left(at.step(event).phase) < calls_left(at.phase),
        !at.answers(event) ==> at.step(event) == at,
{
}

/// A run in which every call goes through ends with the handles that the
/// window manager gave, and that window is made with the arguments that the
/// grown rectangle calls for.
pub proof fn lemma_success(request: InitRequest, adjusted: Rect, handle: usize, hdc: usize)
    requires
        handle != NULL,
        hdc != NULL,
    ensures
        ({
            let end = run(Init::start(request), events_of_success(request, adjusted, handle, hdc));
            &&& end.spec_action() == InitAction::Succeed { window: WindowWrapper(handle, hdc) }
            &&& end.create == create_request(request, adjusted)
        }),
{
    let events = events_of_success(request, adjusted, handle, hdc);
    let s0 = Init::start(request);
    let s1 = s0.step(InitEvent::ClassRegistered { registered: true });
    let s2 = if request.fullscreen() {
        s1.step(InitEvent::DisplaySettingsChanged { result: DISP_CHANGE_SUCCESSFUL })
    } else {
        s1
    };
    let s3 = s2.step(InitEvent::RectAdjusted { rect: adjusted });
    let s4 = s3.step(InitEvent::WindowCreated { handle });
    let s5 = s4.step(InitEvent::DeviceContext { hdc });
    let s6 = if request.transparent {
        s5.step(InitEvent::BlurEnabled)
    } else {
        s5
    };
    let s7 = if request.fullscreen() {
        s6.step(InitEvent::ForegroundSet)
    } else {
        s6
    };
    let tail7: Seq<InitEvent> = if request.fullscreen() {
        seq![InitEvent::ForegroundSet]
    } else {
        Seq::empty()
    };
    let tail6 = (if request.transparent {
        seq![InitEvent::BlurEnabled]
    } else {
        Seq::<InitEvent>::empty()
    }) + tail7;
    let tail5 = seq![InitEvent::DeviceContext { hdc }] + tail6;
    let tail4 = seq![InitEvent::WindowCreated { handle }] + tail5;
    let tail3 = seq![InitEvent::RectAdjusted { rect: adjusted }] + tail4;
    let tail2 = (if request.fullscreen() {
        seq![InitEvent::DisplaySettingsChanged { result: DISP_CHANGE_SUCCESSFUL }]
    } else {
        Seq::<InitEvent>::empty()
    }) + tail3;
    assert(run(s7, Seq::empty()) == s7);
    assert(run(s6, tail7) == s7) by {
        if request.fullscreen() {
            assert(tail7.drop_first() =~= Seq::<InitEvent>::empty());
        }
    }
    assert(run(s5, tail6) == s7) by {
        if request.transparent {
            assert(tail6.drop_first() =~= tail7);
        } else {
            assert(tail6 =~= tail7);
        }
    }
    assert(run(s4, tail5) == s7) by {
        assert(tail5.drop_first() =~= tail6);
    }
    assert(run(s3, tail4) == s7) by {
        assert(tail4.drop_first() =~= tail5);
    }
    assert(run(s2, tail3) == s7) by {
        assert(tail3.drop_first() =~= tail4);
    }
    assert(run(s1, tail2) == s7) by {
        if request.fullscreen() {
            assert(tail2.drop_first() =~= tail3);
        } else {
            assert(tail2 =~= tail3);
        }
    }
    assert(events =~= seq![InitEvent::ClassRegistered { registered: true }] + tail2);
    assert(events.drop_first() =~= tail2);
    assert(run(s0, events) == s7);
}

/// What the bits of a style say, for each style that a window can start
/// from.
proof fn lemma_creation_style_bits(style: u32, visible: bool, has_parent: bool)
    by (bit_vector)
    requires
        style == WS_CLIPSIBLINGS | WS_CLIPCHILDREN || style == WS_POPUP | WS_CLIPSIBLINGS
            | WS_CLIPCHILDREN || style == WS_OVERLAPPEDWINDOW | WS_CLIPSIBLINGS | WS_CLIPCHILDREN,
    ensures
        (creation_style(style, visible, has_parent) & WS_CHILD == WS_CHILD) == has_parent,
        (creation_style(style, visible, has_parent) & WS_VISIBLE == WS_VISIBLE) == visible,
        (creation_style(style, visible, has_parent) & WS_POPUP == WS_POPUP) == (style & WS_POPUP
            == WS_POPUP),
        creation_style(style, visible, has_parent) & WS_CLIPSIBLINGS == WS_CLIPSIBLINGS,
        creation_style(style, visible, has_parent) & WS_CLIPCHILDREN == WS_CLIPCHILDREN,
        (WS_CLIPSIBLINGS | WS_CLIPCHILDREN) & WS_POPUP != WS_POPUP,
        (WS_OVERLAPPEDWINDOW | WS_CLIPSIBLINGS | WS_CLIPCHILDREN) & WS_POPUP != WS_POPUP,
        (WS_POPUP | WS_CLIPSIBLINGS | WS_CLIPCHILDREN) & WS_POPUP == WS_POPUP,
        (WS_EX_APPWINDOW | WS_EX_ACCEPTFILES) & WS_EX_ACCEPTFILES == WS_EX_ACCEPTFILES,
        (WS_EX_APPWINDOW | WS_EX_WINDOWEDGE | WS_EX_ACCEPTFILES) & WS_EX_ACCEPTFILES
            == WS_EX_ACCEPTFILES,
{
}

/// What the styles that a window is made with say of it: it is a child
/// exactly if it has a parent, visible exactly if it was asked to be, a
/// pop-up exactly if it has no frame and no parent; it never draws over its
/// siblings or its children, and it takes files that are dropped on it.
pub proof fn lemma_styles(request: InitRequest, adjusted: Rect)
    ensures
        ({
            let create = create_request(request, adjusted);
            &&& (create.style & WS_CHILD == WS_CHILD) == request.has_parent()
            &&& (create.style & WS_VISIBLE == WS_VISIBLE) == request.visible
            &&& (create.style & WS_POPUP == WS_POPUP) == ((request.fullscreen()
                || !request.decorations) && !request.has_parent())
            &&& create.style & WS_CLIPSIBLINGS == WS_CLIPSIBLINGS
            &&& create.style & WS_CLIPCHILDREN == WS_CLIPCHILDREN
            &&& create.ex_style & WS_EX_ACCEPTFILES == WS_EX_ACCEPTFILES
        }),
{
    let styles = window_styles(request.fullscreen(), request.decorations, request.has_parent());
    lemma_creation_style_bits(styles.1, request.visible, request.has_parent());
}

/// Different steps fail with different texts, whatever the operating system
/// says of its last error.
pub proof fn lemma_error_texts_differ(
    one: InitFailure,
    other: InitFailure,
    os_error: Seq<char>,
    other_os_error: Seq<char>,
)
    requires
        one is RegisterClass && !(other is RegisterClass) || one is DisplayChange && !(other
            is DisplayChange) || one is CreateWindow && !(other is CreateWindow) || one
            is DeviceContext && !(other is DeviceContext),
    ensures
        error_text(one, os_error) != error_text(other, other_os_error),
{
    reveal_strlit("RegisterClassEx function failed: ");
    reveal_strlit("ChangeDisplaySettings failed: ");
    reveal_strlit("CreateWindowEx function failed: ");
    reveal_strlit("GetDC function failed: ");
    let a = error_text(one, os_error);
    let b = error_text(other, other_os_error);
    assert(a.len() >= 2 && b.len() >= 2);
    assert(a[0] != b[0] || a[1] != b[1]);
}


/// What `init` reads of the attributes and the parent.
pub open spec fn request_of<C>(window: WindowAttributes2<C>, maybe_parent: usize) -> InitRequest {
    InitRequest {
        dimensions: window.dimensions,
        monitor: match window.monitor {
            Some(monitor) => Some(monitor.spec_position()),
            None => None,
        },
        visible: window.visible,
        transparent: window.transparent,
        decorations: window.decorations,
        parent: maybe_parent,
    }
}

/// Starts the making of a window from the copy of its attributes and its
/// parent, `NULL` for none. The first call that is due registers the class.
pub fn init<C>(
    window: &WindowAttributes2<C>,
    _pl_attribs: PlatformSpecificWindowBuilderAttributes,
    maybe_parent: usize,
) -> (run: Init)
    requires
        request_of(*window, maybe_parent).fits(),
    ensures
        run == Init::start(request_of(*window, maybe_parent)),
{
    let size = match window.dimensions {
        Some(size) => size,
        None => (1024, 768),
    };
    let mut rect = Rect { left: 0, top: 0, right: size.0 as i32, bottom: size.1 as i32 };
    let monitor = match &window.monitor {
        Some(monitor) => {
            let _settings = switch_to_fullscreen(&mut rect, monitor);
            Some(monitor.get_position())
        },
        None => None,
    };
    let request = InitRequest {
        dimensions: window.dimensions,
        monitor,
        visible: window.visible,
        transparent: window.transparent,
        decorations: window.decorations,
        parent: maybe_parent,
    };
    Init {
        request,
        phase: InitPhase::RegisterClass,
        rect,
        create: CreateRequest {
            ex_style: 0,
            style: 0,
            x: 0,
            y: 0,
            width: 0,
            height: 0,
            parent: maybe_parent,
        },
        window: WindowWrapper(NULL, NULL),
        failure: None,
    }
}

/// The state that a window starts with: the arrow for a pointer, which moves
/// freely, and the attributes that the window was made from, with the parent
/// that it was made with.
pub fn window_state<C>(window: WindowAttributes2<C>, maybe_parent: usize) -> (state: WindowState<C>)
    ensures
        state.cursor == IDC_ARROW,
        state.cursor_state == CursorState::Normal,
        state.attributes.dimensions == window.dimensions,
        state.attributes.min_dimensions == window.min_dimensions,
        state.attributes.max_dimensions == window.max_dimensions,
        state.attributes.monitor == window.monitor,
        state.attributes.title@ == window.title@,
        state.attributes.visible == window.visible,
        state.attributes.transparent == window.transparent,
        state.attributes.decorations == window.decorations,
        state.attributes.multitouch == window.multitouch,
        state.attributes.resize_callback == window.resize_callback,
        state.attributes.parent == Some(maybe_parent),
{
    WindowState {
        cursor: IDC_ARROW,
        cursor_state: CursorState::Normal,
        attributes: WindowAttributes {
            dimensions: window.dimensions,
            min_dimensions: window.min_dimensions,
            max_dimensions: window.max_dimensions,
            monitor: window.monitor,
            title: window.title,
            visible: window.visible,
            transparent: window.transparent,
            decorations: window.decorations,
            multitouch: window.multitouch,
            resize_callback: window.resize_callback,
            parent: Some(maybe_parent),
        },
    }
}

} // verus!
