//! What passes between the controller and the driver around it.
//!
//! The driver owns the real window, surface and context and names each by a
//! handle of its own choosing. It feeds the controller what the window system
//! reports, performs the actions the controller answers with, in order, and
//! reports back how each request among them ended.

use vstd::prelude::*;
use crate::canvas::{CanvasCommand, Scale};
use crate::context::ContextConfig;

verus! {

/// Names a GPU context held by the driver, current or not.
#[derive(Clone, Copy, Debug, PartialEq, Eq, Structural)]
pub struct ContextHandle(pub u64);

/// Names a drawing surface held by the driver.
#[derive(Clone, Copy, Debug, PartialEq, Eq, Structural)]
pub struct SurfaceHandle(pub u64);

/// Names a window held by the driver.
#[derive(Clone, Copy, Debug, PartialEq, Eq, Structural)]
pub struct WindowHandle(pub u64);

/// The template a window is created from.
#[derive(Clone, Copy, Debug, PartialEq, Eq)]
pub struct WindowAttributes {
    pub title: &'static str,
    pub transparent: bool,
}

/// The template a surface configuration has to match.
#[derive(Clone, Copy, Debug, PartialEq, Eq, Structural)]
pub struct ConfigTemplate {
    /// Bits of alpha channel asked for.
    pub alpha_size: u8,
    /// Whether the configuration must support a transparent window. Differs
    /// by platform: some can only be asked for one configuration at a time.
    pub transparency: bool,
}

/// What the driver reads off the window before a frame.
#[derive(Clone, Copy, Debug, PartialEq, Eq, Structural)]
pub struct WindowMetrics {
    pub width: u32,
    pub height: u32,
    pub scale: Scale,
}

/// Why the controller gave up, or what it could not have.
#[derive(Clone, Copy, Debug, PartialEq, Eq, Structural)]
pub enum AppError {
    /// The window system could not create the window. Fatal.
    WindowCreationFailed,
    /// Every negotiated context configuration was refused. Fatal.
    ContextCreationFailed,
    /// The drawing surface could not be created. Fatal.
    SurfaceCreationFailed,
    /// The context could not be made current on the surface. Fatal.
    MakeCurrentFailed,
    /// The swap interval was refused. Execution continues without vsync.
    SwapIntervalUnsupported,
}

/// A key the controller tells apart.
#[derive(Clone, Copy, Debug, PartialEq, Eq, Structural)]
pub enum Key {
    Escape,
    Other,
}

/// A window event, as far as the controller reads it.
#[derive(Clone, Copy, Debug, PartialEq, Eq, Structural)]
pub enum WindowEvent {
    Resized { width: u32, height: u32 },
    CloseRequested,
    KeyPressed { key: Key },
    Other,
}

/// One thing the driver has to do. Actions are performed in the order given.
///
/// The first six are requests: each stands last in its list, and the driver
/// reports how it ended before it delivers anything else. The rest are
/// commands, with nothing to report.
#[derive(Clone, Copy, Debug, PartialEq, Eq)]
pub enum Action {
    /// Create the display and, where the platform allows it yet, the window.
    CreateWindow { attributes: WindowAttributes, template: ConfigTemplate },
    /// Create a context with `config`, against the window `early` if the
    /// platform has made one that early.
    CreateContext { config: ContextConfig, early: Option<WindowHandle> },
    /// Create the window that the platform deferred until a surface
    /// configuration was known.
    FinalizeWindow { attributes: WindowAttributes },
    /// Create the drawing surface of `window`.
    CreateSurface { window: WindowHandle },
    /// Make `context` current on `surface`.
    MakeCurrent { context: ContextHandle, surface: SurfaceHandle },
    /// Ask for buffer swaps every `interval` display refreshes.
    SetSwapInterval { surface: SurfaceHandle, context: ContextHandle, interval: u32 },
    /// Create the canvas, on the context that is current.
    CreateCanvas,
    /// Issue `command` against the canvas.
    Canvas { command: CanvasCommand },
    /// Detach `context` from its surface and keep it, not current.
    MakeNotCurrent { context: ContextHandle },
    /// Resize `surface`, on which `context` is current.
    ResizeSurface { surface: SurfaceHandle, context: ContextHandle, width: u32, height: u32 },
    /// Present what was rendered to `surface`.
    SwapBuffers { surface: SurfaceHandle, context: ContextHandle },
    /// Ask the window system for another redraw of `window`.
    RequestRedraw { window: WindowHandle },
    ReleaseSurface { surface: SurfaceHandle },
    ReleaseContext { context: ContextHandle },
    ReleaseWindow { window: WindowHandle },
    /// Log `error` and go on.
    Report { error: AppError },
    /// Ask the window system to end the event loop.
    Exit,
}

impl Action {
    /// Whether the driver has to report how this action ended.
    pub open spec fn is_request(self) -> bool {
        ||| self is CreateWindow
        ||| self is CreateContext
        ||| self is FinalizeWindow
        ||| self is CreateSurface
        ||| self is MakeCurrent
        ||| self is SetSwapInterval
    }
}

/// How a request ended.
#[derive(Clone, Copy, Debug, PartialEq, Eq, Structural)]
pub enum Outcome {
    /// The display is there, and so is the window `early`, unless the
    /// platform defers it until a context exists.
    WindowCreated { early: Option<WindowHandle> },
    /// The deferred window is there.
    WindowFinalized { window: WindowHandle },
    /// No window: answers `CreateWindow` and `FinalizeWindow`.
    WindowFailed,
    ContextCreated { context: ContextHandle },
    ContextFailed,
    SurfaceCreated { surface: SurfaceHandle },
    SurfaceFailed,
    MadeCurrent,
    MakeCurrentFailed,
    SwapIntervalSet,
    SwapIntervalUnsupported,
}

/// Everything the driver can deliver.
#[derive(Clone, Copy, Debug, PartialEq, Eq, Structural)]
pub enum Input {
    /// The window system grants a surface.
    Resumed,
    /// The window system revokes the surface.
    Suspended,
    Window { event: WindowEvent },
    /// The event queue ran dry: time for a frame.
    AboutToWait { window: WindowMetrics },
    Completed { outcome: Outcome },
}

/// Attributes of a window that had to be deferred.
pub open spec fn deferred_window_attributes() -> WindowAttributes {
    WindowAttributes {
        title: "Glutin triangle gradient example (press Escape to exit)",
        transparent: true,
    }
}

impl WindowAttributes {
    /// Attributes of a window that had to be deferred.
    pub fn deferred() -> (attributes: WindowAttributes)
        ensures
            attributes == deferred_window_attributes(),
    {
        WindowAttributes {
            title: "Glutin triangle gradient example (press Escape to exit)",
            transparent: true,
        }
    }
}

/// How often buffers are swapped: on every display refresh.
pub const SWAP_INTERVAL: u32 = 1;

/// How many actions of `actions` ask the window system to exit.
pub open spec fn exits(actions: Seq<Action>) -> nat
    decreases actions.len(),
{
    if actions.len() == 0 {
        0
    } else {
        exits(actions.drop_last()) + (if actions.last() is Exit { 1nat } else { 0nat })
    }
}

} // verus!
