//! Decisions of the video context behind the single-window shell: what the
//! viewport follows, and how the event queue is pumped.

use vstd::prelude::*;
use crate::canvas::Color;

verus! {

/// The rectangle of the framebuffer that is drawn to.
#[derive(Clone, Copy, Debug, PartialEq, Eq, Structural)]
pub struct Viewport {
    pub x: i32,
    pub y: i32,
    pub width: i32,
    pub height: i32,
}

/// One call against the video context.
#[derive(Clone, Copy, Debug, PartialEq, Eq, Structural)]
pub enum VideoCommand {
    BeginFrame,
    /// Clear the colour, depth and stencil buffers, the first to `color`.
    Clear { color: Color },
    /// Present the frame.
    EndFrame,
}

/// How to wait for events.
#[derive(Clone, Copy, Debug, PartialEq, Eq, Structural)]
pub enum Pump {
    /// Handle what is queued and return. Ends the iteration.
    Poll,
    /// Sleep until something arrives, handle it, and look again.
    Wait,
}

/// The viewport for a framebuffer of `width` by `height`: all of it, from
/// the origin. A negative size keeps the viewport that is set.
pub fn framebuffer_viewport(width: i32, height: i32) -> (viewport: Option<Viewport>)
    ensures
        viewport == (if width < 0 || height < 0 {
            None
        } else {
            Some(Viewport { x: 0, y: 0, width, height })
        }),
{
    if width < 0 || height < 0 {
        None
    } else {
        Some(Viewport { x: 0, y: 0, width, height })
    }
}

/// The viewport for a new window of `window_width` by `window_height`. A
/// size that no signed 32-bit number holds sets none.
pub fn initial_viewport(window_width: u32, window_height: u32) -> (viewport: Option<Viewport>)
    ensures
        viewport == (if window_width <= i32::MAX && window_height <= i32::MAX {
            Some(Viewport { x: 0, y: 0, width: window_width as i32, height: window_height as i32 })
        } else {
            None
        }),
{
    if window_width > 0x7fff_ffff || window_height > 0x7fff_ffff {
        None
    } else {
        framebuffer_viewport(window_width as i32, window_height as i32)
    }
}

/// How one round of a main-loop iteration pumps events, given whether the
/// window is iconified: it polls if it is, and waits if it is not.
pub fn pump(iconified: bool) -> (pump: Pump)
    ensures
        pump == (if iconified {
            Pump::Poll
        } else {
            Pump::Wait
        }),
{
    if iconified {
        Pump::Poll
    } else {
        Pump::Wait
    }
}

/// Whether the main loop goes on after an iteration: until the window
/// should close.
pub fn keeps_running(should_close: bool) -> (running: bool)
    ensures
        running == !should_close,
{
    !should_close
}

} // verus!
