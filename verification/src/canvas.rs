//! The 2-D canvas as the library sees it: a sink for drawing commands.
//!
//! The canvas itself lives with the driver, bound to a GPU context. The
//! library only decides which commands it receives and in which order.

use vstd::prelude::*;

verus! {

/// Bit pattern of the scale factor one, in IEEE-754 single precision.
pub const UNIT_SCALE_BITS: u32 = 0x3F80_0000;

/// An RGB colour, eight bits per channel.
#[derive(Clone, Copy, Debug, PartialEq, Eq, Structural)]
pub struct Color {
    pub r: u8,
    pub g: u8,
    pub b: u8,
}

/// A device-pixel scale factor, carried as the bit pattern of a
/// single-precision number. The library never looks inside it: the driver
/// packs what the window reports and unpacks what the canvas is handed.
#[derive(Clone, Copy, Debug, PartialEq, Eq, Structural)]
pub struct Scale {
    pub bits: u32,
}

impl Scale {
    /// The scale factor one.
    pub open spec fn spec_unit() -> Scale {
        Scale { bits: UNIT_SCALE_BITS }
    }

    /// The scale factor one.
    #[verifier::when_used_as_spec(spec_unit)]
    pub fn unit() -> (scale: Scale)
        ensures
            scale == Scale::spec_unit(),
    {
        Scale { bits: UNIT_SCALE_BITS }
    }
}

/// The size a canvas was last given.
#[derive(Clone, Copy, Debug, PartialEq, Eq, Structural)]
pub struct CanvasSize {
    pub width: u32,
    pub height: u32,
    pub scale: Scale,
}

/// One call against the canvas.
#[derive(Clone, Copy, Debug, PartialEq, Eq, Structural)]
pub enum CanvasCommand {
    /// Size the canvas to `width` by `height` pixels at `scale`.
    SetSize { width: u32, height: u32, scale: Scale },
    /// Fill the rectangle at `(x, y)` with `color`, replacing what was there.
    ClearRect { x: u32, y: u32, width: u32, height: u32, color: Color },
    /// Hand every command accumulated so far to the GPU.
    Flush,
}

} // verus!
