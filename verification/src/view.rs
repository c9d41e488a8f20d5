//! Rectangular drawable regions.

use vstd::prelude::*;
use crate::canvas::{CanvasCommand, Color};

verus! {

/// A rectangle with a fill colour. Immutable once built.
#[derive(Clone, Copy, Debug, PartialEq, Eq, Structural)]
pub struct View {
    pub x: u32,
    pub y: u32,
    pub width: u32,
    pub height: u32,
    pub fill_color: Color,
}

impl View {
    /// The colour a view is filled with unless told otherwise.
    pub open spec fn default_fill() -> Color {
        Color { r: 255, g: 0, b: 0 }
    }

    /// The one canvas command that paints this view.
    pub open spec fn paint(self) -> CanvasCommand {
        CanvasCommand::ClearRect {
            x: self.x,
            y: self.y,
            width: self.width,
            height: self.height,
            color: self.fill_color,
        }
    }

    /// A view at `(x, y)` of the given size, filled red.
    pub fn new(x: u32, y: u32, width: u32, height: u32) -> (view: Self)
        ensures
            view == (View { x, y, width, height, fill_color: View::default_fill() }),
    {
        View { x, y, width, height, fill_color: Color { r: 255, g: 0, b: 0 } }
    }

    /// The same rectangle, filled with `color`.
    pub fn with_fill_color(self, color: Color) -> (view: Self)
        ensures
            view == (View { fill_color: color, ..self }),
    {
        View { x: self.x, y: self.y, width: self.width, height: self.height, fill_color: color }
    }

    /// Paints the view: exactly one clear-rectangle command, at the view's
    /// position and size, in its fill colour.
    pub fn draw(&self) -> (command: CanvasCommand)
        ensures
            command == self.paint(),
    {
        CanvasCommand::ClearRect {
            x: self.x,
            y: self.y,
            width: self.width,
            height: self.height,
            color: self.fill_color,
        }
    }
}

/// The paint commands of a list of views, one per view, in list order.
pub open spec fn paint_all(views: Seq<View>) -> Seq<CanvasCommand> {
    views.map_values(|v: View| v.paint())
}

} // verus!
