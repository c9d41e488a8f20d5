//! The renderer: a canvas size and an ordered list of views.

use vstd::prelude::*;
use crate::canvas::{CanvasCommand, CanvasSize, Scale};
use crate::protocol::{Action, ContextHandle, SurfaceHandle, WindowMetrics};
use crate::view;

verus! {

/// Width the canvas is created with.
pub const INITIAL_CANVAS_WIDTH: u32 = 1000;

/// Height the canvas is created with.
pub const INITIAL_CANVAS_HEIGHT: u32 = 600;

/// Owns the canvas and the views painted onto it, first view first.
#[derive(Debug)]
pub struct Renderer {
    canvas: CanvasSize,
    views: Vec<view::View>,
}

/// A renderer as contracts see it.
pub struct RendererModel {
    /// The size the canvas was last given.
    pub canvas: CanvasSize,
    /// The views, in paint order.
    pub views: Seq<view::View>,
}

/// The views a renderer starts with.
pub open spec fn default_views() -> Seq<view::View> {
    seq![
        view::View { x: 0, y: 0, width: 50, height: 50, fill_color: view::View::default_fill() },
        view::View { x: 0, y: 50, width: 50, height: 50, fill_color: view::View::default_fill() },
        view::View { x: 100, y: 100, width: 50, height: 50, fill_color: view::View::default_fill() },
    ]
}

/// The size a canvas starts with.
pub open spec fn initial_canvas() -> CanvasSize {
    CanvasSize {
        width: INITIAL_CANVAS_WIDTH,
        height: INITIAL_CANVAS_HEIGHT,
        scale: Scale::spec_unit(),
    }
}

/// The command that gives a canvas `size`.
pub open spec fn set_size(size: CanvasSize) -> Action {
    Action::Canvas {
        command: CanvasCommand::SetSize {
            width: size.width,
            height: size.height,
            scale: size.scale,
        },
    }
}

/// One paint action per view, in list order.
pub open spec fn paint_all(views: Seq<view::View>) -> Seq<Action> {
    views.map_values(|v: view::View| Action::Canvas { command: v.paint() })
}

impl RendererModel {
    /// A renderer over `views` with a canvas of the initial size.
    pub open spec fn over(views: Seq<view::View>) -> RendererModel {
        RendererModel { canvas: initial_canvas(), views }
    }

    /// What creating the canvas takes: the canvas, then its size.
    pub open spec fn setup(self) -> Seq<Action> {
        seq![Action::CreateCanvas, set_size(self.canvas)]
    }

    /// The canvas size a window of `window`'s metrics calls for.
    pub open spec fn fitted(window: WindowMetrics) -> CanvasSize {
        CanvasSize { width: window.width, height: window.height, scale: window.scale }
    }

    /// The canvas size a resize to `width` by `height` calls for.
    pub open spec fn sized(width: u32, height: u32) -> CanvasSize {
        CanvasSize { width, height, scale: Scale::spec_unit() }
    }

    /// One frame: size the canvas to the window, paint every view in list
    /// order, flush, present.
    pub open spec fn frame(
        self,
        context: ContextHandle,
        surface: SurfaceHandle,
        window: WindowMetrics,
    ) -> Seq<Action> {
        seq![set_size(Self::fitted(window))] + paint_all(self.views) + seq![
            Action::Canvas { command: CanvasCommand::Flush },
            Action::SwapBuffers { surface, context },
        ]
    }
}

impl vstd::view::View for Renderer {
    type V = RendererModel;

    closed spec fn view(&self) -> RendererModel {
        RendererModel { canvas: self.canvas, views: self.views@ }
    }
}

impl Renderer {
    /// A renderer over the default views.
    pub fn new() -> (renderer: Self)
        ensures
            renderer@ == RendererModel::over(default_views()),
    {
        let mut views: Vec<view::View> = Vec::new();
        views.push(view::View::new(0, 0, 50, 50));
        views.push(view::View::new(0, 50, 50, 50));
        views.push(view::View::new(100, 100, 50, 50));
        assert(views@ =~= default_views());
        Renderer {
            canvas: CanvasSize {
                width: INITIAL_CANVAS_WIDTH,
                height: INITIAL_CANVAS_HEIGHT,
                scale: Scale::unit(),
            },
            views,
        }
    }

    /// A renderer over `views`, painted first to last.
    pub fn with_views(views: Vec<view::View>) -> (renderer: Self)
        ensures
            renderer@ == RendererModel::over(views@),
    {
        Renderer {
            canvas: CanvasSize {
                width: INITIAL_CANVAS_WIDTH,
                height: INITIAL_CANVAS_HEIGHT,
                scale: Scale::unit(),
            },
            views,
        }
    }

    /// The size the canvas was last given.
    pub fn canvas_size(&self) -> (size: CanvasSize)
        ensures
            size == self@.canvas,
    {
        self.canvas
    }

    /// The views, in paint order.
    pub fn views(&self) -> (views: &Vec<view::View>)
        ensures
            views@ == self@.views,
    {
        &self.views
    }

    /// What the driver does once to have a canvas for this renderer.
    pub fn setup(&self) -> (actions: Vec<Action>)
        ensures
            actions@ == self@.setup(),
    {
        let mut actions: Vec<Action> = Vec::new();
        actions.push(Action::CreateCanvas);
        actions.push(
            Action::Canvas {
                command: CanvasCommand::SetSize {
                    width: self.canvas.width,
                    height: self.canvas.height,
                    scale: self.canvas.scale,
                },
            },
        );
        assert(actions@ =~= self@.setup());
        actions
    }

    /// Renders one frame for a window of the given metrics. The canvas takes
    /// the window's size and scale, every view is painted in list order, the
    /// canvas is flushed and the surface presented. The views stay as they
    /// are; nothing is cleared that no view covers.
    pub fn draw(
        &mut self,
        context: ContextHandle,
        surface: SurfaceHandle,
        window: WindowMetrics,
    ) -> (actions: Vec<Action>)
        ensures
            actions@ == old(self)@.frame(context, surface, window),
            final(self)@ == (RendererModel {
                canvas: RendererModel::fitted(window),
                views: old(self)@.views,
            }),
    {
        self.canvas = CanvasSize { width: window.width, height: window.height, scale: window.scale };
        let mut actions: Vec<Action> = Vec::new();
        actions.push(
            Action::Canvas {
                command: CanvasCommand::SetSize {
                    width: window.width,
                    height: window.height,
                    scale: window.scale,
                },
            },
        );
        let ghost head = seq![set_size(RendererModel::fitted(window))];
        assert(actions@ =~= head + paint_all(self.views@.take(0)));
        let mut index: usize = 0;
        while index < self.views.len()
            invariant
                index <= self.views.len(),
                head == seq![set_size(RendererModel::fitted(window))],
                actions@ == head + paint_all(self.views@.take(index as int)),
            decreases self.views.len() - index,
        {
            let command = self.views[index].draw();
            actions.push(Action::Canvas { command });
            assert(actions@ =~= head + paint_all(self.views@.take(index + 1)));
            index = index + 1;
        }
        assert(self.views@.take(index as int) =~= self.views@);
        actions.push(Action::Canvas { command: CanvasCommand::Flush });
        actions.push(Action::SwapBuffers { surface, context });
        assert(actions@ =~= old(self)@.frame(context, surface, window));
        actions
    }

    /// Gives the canvas a new size, at scale one. The views are not touched.
    pub fn resize(&mut self, width: u32, height: u32) -> (action: Action)
        ensures
            action == set_size(RendererModel::sized(width, height)),
            final(self)@ == (RendererModel {
                canvas: RendererModel::sized(width, height),
                views: old(self)@.views,
            }),
    {
        self.canvas = CanvasSize { width, height, scale: Scale::unit() };
        Action::Canvas {
            command: CanvasCommand::SetSize { width, height, scale: Scale::unit() },
        }
    }
}

/// A frame paints the views in list order: the action after the canvas is
/// sized paints the first view, the next one the second, and so on; then come
/// the flush and the swap, and nothing else.
pub proof fn lemma_frame_paints_in_order(
    renderer: RendererModel,
    context: ContextHandle,
    surface: SurfaceHandle,
    window: WindowMetrics,
)
    ensures
        renderer.frame(context, surface, window).len() == renderer.views.len() + 3,
        renderer.frame(context, surface, window)[0] == set_size(RendererModel::fitted(window)),
        forall|i: int|
            0 <= i < renderer.views.len() ==> #[trigger] renderer.frame(context, surface, window)[i
                + 1] == (Action::Canvas { command: renderer.views[i].paint() }),
        renderer.frame(context, surface, window)[renderer.views.len() as int + 1] == (Action::Canvas {
            command: CanvasCommand::Flush,
        }),
        renderer.frame(context, surface, window)[renderer.views.len() as int + 2] == (Action::SwapBuffers {
            surface,
            context,
        }),
{
}

} // verus!
