use borealis::canvas::{CanvasCommand, CanvasSize, Color, Scale, UNIT_SCALE_BITS};
use borealis::protocol::{Action, ContextHandle, SurfaceHandle, WindowMetrics};
use borealis::renderer::{Renderer, INITIAL_CANVAS_HEIGHT, INITIAL_CANVAS_WIDTH};
use borealis::view::View;

const RED: Color = Color { r: 255, g: 0, b: 0 };

fn clear(x: u32, y: u32, width: u32, height: u32, color: Color) -> Action {
    Action::Canvas { command: CanvasCommand::ClearRect { x, y, width, height, color } }
}

fn size(width: u32, height: u32, scale: Scale) -> Action {
    Action::Canvas { command: CanvasCommand::SetSize { width, height, scale } }
}

#[test]
fn unit_scale_is_one() {
    assert_eq!(Scale::unit().bits, 1.0f32.to_bits());
    assert_eq!(UNIT_SCALE_BITS, 1.0f32.to_bits());
    assert_eq!(f32::from_bits(Scale::unit().bits), 1.0);
}

#[test]
fn new_view_is_red() {
    let view = View::new(1, 2, 3, 4);
    assert_eq!(view, View { x: 1, y: 2, width: 3, height: 4, fill_color: RED });
}

#[test]
fn view_keeps_its_rectangle_when_recoloured() {
    let blue = Color { r: 0, g: 0, b: 255 };
    let view = View::new(1, 2, 3, 4).with_fill_color(blue);
    assert_eq!(view, View { x: 1, y: 2, width: 3, height: 4, fill_color: blue });
}

#[test]
fn view_draw_is_one_clear_rect() {
    let view = View::new(7, 9, 50, 60);
    assert_eq!(
        view.draw(),
        CanvasCommand::ClearRect { x: 7, y: 9, width: 50, height: 60, color: RED }
    );
    let green = Color { r: 0, g: 255, b: 0 };
    assert_eq!(
        view.with_fill_color(green).draw(),
        CanvasCommand::ClearRect { x: 7, y: 9, width: 50, height: 60, color: green }
    );
}

#[test]
fn view_of_no_area_still_draws() {
    assert_eq!(
        View::new(0, 0, 0, 0).draw(),
        CanvasCommand::ClearRect { x: 0, y: 0, width: 0, height: 0, color: RED }
    );
    assert_eq!(
        View::new(u32::MAX, u32::MAX, u32::MAX, u32::MAX).draw(),
        CanvasCommand::ClearRect {
            x: u32::MAX,
            y: u32::MAX,
            width: u32::MAX,
            height: u32::MAX,
            color: RED
        }
    );
}

#[test]
fn new_renderer_has_the_default_views() {
    let renderer = Renderer::new();
    assert_eq!(
        renderer.views(),
        &vec![View::new(0, 0, 50, 50), View::new(0, 50, 50, 50), View::new(100, 100, 50, 50)]
    );
    assert_eq!(
        renderer.canvas_size(),
        CanvasSize { width: 1000, height: 600, scale: Scale::unit() }
    );
    assert_eq!(INITIAL_CANVAS_WIDTH, 1000);
    assert_eq!(INITIAL_CANVAS_HEIGHT, 600);
}

#[test]
fn setup_creates_and_sizes_the_canvas() {
    let renderer = Renderer::new();
    assert_eq!(renderer.setup(), vec![Action::CreateCanvas, size(1000, 600, Scale::unit())]);
}

#[test]
fn draw_paints_views_in_list_order() {
    let a = View::new(0, 0, 50, 50);
    let b = View::new(0, 50, 50, 50);
    let mut renderer = Renderer::with_views(vec![a, b]);
    let context = ContextHandle(1);
    let surface = SurfaceHandle(2);
    let scale = Scale { bits: 2.0f32.to_bits() };
    let actions = renderer.draw(context, surface, WindowMetrics { width: 800, height: 600, scale });
    assert_eq!(
        actions,
        vec![
            size(800, 600, scale),
            clear(0, 0, 50, 50, RED),
            clear(0, 50, 50, 50, RED),
            Action::Canvas { command: CanvasCommand::Flush },
            Action::SwapBuffers { surface, context },
        ]
    );
}

#[test]
fn draw_order_follows_the_list_not_the_geometry() {
    let a = View::new(0, 0, 50, 50);
    let b = View::new(0, 50, 50, 50);
    let mut renderer = Renderer::with_views(vec![b, a]);
    let actions = renderer.draw(
        ContextHandle(1),
        SurfaceHandle(2),
        WindowMetrics { width: 1, height: 1, scale: Scale::unit() },
    );
    assert_eq!(actions[1], clear(0, 50, 50, 50, RED));
    assert_eq!(actions[2], clear(0, 0, 50, 50, RED));
}

#[test]
fn draw_of_the_default_views() {
    let mut renderer = Renderer::new();
    let context = ContextHandle(10);
    let surface = SurfaceHandle(20);
    let actions = renderer.draw(
        context,
        surface,
        WindowMetrics { width: 640, height: 480, scale: Scale::unit() },
    );
    assert_eq!(
        actions,
        vec![
            size(640, 480, Scale::unit()),
            clear(0, 0, 50, 50, RED),
            clear(0, 50, 50, 50, RED),
            clear(100, 100, 50, 50, RED),
            Action::Canvas { command: CanvasCommand::Flush },
            Action::SwapBuffers { surface, context },
        ]
    );
}

#[test]
fn draw_without_views_still_sizes_flushes_and_swaps() {
    let mut renderer = Renderer::with_views(Vec::new());
    let context = ContextHandle(1);
    let surface = SurfaceHandle(2);
    let actions = renderer.draw(
        context,
        surface,
        WindowMetrics { width: 3, height: 4, scale: Scale::unit() },
    );
    assert_eq!(
        actions,
        vec![
            size(3, 4, Scale::unit()),
            Action::Canvas { command: CanvasCommand::Flush },
            Action::SwapBuffers { surface, context },
        ]
    );
}

#[test]
fn draw_sizes_the_canvas_to_the_window() {
    let mut renderer = Renderer::new();
    let scale = Scale { bits: 1.5f32.to_bits() };
    renderer.draw(
        ContextHandle(1),
        SurfaceHandle(2),
        WindowMetrics { width: 1920, height: 1080, scale },
    );
    assert_eq!(renderer.canvas_size(), CanvasSize { width: 1920, height: 1080, scale });
    assert_eq!(renderer.views().len(), 3);
}

#[test]
fn draw_twice_paints_the_same() {
    let mut renderer = Renderer::new();
    let window = WindowMetrics { width: 10, height: 20, scale: Scale::unit() };
    let first = renderer.draw(ContextHandle(1), SurfaceHandle(2), window);
    let second = renderer.draw(ContextHandle(1), SurfaceHandle(2), window);
    assert_eq!(first, second);
}

#[test]
fn renderer_resize_sets_the_size_at_unit_scale() {
    let mut renderer = Renderer::new();
    renderer.draw(
        ContextHandle(1),
        SurfaceHandle(2),
        WindowMetrics { width: 5, height: 6, scale: Scale { bits: 3.0f32.to_bits() } },
    );
    let action = renderer.resize(300, 200);
    assert_eq!(action, size(300, 200, Scale::unit()));
    assert_eq!(
        renderer.canvas_size(),
        CanvasSize { width: 300, height: 200, scale: Scale::unit() }
    );
}

#[test]
fn renderer_resize_leaves_the_views() {
    let views = vec![View::new(1, 1, 1, 1), View::new(2, 2, 2, 2)];
    let mut renderer = Renderer::with_views(views.clone());
    renderer.resize(10, 10);
    assert_eq!(renderer.views(), &views);
}
