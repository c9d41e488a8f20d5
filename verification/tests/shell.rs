use borealis::application::Application;
use borealis::canvas::Color;
use borealis::video::{
    framebuffer_viewport, initial_viewport, keeps_running, pump, Pump, VideoCommand, Viewport,
};

fn frame() -> Vec<VideoCommand> {
    vec![
        VideoCommand::BeginFrame,
        VideoCommand::Clear { color: Color { r: 100, g: 0, b: 0 } },
        VideoCommand::EndFrame,
    ]
}

#[test]
fn new_application_keeps_title_and_size() {
    let app = Application::new("borealis", 1280, 720);
    assert_eq!(app.title(), "borealis");
    assert_eq!(app.width(), 1280);
    assert_eq!(app.height(), 720);
}

#[test]
fn new_application_has_nothing_queued() {
    let mut app = Application::new("", 0, 0);
    assert_eq!(app.title(), "");
    assert_eq!(app.take_commands(), Vec::new());
}

#[test]
fn frame_begins_clears_and_ends() {
    let app = Application::new("demo", 1, 1);
    assert_eq!(app.frame(), frame());
}

#[test]
fn main_loop_queues_one_frame_and_goes_on() {
    let mut app = Application::new("demo", 640, 480);
    assert!(app.main_loop());
    assert_eq!(app.take_commands(), frame());
    assert_eq!(app.take_commands(), Vec::new());
}

#[test]
fn main_loop_queues_frames_in_order() {
    let mut app = Application::new("demo", 640, 480);
    assert!(app.main_loop());
    assert!(app.main_loop());
    let mut twice = frame();
    twice.extend(frame());
    assert_eq!(app.take_commands(), twice);
    assert_eq!(app.title(), "demo");
    assert_eq!(app.width(), 640);
    assert_eq!(app.height(), 480);
}

#[test]
fn framebuffer_viewport_covers_the_framebuffer() {
    assert_eq!(
        framebuffer_viewport(800, 600),
        Some(Viewport { x: 0, y: 0, width: 800, height: 600 })
    );
    assert_eq!(framebuffer_viewport(0, 0), Some(Viewport { x: 0, y: 0, width: 0, height: 0 }));
}

#[test]
fn framebuffer_viewport_ignores_negative_sizes() {
    assert_eq!(framebuffer_viewport(-1, 600), None);
    assert_eq!(framebuffer_viewport(800, -1), None);
    assert_eq!(framebuffer_viewport(i32::MIN, i32::MIN), None);
}

#[test]
fn initial_viewport_covers_the_window() {
    assert_eq!(
        initial_viewport(1280, 720),
        Some(Viewport { x: 0, y: 0, width: 1280, height: 720 })
    );
    assert_eq!(
        initial_viewport(i32::MAX as u32, 1),
        Some(Viewport { x: 0, y: 0, width: i32::MAX, height: 1 })
    );
}

#[test]
fn initial_viewport_of_an_oversized_window_is_none() {
    assert_eq!(initial_viewport(i32::MAX as u32 + 1, 720), None);
    assert_eq!(initial_viewport(1280, u32::MAX), None);
}

#[test]
fn pump_polls_when_iconified_and_waits_otherwise() {
    assert_eq!(pump(true), Pump::Poll);
    assert_eq!(pump(false), Pump::Wait);
}

#[test]
fn loop_runs_until_the_window_should_close() {
    assert!(keeps_running(false));
    assert!(!keeps_running(true));
}
