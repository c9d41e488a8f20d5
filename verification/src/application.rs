//! The single-window shell: one window, one frame per turn of the main
//! loop.

use vstd::prelude::*;
use crate::canvas::Color;
use crate::video::VideoCommand;

verus! {

/// The colour every frame is cleared to.
pub open spec fn clear_color() -> Color {
    Color { r: 100, g: 0, b: 0 }
}

/// The commands of one frame: begin, clear, end.
pub open spec fn frame_commands() -> Seq<VideoCommand> {
    seq![
        VideoCommand::BeginFrame,
        VideoCommand::Clear { color: clear_color() },
        VideoCommand::EndFrame,
    ]
}

/// An application with one window. It performs nothing itself: what a turn
/// of the main loop calls for is queued, for the driver to take and perform
/// on the video context.
#[derive(Debug)]
pub struct Application {
    title: String,
    width: u32,
    height: u32,
    pending: Vec<VideoCommand>,
}

/// An application as contracts see it.
pub struct ApplicationModel {
    /// Title of the window.
    pub title: Seq<char>,
    /// Width asked of the window.
    pub width: u32,
    /// Height asked of the window.
    pub height: u32,
    /// Commands queued and not yet taken, oldest first.
    pub pending: Seq<VideoCommand>,
}

impl View for Application {
    type V = ApplicationModel;

    closed spec fn view(&self) -> ApplicationModel {
        ApplicationModel {
            title: self.title@,
            width: self.width,
            height: self.height,
            pending: self.pending@,
        }
    }
}

impl Application {
    /// An application whose window is titled `title` and `width` by `height`
    /// large. Nothing is queued yet.
    pub fn new(title: &str, width: u32, height: u32) -> (app: Self)
        ensures
            app@ == (ApplicationModel {
                title: title@,
                width,
                height,
                pending: Seq::<VideoCommand>::empty(),
            }),
    {
        Application { title: title.to_owned(), width, height, pending: Vec::new() }
    }

    /// Title of the window.
    pub fn title(&self) -> (title: &str)
        ensures
            title@ == self@.title,
    {
        self.title.as_str()
    }

    /// Width asked of the window.
    pub fn width(&self) -> (width: u32)
        ensures
            width == self@.width,
    {
        self.width
    }

    /// Height asked of the window.
    pub fn height(&self) -> (height: u32)
        ensures
            height == self@.height,
    {
        self.height
    }

    /// One turn of the main loop: queues a frame behind what is pending and
    /// says whether the loop goes on. It always does.
    pub fn main_loop(&mut self) -> (running: bool)
        ensures
            running,
            final(self)@ == (ApplicationModel {
                pending: old(self)@.pending + frame_commands(),
                ..old(self)@
            }),
    {
        let mut commands = self.frame();
        self.pending.append(&mut commands);
        true
    }

    /// The commands of one frame, in order.
    pub fn frame(&self) -> (commands: Vec<VideoCommand>)
        ensures
            commands@ == frame_commands(),
    {
        let mut commands: Vec<VideoCommand> = Vec::new();
        commands.push(VideoCommand::BeginFrame);
        commands.push(VideoCommand::Clear { color: Color { r: 100, g: 0, b: 0 } });
        commands.push(VideoCommand::EndFrame);
        assert(commands@ =~= frame_commands());
        commands
    }

    /// Takes what is queued, oldest first, and leaves the queue empty.
    pub fn take_commands(&mut self) -> (commands: Vec<VideoCommand>)
        ensures
            commands@ == old(self)@.pending,
            final(self)@ == (ApplicationModel {
                pending: Seq::<VideoCommand>::empty(),
                ..old(self)@
            }),
    {
        let mut commands: Vec<VideoCommand> = Vec::new();
        commands.append(&mut self.pending);
        assert(commands@ =~= old(self)@.pending);
        commands
    }
}

} // verus!
