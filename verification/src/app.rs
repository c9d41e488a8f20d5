//! The application controller: the lifecycle of window, surface and context.

use vstd::prelude::*;
use crate::context::{CapabilityHint, ContextConfig, ContextNegotiator};
use crate::model::{AppModel, AppState, Phase};
use crate::protocol::{
    Action, AppError, ConfigTemplate, ContextHandle, Input, Key, Outcome, WindowAttributes,
    WindowEvent, WindowHandle, WindowMetrics, SWAP_INTERVAL,
};
use crate::laws::lemma_step_preserves_wf;
use crate::renderer::Renderer;

verus! {

/// Drives a window, its surface and a GPU context through resume, suspend,
/// resize, frame and close.
///
/// The controller performs nothing itself. Each method takes what happened
/// and returns what the driver has to do about it, in order.
#[derive(Debug)]
pub struct App {
    window_attributes: WindowAttributes,
    template: ConfigTemplate,
    exit_state: Result<(), AppError>,
    committed: Option<ContextConfig>,
    renderer: Option<Renderer>,
    phase: Phase,
}

impl vstd::view::View for App {
    type V = AppModel;

    closed spec fn view(&self) -> AppModel {
        AppModel {
            window_attributes: self.window_attributes,
            template: self.template,
            exit_state: self.exit_state,
            committed: self.committed,
            renderer: renderer_model(self.renderer),
            phase: self.phase,
        }
    }
}

/// A renderer that may not exist yet, as contracts see it.
pub open spec fn renderer_model(renderer: Option<Renderer>) -> Option<crate::renderer::RendererModel> {
    match renderer {
        Some(renderer) => Some(renderer@),
        None => None,
    }
}

impl App {
    /// A controller that has not been resumed yet. Windows will be created
    /// from `window_attributes`, surface configurations matched against
    /// `template`.
    pub fn new(template: ConfigTemplate, window_attributes: WindowAttributes) -> (app: Self)
        ensures
            app@ == AppModel::init(window_attributes, template),
            app@.wf(),
    {
        App {
            window_attributes,
            template,
            exit_state: Ok(()),
            committed: None,
            renderer: None,
            phase: Phase::Uninitialized,
        }
    }

    /// Where the controller stands.
    pub fn phase(&self) -> (phase: Phase)
        ensures
            phase == self@.phase,
    {
        self.phase
    }

    /// The fatal error that ended the controller, if one did.
    pub fn exit_state(&self) -> (result: Result<(), AppError>)
        ensures
            result == self@.exit_state,
    {
        self.exit_state
    }

    /// The context, surface and window in use, while the controller is
    /// active.
    pub fn state(&self) -> (state: Option<AppState>)
        ensures
            state == self@.state(),
    {
        match self.phase {
            Phase::Active { state } => Some(state),
            _ => None,
        }
    }

    /// The context kept across a suspension, until a resume takes it up.
    pub fn retained_context(&self) -> (retained: Option<ContextHandle>)
        ensures
            retained == self@.retained_context(),
    {
        match self.phase {
            Phase::Suspended { retained } => Some(retained),
            Phase::CreatingWindow { reuse } => reuse,
            _ => None,
        }
    }

    /// The configuration the context was created with, once there has been
    /// one.
    pub fn committed_config(&self) -> (config: Option<ContextConfig>)
        ensures
            config == self@.committed,
    {
        self.committed
    }

    /// The renderer, once there has been a current context to create it on.
    pub fn renderer(&self) -> (renderer: Option<&Renderer>)
        ensures
            renderer is Some <==> self@.renderer is Some,
            renderer matches Some(held) ==> self@.renderer == Some(held@),
    {
        self.renderer.as_ref()
    }

    /// The template windows are created from.
    pub fn window_attributes(&self) -> (attributes: WindowAttributes)
        ensures
            attributes == self@.window_attributes,
    {
        self.window_attributes
    }

    /// The template surface configurations have to match.
    pub fn template(&self) -> (template: ConfigTemplate)
        ensures
            template == self@.template,
    {
        self.template
    }

    /// The window system grants a surface. An uninitialized or suspended
    /// controller asks for the window, from its stored templates, and waits
    /// for the outcome; any other stays as it is.
    pub fn resumed(&mut self) -> (actions: Vec<Action>)
        ensures
            final(self)@ == old(self)@.resumed().0,
            actions@ == old(self)@.resumed().1,
            old(self)@.wf() ==> final(self)@.wf(),
    {
        proof {
            if old(self)@.wf() {
                lemma_step_preserves_wf(old(self)@, Input::Resumed);
            }
        }
        let mut actions: Vec<Action> = Vec::new();
        match self.phase {
            Phase::Uninitialized => {
                self.phase = Phase::CreatingWindow { reuse: None };
                actions.push(
                    Action::CreateWindow {
                        attributes: self.window_attributes,
                        template: self.template,
                    },
                );
            },
            Phase::Suspended { retained } => {
                self.phase = Phase::CreatingWindow { reuse: Some(retained) };
                actions.push(
                    Action::CreateWindow {
                        attributes: self.window_attributes,
                        template: self.template,
                    },
                );
            },
            _ => {},
        }
        assert(actions@ =~= old(self)@.resumed().1);
        actions
    }

    /// The window system revokes the surface. An active controller lets go of
    /// surface and window and keeps its context, detached; any other stays as
    /// it is, so that a second suspension releases nothing twice.
    pub fn suspended(&mut self) -> (actions: Vec<Action>)
        ensures
            final(self)@ == old(self)@.suspended().0,
            actions@ == old(self)@.suspended().1,
            old(self)@.wf() ==> final(self)@.wf(),
    {
        proof {
            if old(self)@.wf() {
                lemma_step_preserves_wf(old(self)@, Input::Suspended);
            }
        }
        let mut actions: Vec<Action> = Vec::new();
        match self.phase {
            Phase::Active { state } => {
                self.phase = Phase::Suspended { retained: state.context };
                actions.push(Action::ReleaseSurface { surface: state.surface });
                actions.push(Action::ReleaseWindow { window: state.window });
                actions.push(Action::MakeNotCurrent { context: state.context });
            },
            _ => {},
        }
        assert(actions@ =~= old(self)@.suspended().1);
        actions
    }

    /// A window event. A resize to a size without a zero in it, on an active
    /// controller, goes to the surface and then to the canvas; any other
    /// resize is ignored. A close request or the escape key tears down what
    /// is held, surface first, then context, window last, and asks for the
    /// exit. Nothing else is of interest.
    pub fn window_event(&mut self, event: WindowEvent) -> (actions: Vec<Action>)
        ensures
            final(self)@ == old(self)@.window_event(event).0,
            actions@ == old(self)@.window_event(event).1,
            old(self)@.wf() ==> final(self)@.wf(),
    {
        proof {
            if old(self)@.wf() {
                lemma_step_preserves_wf(old(self)@, Input::Window { event });
            }
        }
        match event {
            WindowEvent::Resized { width, height } => self.resize(width, height),
            WindowEvent::CloseRequested => self.terminate(),
            WindowEvent::KeyPressed { key: Key::Escape } => self.terminate(),
            _ => Vec::new(),
        }
    }

    /// The event queue ran dry. An active controller renders a frame for a
    /// window of the given metrics, asks for the next redraw and presents;
    /// any other does nothing.
    pub fn about_to_wait(&mut self, window: WindowMetrics) -> (actions: Vec<Action>)
        ensures
            final(self)@ == old(self)@.about_to_wait(window).0,
            actions@ == old(self)@.about_to_wait(window).1,
            old(self)@.wf() ==> final(self)@.wf(),
    {
        proof {
            if old(self)@.wf() {
                lemma_step_preserves_wf(old(self)@, Input::AboutToWait { window });
            }
        }
        match self.phase {
            Phase::Active { state } => {
                match &mut self.renderer {
                    Some(renderer) => {
                        let mut actions = renderer.draw(state.context, state.surface, window);
                        actions.push(Action::RequestRedraw { window: state.window });
                        actions.push(
                            Action::SwapBuffers { surface: state.surface, context: state.context },
                        );
                        assert(actions@ =~= old(self)@.about_to_wait(window).1);
                        actions
                    },
                    None => Vec::new(),
                }
            },
            _ => Vec::new(),
        }
    }

    /// The driver reports how a request ended.
    ///
    /// A resume runs from the window to the context, to the window again
    /// where the platform deferred it, to the surface, to making the context
    /// current, to the swap interval. A context kept from a suspension is
    /// taken up again; otherwise the negotiated configurations are attempted
    /// in order and the first that succeeds is committed to. The renderer is
    /// created the first time a context is current, and never again.
    ///
    /// A window, context, surface or make-current failure is fatal: what is
    /// held is released, the error recorded, the exit asked for. A refused
    /// swap interval is reported and the controller is active all the same.
    /// A report that the phase is not waiting for is ignored.
    pub fn completed(&mut self, outcome: Outcome) -> (actions: Vec<Action>)
        ensures
            final(self)@ == old(self)@.completed(outcome).0,
            actions@ == old(self)@.completed(outcome).1,
            old(self)@.wf() ==> final(self)@.wf(),
    {
        proof {
            if old(self)@.wf() {
                lemma_step_preserves_wf(old(self)@, Input::Completed { outcome });
            }
        }
        match (self.phase, outcome) {
            (Phase::CreatingWindow { reuse: None }, Outcome::WindowCreated { early }) => {
                self.negotiate(early, 0)
            },
            (Phase::CreatingWindow { reuse: Some(context) }, Outcome::WindowCreated { early }) => {
                self.proceed(context, early)
            },
            (Phase::CreatingWindow { .. }, Outcome::WindowFailed) => self.fail(
                AppError::WindowCreationFailed,
            ),
            (Phase::CreatingContext { early, attempt }, Outcome::ContextCreated { context }) => {
                let hint = CapabilityHint { window_available: early.is_some() };
                if let Some(config) = ContextNegotiator::nth(hint, attempt) {
                    self.committed = Some(config);
                }
                self.proceed(context, early)
            },
            (Phase::CreatingContext { early, attempt }, Outcome::ContextFailed) => {
                if attempt < usize::MAX {
                    self.negotiate(early, attempt + 1)
                } else {
                    self.fail(AppError::ContextCreationFailed)
                }
            },
            (Phase::FinalizingWindow { context }, Outcome::WindowFinalized { window }) => {
                self.phase = Phase::CreatingSurface { context, window };
                let mut actions: Vec<Action> = Vec::new();
                actions.push(Action::CreateSurface { window });
                assert(actions@ =~= old(self)@.completed(outcome).1);
                actions
            },
            (Phase::FinalizingWindow { .. }, Outcome::WindowFailed) => self.fail(
                AppError::WindowCreationFailed,
            ),
            (Phase::CreatingSurface { context, window }, Outcome::SurfaceCreated { surface }) => {
                self.phase = Phase::MakingCurrent { state: AppState { context, surface, window } };
                let mut actions: Vec<Action> = Vec::new();
                actions.push(Action::MakeCurrent { context, surface });
                assert(actions@ =~= old(self)@.completed(outcome).1);
                actions
            },
            (Phase::CreatingSurface { .. }, Outcome::SurfaceFailed) => self.fail(
                AppError::SurfaceCreationFailed,
            ),
            (Phase::MakingCurrent { state }, Outcome::MadeCurrent) => self.made_current(state),
            (Phase::MakingCurrent { .. }, Outcome::MakeCurrentFailed) => self.fail(
                AppError::MakeCurrentFailed,
            ),
            (Phase::SettingSwapInterval { state }, Outcome::SwapIntervalSet) => {
                self.phase = Phase::Active { state };
                Vec::new()
            },
            (Phase::SettingSwapInterval { state }, Outcome::SwapIntervalUnsupported) => {
                self.phase = Phase::Active { state };
                let mut actions: Vec<Action> = Vec::new();
                actions.push(Action::Report { error: AppError::SwapIntervalUnsupported });
                assert(actions@ =~= old(self)@.completed(outcome).1);
                actions
            },
            _ => Vec::new(),
        }
    }

    /// Whatever the driver delivers, by one entry.
    pub fn handle(&mut self, input: Input) -> (actions: Vec<Action>)
        ensures
            final(self)@ == old(self)@.step(input).0,
            actions@ == old(self)@.step(input).1,
            old(self)@.wf() ==> final(self)@.wf(),
    {
        match input {
            Input::Resumed => self.resumed(),
            Input::Suspended => self.suspended(),
            Input::Window { event } => self.window_event(event),
            Input::AboutToWait { window } => self.about_to_wait(window),
            Input::Completed { outcome } => self.completed(outcome),
        }
    }

    fn negotiate(&mut self, early: Option<WindowHandle>, attempt: usize) -> (actions: Vec<Action>)
        ensures
            final(self)@ == old(self)@.negotiate(early, attempt as int).0,
            actions@ == old(self)@.negotiate(early, attempt as int).1,
    {
        let hint = CapabilityHint { window_available: early.is_some() };
        match ContextNegotiator::nth(hint, attempt) {
            Some(config) => {
                self.phase = Phase::CreatingContext { early, attempt };
                let mut actions: Vec<Action> = Vec::new();
                actions.push(Action::CreateContext { config, early });
                assert(actions@ =~= old(self)@.negotiate(early, attempt as int).1);
                actions
            },
            None => self.fail(AppError::ContextCreationFailed),
        }
    }

    fn proceed(&mut self, context: ContextHandle, early: Option<WindowHandle>) -> (actions: Vec<
        Action,
    >)
        ensures
            final(self)@ == old(self)@.proceed(context, early).0,
            actions@ == old(self)@.proceed(context, early).1,
    {
        let mut actions: Vec<Action> = Vec::new();
        match early {
            Some(window) => {
                self.phase = Phase::CreatingSurface { context, window };
                actions.push(Action::CreateSurface { window });
            },
            None => {
                self.phase = Phase::FinalizingWindow { context };
                actions.push(Action::FinalizeWindow { attributes: WindowAttributes::deferred() });
            },
        }
        assert(actions@ =~= old(self)@.proceed(context, early).1);
        actions
    }

    fn made_current(&mut self, state: AppState) -> (actions: Vec<Action>)
        ensures
            final(self)@ == old(self)@.made_current(state).0,
            actions@ == old(self)@.made_current(state).1,
    {
        let mut actions: Vec<Action> = Vec::new();
        if self.renderer.is_none() {
            let renderer = Renderer::new();
            actions = renderer.setup();
            self.renderer = Some(renderer);
        }
        actions.push(
            Action::SetSwapInterval {
                surface: state.surface,
                context: state.context,
                interval: SWAP_INTERVAL,
            },
        );
        self.phase = Phase::SettingSwapInterval { state };
        assert(actions@ =~= old(self)@.made_current(state).1);
        actions
    }

    fn resize(&mut self, width: u32, height: u32) -> (actions: Vec<Action>)
        ensures
            final(self)@ == old(self)@.resized(width, height).0,
            actions@ == old(self)@.resized(width, height).1,
    {
        let mut actions: Vec<Action> = Vec::new();
        if width == 0 || height == 0 {
            return actions;
        }
        match self.phase {
            Phase::Active { state } => {
                match &mut self.renderer {
                    Some(renderer) => {
                        actions.push(
                            Action::ResizeSurface {
                                surface: state.surface,
                                context: state.context,
                                width,
                                height,
                            },
                        );
                        let sizing = renderer.resize(width, height);
                        actions.push(sizing);
                    },
                    None => {},
                }
            },
            _ => {},
        }
        assert(actions@ =~= old(self)@.resized(width, height).1);
        actions
    }

    fn terminate(&mut self) -> (actions: Vec<Action>)
        ensures
            final(self)@ == old(self)@.terminate().0,
            actions@ == old(self)@.terminate().1,
    {
        match self.phase {
            Phase::Terminated => Vec::new(),
            phase => {
                let mut actions = releases(phase);
                actions.push(Action::Exit);
                self.phase = Phase::Terminated;
                actions
            },
        }
    }

    fn fail(&mut self, error: AppError) -> (actions: Vec<Action>)
        ensures
            final(self)@ == old(self)@.fail(error).0,
            actions@ == old(self)@.fail(error).1,
    {
        let mut actions = releases(self.phase);
        actions.push(Action::Exit);
        self.phase = Phase::Terminated;
        self.exit_state = Err(error);
        actions
    }
}

/// The releases of everything held in `phase`: surface, context, window.
fn releases(phase: Phase) -> (actions: Vec<Action>)
    ensures
        actions@ == phase.releases(),
{
    let mut actions: Vec<Action> = Vec::new();
    match phase {
        Phase::Uninitialized | Phase::Terminated => {},
        Phase::CreatingWindow { reuse } => {
            if let Some(context) = reuse {
                actions.push(Action::ReleaseContext { context });
            }
        },
        Phase::CreatingContext { early, .. } => {
            if let Some(window) = early {
                actions.push(Action::ReleaseWindow { window });
            }
        },
        Phase::FinalizingWindow { context } => {
            actions.push(Action::ReleaseContext { context });
        },
        Phase::CreatingSurface { context, window } => {
            actions.push(Action::ReleaseContext { context });
            actions.push(Action::ReleaseWindow { window });
        },
        Phase::MakingCurrent { state }
        | Phase::SettingSwapInterval { state }
        | Phase::Active { state } => {
            actions.push(Action::ReleaseSurface { surface: state.surface });
            actions.push(Action::ReleaseContext { context: state.context });
            actions.push(Action::ReleaseWindow { window: state.window });
        },
        Phase::Suspended { retained } => {
            actions.push(Action::ReleaseContext { context: retained });
        },
    }
    assert(actions@ =~= phase.releases());
    actions
}

} // verus!
