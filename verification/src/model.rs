//! The controller as a state machine over plain values.
//!
//! Each transition is a function from the state before to the state after
//! and the actions to perform, first to last. Nothing here runs: the
//! controller's methods are specified by these functions, and the laws of the
//! lifecycle are proved of them.

use vstd::prelude::*;
use crate::context::{proposal, CapabilityHint, ContextConfig, PROPOSAL_LEN};
use crate::protocol::{
    deferred_window_attributes, Action, AppError, ConfigTemplate, ContextHandle, Input, Key,
    Outcome, SurfaceHandle, WindowAttributes, WindowEvent, WindowHandle, WindowMetrics,
    SWAP_INTERVAL,
};
use crate::renderer::{default_views, set_size, RendererModel};

verus! {

/// A context current on the surface of a live window.
#[derive(Clone, Copy, Debug, PartialEq, Eq, Structural)]
pub struct AppState {
    pub context: ContextHandle,
    pub surface: SurfaceHandle,
    pub window: WindowHandle,
}

/// Where the controller stands.
///
/// `Uninitialized`, `Active`, `Suspended` and `Terminated` are where it rests
/// between events. The others are the steps of a resume, each waiting for the
/// driver to report on one request.
#[derive(Clone, Copy, Debug, PartialEq, Eq, Structural)]
pub enum Phase {
    /// Never resumed.
    Uninitialized,
    /// Waiting for the window. `reuse` is the context kept from a suspension.
    CreatingWindow { reuse: Option<ContextHandle> },
    /// Waiting for the context of attempt number `attempt` of the proposal.
    CreatingContext { early: Option<WindowHandle>, attempt: usize },
    /// Waiting for the window that the platform deferred.
    FinalizingWindow { context: ContextHandle },
    /// Waiting for the surface of `window`.
    CreatingSurface { context: ContextHandle, window: WindowHandle },
    /// Waiting for the context to become current on the surface.
    MakingCurrent { state: AppState },
    /// Waiting to hear whether the swap interval was accepted.
    SettingSwapInterval { state: AppState },
    /// Rendering.
    Active { state: AppState },
    /// The surface is gone; the context is kept, not current.
    Suspended { retained: ContextHandle },
    /// Final. Nothing is held and nothing is answered any more.
    Terminated,
}

impl Phase {
    /// The surface held in this phase.
    pub open spec fn surface(self) -> Option<SurfaceHandle> {
        match self {
            Phase::MakingCurrent { state } => Some(state.surface),
            Phase::SettingSwapInterval { state } => Some(state.surface),
            Phase::Active { state } => Some(state.surface),
            _ => None,
        }
    }

    /// The context held in this phase, current or not.
    pub open spec fn context(self) -> Option<ContextHandle> {
        match self {
            Phase::CreatingWindow { reuse } => reuse,
            Phase::FinalizingWindow { context } => Some(context),
            Phase::CreatingSurface { context, .. } => Some(context),
            Phase::MakingCurrent { state } => Some(state.context),
            Phase::SettingSwapInterval { state } => Some(state.context),
            Phase::Active { state } => Some(state.context),
            Phase::Suspended { retained } => Some(retained),
            _ => None,
        }
    }

    /// The window held in this phase.
    pub open spec fn window(self) -> Option<WindowHandle> {
        match self {
            Phase::CreatingContext { early, .. } => early,
            Phase::CreatingSurface { window, .. } => Some(window),
            Phase::MakingCurrent { state } => Some(state.window),
            Phase::SettingSwapInterval { state } => Some(state.window),
            Phase::Active { state } => Some(state.window),
            _ => None,
        }
    }

    /// Whether `outcome` answers the request this phase is waiting on.
    pub open spec fn expects(self, outcome: Outcome) -> bool {
        match self {
            Phase::CreatingWindow { .. } => outcome is WindowCreated || outcome is WindowFailed,
            Phase::CreatingContext { .. } => outcome is ContextCreated || outcome is ContextFailed,
            Phase::FinalizingWindow { .. } => outcome is WindowFinalized || outcome
                is WindowFailed,
            Phase::CreatingSurface { .. } => outcome is SurfaceCreated || outcome is SurfaceFailed,
            Phase::MakingCurrent { .. } => outcome is MadeCurrent || outcome is MakeCurrentFailed,
            Phase::SettingSwapInterval { .. } => outcome is SwapIntervalSet || outcome
                is SwapIntervalUnsupported,
            _ => false,
        }
    }

    /// Whether this phase waits on the last configuration of the proposal.
    pub open spec fn is_last_attempt(self) -> bool {
        self matches Phase::CreatingContext { attempt, .. } && attempt + 1 == PROPOSAL_LEN
    }

    /// The most reports a resume can still take from this phase before the
    /// controller is active or terminated.
    pub open spec fn distance(self) -> nat {
        match self {
            Phase::CreatingWindow { .. } => 9,
            Phase::CreatingContext { attempt, .. } => if attempt < PROPOSAL_LEN {
                (8 - attempt) as nat
            } else {
                5
            },
            Phase::FinalizingWindow { .. } => 4,
            Phase::CreatingSurface { .. } => 3,
            Phase::MakingCurrent { .. } => 2,
            Phase::SettingSwapInterval { .. } => 1,
            _ => 0,
        }
    }

    /// Releases everything held in this phase: the surface first, then the
    /// context, the window last.
    pub open spec fn releases(self) -> Seq<Action> {
        (match self.surface() {
            Some(surface) => seq![Action::ReleaseSurface { surface }],
            None => Seq::<Action>::empty(),
        }) + (match self.context() {
            Some(context) => seq![Action::ReleaseContext { context }],
            None => Seq::<Action>::empty(),
        }) + (match self.window() {
            Some(window) => seq![Action::ReleaseWindow { window }],
            None => Seq::<Action>::empty(),
        })
    }
}

/// The controller as contracts see it.
pub struct AppModel {
    /// The template windows are created from.
    pub window_attributes: WindowAttributes,
    /// The template surface configurations have to match.
    pub template: ConfigTemplate,
    /// The fatal error that ended the controller, if one did.
    pub exit_state: Result<(), AppError>,
    /// The configuration the context was created with.
    pub committed: Option<ContextConfig>,
    /// The renderer, once there has been a current context to create it on.
    pub renderer: Option<RendererModel>,
    pub phase: Phase,
}

impl AppModel {
    /// A controller that has not been resumed yet.
    pub open spec fn init(window_attributes: WindowAttributes, template: ConfigTemplate) -> AppModel {
        AppModel {
            window_attributes,
            template,
            exit_state: Ok(()),
            committed: None,
            renderer: None,
            phase: Phase::Uninitialized,
        }
    }

    /// What holds of every controller, whatever it has been through.
    ///
    /// Until a first context was created there is neither a committed
    /// configuration nor a renderer; whoever holds a context knows the
    /// configuration it was created with; a controller that is active or
    /// suspended has its renderer, over the default views; and only a
    /// terminated controller has an error on record, a fatal one.
    pub open spec fn wf(self) -> bool {
        &&& self.before_first_context() ==> self.renderer is None && self.committed is None
        &&& self.phase is Active || self.phase is SettingSwapInterval || self.phase is Suspended
            ==> self.renderer is Some
        &&& self.phase matches Phase::CreatingWindow { reuse: Some(_) } ==> self.renderer is Some
        &&& self.phase.context() is Some ==> self.committed is Some
        &&& self.renderer matches Some(renderer) ==> self.committed is Some && renderer.views
            == default_views()
        &&& self.exit_state is Err ==> self.phase is Terminated
        &&& self.exit_state != Err::<(), AppError>(AppError::SwapIntervalUnsupported)
        &&& self.phase matches Phase::CreatingContext { attempt, .. } ==> attempt < PROPOSAL_LEN
    }

    /// Whether the controller has yet to see its first context.
    pub open spec fn before_first_context(self) -> bool {
        ||| self.phase is Uninitialized
        ||| self.phase is CreatingContext
        ||| self.phase matches Phase::CreatingWindow { reuse: None }
    }

    /// The context, surface and window in use, while the controller is active.
    pub open spec fn state(self) -> Option<AppState> {
        match self.phase {
            Phase::Active { state } => Some(state),
            _ => None,
        }
    }

    /// The context kept across a suspension, until a resume takes it up.
    pub open spec fn retained_context(self) -> Option<ContextHandle> {
        match self.phase {
            Phase::Suspended { retained } => Some(retained),
            Phase::CreatingWindow { reuse } => reuse,
            _ => None,
        }
    }

    /// The same controller in another phase.
    pub open spec fn at(self, phase: Phase) -> AppModel {
        AppModel { phase, ..self }
    }

    /// Nothing changes and nothing is to be done.
    pub open spec fn stay(self) -> (AppModel, Seq<Action>) {
        (self, Seq::<Action>::empty())
    }

    /// Gives up: releases what is held, asks for the exit, and is terminated.
    pub open spec fn terminate(self) -> (AppModel, Seq<Action>) {
        if self.phase is Terminated {
            self.stay()
        } else {
            (self.at(Phase::Terminated), self.phase.releases().push(Action::Exit))
        }
    }

    /// Gives up over `error`, which is recorded for the caller.
    pub open spec fn fail(self, error: AppError) -> (AppModel, Seq<Action>) {
        (
            AppModel { exit_state: Err(error), phase: Phase::Terminated, ..self },
            self.phase.releases().push(Action::Exit),
        )
    }

    /// The surface is granted: start acquiring window, context and surface.
    /// Only a controller that is uninitialized or suspended resumes.
    pub open spec fn resumed(self) -> (AppModel, Seq<Action>) {
        let request = Action::CreateWindow {
            attributes: self.window_attributes,
            template: self.template,
        };
        match self.phase {
            Phase::Uninitialized => (
                self.at(Phase::CreatingWindow { reuse: None }),
                seq![request],
            ),
            Phase::Suspended { retained } => (
                self.at(Phase::CreatingWindow { reuse: Some(retained) }),
                seq![request],
            ),
            _ => self.stay(),
        }
    }

    /// The surface is revoked: the surface and the window go, the context is
    /// detached and kept. Anything but an active controller stays as it is.
    pub open spec fn suspended(self) -> (AppModel, Seq<Action>) {
        match self.phase {
            Phase::Active { state } => (
                self.at(Phase::Suspended { retained: state.context }),
                seq![
                    Action::ReleaseSurface { surface: state.surface },
                    Action::ReleaseWindow { window: state.window },
                    Action::MakeNotCurrent { context: state.context },
                ],
            ),
            _ => self.stay(),
        }
    }

    /// The window changed size. A size with a zero in it is ignored, and so
    /// is any size while the controller is not active.
    pub open spec fn resized(self, width: u32, height: u32) -> (AppModel, Seq<Action>) {
        match (self.phase, self.renderer) {
            (Phase::Active { state }, Some(renderer)) if width != 0 && height != 0 => (
                AppModel {
                    renderer: Some(
                        RendererModel { canvas: RendererModel::sized(width, height), ..renderer },
                    ),
                    ..self
                },
                seq![
                    Action::ResizeSurface {
                        surface: state.surface,
                        context: state.context,
                        width,
                        height,
                    },
                    set_size(RendererModel::sized(width, height)),
                ],
            ),
            _ => self.stay(),
        }
    }

    /// A window event: a resize, a request to end, or nothing of interest.
    pub open spec fn window_event(self, event: WindowEvent) -> (AppModel, Seq<Action>) {
        match event {
            WindowEvent::Resized { width, height } => self.resized(width, height),
            WindowEvent::CloseRequested => self.terminate(),
            WindowEvent::KeyPressed { key: Key::Escape } => self.terminate(),
            _ => self.stay(),
        }
    }

    /// Time for a frame: render, ask for the next redraw, present. Only an
    /// active controller draws.
    pub open spec fn about_to_wait(self, window: WindowMetrics) -> (AppModel, Seq<Action>) {
        match (self.phase, self.renderer) {
            (Phase::Active { state }, Some(renderer)) => (
                AppModel {
                    renderer: Some(
                        RendererModel { canvas: RendererModel::fitted(window), ..renderer },
                    ),
                    ..self
                },
                renderer.frame(state.context, state.surface, window) + seq![
                    Action::RequestRedraw { window: state.window },
                    Action::SwapBuffers { surface: state.surface, context: state.context },
                ],
            ),
            _ => self.stay(),
        }
    }

    /// The attempt at position `attempt` of the negotiation: the request for
    /// that configuration, or failure once the proposal is exhausted.
    pub open spec fn negotiate(self, early: Option<WindowHandle>, attempt: int) -> (
        AppModel,
        Seq<Action>,
    ) {
        let configs = proposal(CapabilityHint { window_available: early is Some });
        if 0 <= attempt < configs.len() {
            (
                self.at(Phase::CreatingContext { early, attempt: attempt as usize }),
                seq![Action::CreateContext { config: configs[attempt], early }],
            )
        } else {
            self.fail(AppError::ContextCreationFailed)
        }
    }

    /// There is a context: go on to the surface, by way of the window if the
    /// platform deferred it.
    pub open spec fn proceed(self, context: ContextHandle, early: Option<WindowHandle>) -> (
        AppModel,
        Seq<Action>,
    ) {
        match early {
            Some(window) => (
                self.at(Phase::CreatingSurface { context, window }),
                seq![Action::CreateSurface { window }],
            ),
            None => (
                self.at(Phase::FinalizingWindow { context }),
                seq![Action::FinalizeWindow { attributes: deferred_window_attributes() }],
            ),
        }
    }

    /// The context is current: create the renderer if there is none yet, and
    /// ask for vsync.
    pub open spec fn made_current(self, state: AppState) -> (AppModel, Seq<Action>) {
        let vsync = Action::SetSwapInterval {
            surface: state.surface,
            context: state.context,
            interval: SWAP_INTERVAL,
        };
        match self.renderer {
            Some(_) => (self.at(Phase::SettingSwapInterval { state }), seq![vsync]),
            None => {
                let renderer = RendererModel::over(default_views());
                (
                    AppModel {
                        renderer: Some(renderer),
                        phase: Phase::SettingSwapInterval { state },
                        ..self
                    },
                    renderer.setup().push(vsync),
                )
            },
        }
    }

    /// The driver reports on a request. A report that the phase is not
    /// waiting for is ignored.
    pub open spec fn completed(self, outcome: Outcome) -> (AppModel, Seq<Action>) {
        match (self.phase, outcome) {
            (Phase::CreatingWindow { reuse: None }, Outcome::WindowCreated { early }) => {
                self.negotiate(early, 0)
            },
            (Phase::CreatingWindow { reuse: Some(context) }, Outcome::WindowCreated { early }) => {
                self.proceed(context, early)
            },
            (Phase::CreatingWindow { .. }, Outcome::WindowFailed) => self.fail(
                AppError::WindowCreationFailed,
            ),
            (Phase::CreatingContext { early, attempt }, Outcome::ContextCreated { context }) => {
                let configs = proposal(CapabilityHint { window_available: early is Some });
                let committed = if attempt < configs.len() {
                    Some(configs[attempt as int])
                } else {
                    self.committed
                };
                (AppModel { committed, ..self }).proceed(context, early)
            },
            (Phase::CreatingContext { early, attempt }, Outcome::ContextFailed) => self.negotiate(
                early,
                attempt + 1,
            ),
            (Phase::FinalizingWindow { context }, Outcome::WindowFinalized { window }) => (
                self.at(Phase::CreatingSurface { context, window }),
                seq![Action::CreateSurface { window }],
            ),
            (Phase::FinalizingWindow { .. }, Outcome::WindowFailed) => self.fail(
                AppError::WindowCreationFailed,
            ),
            (Phase::CreatingSurface { context, window }, Outcome::SurfaceCreated { surface }) => (
                self.at(Phase::MakingCurrent { state: AppState { context, surface, window } }),
                seq![Action::MakeCurrent { context, surface }],
            ),
            (Phase::CreatingSurface { .. }, Outcome::SurfaceFailed) => self.fail(
                AppError::SurfaceCreationFailed,
            ),
            (Phase::MakingCurrent { state }, Outcome::MadeCurrent) => self.made_current(state),
            (Phase::MakingCurrent { .. }, Outcome::MakeCurrentFailed) => self.fail(
                AppError::MakeCurrentFailed,
            ),
            (Phase::SettingSwapInterval { state }, Outcome::SwapIntervalSet) => (
                self.at(Phase::Active { state }),
                Seq::<Action>::empty(),
            ),
            (Phase::SettingSwapInterval { state }, Outcome::SwapIntervalUnsupported) => (
                self.at(Phase::Active { state }),
                seq![Action::Report { error: AppError::SwapIntervalUnsupported }],
            ),
            _ => self.stay(),
        }
    }

    /// One input, whatever it is.
    pub open spec fn step(self, input: Input) -> (AppModel, Seq<Action>) {
        match input {
            Input::Resumed => self.resumed(),
            Input::Suspended => self.suspended(),
            Input::Window { event } => self.window_event(event),
            Input::AboutToWait { window } => self.about_to_wait(window),
            Input::Completed { outcome } => self.completed(outcome),
        }
    }

    /// A whole history: the inputs one after the other, and every action
    /// they called for, in order.
    pub open spec fn run(self, inputs: Seq<Input>) -> (AppModel, Seq<Action>)
        decreases inputs.len(),
    {
        if inputs.len() == 0 {
            self.stay()
        } else {
            let (before, earlier) = self.run(inputs.drop_last());
            let (after, actions) = before.step(inputs.last());
            (after, earlier + actions)
        }
    }
}

} // verus!
