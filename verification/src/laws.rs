//! Laws of the lifecycle, proved of the state machine that specifies the
//! controller.

use vstd::prelude::*;
use crate::context::{fallback_config, legacy_config, preferred_config, proposal, CapabilityHint};
use crate::model::{AppModel, AppState, Phase};
use crate::protocol::{
    exits, Action, AppError, ConfigTemplate, ContextHandle, Input, Key, Outcome, SurfaceHandle,
    WindowAttributes, WindowEvent, WindowHandle, SWAP_INTERVAL,
};
use crate::renderer::{set_size, RendererModel};

verus! {

/// A new controller is well formed.
pub proof fn lemma_init_is_well_formed(window_attributes: WindowAttributes, template: ConfigTemplate)
    ensures
        AppModel::init(window_attributes, template).wf(),
{
}

/// No input takes a well-formed controller to one that is not.
pub proof fn lemma_step_preserves_wf(app: AppModel, input: Input)
    requires
        app.wf(),
    ensures
        app.step(input).0.wf(),
{
}

/// Appending one input to a history appends its step.
pub proof fn lemma_run_push(app: AppModel, inputs: Seq<Input>, input: Input)
    ensures
        app.run(inputs.push(input)).0 == app.run(inputs).0.step(input).0,
        app.run(inputs.push(input)).1 == app.run(inputs).1 + app.run(inputs).0.step(input).1,
{
    assert(inputs.push(input).drop_last() =~= inputs);
}

/// No history takes a well-formed controller to one that is not.
pub proof fn lemma_run_preserves_wf(app: AppModel, inputs: Seq<Input>)
    requires
        app.wf(),
    ensures
        app.run(inputs).0.wf(),
    decreases inputs.len(),
{
    if inputs.len() > 0 {
        lemma_run_preserves_wf(app, inputs.drop_last());
        lemma_step_preserves_wf(app.run(inputs.drop_last()).0, inputs.last());
    }
}

/// The context is either current on a live surface or kept detached, never
/// both. An active controller has the former and not the latter; a suspended
/// one the latter and not the former.
pub proof fn lemma_ownership_is_exclusive(app: AppModel)
    ensures
        !(app.state() is Some && app.retained_context() is Some),
        app.phase is Active ==> app.state() is Some && app.retained_context() is None,
        app.phase is Suspended ==> app.state() is None && app.retained_context() is Some,
        app.phase is Uninitialized || app.phase is Terminated ==> app.state() is None
            && app.retained_context() is None,
{
}

/// Once resumed, a controller is never uninitialized again; and between
/// its first resume and its end it rests either active, with its state, or
/// suspended, with its retained context.
pub proof fn lemma_resumed_for_good(app: AppModel, input: Input)
    ensures
        !(app.phase is Uninitialized) ==> !(app.step(input).0.phase is Uninitialized),
        app.phase is Active || app.phase is Suspended ==> (app.state() is Some)
            != (app.retained_context() is Some),
{
}

/// A resume ends. Every report that the controller is waiting for either
/// terminates it or brings it strictly nearer to being active, so that no
/// resume takes more than nine reports; and it is terminated exactly by a
/// failure of window, surface or make-current, or by the refusal of the
/// last configuration of the proposal.
pub proof fn lemma_resume_is_bounded(app: AppModel, outcome: Outcome)
    requires
        app.wf(),
        app.phase.expects(outcome),
    ensures
        ({
            let after = app.completed(outcome).0;
            let fatal = {
                ||| outcome is WindowFailed
                ||| outcome is SurfaceFailed
                ||| outcome is MakeCurrentFailed
                ||| outcome is ContextFailed && app.phase.is_last_attempt()
            };
            &&& app.phase.distance() <= 9
            &&& fatal <==> after.phase is Terminated
            &&& fatal <==> after.exit_state is Err
            &&& !fatal ==> after.phase.distance() < app.phase.distance()
            &&& after.phase.distance() == 0 <==> after.phase is Active || after.phase is Terminated
        }),
{
}

/// A report that the controller is not waiting for changes nothing and calls
/// for nothing.
pub proof fn lemma_unexpected_report_is_ignored(app: AppModel, outcome: Outcome)
    requires
        !app.phase.expects(outcome),
    ensures
        app.completed(outcome) == app.stay(),
{
}

/// A history in two parts runs as the first part followed by the second.
pub proof fn lemma_run_concat(app: AppModel, first: Seq<Input>, second: Seq<Input>)
    ensures
        app.run(first + second).0 == app.run(first).0.run(second).0,
        app.run(first + second).1 == app.run(first).1 + app.run(first).0.run(second).1,
    decreases second.len(),
{
    if second.len() == 0 {
        assert(first + second =~= first);
        assert(app.run(first).1 + Seq::<Action>::empty() =~= app.run(first).1);
    } else {
        lemma_run_concat(app, first, second.drop_last());
        assert((first + second).drop_last() =~= first + second.drop_last());
        let middle = app.run(first).0;
        assert(app.run(first + second).1 =~= app.run(first).1 + middle.run(second).1);
    }
}

/// What the driver delivers over a first resume on which nothing fails and
/// the window is there from the start.
pub open spec fn first_resume(
    window: WindowHandle,
    context: ContextHandle,
    surface: SurfaceHandle,
) -> Seq<Input> {
    seq![
        Input::Resumed,
        Input::Completed { outcome: Outcome::WindowCreated { early: Some(window) } },
        Input::Completed { outcome: Outcome::ContextCreated { context } },
        Input::Completed { outcome: Outcome::SurfaceCreated { surface } },
        Input::Completed { outcome: Outcome::MadeCurrent },
        Input::Completed { outcome: Outcome::SwapIntervalSet },
    ]
}

/// What the driver delivers over a resume that follows a suspension, if
/// nothing fails and the window is there from the start.
pub open spec fn later_resume(window: WindowHandle, surface: SurfaceHandle) -> Seq<Input> {
    seq![
        Input::Resumed,
        Input::Completed { outcome: Outcome::WindowCreated { early: Some(window) } },
        Input::Completed { outcome: Outcome::SurfaceCreated { surface } },
        Input::Completed { outcome: Outcome::MadeCurrent },
        Input::Completed { outcome: Outcome::SwapIntervalSet },
    ]
}

/// A first resume on which nothing fails ends active: the context created
/// with the preferred configuration is current on the surface of the window,
/// no context is retained, and the renderer was created on the way. Exactly
/// these requests were made, in this order.
pub proof fn lemma_first_resume_activates(
    app: AppModel,
    window: WindowHandle,
    context: ContextHandle,
    surface: SurfaceHandle,
)
    requires
        app.wf(),
        app.phase is Uninitialized,
    ensures
        ({
            let (after, actions) = app.run(first_resume(window, context, surface));
            &&& after.phase == Phase::Active { state: AppState { context, surface, window } }
            &&& after.state() == Some(AppState { context, surface, window })
            &&& after.retained_context() is None
            &&& after.committed == Some(preferred_config())
            &&& after.renderer is Some
            &&& after.exit_state is Ok
            &&& actions == seq![
                Action::CreateWindow { attributes: app.window_attributes, template: app.template },
                Action::CreateContext { config: preferred_config(), early: Some(window) },
                Action::CreateSurface { window },
                Action::MakeCurrent { context, surface },
                Action::CreateCanvas,
                set_size(crate::renderer::initial_canvas()),
                Action::SetSwapInterval { surface, context, interval: SWAP_INTERVAL },
            ]
        }),
{
    let i0 = Input::Resumed;
    let i1 = Input::Completed { outcome: Outcome::WindowCreated { early: Some(window) } };
    let i2 = Input::Completed { outcome: Outcome::ContextCreated { context } };
    let i3 = Input::Completed { outcome: Outcome::SurfaceCreated { surface } };
    let i4 = Input::Completed { outcome: Outcome::MadeCurrent };
    let i5 = Input::Completed { outcome: Outcome::SwapIntervalSet };
    let s1 = seq![i0];
    let s2 = s1.push(i1);
    let s3 = s2.push(i2);
    let s4 = s3.push(i3);
    let s5 = s4.push(i4);
    lemma_run_push(app, Seq::empty(), i0);
    lemma_run_push(app, s1, i1);
    lemma_run_push(app, s2, i2);
    lemma_run_push(app, s3, i3);
    lemma_run_push(app, s4, i4);
    lemma_run_push(app, s5, i5);
    assert(first_resume(window, context, surface) =~= s5.push(i5));
    assert(app.run(s5.push(i5)).1 =~= seq![
        Action::CreateWindow { attributes: app.window_attributes, template: app.template },
        Action::CreateContext { config: preferred_config(), early: Some(window) },
        Action::CreateSurface { window },
        Action::MakeCurrent { context, surface },
        Action::CreateCanvas,
        set_size(crate::renderer::initial_canvas()),
        Action::SetSwapInterval { surface, context, interval: SWAP_INTERVAL },
    ]);
}

/// The negotiation follows the proposal. Each refusal is answered with the
/// next configuration, the one after the last is fatal, and the first
/// configuration that is accepted is the one committed to: nothing is
/// attempted after it.
pub proof fn lemma_negotiation_follows_proposal(
    app: AppModel,
    early: Option<WindowHandle>,
    attempt: usize,
    context: ContextHandle,
)
    requires
        app.phase == (Phase::CreatingContext { early, attempt }),
        attempt < crate::context::PROPOSAL_LEN,
    ensures
        ({
            let configs = proposal(CapabilityHint { window_available: early is Some });
            let (refused, retry) = app.completed(Outcome::ContextFailed);
            let (accepted, next) = app.completed(Outcome::ContextCreated { context });
            &&& attempt + 1 < configs.len() ==> {
                &&& refused.phase == Phase::CreatingContext {
                    early,
                    attempt: (attempt + 1) as usize,
                }
                &&& retry == seq![Action::CreateContext { config: configs[attempt + 1], early }]
                &&& refused.exit_state == app.exit_state
            }
            &&& attempt + 1 == configs.len() ==> {
                &&& refused.phase is Terminated
                &&& refused.exit_state == Err::<(), AppError>(AppError::ContextCreationFailed)
                &&& retry == app.phase.releases().push(Action::Exit)
            }
            &&& accepted.committed == Some(configs[attempt as int])
            &&& accepted.phase.context() == Some(context)
            &&& forall|i: int| 0 <= i < next.len() ==> !(#[trigger] next[i] is CreateContext)
        }),
{
}

/// With the preferred and the fallback configuration refused and the legacy
/// one accepted, the three were attempted in that order, the legacy
/// configuration is the one committed to, and the resume goes on to the
/// surface.
pub proof fn lemma_legacy_is_the_last_resort(
    app: AppModel,
    window: WindowHandle,
    context: ContextHandle,
)
    requires
        app.wf(),
        app.phase is Uninitialized,
    ensures
        ({
            let (after, actions) = app.run(
                seq![
                    Input::Resumed,
                    Input::Completed { outcome: Outcome::WindowCreated { early: Some(window) } },
                    Input::Completed { outcome: Outcome::ContextFailed },
                    Input::Completed { outcome: Outcome::ContextFailed },
                    Input::Completed { outcome: Outcome::ContextCreated { context } },
                ],
            );
            &&& after.phase == Phase::CreatingSurface { context, window }
            &&& after.committed == Some(legacy_config())
            &&& actions == seq![
                Action::CreateWindow { attributes: app.window_attributes, template: app.template },
                Action::CreateContext { config: preferred_config(), early: Some(window) },
                Action::CreateContext { config: fallback_config(), early: Some(window) },
                Action::CreateContext { config: legacy_config(), early: Some(window) },
                Action::CreateSurface { window },
            ]
        }),
{
    let i0 = Input::Resumed;
    let i1 = Input::Completed { outcome: Outcome::WindowCreated { early: Some(window) } };
    let i2 = Input::Completed { outcome: Outcome::ContextFailed };
    let i3 = Input::Completed { outcome: Outcome::ContextCreated { context } };
    let s0 = Seq::<Input>::empty();
    let s1 = s0.push(i0);
    let s2 = s1.push(i1);
    let s3 = s2.push(i2);
    let s4 = s3.push(i2);
    let a0 = Action::CreateWindow { attributes: app.window_attributes, template: app.template };
    let a1 = Action::CreateContext { config: preferred_config(), early: Some(window) };
    let a2 = Action::CreateContext { config: fallback_config(), early: Some(window) };
    let a3 = Action::CreateContext { config: legacy_config(), early: Some(window) };
    lemma_run_push(app, s0, i0);
    lemma_run_push(app, s1, i1);
    lemma_run_push(app, s2, i2);
    lemma_run_push(app, s3, i2);
    lemma_run_push(app, s4, i3);
    assert(seq![i0, i1, i2, i2, i3] =~= s4.push(i3));
    assert(app.run(s4.push(i3)).1 =~= seq![a0, a1, a2, a3, Action::CreateSurface { window }]);
}

/// Nothing in `actions` is a request.
pub open spec fn request_free(actions: Seq<Action>) -> bool {
    forall|i: int| 0 <= i < actions.len() ==> !(#[trigger] actions[i]).is_request()
}

/// Nothing in `actions` asks for the exit.
pub open spec fn exit_free(actions: Seq<Action>) -> bool {
    forall|i: int| 0 <= i < actions.len() ==> !(#[trigger] actions[i] is Exit)
}

/// The exits of two lists add up.
pub proof fn lemma_exits_concat(first: Seq<Action>, second: Seq<Action>)
    ensures
        exits(first + second) == exits(first) + exits(second),
    decreases second.len(),
{
    if second.len() == 0 {
        assert(first + second =~= first);
    } else {
        lemma_exits_concat(first, second.drop_last());
        assert((first + second).drop_last() =~= first + second.drop_last());
    }
}

/// A list without an exit counts none.
pub proof fn lemma_exits_none(actions: Seq<Action>)
    requires
        exit_free(actions),
    ensures
        exits(actions) == 0,
    decreases actions.len(),
{
    if actions.len() > 0 {
        lemma_exits_none(actions.drop_last());
    }
}

/// An input asks for the exit exactly when it terminates the controller,
/// and then once.
pub proof fn lemma_step_exits_on_termination(app: AppModel, input: Input)
    ensures
        exits(app.step(input).1) == (if app.phase !is Terminated && app.step(input).0.phase
            is Terminated {
            1nat
        } else {
            0nat
        }),
        app.phase is Terminated ==> app.step(input) == app.stay(),
{
    let (after, actions) = app.step(input);
    if app.phase !is Terminated && after.phase is Terminated {
        let released = app.phase.releases();
        assert(actions == released.push(Action::Exit));
        assert(actions.drop_last() =~= released);
        assert(exit_free(released));
        lemma_exits_none(released);
    } else {
        assert(exit_free(actions));
        lemma_exits_none(actions);
    }
}

/// Over any history the exit is asked for at most once: once if the history
/// terminated the controller, never otherwise. A controller that is
/// terminated stays so, and its error on record with it.
pub proof fn lemma_exit_is_requested_once(app: AppModel, inputs: Seq<Input>)
    ensures
        exits(app.run(inputs).1) == (if app.phase !is Terminated && app.run(inputs).0.phase
            is Terminated {
            1nat
        } else {
            0nat
        }),
        app.phase is Terminated ==> app.run(inputs) == app.stay(),
    decreases inputs.len(),
{
    if inputs.len() > 0 {
        let (before, earlier) = app.run(inputs.drop_last());
        lemma_exit_is_requested_once(app, inputs.drop_last());
        lemma_step_exits_on_termination(before, inputs.last());
        lemma_exits_concat(earlier, before.step(inputs.last()).1);
        if app.phase is Terminated {
            assert(earlier + before.step(inputs.last()).1 =~= Seq::<Action>::empty());
        }
    }
}

/// If every configuration of the proposal is refused on the first resume,
/// the result is the context-creation error: the controller is terminated,
/// the window released if there was one, and the exit asked for once.
pub proof fn lemma_exhausted_negotiation_is_fatal(app: AppModel, early: Option<WindowHandle>)
    requires
        app.wf(),
        app.phase is Uninitialized,
    ensures
        ({
            let (after, actions) = app.run(
                seq![
                    Input::Resumed,
                    Input::Completed { outcome: Outcome::WindowCreated { early } },
                    Input::Completed { outcome: Outcome::ContextFailed },
                    Input::Completed { outcome: Outcome::ContextFailed },
                    Input::Completed { outcome: Outcome::ContextFailed },
                ],
            );
            &&& after.phase is Terminated
            &&& after.exit_state == Err::<(), AppError>(AppError::ContextCreationFailed)
            &&& after.state() is None
            &&& after.retained_context() is None
            &&& exits(actions) == 1
            &&& actions == seq![
                Action::CreateWindow { attributes: app.window_attributes, template: app.template },
                Action::CreateContext { config: preferred_config(), early },
                Action::CreateContext { config: fallback_config(), early },
                Action::CreateContext { config: legacy_config(), early },
            ] + (match early {
                Some(window) => seq![Action::ReleaseWindow { window }],
                None => Seq::<Action>::empty(),
            }).push(Action::Exit)
        }),
{
    let i0 = Input::Resumed;
    let i1 = Input::Completed { outcome: Outcome::WindowCreated { early } };
    let i2 = Input::Completed { outcome: Outcome::ContextFailed };
    let s0 = Seq::<Input>::empty();
    let s1 = s0.push(i0);
    let s2 = s1.push(i1);
    let s3 = s2.push(i2);
    let s4 = s3.push(i2);
    let s5 = s4.push(i2);
    let a0 = Action::CreateWindow { attributes: app.window_attributes, template: app.template };
    let a1 = Action::CreateContext { config: preferred_config(), early };
    let a2 = Action::CreateContext { config: fallback_config(), early };
    let a3 = Action::CreateContext { config: legacy_config(), early };
    let tail = (match early {
        Some(window) => seq![Action::ReleaseWindow { window }],
        None => Seq::<Action>::empty(),
    }).push(Action::Exit);
    lemma_run_push(app, s0, i0);
    lemma_run_push(app, s1, i1);
    lemma_run_push(app, s2, i2);
    lemma_run_push(app, s3, i2);
    assert(app.run(s4).0.phase == Phase::CreatingContext { early, attempt: 2 });
    assert(app.run(s4).1 =~= seq![a0, a1, a2, a3]);
    lemma_run_push(app, s4, i2);
    assert(app.run(s4).0.phase.releases().push(Action::Exit) =~= tail);
    assert(app.run(s5).1 =~= seq![a0, a1, a2, a3] + tail);
    assert(seq![i0, i1, i2, i2, i2] =~= s5);
    lemma_exit_is_requested_once(app, s5);
}

/// Suspending an active controller is the inverse of resuming it: the state
/// is gone and its context retained. The surface and the window are
/// released, once each, and the context is detached.
pub proof fn lemma_suspend_retains_context(app: AppModel, state: AppState)
    requires
        app.phase == (Phase::Active { state }),
    ensures
        app.suspended().0.phase == (Phase::Suspended { retained: state.context }),
        app.suspended().0.state() is None,
        app.suspended().0.retained_context() == Some(state.context),
        app.suspended().0.renderer == app.renderer,
        app.suspended().1 == seq![
            Action::ReleaseSurface { surface: state.surface },
            Action::ReleaseWindow { window: state.window },
            Action::MakeNotCurrent { context: state.context },
        ],
{
}

/// A suspension that follows a suspension does nothing: no surface is
/// released twice.
pub proof fn lemma_second_suspend_is_ignored(app: AppModel)
    ensures
        app.suspended().0.suspended() == app.suspended().0.stay(),
        !(app.phase is Active) ==> app.suspended() == app.stay(),
{
}

/// A resume after a suspension takes up the retained context: no context is
/// created, one surface is, and the controller is active on the context it
/// had before. The renderer is the one it had before too.
pub proof fn lemma_resume_reuses_retained_context(
    app: AppModel,
    retained: ContextHandle,
    window: WindowHandle,
    surface: SurfaceHandle,
)
    requires
        app.wf(),
        app.phase == (Phase::Suspended { retained }),
    ensures
        ({
            let (after, actions) = app.run(later_resume(window, surface));
            &&& after.phase == Phase::Active {
                state: AppState { context: retained, surface, window },
            }
            &&& after.retained_context() is None
            &&& after.renderer == app.renderer
            &&& after.committed == app.committed
            &&& actions == seq![
                Action::CreateWindow { attributes: app.window_attributes, template: app.template },
                Action::CreateSurface { window },
                Action::MakeCurrent { context: retained, surface },
                Action::SetSwapInterval { surface, context: retained, interval: SWAP_INTERVAL },
            ]
            &&& forall|i: int| 0 <= i < actions.len() ==> !(#[trigger] actions[i] is CreateContext)
        }),
{
    let i0 = Input::Resumed;
    let i1 = Input::Completed { outcome: Outcome::WindowCreated { early: Some(window) } };
    let i2 = Input::Completed { outcome: Outcome::SurfaceCreated { surface } };
    let i3 = Input::Completed { outcome: Outcome::MadeCurrent };
    let i4 = Input::Completed { outcome: Outcome::SwapIntervalSet };
    let s0 = Seq::<Input>::empty();
    let s1 = s0.push(i0);
    let s2 = s1.push(i1);
    let s3 = s2.push(i2);
    let s4 = s3.push(i3);
    let a0 = Action::CreateWindow { attributes: app.window_attributes, template: app.template };
    let a1 = Action::CreateSurface { window };
    let a2 = Action::MakeCurrent { context: retained, surface };
    let a3 = Action::SetSwapInterval { surface, context: retained, interval: SWAP_INTERVAL };
    lemma_run_push(app, s0, i0);
    lemma_run_push(app, s1, i1);
    lemma_run_push(app, s2, i2);
    lemma_run_push(app, s3, i3);
    lemma_run_push(app, s4, i4);
    assert(later_resume(window, surface) =~= s4.push(i4));
    assert(app.run(s4.push(i4)).1 =~= seq![a0, a1, a2, a3]);
}

/// Resume, suspend, resume: the context of the first resume is the context
/// of the second. The second resume creates no context and one surface, and
/// the renderer of the first is still there.
pub proof fn lemma_context_survives_suspension(
    app: AppModel,
    window: WindowHandle,
    context: ContextHandle,
    surface: SurfaceHandle,
    next_window: WindowHandle,
    next_surface: SurfaceHandle,
)
    requires
        app.wf(),
        app.phase is Uninitialized,
    ensures
        ({
            let first = first_resume(window, context, surface);
            let second = later_resume(next_window, next_surface);
            let (suspended, before) = app.run(first.push(Input::Suspended));
            let (after, actions) = app.run(first.push(Input::Suspended) + second);
            &&& suspended.phase == Phase::Suspended { retained: context }
            &&& after.phase == Phase::Active {
                state: AppState { context, surface: next_surface, window: next_window },
            }
            &&& after.renderer == suspended.renderer
            &&& after.renderer is Some
            &&& actions == before + seq![
                Action::CreateWindow { attributes: app.window_attributes, template: app.template },
                Action::CreateSurface { window: next_window },
                Action::MakeCurrent { context, surface: next_surface },
                Action::SetSwapInterval {
                    surface: next_surface,
                    context,
                    interval: SWAP_INTERVAL,
                },
            ]
        }),
{
    let first = first_resume(window, context, surface);
    lemma_first_resume_activates(app, window, context, surface);
    lemma_run_preserves_wf(app, first);
    lemma_run_push(app, first, Input::Suspended);
    let suspended = app.run(first.push(Input::Suspended)).0;
    lemma_step_preserves_wf(app.run(first).0, Input::Suspended);
    lemma_resume_reuses_retained_context(suspended, context, next_window, next_surface);
    lemma_run_concat(app, first.push(Input::Suspended), later_resume(next_window, next_surface));
    assert(suspended.window_attributes == app.window_attributes && suspended.template
        == app.template) by {
        lemma_run_keeps_templates(app, first.push(Input::Suspended));
    }
}

/// The templates are fixed when the controller is created: no history
/// changes them.
pub proof fn lemma_run_keeps_templates(app: AppModel, inputs: Seq<Input>)
    ensures
        app.run(inputs).0.window_attributes == app.window_attributes,
        app.run(inputs).0.template == app.template,
    decreases inputs.len(),
{
    if inputs.len() > 0 {
        lemma_run_keeps_templates(app, inputs.drop_last());
    }
}

/// A resize with a zero in it changes nothing and reaches nobody: not the
/// surface, not the canvas.
pub proof fn lemma_zero_resize_is_ignored(app: AppModel, width: u32, height: u32)
    requires
        width == 0 || height == 0,
    ensures
        app.window_event(WindowEvent::Resized { width, height }) == app.stay(),
{
}

/// A resize without a zero in it, on an active controller, reaches the
/// surface and then the canvas, both with exactly the new size, and the
/// canvas has that size afterwards. Nothing else changes.
pub proof fn lemma_resize_reaches_surface_and_canvas(
    app: AppModel,
    state: AppState,
    width: u32,
    height: u32,
)
    requires
        app.wf(),
        app.phase == (Phase::Active { state }),
        width > 0,
        height > 0,
    ensures
        ({
            let (after, actions) = app.window_event(WindowEvent::Resized { width, height });
            &&& actions == seq![
                Action::ResizeSurface {
                    surface: state.surface,
                    context: state.context,
                    width,
                    height,
                },
                set_size(RendererModel::sized(width, height)),
            ]
            &&& after.renderer is Some
            &&& after.renderer->0.canvas == RendererModel::sized(width, height)
            &&& after.renderer->0.canvas.width == width
            &&& after.renderer->0.canvas.height == height
            &&& after.renderer->0.views == app.renderer->0.views
            &&& after.phase == app.phase
            &&& after.exit_state == app.exit_state
            &&& after.committed == app.committed
        }),
{
}

/// A close request, or the escape key, on an active controller releases the
/// surface, then the context, then the window, and then asks for the exit.
/// The controller is terminated, with no error on record.
pub proof fn lemma_teardown_in_order(app: AppModel, state: AppState, event: WindowEvent)
    requires
        app.wf(),
        app.phase == (Phase::Active { state }),
        event is CloseRequested || event == (WindowEvent::KeyPressed { key: Key::Escape }),
    ensures
        app.window_event(event).0.phase is Terminated,
        app.window_event(event).0.exit_state is Ok,
        app.window_event(event).1 == seq![
            Action::ReleaseSurface { surface: state.surface },
            Action::ReleaseContext { context: state.context },
            Action::ReleaseWindow { window: state.window },
            Action::Exit,
        ],
{
    assert(app.window_event(event).1 =~= seq![
        Action::ReleaseSurface { surface: state.surface },
        Action::ReleaseContext { context: state.context },
        Action::ReleaseWindow { window: state.window },
        Action::Exit,
    ]);
}

/// Whatever is held when the controller gives up, it is released in one
/// order: a surface before a context, a context before a window, each once,
/// and nothing that is not held.
pub proof fn lemma_releases_in_order(phase: Phase)
    ensures
        ({
            let released = phase.releases();
            let held = (if phase.surface() is Some { 1int } else { 0int })
                + (if phase.context() is Some { 1int } else { 0int })
                + (if phase.window() is Some { 1int } else { 0int });
            &&& released.len() == held
            &&& forall|i: int, j: int|
                0 <= i < j < released.len() ==> {
                    &&& !(#[trigger] released[i] is ReleaseWindow)
                    &&& !(#[trigger] released[j] is ReleaseSurface)
                    &&& released[i] is ReleaseContext ==> released[j] is ReleaseWindow
                }
            &&& forall|i: int|
                0 <= i < released.len() ==> match #[trigger] released[i] {
                    Action::ReleaseSurface { surface } => phase.surface() == Some(surface),
                    Action::ReleaseContext { context } => phase.context() == Some(context),
                    Action::ReleaseWindow { window } => phase.window() == Some(window),
                    _ => false,
                }
        }),
{
}

/// The renderer is created once: an input that finds one leaves it in
/// place, over the same views.
pub proof fn lemma_renderer_persists(app: AppModel, input: Input)
    requires
        app.renderer is Some,
    ensures
        app.step(input).0.renderer is Some,
        app.step(input).0.renderer->0.views == app.renderer->0.views,
{
}

/// What an input calls for holds at most one request, and the request
/// stands last: there is never a second report to wait for.
pub proof fn lemma_request_stands_last(app: AppModel, input: Input)
    ensures
        forall|i: int|
            0 <= i < app.step(input).1.len() - 1 ==> !(#[trigger] app.step(input).1[i]).is_request(),
{
    let (after, actions) = app.step(input);
    match input {
        Input::Resumed => {
            assert(actions.len() <= 1);
        },
        Input::Completed { outcome } => {
            if after.phase is Terminated {
                assert(request_free(app.phase.releases()));
                assert(request_free(actions));
            } else if app.phase is MakingCurrent && outcome is MadeCurrent {
                assert(actions.len() <= 3);
                assert(request_free(actions.drop_last()));
                assert(forall|i: int|
                    0 <= i < actions.len() - 1 ==> actions[i] == actions.drop_last()[i]);
            } else {
                assert(actions.len() <= 1);
            }
        },
        _ => {
            assert(request_free(app.phase.releases()));
            assert(request_free(actions));
        },
    }
}

/// One context at a time. A context is created only while none is held, and
/// the context made current is the one held, at a moment when none is
/// current: between the surface and the swap interval.
pub proof fn lemma_one_context_at_a_time(app: AppModel, input: Input)
    ensures
        forall|i: int|
            0 <= i < app.step(input).1.len() ==> match #[trigger] app.step(input).1[i] {
                Action::CreateContext { .. } => app.phase.context() is None,
                Action::MakeCurrent { context, .. } => {
                    &&& app.phase is CreatingSurface
                    &&& app.phase.context() == Some(context)
                    &&& app.step(input).0.phase.context() == Some(context)
                },
                _ => true,
            },
{
    let (after, actions) = app.step(input);
    assert forall|i: int| 0 <= i < actions.len() implies match #[trigger] actions[i] {
        Action::CreateContext { .. } => app.phase.context() is None,
        Action::MakeCurrent { context, .. } => {
            &&& app.phase is CreatingSurface
            &&& app.phase.context() == Some(context)
            &&& after.phase.context() == Some(context)
        },
        _ => true,
    } by {
        match input {
            Input::Completed { outcome } => {
                if after.phase is Terminated {
                    lemma_releases_in_order(app.phase);
                } else if !(app.phase is MakingCurrent) {
                    assert(actions.len() <= 1);
                }
            },
            Input::Resumed => {
                assert(actions.len() <= 1);
            },
            Input::Suspended => {},
            Input::Window { event } => {
                lemma_releases_in_order(app.phase);
            },
            Input::AboutToWait { window } => {},
        }
    }
}

} // verus!
