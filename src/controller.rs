//! The render-loop controller: a state machine that takes the events of the
//! windowing layer and answers each with the actions to perform on the window
//! and the GPU.
use crate::session::{
    error_for, plan_for, reconfigured, AcquireFailure, FrameError, FramePlan,
    GpuSession, SessionError, SessionView, SurfaceSize,
};
use crate::uniform::UniformState;
use vstd::prelude::*;

verus! {

/// The values read from the window and the clock when an event is handled.
#[derive(Clone, Copy, Debug, PartialEq, Eq, Structural)]
pub struct FrameInputs {
    /// The window's current inner width.
    pub window_width: u32,
    /// The window's current inner height.
    pub window_height: u32,
    /// Seconds since the session was created, as the bits of an `f32`.
    pub elapsed_bits: u32,
}

/// What the windowing layer (and the GPU work it performs) reports.
#[derive(Clone, Copy, Debug)]
pub enum Event {
    /// The window exists and a session can be created for it.
    WindowAvailable,
    /// The session was created for a window of this size.
    SessionReady(SurfaceSize),
    /// The session could not be created.
    SessionFailed(SessionError),
    Resized { width: u32, height: u32, now: FrameInputs },
    /// The pointer moved; its coordinates are the bits of `f32`s.
    PointerMoved { x_bits: u32, y_bits: u32, now: FrameInputs },
    RedrawRequested(FrameInputs),
    /// The last `DrawFrame` was presented.
    FramePresented,
    /// The last `DrawFrame` could not acquire a surface image.
    FrameFailed { failure: AcquireFailure, now: FrameInputs },
    Key { escape: bool, pressed: bool },
    CloseRequested,
}

/// What the windowing layer is asked to do, in order.
#[derive(Clone, Copy, Debug, PartialEq, Eq, Structural)]
pub enum Action {
    /// Create the GPU session for the window.
    CreateSession,
    /// Session creation failed: stop the program with this error.
    AbortStartup(SessionError),
    /// Configure the surface at this size.
    ConfigureSurface(SurfaceSize),
    /// Write the bytes of this record into the uniform buffer.
    WriteUniforms(UniformState),
    /// Acquire, clear, draw the full-screen triangle, submit and present;
    /// then report `FramePresented` or `FrameFailed`.
    DrawFrame,
    /// Ask the window for another redraw.
    RequestRedraw,
    /// Report a failure that stops frame submission.
    ReportError(FrameError),
    /// Stop the event loop.
    Exit,
}

/// Where the controller is in the life of the window/session pair.
#[derive(Clone, Copy, Debug, PartialEq, Eq, Structural)]
pub enum Phase {
    /// No window yet.
    Uninitialized,
    /// The session is being created.
    Creating,
    /// The session is running.
    Ready,
    /// A fatal frame error stopped submission; the window stays open.
    Halted,
    /// The loop was asked to stop; no event is serviced any more.
    Terminated,
}

/// The abstract state of the controller.
pub struct ControllerView {
    pub phase: Phase,
    pub session: Option<SessionView>,
    pub pointer_x_bits: u32,
    pub pointer_y_bits: u32,
}

impl ControllerView {
    /// A session exists exactly while the loop runs or is halted, and its
    /// configuration is valid.
    pub open spec fn wf(self) -> bool {
        &&& (self.phase == Phase::Uninitialized || self.phase == Phase::Creating)
            ==> self.session is None
        &&& (self.phase == Phase::Ready || self.phase == Phase::Halted) ==> self.session is Some
        &&& self.session matches Some(sv) ==> sv.wf()
    }

    /// The same controller with phase `phase`.
    pub open spec fn in_phase(self, phase: Phase) -> ControllerView {
        ControllerView { phase, ..self }
    }
}

/// The record synced for inputs `now` and pointer (`x`, `y`).
pub open spec fn uniform_for(now: FrameInputs, x: u32, y: u32) -> UniformState {
    UniformState {
        resolution_x: now.window_width,
        resolution_y: now.window_height,
        elapsed_bits: now.elapsed_bits,
        pointer_x_bits: x,
        pointer_y_bits: y,
    }
}

/// The session as it is created for a window of `size`: unconfigured, with
/// that resolution, zero elapsed time and the pointer at the origin.
pub open spec fn initial_session(size: SurfaceSize) -> SessionView {
    let now = FrameInputs { window_width: size.width, window_height: size.height, elapsed_bits: 0 };
    SessionView { config: None, uniforms: uniform_for(now, 0, 0) }
}

/// The surface configuration asked for by a resize to `width` x `height`.
pub open spec fn configure_actions(width: u32, height: u32) -> Seq<Action> {
    if width > 0 && height > 0 {
        seq![Action::ConfigureSurface(SurfaceSize { width, height })]
    } else {
        seq![]
    }
}

/// Events that end the loop: a close request or a press of the exit key.
pub open spec fn ends_loop(e: Event) -> bool {
    match e {
        Event::CloseRequested => true,
        Event::Key { escape, pressed } => escape && pressed,
        _ => false,
    }
}

/// Resizes session `sv` to `width` x `height` and syncs `u`.
pub open spec fn resized(
    s: ControllerView,
    sv: SessionView,
    width: u32,
    height: u32,
    u: UniformState,
) -> (ControllerView, Seq<Action>) {
    let session = SessionView { config: reconfigured(sv.config, width, height), uniforms: u };
    (
        ControllerView { session: Some(session), ..s },
        configure_actions(width, height).push(Action::WriteUniforms(u)),
    )
}

/// One event handled while the session `sv` runs.
pub open spec fn ready_step(s: ControllerView, sv: SessionView, e: Event) -> (
    ControllerView,
    Seq<Action>,
) {
    match e {
        Event::Resized { width, height, now } => {
            resized(s, sv, width, height, uniform_for(now, s.pointer_x_bits, s.pointer_y_bits))
        },
        Event::PointerMoved { x_bits, y_bits, now } => {
            let u = uniform_for(now, x_bits, y_bits);
            let session = SessionView { uniforms: u, ..sv };
            (
                ControllerView {
                    session: Some(session),
                    pointer_x_bits: x_bits,
                    pointer_y_bits: y_bits,
                    ..s
                },
                seq![Action::WriteUniforms(u)],
            )
        },
        Event::RedrawRequested(now) => {
            let u = uniform_for(now, s.pointer_x_bits, s.pointer_y_bits);
            let next = match plan_for(sv.config) {
                FramePlan::Skip => Action::RequestRedraw,
                FramePlan::Draw(_) => Action::DrawFrame,
            };
            let session = SessionView { uniforms: u, ..sv };
            (ControllerView { session: Some(session), ..s }, seq![Action::WriteUniforms(u), next])
        },
        Event::FramePresented => (s, seq![Action::RequestRedraw]),
        Event::FrameFailed { failure, now } => {
            if error_for(failure) is Fatal {
                (s.in_phase(Phase::Halted), seq![Action::ReportError(error_for(failure))])
            } else {
                let u = uniform_for(now, s.pointer_x_bits, s.pointer_y_bits);
                let r = resized(s, sv, now.window_width, now.window_height, u);
                (r.0, r.1.push(Action::RequestRedraw))
            }
        },
        _ => if ends_loop(e) {
            (s.in_phase(Phase::Terminated), seq![Action::Exit])
        } else {
            (s, seq![])
        },
    }
}

/// The controller's transition: the next state and the actions, in order.
pub open spec fn step(s: ControllerView, e: Event) -> (ControllerView, Seq<Action>) {
    match s.phase {
        Phase::Uninitialized => match e {
            Event::WindowAvailable => (s.in_phase(Phase::Creating), seq![Action::CreateSession]),
            _ => (s, seq![]),
        },
        Phase::Creating => match e {
            Event::SessionReady(size) => (
                ControllerView { phase: Phase::Ready, session: Some(initial_session(size)), ..s },
                seq![Action::RequestRedraw],
            ),
            Event::SessionFailed(err) => {
                (s.in_phase(Phase::Terminated), seq![Action::AbortStartup(err)])
            },
            _ => (s, seq![]),
        },
        Phase::Ready => match s.session {
            Some(sv) => ready_step(s, sv, e),
            None => (s, seq![]),
        },
        Phase::Halted => if ends_loop(e) {
            (s.in_phase(Phase::Terminated), seq![Action::Exit])
        } else {
            (s, seq![])
        },
        Phase::Terminated => (s, seq![]),
    }
}

/// Drives one window/session pair through its lifecycle.
#[derive(Debug)]
pub struct RenderLoopController {
    phase: Phase,
    session: Option<GpuSession>,
    pointer_x_bits: u32,
    pointer_y_bits: u32,
}

impl View for RenderLoopController {
    type V = ControllerView;

    closed spec fn view(&self) -> ControllerView {
        ControllerView {
            phase: self.phase,
            session: match self.session {
                Some(s) => Some(s@),
                None => None,
            },
            pointer_x_bits: self.pointer_x_bits,
            pointer_y_bits: self.pointer_y_bits,
        }
    }
}

fn is_exit(e: &Event) -> (r: bool)
    ensures
        r == ends_loop(*e),
{
    match e {
        Event::CloseRequested => true,
        Event::Key { escape, pressed } => *escape && *pressed,
        _ => false,
    }
}

/// The record synced for inputs `now` and pointer (`x`, `y`).
fn uniform_of(now: FrameInputs, x: u32, y: u32) -> (r: UniformState)
    ensures
        r == uniform_for(now, x, y),
{
    UniformState::from_session(now.window_width, now.window_height, now.elapsed_bits, x, y)
}

/// Applies a resize to `session` and syncs `u`, returning the actions.
fn resize_and_sync(session: &mut GpuSession, width: u32, height: u32, u: UniformState) -> (r: Vec<
    Action,
>)
    ensures
        final(session)@.config == reconfigured(old(session)@.config, width, height),
        final(session)@.uniforms == u,
        r@ == configure_actions(width, height).push(Action::WriteUniforms(u)),
{
    let mut acts: Vec<Action> = Vec::new();
    match session.reconfigure(width, height) {
        Some(size) => acts.push(Action::ConfigureSurface(size)),
        None => {},
    }
    session.sync_uniforms(u);
    acts.push(Action::WriteUniforms(u));
    proof {
        assert(acts@ =~= configure_actions(width, height).push(Action::WriteUniforms(u)));
    }
    acts
}

impl RenderLoopController {
    /// A controller with no window and no session, the pointer at the origin.
    pub fn new() -> (r: RenderLoopController)
        ensures
            r@.phase == Phase::Uninitialized,
            r@.session is None,
            r@.pointer_x_bits == 0,
            r@.pointer_y_bits == 0,
            r@.wf(),
    {
        RenderLoopController {
            phase: Phase::Uninitialized,
            session: None,
            pointer_x_bits: 0,
            pointer_y_bits: 0,
        }
    }

    pub fn phase(&self) -> (r: Phase)
        ensures
            r == self@.phase,
    {
        self.phase
    }

    /// The session's surface configuration, if a session exists.
    pub fn config(&self) -> (r: Option<SurfaceSize>)
        ensures
            r == (match self@.session {
                Some(sv) => sv.config,
                None => None,
            }),
    {
        match &self.session {
            Some(s) => s.config(),
            None => None,
        }
    }

    /// What the session's uniform buffer holds, if a session exists.
    pub fn uniforms(&self) -> (r: Option<UniformState>)
        ensures
            r == (match self@.session {
                Some(sv) => Some(sv.uniforms),
                None => None,
            }),
    {
        match &self.session {
            Some(s) => Some(s.uniforms()),
            None => None,
        }
    }

    /// The last pointer position seen, as `f32` bits.
    pub fn pointer(&self) -> (r: (u32, u32))
        ensures
            r == (self@.pointer_x_bits, self@.pointer_y_bits),
    {
        (self.pointer_x_bits, self.pointer_y_bits)
    }

    fn handle_ready(&mut self, e: Event) -> (r: Vec<Action>)
        requires
            old(self)@.phase == Phase::Ready,
        ensures
            (final(self)@, r@) == (match old(self)@.session {
                Some(sv) => ready_step(old(self)@, sv, e),
                None => (old(self)@, seq![]),
            }),
    {
        let px = self.pointer_x_bits;
        let py = self.pointer_y_bits;
        let ends = is_exit(&e);
        match &mut self.session {
            None => Vec::new(),
            Some(session) => match e {
                Event::Resized { width, height, now } => {
                    let u = uniform_of(now, px, py);
                    resize_and_sync(session, width, height, u)
                },
                Event::PointerMoved { x_bits, y_bits, now } => {
                    let u = uniform_of(now, x_bits, y_bits);
                    session.sync_uniforms(u);
                    self.pointer_x_bits = x_bits;
                    self.pointer_y_bits = y_bits;
                    vec![Action::WriteUniforms(u)]
                },
                Event::RedrawRequested(now) => {
                    let u = uniform_of(now, px, py);
                    session.sync_uniforms(u);
                    let next = match session.submit_frame() {
                        FramePlan::Skip => Action::RequestRedraw,
                        FramePlan::Draw(_) => Action::DrawFrame,
                    };
                    vec![Action::WriteUniforms(u), next]
                },
                Event::FramePresented => vec![Action::RequestRedraw],
                Event::FrameFailed { failure, now } => {
                    let err = FrameError::from_failure(failure);
                    if err.is_recoverable() {
                        let u = uniform_of(now, px, py);
                        let (w, h) = (now.window_width, now.window_height);
                        let mut acts = resize_and_sync(session, w, h, u);
                        acts.push(Action::RequestRedraw);
                        acts
                    } else {
                        self.phase = Phase::Halted;
                        vec![Action::ReportError(err)]
                    }
                },
                _ => {
                    if ends {
                        self.phase = Phase::Terminated;
                        vec![Action::Exit]
                    } else {
                        Vec::new()
                    }
                },
            },
        }
    }

    /// Handles one event: updates the controller and returns the actions to
    /// perform, in order.
    pub fn handle(&mut self, e: Event) -> (r: Vec<Action>)
        ensures
            (final(self)@, r@) == step(old(self)@, e),
    {
        match self.phase {
            Phase::Uninitialized => match e {
                Event::WindowAvailable => {
                    self.phase = Phase::Creating;
                    vec![Action::CreateSession]
                },
                _ => Vec::new(),
            },
            Phase::Creating => match e {
                Event::SessionReady(size) => {
                    self.session = Some(GpuSession::new(size.width, size.height));
                    self.phase = Phase::Ready;
                    vec![Action::RequestRedraw]
                },
                Event::SessionFailed(err) => {
                    self.phase = Phase::Terminated;
                    vec![Action::AbortStartup(err)]
                },
                _ => Vec::new(),
            },
            Phase::Ready => self.handle_ready(e),
            Phase::Halted => {
                if is_exit(&e) {
                    self.phase = Phase::Terminated;
                    vec![Action::Exit]
                } else {
                    Vec::new()
                }
            },
            Phase::Terminated => Vec::new(),
        }
    }
}

/// Every transition keeps the controller well formed.
pub proof fn lemma_step_preserves_wf(s: ControllerView, e: Event)
    requires
        s.wf(),
    ensures
        step(s, e).0.wf(),
{
}

/// The clock reading that an event carries, if any.
pub open spec fn event_inputs(e: Event) -> Option<FrameInputs> {
    match e {
        Event::Resized { now, .. } => Some(now),
        Event::PointerMoved { now, .. } => Some(now),
        Event::RedrawRequested(now) => Some(now),
        Event::FrameFailed { now, .. } => Some(now),
        _ => None,
    }
}

/// Once a session exists, the elapsed time in its uniform buffer only ever
/// takes the clock reading of the event being handled: resizes, pointer
/// moves and recoveries sync that reading and never reset it.
pub proof fn lemma_elapsed_follows_clock(s: ControllerView, e: Event)
    requires
        s.wf(),
        s.session is Some,
    ensures
        step(s, e).0.session matches Some(t) && (t.uniforms == s.session.unwrap().uniforms || (
        event_inputs(e) matches Some(now) && t.uniforms.elapsed_bits == now.elapsed_bits)),
        (s.phase == Phase::Ready && (e is Resized || e is PointerMoved)) ==> step(
            s,
            e,
        ).0.session.unwrap().uniforms.elapsed_bits == event_inputs(e).unwrap().elapsed_bits,
{
}

/// After the loop is told to stop, no event is serviced.
pub proof fn lemma_terminated_is_final(s: ControllerView, e: Event)
    requires
        s.phase == Phase::Terminated,
    ensures
        step(s, e) == (s, Seq::<Action>::empty()),
{
}

/// A resize with a zero dimension leaves the configuration alone and asks
/// for no surface configuration.
pub proof fn lemma_degenerate_resize_keeps_config(
    s: ControllerView,
    width: u32,
    height: u32,
    now: FrameInputs,
)
    requires
        s.phase == Phase::Ready,
        s.session is Some,
        width == 0 || height == 0,
    ensures
        ({
            let (t, acts) = step(s, Event::Resized { width, height, now });
            let u = uniform_for(now, s.pointer_x_bits, s.pointer_y_bits);
            &&& t.session.unwrap().config == s.session.unwrap().config
            &&& acts == seq![Action::WriteUniforms(u)]
        }),
{
}

/// Before the surface is configured a redraw syncs the uniforms and asks
/// for the next redraw, but draws and presents nothing.
pub proof fn lemma_unconfigured_redraw_presents_nothing(s: ControllerView, now: FrameInputs)
    requires
        s.phase == Phase::Ready,
        s.session matches Some(sv) && sv.config is None,
    ensures
        ({
            let (t, acts) = step(s, Event::RedrawRequested(now));
            let u = uniform_for(now, s.pointer_x_bits, s.pointer_y_bits);
            &&& t.phase == Phase::Ready
            &&& t.session.unwrap().config is None
            &&& !acts.contains(Action::DrawFrame)
            &&& acts == seq![Action::WriteUniforms(u), Action::RequestRedraw]
        }),
{
    let acts = step(s, Event::RedrawRequested(now)).1;
    assert(acts[0] != Action::DrawFrame && acts[1] != Action::DrawFrame);
}

/// A lost or outdated surface is recovered in place: the session is kept
/// and reconfigured at the window's current size, and the next redraw draws.
pub proof fn lemma_recoverable_failure_reconfigures(
    s: ControllerView,
    failure: AcquireFailure,
    now: FrameInputs,
    later: FrameInputs,
)
    requires
        s.phase == Phase::Ready,
        s.session is Some,
        failure == AcquireFailure::Lost || failure == AcquireFailure::Outdated,
        now.window_width > 0,
        now.window_height > 0,
    ensures
        ({
            let (t, acts) = step(s, Event::FrameFailed { failure, now });
            let size = SurfaceSize { width: now.window_width, height: now.window_height };
            &&& t.phase == Phase::Ready
            &&& t.session.unwrap().config == Some(size)
            &&& acts[0] == Action::ConfigureSurface(size)
            &&& !acts.contains(Action::CreateSession)
            &&& step(t, Event::RedrawRequested(later)).1.last() == Action::DrawFrame
        }),
{
    let acts = step(s, Event::FrameFailed { failure, now }).1;
    assert(acts.len() == 3);
    assert(forall|i: int| 0 <= i < 3 ==> acts[i] != Action::CreateSession);
}

/// Fatal frame errors are reported once and stop further submissions.
pub proof fn lemma_fatal_failure_halts(
    s: ControllerView,
    failure: AcquireFailure,
    now: FrameInputs,
    e: Event,
)
    requires
        s.phase == Phase::Ready,
        s.session is Some,
        error_for(failure) is Fatal,
    ensures
        ({
            let (t, acts) = step(s, Event::FrameFailed { failure, now });
            &&& t.phase == Phase::Halted
            &&& acts == seq![Action::ReportError(FrameError::Fatal(failure))]
            &&& !step(t, e).1.contains(Action::DrawFrame)
        }),
{
    let t = step(s, Event::FrameFailed { failure, now }).0;
    let acts = step(t, e).1;
    if acts.len() > 0 {
        assert(acts[0] == Action::Exit);
    }
}

} // verus!
