use book_of_shaders::controller::{Action, Event, FrameInputs, Phase, RenderLoopController};
use book_of_shaders::session::{AcquireFailure, FrameError, SessionError, SurfaceSize};
use book_of_shaders::uniform::UniformState;

fn inputs(window_width: u32, window_height: u32, elapsed: f32) -> FrameInputs {
    FrameInputs { window_width, window_height, elapsed_bits: elapsed.to_bits() }
}

fn size(width: u32, height: u32) -> SurfaceSize {
    SurfaceSize { width, height }
}

fn ready(width: u32, height: u32) -> RenderLoopController {
    let mut c = RenderLoopController::new();
    assert_eq!(c.handle(Event::WindowAvailable), vec![Action::CreateSession]);
    assert_eq!(c.phase(), Phase::Creating);
    assert_eq!(c.handle(Event::SessionReady(size(width, height))), vec![Action::RequestRedraw]);
    assert_eq!(c.phase(), Phase::Ready);
    c
}

#[test]
fn events_before_window_are_ignored() {
    let mut c = RenderLoopController::new();
    assert_eq!(c.phase(), Phase::Uninitialized);
    assert_eq!(c.handle(Event::RedrawRequested(inputs(800, 600, 0.5))), vec![]);
    assert_eq!(c.handle(Event::Resized { width: 800, height: 600, now: inputs(800, 600, 0.5) }), vec![]);
    assert_eq!(c.handle(Event::CloseRequested), vec![]);
    assert_eq!(c.phase(), Phase::Uninitialized);
    assert_eq!(c.config(), None);
    assert_eq!(c.uniforms(), None);
}

#[test]
fn session_starts_unconfigured() {
    let c = ready(800, 600);
    assert_eq!(c.config(), None);
    assert_eq!(c.uniforms(), Some(UniformState::from_session(800, 600, 0, 0, 0)));
    assert_eq!(c.pointer(), (0, 0));
}

#[test]
fn startup_failure_aborts() {
    let mut c = RenderLoopController::new();
    c.handle(Event::WindowAvailable);
    assert_eq!(
        c.handle(Event::SessionFailed(SessionError::NoAdapter)),
        vec![Action::AbortStartup(SessionError::NoAdapter)]
    );
    assert_eq!(c.phase(), Phase::Terminated);
    assert_eq!(c.handle(Event::WindowAvailable), vec![]);
    let mut d = RenderLoopController::new();
    d.handle(Event::WindowAvailable);
    assert_eq!(
        d.handle(Event::SessionFailed(SessionError::DeviceRequestFailed)),
        vec![Action::AbortStartup(SessionError::DeviceRequestFailed)]
    );
}

#[test]
fn redraw_before_configure_presents_nothing() {
    let mut c = ready(800, 600);
    let now = inputs(800, 600, 0.25);
    let u = UniformState::from_session(800, 600, 0.25f32.to_bits(), 0, 0);
    assert_eq!(
        c.handle(Event::RedrawRequested(now)),
        vec![Action::WriteUniforms(u), Action::RequestRedraw]
    );
    assert_eq!(c.config(), None);
}

#[test]
fn end_to_end_resize_pointer_redraw() {
    let mut c = ready(800, 600);
    let r = c.handle(Event::Resized { width: 800, height: 600, now: inputs(800, 600, 1.0) });
    assert_eq!(r[0], Action::ConfigureSurface(size(800, 600)));
    assert_eq!(r.len(), 2);
    c.handle(Event::PointerMoved {
        x_bits: 400.0f32.to_bits(),
        y_bits: 300.0f32.to_bits(),
        now: inputs(800, 600, 1.2),
    });
    let u = UniformState::from_session(800, 600, 1.5f32.to_bits(), 400.0f32.to_bits(), 300.0f32.to_bits());
    assert_eq!(
        c.handle(Event::RedrawRequested(inputs(800, 600, 1.5))),
        vec![Action::WriteUniforms(u), Action::DrawFrame]
    );
    assert_eq!(c.uniforms(), Some(u));
    let mut expected: Vec<u8> = Vec::new();
    for w in [800u32, 600, 1.5f32.to_bits(), 400.0f32.to_bits(), 300.0f32.to_bits(), 0, 0, 0] {
        expected.extend_from_slice(&w.to_le_bytes());
    }
    assert_eq!(u.to_bytes(), expected);
    assert_eq!(c.handle(Event::FramePresented), vec![Action::RequestRedraw]);
}

#[test]
fn zero_resize_keeps_configuration() {
    let mut c = ready(800, 600);
    c.handle(Event::Resized { width: 800, height: 600, now: inputs(800, 600, 1.0) });
    let r = c.handle(Event::Resized { width: 0, height: 0, now: inputs(0, 0, 2.0) });
    assert_eq!(r, vec![Action::WriteUniforms(UniformState::from_session(0, 0, 2.0f32.to_bits(), 0, 0))]);
    assert_eq!(c.config(), Some(size(800, 600)));
    let r = c.handle(Event::RedrawRequested(inputs(0, 0, 2.5)));
    assert_eq!(r[1], Action::DrawFrame);
}

#[test]
fn surface_lost_reconfigures_at_window_size() {
    let mut c = ready(800, 600);
    c.handle(Event::Resized { width: 800, height: 600, now: inputs(800, 600, 1.0) });
    c.handle(Event::RedrawRequested(inputs(800, 600, 1.1)));
    let r = c.handle(Event::FrameFailed { failure: AcquireFailure::Lost, now: inputs(1024, 768, 1.2) });
    assert_eq!(
        r,
        vec![
            Action::ConfigureSurface(size(1024, 768)),
            Action::WriteUniforms(UniformState::from_session(1024, 768, 1.2f32.to_bits(), 0, 0)),
            Action::RequestRedraw,
        ]
    );
    assert_eq!(c.phase(), Phase::Ready);
    assert_eq!(c.config(), Some(size(1024, 768)));
    let r = c.handle(Event::RedrawRequested(inputs(1024, 768, 1.3)));
    assert_eq!(r[1], Action::DrawFrame);
    assert!(!r.contains(&Action::CreateSession));
    assert_eq!(c.handle(Event::FramePresented), vec![Action::RequestRedraw]);
}

#[test]
fn surface_outdated_reconfigures() {
    let mut c = ready(800, 600);
    c.handle(Event::Resized { width: 800, height: 600, now: inputs(800, 600, 1.0) });
    let r = c.handle(Event::FrameFailed { failure: AcquireFailure::Outdated, now: inputs(800, 600, 1.2) });
    assert_eq!(r[0], Action::ConfigureSurface(size(800, 600)));
    assert_eq!(r.len(), 3);
    assert_eq!(c.phase(), Phase::Ready);
}

#[test]
fn fatal_frame_error_halts_submission() {
    let mut c = ready(800, 600);
    c.handle(Event::Resized { width: 800, height: 600, now: inputs(800, 600, 1.0) });
    let r = c.handle(Event::FrameFailed { failure: AcquireFailure::Timeout, now: inputs(800, 600, 1.2) });
    assert_eq!(r, vec![Action::ReportError(FrameError::Fatal(AcquireFailure::Timeout))]);
    assert_eq!(c.phase(), Phase::Halted);
    assert_eq!(c.handle(Event::RedrawRequested(inputs(800, 600, 1.3))), vec![]);
    assert_eq!(c.handle(Event::CloseRequested), vec![Action::Exit]);
    assert_eq!(c.phase(), Phase::Terminated);
}

#[test]
fn escape_press_exits() {
    let mut c = ready(800, 600);
    assert_eq!(c.handle(Event::Key { escape: true, pressed: false }), vec![]);
    assert_eq!(c.handle(Event::Key { escape: false, pressed: true }), vec![]);
    assert_eq!(c.phase(), Phase::Ready);
    assert_eq!(c.handle(Event::Key { escape: true, pressed: true }), vec![Action::Exit]);
    assert_eq!(c.phase(), Phase::Terminated);
    assert_eq!(c.handle(Event::RedrawRequested(inputs(800, 600, 2.0))), vec![]);
}

#[test]
fn close_request_exits() {
    let mut c = ready(800, 600);
    assert_eq!(c.handle(Event::CloseRequested), vec![Action::Exit]);
    assert_eq!(c.handle(Event::CloseRequested), vec![]);
}

#[test]
fn resize_and_pointer_keep_elapsed_time() {
    let mut c = ready(800, 600);
    c.handle(Event::RedrawRequested(inputs(800, 600, 3.0)));
    c.handle(Event::Resized { width: 640, height: 480, now: inputs(640, 480, 3.5) });
    assert_eq!(c.uniforms().unwrap().elapsed_bits, 3.5f32.to_bits());
    c.handle(Event::PointerMoved { x_bits: 1.0f32.to_bits(), y_bits: 2.0f32.to_bits(), now: inputs(640, 480, 4.0) });
    let u = c.uniforms().unwrap();
    assert_eq!(u.elapsed_bits, 4.0f32.to_bits());
    assert!(f32::from_bits(u.elapsed_bits) >= 3.5);
    assert_eq!(c.pointer(), (1.0f32.to_bits(), 2.0f32.to_bits()));
    c.handle(Event::Resized { width: 320, height: 240, now: inputs(320, 240, 4.5) });
    assert_eq!(c.uniforms().unwrap().pointer_x_bits, 1.0f32.to_bits());
}

#[test]
fn second_window_available_is_ignored() {
    let mut c = ready(800, 600);
    assert_eq!(c.handle(Event::WindowAvailable), vec![]);
    assert_eq!(c.handle(Event::SessionReady(size(10, 10))), vec![]);
    assert_eq!(c.uniforms(), Some(UniformState::from_session(800, 600, 0, 0, 0)));
}
