//! The rendering session: its surface configuration, the contents of its
//! uniform buffer, and what each frame submission asks of the GPU.
//!
//! The GPU handles themselves (device, queue, surface, pipeline) live with
//! the caller; a `GpuSession` decides what is done with them and records the
//! state they are left in.
use crate::uniform::UniformState;
use vstd::prelude::*;

verus! {

/// Number of vertices of the full-screen triangle that every frame draws.
pub const FULL_SCREEN_VERTICES: u32 = 3;

/// Width and height in physical pixels.
#[derive(Clone, Copy, Debug, PartialEq, Eq, Structural)]
pub struct SurfaceSize {
    pub width: u32,
    pub height: u32,
}

/// Why the GPU could not hand out the next surface image.
#[derive(Clone, Copy, Debug, PartialEq, Eq, Structural)]
pub enum AcquireFailure {
    Timeout,
    Outdated,
    Lost,
    OutOfMemory,
    Other,
}

/// Failures of a frame submission.
#[derive(Clone, Copy, Debug, PartialEq, Eq, Structural)]
pub enum FrameError {
    /// The surface was lost; reconfigure it and go on.
    SurfaceLost,
    /// The surface no longer matches the window; reconfigure it and go on.
    SurfaceOutdated,
    /// Any other failure; the session cannot present any more.
    Fatal(AcquireFailure),
}

/// Failures of session creation.
#[derive(Clone, Copy, Debug, PartialEq, Eq, Structural)]
pub enum SessionError {
    NoAdapter,
    DeviceRequestFailed,
    /// The surface offers no presentation format or no alpha mode.
    NoSurfaceFormat,
}

/// What a frame submission does.
#[derive(Clone, Copy, Debug, PartialEq, Eq, Structural)]
pub enum FramePlan {
    /// Nothing to present yet: succeed without touching the surface.
    Skip,
    /// Acquire an image of the configured size, clear it to opaque black,
    /// draw the full-screen triangle with the uniform binding, and present.
    Draw(SurfaceSize),
}

/// The error that a failed acquisition amounts to.
pub open spec fn error_for(f: AcquireFailure) -> FrameError {
    match f {
        AcquireFailure::Lost => FrameError::SurfaceLost,
        AcquireFailure::Outdated => FrameError::SurfaceOutdated,
        _ => FrameError::Fatal(f),
    }
}

/// A surface configuration is unset or has strictly positive dimensions.
pub open spec fn valid_config(c: Option<SurfaceSize>) -> bool {
    match c {
        Some(s) => s.width > 0 && s.height > 0,
        None => true,
    }
}

/// The configuration after a resize to `width` x `height`: degenerate sizes
/// leave it as it was.
pub open spec fn reconfigured(c: Option<SurfaceSize>, width: u32, height: u32) -> Option<
    SurfaceSize,
> {
    if width > 0 && height > 0 {
        Some(SurfaceSize { width, height })
    } else {
        c
    }
}

/// What a submission does under configuration `c`.
pub open spec fn plan_for(c: Option<SurfaceSize>) -> FramePlan {
    match c {
        Some(s) => FramePlan::Draw(s),
        None => FramePlan::Skip,
    }
}

impl FrameError {
    /// Maps a failed acquisition to the error it amounts to.
    pub fn from_failure(f: AcquireFailure) -> (r: FrameError)
        ensures
            r == error_for(f),
    {
        match f {
            AcquireFailure::Lost => FrameError::SurfaceLost,
            AcquireFailure::Outdated => FrameError::SurfaceOutdated,
            _ => FrameError::Fatal(f),
        }
    }

    /// Lost and outdated surfaces are recovered by reconfiguring.
    pub fn is_recoverable(&self) -> (r: bool)
        ensures
            r == !(*self is Fatal),
    {
        !matches!(self, FrameError::Fatal(_))
    }
}

/// The abstract state of a session.
pub struct SessionView {
    /// `None` until the first non-degenerate resize.
    pub config: Option<SurfaceSize>,
    /// What the uniform buffer holds.
    pub uniforms: UniformState,
}

impl SessionView {
    pub open spec fn wf(self) -> bool {
        valid_config(self.config)
    }
}

/// A rendering session's surface configuration and uniform buffer contents.
#[derive(Debug)]
pub struct GpuSession {
    config: Option<SurfaceSize>,
    uniforms: UniformState,
}

impl View for GpuSession {
    type V = SessionView;

    closed spec fn view(&self) -> SessionView {
        SessionView { config: self.config, uniforms: self.uniforms }
    }
}

impl GpuSession {
    /// A new session for a window of `width` x `height`. The surface is left
    /// unconfigured; the uniform buffer starts with that resolution, zero
    /// elapsed time and the pointer at the origin.
    pub fn new(width: u32, height: u32) -> (r: GpuSession)
        ensures
            r@.config is None,
            r@.uniforms == (UniformState {
                resolution_x: width,
                resolution_y: height,
                elapsed_bits: 0,
                pointer_x_bits: 0,
                pointer_y_bits: 0,
            }),
            r@.wf(),
    {
        GpuSession { config: None, uniforms: UniformState::from_session(width, height, 0, 0, 0) }
    }

    pub fn config(&self) -> (r: Option<SurfaceSize>)
        ensures
            r == self@.config,
    {
        self.config
    }

    pub fn is_configured(&self) -> (r: bool)
        ensures
            r == self@.config is Some,
    {
        self.config.is_some()
    }

    pub fn uniforms(&self) -> (r: UniformState)
        ensures
            r == self@.uniforms,
    {
        self.uniforms
    }

    /// The bytes that the uniform buffer holds.
    pub fn uniform_bytes(&self) -> (r: Vec<u8>)
        ensures
            r@ == self@.uniforms.encoding(),
    {
        self.uniforms.to_bytes()
    }

    /// Applies a window size to the surface configuration. A zero width or
    /// height changes nothing and returns `None`; otherwise the session is
    /// configured at that size, which is returned for the surface to take.
    pub fn reconfigure(&mut self, width: u32, height: u32) -> (r: Option<SurfaceSize>)
        ensures
            final(self)@.config == reconfigured(old(self)@.config, width, height),
            final(self)@.uniforms == old(self)@.uniforms,
            r == (if width > 0 && height > 0 {
                Some(SurfaceSize { width, height })
            } else {
                None
            }),
    {
        if width > 0 && height > 0 {
            let size = SurfaceSize { width, height };
            self.config = Some(size);
            Some(size)
        } else {
            None
        }
    }

    /// Records `state` as the uniform buffer's contents and returns the bytes
    /// to write at offset zero. Available whether or not the surface is
    /// configured.
    pub fn sync_uniforms(&mut self, state: UniformState) -> (r: Vec<u8>)
        ensures
            final(self)@.uniforms == state,
            final(self)@.config == old(self)@.config,
            r@ == state.encoding(),
    {
        self.uniforms = state;
        state.to_bytes()
    }

    /// What submitting a frame does now: nothing before the surface is
    /// configured, else one draw at the configured size.
    pub fn submit_frame(&self) -> (r: FramePlan)
        ensures
            r == plan_for(self@.config),
            self@.config is None ==> r == FramePlan::Skip,
    {
        match self.config {
            Some(s) => FramePlan::Draw(s),
            None => FramePlan::Skip,
        }
    }
}

/// Resizing never leaves a configuration with a zero dimension.
pub proof fn lemma_config_stays_valid(c: Option<SurfaceSize>, width: u32, height: u32)
    requires
        valid_config(c),
    ensures
        valid_config(reconfigured(c, width, height)),
{
}

/// Reconfiguring twice at the same size leaves the configuration as the
/// first call left it.
pub proof fn lemma_reconfigure_idempotent(c: Option<SurfaceSize>, width: u32, height: u32)
    ensures
        reconfigured(reconfigured(c, width, height), width, height) == reconfigured(
            c,
            width,
            height,
        ),
{
}

/// A resize with a zero dimension neither changes the configuration nor
/// configures an unconfigured session.
pub proof fn lemma_degenerate_resize_is_noop(c: Option<SurfaceSize>, width: u32, height: u32)
    requires
        width == 0 || height == 0,
    ensures
        reconfigured(c, width, height) == c,
        c is None ==> reconfigured(c, width, height) is None,
{
}

/// Before any successful reconfigure a submission presents nothing.
pub proof fn lemma_unconfigured_submit_skips(c: Option<SurfaceSize>)
    requires
        c is None,
    ensures
        plan_for(c) == FramePlan::Skip,
{
}

} // verus!
