//! The per-frame state machine: surface reconfiguration on resize, the uniform
//! state written each frame, and the order of a frame's steps.
//!
//! The driver decides; its caller performs each action it returns against the
//! window and the graphics device, and reports back what happened as events.

use vstd::prelude::*;
use crate::model::RenderCommand;

verus! {

/// The size of the presentable surface; both sides are at least 1.
#[derive(Clone, Copy, Debug, PartialEq, Eq, Structural)]
pub struct SurfaceConfig {
    pub width: u32,
    pub height: u32,
}

/// `x`, or 1 where `x` is 0.
pub open spec fn at_least_one(x: u32) -> u32 {
    if x == 0 {
        1
    } else {
        x
    }
}

impl SurfaceConfig {
    /// Both sides are at least 1.
    pub open spec fn wf(self) -> bool {
        self.width >= 1 && self.height >= 1
    }

    /// The surface configuration for a window of the given size: a side of 0
    /// becomes 1, since a 0-sized surface cannot be configured.
    pub fn clamped(width: u32, height: u32) -> (r: SurfaceConfig)
        ensures
            r.width == at_least_one(width),
            r.height == at_least_one(height),
            r.wf(),
    {
        SurfaceConfig {
            width: if width == 0 { 1 } else { width },
            height: if height == 0 { 1 } else { height },
        }
    }
}

/// The record written to the uniform buffer every frame: the camera's
/// view-projection matrix (16 floats, column-major) and a flag that is 1.0 when
/// the surface format is sRGB, each as its 32-bit float bit pattern.
#[derive(Clone, Copy, Debug, PartialEq, Eq)]
pub struct UniformState {
    pub camera: [u32; 16],
    pub is_srgb: u32,
}

/// Where a frame stands between events.
#[derive(Clone, Copy, Debug, PartialEq, Eq, Structural)]
pub enum FramePhase {
    /// No frame in flight.
    Ready,
    /// A presentable image was asked for and has not been reported yet.
    Acquiring,
}

/// What the window or the device reports to the driver.
#[derive(Clone, Copy, Debug, PartialEq, Eq, Structural)]
pub enum FrameEvent {
    Resized { width: u32, height: u32 },
    RedrawRequested,
    /// The image asked for by `AcquireImage` was obtained.
    ImageAcquired,
    /// The image asked for by `AcquireImage` could not be obtained.
    AcquireFailed,
    CloseRequested,
    /// The event loop has drained its events.
    AboutToWait,
}

/// What the driver asks its caller to do, in the order given.
#[derive(Clone, Copy, Debug, PartialEq, Eq)]
pub enum FrameAction {
    ConfigureSurface { width: u32, height: u32 },
    RebuildDepthBuffer { width: u32, height: u32 },
    RequestRedraw,
    AcquireImage,
    WriteUniform { state: UniformState },
    /// Record one render pass, clearing color and depth, with the driver's pass commands.
    RecordPass,
    Submit,
    Present,
    Exit,
}

/// The render loop's state.
#[derive(Clone, Debug)]
pub struct FrameDriver {
    pub config: SurfaceConfig,
    pub uniform: UniformState,
    pub phase: FramePhase,
    pub close_requested: bool,
    /// The commands recorded in every frame's render pass.
    pub pass: Vec<RenderCommand>,
}

/// The driver `d` after `e`, and the actions it asks for.
pub open spec fn step(d: FrameDriver, e: FrameEvent) -> (FrameDriver, Seq<FrameAction>) {
    match e {
        FrameEvent::Resized { width, height } => {
            let c = SurfaceConfig { width: at_least_one(width), height: at_least_one(height) };
            (
                FrameDriver { config: c, ..d },
                seq![
                    FrameAction::ConfigureSurface { width: c.width, height: c.height },
                    FrameAction::RebuildDepthBuffer { width: c.width, height: c.height },
                    FrameAction::RequestRedraw,
                ],
            )
        },
        FrameEvent::RedrawRequested => if d.phase == FramePhase::Ready {
            (FrameDriver { phase: FramePhase::Acquiring, ..d }, seq![FrameAction::AcquireImage])
        } else {
            (d, seq![])
        },
        FrameEvent::ImageAcquired => if d.phase == FramePhase::Acquiring {
            (
                FrameDriver { phase: FramePhase::Ready, ..d },
                seq![
                    FrameAction::WriteUniform { state: d.uniform },
                    FrameAction::RecordPass,
                    FrameAction::Submit,
                    FrameAction::Present,
                ],
            )
        } else {
            (d, seq![])
        },
        FrameEvent::AcquireFailed => (FrameDriver { phase: FramePhase::Ready, ..d }, seq![]),
        FrameEvent::CloseRequested => (FrameDriver { close_requested: true, ..d }, seq![]),
        FrameEvent::AboutToWait => if d.close_requested {
            (d, seq![FrameAction::RequestRedraw, FrameAction::Exit])
        } else {
            (d, seq![FrameAction::RequestRedraw])
        },
    }
}

impl FrameDriver {
    /// The surface configuration is valid.
    pub open spec fn wf(&self) -> bool {
        self.config.wf()
    }

    /// A driver for a window of the given size, with no frame in flight.
    pub fn new(width: u32, height: u32, uniform: UniformState, pass: Vec<RenderCommand>) -> (r: FrameDriver)
        ensures
            r.config.width == at_least_one(width),
            r.config.height == at_least_one(height),
            r.wf(),
            r.uniform == uniform,
            r.phase == FramePhase::Ready,
            !r.close_requested,
            r.pass == pass,
    {
        FrameDriver {
            config: SurfaceConfig::clamped(width, height),
            uniform,
            phase: FramePhase::Ready,
            close_requested: false,
            pass,
        }
    }

    /// Replaces the uniform state that the next frame writes.
    pub fn set_uniform(&mut self, state: UniformState)
        ensures
            *final(self) == (FrameDriver { uniform: state, ..*old(self) }),
    {
        self.uniform = state;
    }

    /// Handles one event: updates the driver and returns the actions to perform.
    pub fn handle(&mut self, event: FrameEvent) -> (r: Vec<FrameAction>)
        ensures
            (*final(self), r@) == step(*old(self), event),
            old(self).wf() ==> final(self).wf(),
    {
        match event {
            FrameEvent::Resized { width, height } => {
                let c = SurfaceConfig::clamped(width, height);
                self.config = c;
                vec![
                    FrameAction::ConfigureSurface { width: c.width, height: c.height },
                    FrameAction::RebuildDepthBuffer { width: c.width, height: c.height },
                    FrameAction::RequestRedraw,
                ]
            },
            FrameEvent::RedrawRequested => {
                if self.phase == FramePhase::Ready {
                    self.phase = FramePhase::Acquiring;
                    vec![FrameAction::AcquireImage]
                } else {
                    Vec::new()
                }
            },
            FrameEvent::ImageAcquired => {
                if self.phase == FramePhase::Acquiring {
                    self.phase = FramePhase::Ready;
                    vec![
                        FrameAction::WriteUniform { state: self.uniform },
                        FrameAction::RecordPass,
                        FrameAction::Submit,
                        FrameAction::Present,
                    ]
                } else {
                    Vec::new()
                }
            },
            FrameEvent::AcquireFailed => {
                self.phase = FramePhase::Ready;
                Vec::new()
            },
            FrameEvent::CloseRequested => {
                self.close_requested = true;
                Vec::new()
            },
            FrameEvent::AboutToWait => {
                if self.close_requested {
                    vec![FrameAction::RequestRedraw, FrameAction::Exit]
                } else {
                    vec![FrameAction::RequestRedraw]
                }
            },
        }
    }
}

/// One whole frame from `d`: a redraw request, then the image is acquired.
pub open spec fn frame(d: FrameDriver) -> (FrameDriver, Seq<FrameAction>) {
    let asked = step(d, FrameEvent::RedrawRequested);
    let drawn = step(asked.0, FrameEvent::ImageAcquired);
    (drawn.0, asked.1 + drawn.1)
}

/// Whether the actions write `u` to the uniform buffer.
pub open spec fn writes_uniform(a: Seq<FrameAction>, u: UniformState) -> bool {
    exists|i: int| 0 <= i < a.len() && a[i] == (FrameAction::WriteUniform { state: u })
}

/// A uniform state set between two frames is written by the second frame and
/// not by the first; the first writes the state held before. In each frame the
/// uniform write comes before the submission that reads it.
pub proof fn lemma_uniform_visibility(d: FrameDriver, u: UniformState)
    requires
        d.phase == FramePhase::Ready,
    ensures
        ({
            let first = frame(d);
            let second = frame(FrameDriver { uniform: u, ..first.0 });
            &&& writes_uniform(first.1, d.uniform)
            &&& u != d.uniform ==> !writes_uniform(first.1, u)
            &&& writes_uniform(second.1, u)
            &&& u != d.uniform ==> !writes_uniform(second.1, d.uniform)
            &&& first.1.len() == 5 && first.1[1] == (FrameAction::WriteUniform { state: d.uniform })
                && first.1[3] == FrameAction::Submit
            &&& second.1.len() == 5 && second.1[1] == (FrameAction::WriteUniform { state: u })
                && second.1[3] == FrameAction::Submit
        }),
{
    let first = frame(d);
    let second = frame(FrameDriver { uniform: u, ..first.0 });
    assert(first.1 =~= seq![
        FrameAction::AcquireImage,
        FrameAction::WriteUniform { state: d.uniform },
        FrameAction::RecordPass,
        FrameAction::Submit,
        FrameAction::Present,
    ]);
    assert(second.1 =~= seq![
        FrameAction::AcquireImage,
        FrameAction::WriteUniform { state: u },
        FrameAction::RecordPass,
        FrameAction::Submit,
        FrameAction::Present,
    ]);
    assert(first.1[1] == (FrameAction::WriteUniform { state: d.uniform }));
    assert(second.1[1] == (FrameAction::WriteUniform { state: u }));
}

} // verus!
