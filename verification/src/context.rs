use vstd::prelude::*;

use crate::depth::DepthBuffer;
use crate::error::FatalError;
use crate::frame::{AcquireOutcome, FrameRenderer, FrameState, PresentOutcome};
use crate::mesh::CUBE_INDEX_COUNT;
use crate::pipeline::{
    build_pipeline, engine_binding_layout, engine_shader_interface, lemma_engine_layout_in_lockstep,
    spec_engine_binding_layout, CullMode, FrontFace, Pipeline, Topology,
};
use crate::surface::{clamp_dim, configured, is_preferred_format, SurfaceCaps, SurfaceConfig,
    SurfaceManager};
use crate::uniform::{packed_uniform, UniformFeed, UNIFORM_BYTES};

verus! {

/// What the caller must do for the frame that was just begun.
#[derive(Debug)]
pub enum FramePlan {
    /// Encode exactly one render pass (clear color and depth, bind the
    /// pipeline and the uniform binding group, one draw over the whole
    /// mesh), upload this uniform payload first, then submit and present.
    Draw { uniform: Vec<u8>, vertex_count: u32 },
    /// The surface was lost; it has been reconfigured with the last known
    /// size and the depth buffer rebuilt. The frame is skipped, not an
    /// error.
    Recovered,
    /// A transient acquisition error; the frame is skipped.
    Skipped,
}

/// How one whole simulated frame ended.
#[derive(Clone, Copy, Debug, PartialEq, Eq, Structural)]
pub enum FrameReport {
    /// The frame was encoded, submitted and presented.
    Drawn,
    /// The surface was lost and recovered; the frame was skipped.
    Recovered,
    /// The frame was skipped on a transient error.
    Skipped,
}

/// The engine's pipeline value: the engine binding layout plus the fixed
/// draw policy (triangle list, counter-clockwise front face, no culling).
pub open spec fn spec_engine_pipeline() -> Pipeline {
    Pipeline {
        layout: spec_engine_binding_layout(),
        topology: Topology::TriangleList,
        front_face: FrontFace::Ccw,
        cull_mode: CullMode::Disabled,
    }
}

/// The rendering context: owns the surface configuration, the depth buffer
/// model, the compiled pipeline, the uniform feed and the frame state
/// machine, and coordinates resize against the per-frame lifecycle.
#[derive(Debug)]
pub struct RenderContext {
    surface: SurfaceManager,
    depth: DepthBuffer,
    pipeline: Pipeline,
    feed: UniformFeed,
    frame: FrameRenderer,
    pending_resize: Option<(u32, u32)>,
    recovery_cycles: u64,
}

impl RenderContext {
    /// The current surface configuration.
    pub closed spec fn spec_config(self) -> SurfaceConfig {
        self.surface.spec_config()
    }

    /// The current depth buffer.
    pub closed spec fn spec_depth(self) -> DepthBuffer {
        self.depth
    }

    /// The compiled pipeline.
    pub closed spec fn spec_pipeline(self) -> Pipeline {
        self.pipeline
    }

    /// The uniform feed.
    pub closed spec fn spec_feed(self) -> UniformFeed {
        self.feed
    }

    /// The frame phase currently in flight.
    pub closed spec fn spec_frame_state(self) -> FrameState {
        self.frame.spec_state()
    }

    /// Whether a fatal condition has been hit.
    pub closed spec fn spec_fatal(self) -> bool {
        self.frame.spec_fatal()
    }

    /// How many frames have been presented.
    pub closed spec fn spec_frames_presented(self) -> u64 {
        self.frame.spec_frames_presented()
    }

    /// How many reconfigure-and-rebuild recovery cycles have run.
    pub closed spec fn spec_recovery_cycles(self) -> u64 {
        self.recovery_cycles
    }

    /// A resize that arrived while a frame was in flight, waiting to be
    /// applied when the frame returns to idle.
    pub closed spec fn spec_pending_resize(self) -> Option<(u32, u32)> {
        self.pending_resize
    }

    /// The context's invariant: the configuration is well-formed, the depth
    /// buffer matches it exactly, the pipeline is the engine pipeline, and
    /// no resize is pending while the machine is idle.
    pub open spec fn wf(self) -> bool {
        &&& self.spec_config().wf()
        &&& self.spec_depth().matches_spec(self.spec_config())
        &&& self.spec_pipeline() == spec_engine_pipeline()
        &&& (self.spec_frame_state() == FrameState::Idle ==> self.spec_pending_resize() is None)
    }

    /// Builds the context once the device exists: negotiates format and
    /// present mode from the reported capabilities, clamps the initial size,
    /// sizes the depth buffer to the configuration, and compiles the engine
    /// pipeline (which cannot fail: the engine layout is in lock-step with
    /// its own shader). Fails only when the surface reports no format or no
    /// present mode.
    pub fn new(caps: &SurfaceCaps, width: u32, height: u32) -> (r: Result<
        RenderContext,
        FatalError,
    >)
        ensures
            match r {
                Ok(c) => {
                    &&& caps.formats@.len() > 0
                    &&& caps.present_modes@.len() > 0
                    &&& c.wf()
                    &&& c.spec_config().width == clamp_dim(width)
                    &&& c.spec_config().height == clamp_dim(height)
                    &&& is_preferred_format(caps.formats@, c.spec_config().format)
                    &&& c.spec_config().present_mode == caps.present_modes@[0]
                    &&& c.spec_frame_state() == FrameState::Idle
                    &&& !c.spec_fatal()
                    &&& c.spec_frames_presented() == 0
                    &&& c.spec_recovery_cycles() == 0
                    &&& !c.spec_feed().spec_primed()
                },
                Err(e) => {
                    &&& (caps.formats@.len() == 0 || caps.present_modes@.len() == 0)
                    &&& e == FatalError::SurfaceUnsupported
                },
            },
    {
        let surface = match SurfaceManager::new(caps, width, height) {
            Ok(m) => m,
            Err(e) => {
                return Err(e);
            },
        };
        let config = surface.current_config();
        let depth = DepthBuffer::create(&config);
        let pipeline = match build_pipeline(
            Some(engine_shader_interface()),
            engine_binding_layout(),
        ) {
            Ok(p) => p,
            Err(e) => {
                // The engine layout is in lock-step with its own shader, so
                // this branch is provably unreachable.
                proof {
                    lemma_engine_layout_in_lockstep();
                }
                assert(false);
                return Err(e);
            },
        };
        Ok(
            RenderContext {
                surface,
                depth,
                pipeline,
                feed: UniformFeed::new(),
                frame: FrameRenderer::new(),
                pending_resize: None,
                recovery_cycles: 0,
            },
        )
    }

    /// The current surface configuration, as the device last saw it.
    pub fn current_config(&self) -> (r: SurfaceConfig)
        ensures
            r == self.spec_config(),
    {
        self.surface.current_config()
    }

    /// The current depth buffer.
    pub fn depth_buffer(&self) -> (r: DepthBuffer)
        ensures
            r == self.spec_depth(),
    {
        self.depth
    }

    /// The compiled pipeline.
    pub fn pipeline(&self) -> (r: Pipeline)
        ensures
            r == self.spec_pipeline(),
    {
        self.pipeline
    }

    /// The frame phase currently in flight.
    pub fn frame_state(&self) -> (r: FrameState)
        ensures
            r == self.spec_frame_state(),
    {
        self.frame.state()
    }

    /// Whether a fatal condition has been hit; once true, no further frame
    /// may be attempted.
    pub fn is_fatal(&self) -> (r: bool)
        ensures
            r == self.spec_fatal(),
    {
        self.frame.is_fatal()
    }

    /// How many frames have been presented.
    pub fn frames_presented(&self) -> (r: u64)
        ensures
            r == self.spec_frames_presented(),
    {
        self.frame.frames_presented()
    }

    /// How many reconfigure-and-rebuild recovery cycles have run.
    pub fn recovery_cycles(&self) -> (r: u64)
        ensures
            r == self.spec_recovery_cycles(),
    {
        self.recovery_cycles
    }

    /// The resize waiting for the frame in flight to finish, if any.
    pub fn pending_resize(&self) -> (r: Option<(u32, u32)>)
        ensures
            r == self.spec_pending_resize(),
    {
        self.pending_resize
    }

    /// Whether the next frame would accept this clock word.
    pub fn accepts_time(&self, time_word: u32) -> (r: bool)
        ensures
            r == self.spec_feed().accepts(time_word),
    {
        self.feed.accepts_time(time_word)
    }

    /// Handles a resize notification. With no frame in flight the surface is
    /// reconfigured at once (dimensions clamped to at least 1) and the depth
    /// buffer rebuilt to match; while a frame is in flight the request is
    /// deferred and applied when the frame returns to idle.
    pub fn resize(&mut self, width: u32, height: u32)
        requires
            old(self).wf(),
        ensures
            final(self).wf(),
            final(self).spec_frame_state() == old(self).spec_frame_state(),
            final(self).spec_fatal() == old(self).spec_fatal(),
            final(self).spec_frames_presented() == old(self).spec_frames_presented(),
            final(self).spec_recovery_cycles() == old(self).spec_recovery_cycles(),
            final(self).spec_feed() == old(self).spec_feed(),
            final(self).spec_pipeline() == old(self).spec_pipeline(),
            old(self).spec_frame_state() == FrameState::Idle ==> {
                &&& final(self).spec_config() == configured(old(self).spec_config(), width, height)
                &&& final(self).spec_depth().matches_spec(final(self).spec_config())
                &&& final(self).spec_pending_resize() is None
            },
            old(self).spec_frame_state() != FrameState::Idle ==> {
                &&& final(self).spec_config() == old(self).spec_config()
                &&& final(self).spec_depth() == old(self).spec_depth()
                &&& final(self).spec_pending_resize() == Some((width, height))
            },
    {
        if self.frame.state() == FrameState::Idle {
            self.surface.configure(width, height);
            let config = self.surface.current_config();
            self.depth = DepthBuffer::create(&config);
            self.pending_resize = None;
        } else {
            self.pending_resize = Some((width, height));
        }
    }

    /// Starts one frame from idle against the given acquisition outcome.
    /// Success packs the uniform payload and moves to encoding; a lost
    /// surface runs exactly one reconfigure-and-rebuild cycle and skips the
    /// frame; out of memory is fatal; any other error skips the frame.
    pub fn render_begin(&mut self, time_word: u32, aspect_word: u32, acquire: AcquireOutcome) -> (r:
        Result<FramePlan, FatalError>)
        requires
            old(self).wf(),
            old(self).spec_frame_state() == FrameState::Idle,
            !old(self).spec_fatal(),
            old(self).spec_feed().accepts(time_word),
            old(self).spec_recovery_cycles() < u64::MAX,
        ensures
            final(self).wf(),
            final(self).spec_pipeline() == old(self).spec_pipeline(),
            final(self).spec_frames_presented() == old(self).spec_frames_presented(),
            final(self).spec_pending_resize() is None,
            final(self).spec_config() == old(self).spec_config(),
            match acquire {
                AcquireOutcome::Acquired => {
                    &&& (r matches Ok(p) && p matches FramePlan::Draw { uniform, vertex_count }
                        && uniform@ == packed_uniform(time_word, aspect_word) && uniform@.len()
                        == UNIFORM_BYTES && vertex_count as int == CUBE_INDEX_COUNT as int)
                    &&& final(self).spec_frame_state() == FrameState::Encoding
                    &&& !final(self).spec_fatal()
                    &&& final(self).spec_feed().spec_primed()
                    &&& final(self).spec_feed().spec_last_time_word() == time_word
                    &&& final(self).spec_depth() == old(self).spec_depth()
                    &&& final(self).spec_recovery_cycles() == old(self).spec_recovery_cycles()
                },
                AcquireOutcome::Lost => {
                    &&& (r matches Ok(p) && p matches FramePlan::Recovered)
                    &&& final(self).spec_frame_state() == FrameState::Idle
                    &&& !final(self).spec_fatal()
                    &&& final(self).spec_feed() == old(self).spec_feed()
                    &&& final(self).spec_recovery_cycles() == old(self).spec_recovery_cycles() + 1
                },
                AcquireOutcome::OutOfMemory => {
                    &&& (r matches Err(e) && e == FatalError::OutOfMemory)
                    &&& final(self).spec_frame_state() == FrameState::Idle
                    &&& final(self).spec_fatal()
                    &&& final(self).spec_feed() == old(self).spec_feed()
                    &&& final(self).spec_depth() == old(self).spec_depth()
                    &&& final(self).spec_recovery_cycles() == old(self).spec_recovery_cycles()
                },
                AcquireOutcome::Other => {
                    &&& (r matches Ok(p) && p matches FramePlan::Skipped)
                    &&& final(self).spec_frame_state() == FrameState::Idle
                    &&& !final(self).spec_fatal()
                    &&& final(self).spec_feed() == old(self).spec_feed()
                    &&& final(self).spec_depth() == old(self).spec_depth()
                    &&& final(self).spec_recovery_cycles() == old(self).spec_recovery_cycles()
                },
            },
    {
        self.frame.begin_acquire();
        match acquire {
            AcquireOutcome::Acquired => {
                self.frame.resolve_acquire(AcquireOutcome::Acquired);
                let uniform = self.feed.write(time_word, aspect_word);
                Ok(FramePlan::Draw { uniform, vertex_count: 36 })
            },
            AcquireOutcome::Lost => {
                self.frame.resolve_acquire(AcquireOutcome::Lost);
                let config = self.surface.current_config();
                self.surface.configure(config.width, config.height);
                let reapplied = self.surface.current_config();
                self.depth = DepthBuffer::create(&reapplied);
                self.recovery_cycles = self.recovery_cycles + 1;
                Ok(FramePlan::Recovered)
            },
            AcquireOutcome::OutOfMemory => {
                self.frame.resolve_acquire(AcquireOutcome::OutOfMemory);
                Err(FatalError::OutOfMemory)
            },
            AcquireOutcome::Other => {
                self.frame.resolve_acquire(AcquireOutcome::Other);
                Ok(FramePlan::Skipped)
            },
        }
    }

    /// Finishes a frame whose render pass was encoded: submits it, resolves
    /// presentation, returns the machine to idle, and applies a deferred
    /// resize if one arrived during the frame. A completed presentation
    /// counts the frame; out of memory is fatal and leaves the
    /// configuration untouched; any other error skips the frame.
    pub fn render_finish(&mut self, present: PresentOutcome) -> (r: Result<(), FatalError>)
        requires
            old(self).wf(),
            old(self).spec_frame_state() == FrameState::Encoding,
            !old(self).spec_fatal(),
            old(self).spec_frames_presented() < u64::MAX,
        ensures
            final(self).wf(),
            final(self).spec_frame_state() == FrameState::Idle,
            final(self).spec_pending_resize() is None,
            final(self).spec_pipeline() == old(self).spec_pipeline(),
            final(self).spec_feed() == old(self).spec_feed(),
            final(self).spec_recovery_cycles() == old(self).spec_recovery_cycles(),
            match present {
                PresentOutcome::Completed => {
                    &&& (r matches Ok(u) && u == ())
                    &&& !final(self).spec_fatal()
                    &&& final(self).spec_frames_presented() == old(self).spec_frames_presented()
                        + 1
                    &&& (match old(self).spec_pending_resize() {
                        Some((w, h)) => final(self).spec_config() == configured(
                            old(self).spec_config(),
                            w,
                            h,
                        ),
                        None => final(self).spec_config() == old(self).spec_config(),
                    })
                    &&& final(self).spec_depth().matches_spec(final(self).spec_config())
                },
                PresentOutcome::OutOfMemory => {
                    &&& (r matches Err(e) && e == FatalError::OutOfMemory)
                    &&& final(self).spec_fatal()
                    &&& final(self).spec_frames_presented() == old(self).spec_frames_presented()
                    &&& final(self).spec_config() == old(self).spec_config()
                    &&& final(self).spec_depth() == old(self).spec_depth()
                },
                PresentOutcome::Other => {
                    &&& (r matches Ok(u) && u == ())
                    &&& !final(self).spec_fatal()
                    &&& final(self).spec_frames_presented() == old(self).spec_frames_presented()
                    &&& (match old(self).spec_pending_resize() {
                        Some((w, h)) => final(self).spec_config() == configured(
                            old(self).spec_config(),
                            w,
                            h,
                        ),
                        None => final(self).spec_config() == old(self).spec_config(),
                    })
                    &&& final(self).spec_depth().matches_spec(final(self).spec_config())
                },
            },
    {
        self.frame.submit();
        let fatal: bool = match present {
            PresentOutcome::Completed => {
                self.frame.resolve_present(PresentOutcome::Completed);
                self.frame.complete();
                false
            },
            PresentOutcome::OutOfMemory => {
                self.frame.resolve_present(PresentOutcome::OutOfMemory);
                true
            },
            PresentOutcome::Other => {
                self.frame.resolve_present(PresentOutcome::Other);
                false
            },
        };
        if fatal {
            self.pending_resize = None;
            Err(FatalError::OutOfMemory)
        } else {
            match self.pending_resize {
                Some((w, h)) => {
                    self.surface.configure(w, h);
                    let config = self.surface.current_config();
                    self.depth = DepthBuffer::create(&config);
                    self.pending_resize = None;
                },
                None => {},
            }
            Ok(())
        }
    }

    /// Runs one whole frame of the state machine against the given
    /// acquisition and presentation outcomes (the presentation outcome is
    /// consulted only when an image was acquired). The machine starts and
    /// ends idle; a drawn frame advances the uniform feed and the presented
    /// count, a lost surface recovers exactly once, out of memory at either
    /// step is fatal, and anything else skips the frame.
    pub fn render(
        &mut self,
        time_word: u32,
        aspect_word: u32,
        acquire: AcquireOutcome,
        present: PresentOutcome,
    ) -> (r: Result<FrameReport, FatalError>)
        requires
            old(self).wf(),
            old(self).spec_frame_state() == FrameState::Idle,
            !old(self).spec_fatal(),
            old(self).spec_feed().accepts(time_word),
            old(self).spec_recovery_cycles() < u64::MAX,
            old(self).spec_frames_presented() < u64::MAX,
        ensures
            final(self).wf(),
            final(self).spec_frame_state() == FrameState::Idle,
            final(self).spec_pending_resize() is None,
            final(self).spec_pipeline() == old(self).spec_pipeline(),
            final(self).spec_config() == old(self).spec_config(),
            final(self).spec_depth().matches_spec(final(self).spec_config()),
            match acquire {
                AcquireOutcome::Acquired => {
                    &&& final(self).spec_feed().spec_primed()
                    &&& final(self).spec_feed().spec_last_time_word() == time_word
                    &&& final(self).spec_recovery_cycles() == old(self).spec_recovery_cycles()
                    &&& (match present {
                        PresentOutcome::Completed => {
                            &&& r == Ok::<FrameReport, FatalError>(FrameReport::Drawn)
                            &&& !final(self).spec_fatal()
                            &&& final(self).spec_frames_presented() == old(
                                self,
                            ).spec_frames_presented() + 1
                        },
                        PresentOutcome::OutOfMemory => {
                            &&& r == Err::<FrameReport, FatalError>(FatalError::OutOfMemory)
                            &&& final(self).spec_fatal()
                            &&& final(self).spec_frames_presented() == old(
                                self,
                            ).spec_frames_presented()
                        },
                        PresentOutcome::Other => {
                            &&& r == Ok::<FrameReport, FatalError>(FrameReport::Skipped)
                            &&& !final(self).spec_fatal()
                            &&& final(self).spec_frames_presented() == old(
                                self,
                            ).spec_frames_presented()
                        },
                    })
                },
                AcquireOutcome::Lost => {
                    &&& r == Ok::<FrameReport, FatalError>(FrameReport::Recovered)
                    &&& !final(self).spec_fatal()
                    &&& final(self).spec_feed() == old(self).spec_feed()
                    &&& final(self).spec_recovery_cycles() == old(self).spec_recovery_cycles() + 1
                    &&& final(self).spec_frames_presented() == old(self).spec_frames_presented()
                },
                AcquireOutcome::OutOfMemory => {
                    &&& r == Err::<FrameReport, FatalError>(FatalError::OutOfMemory)
                    &&& final(self).spec_fatal()
                    &&& final(self).spec_feed() == old(self).spec_feed()
                    &&& final(self).spec_recovery_cycles() == old(self).spec_recovery_cycles()
                    &&& final(self).spec_frames_presented() == old(self).spec_frames_presented()
                },
                AcquireOutcome::Other => {
                    &&& r == Ok::<FrameReport, FatalError>(FrameReport::Skipped)
                    &&& !final(self).spec_fatal()
                    &&& final(self).spec_feed() == old(self).spec_feed()
                    &&& final(self).spec_recovery_cycles() == old(self).spec_recovery_cycles()
                    &&& final(self).spec_frames_presented() == old(self).spec_frames_presented()
                },
            },
    {
        match self.render_begin(time_word, aspect_word, acquire) {
            Ok(plan) => match plan {
                FramePlan::Draw { uniform: _, vertex_count: _ } => {
                    match self.render_finish(present) {
                        Ok(_) => match present {
                            PresentOutcome::Completed => Ok(FrameReport::Drawn),
                            PresentOutcome::OutOfMemory => Ok(FrameReport::Skipped),
                            PresentOutcome::Other => Ok(FrameReport::Skipped),
                        },
                        Err(e) => Err(e),
                    }
                },
                FramePlan::Recovered => Ok(FrameReport::Recovered),
                FramePlan::Skipped => Ok(FrameReport::Skipped),
            },
            Err(e) => Err(e),
        }
    }
}

} // verus!
