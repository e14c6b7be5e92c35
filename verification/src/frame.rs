use vstd::prelude::*;

verus! {

/// The per-frame lifecycle. A frame moves `Idle -> Acquiring -> Encoding ->
/// Submitted -> Presented -> Idle`; failures while acquiring or presenting
/// take the recovery edge straight back to `Idle`.
#[derive(Clone, Copy, Debug, PartialEq, Eq, Structural)]
pub enum FrameState {
    Idle,
    Acquiring,
    Encoding,
    Submitted,
    Presented,
}

/// What requesting the next presentable image produced.
#[derive(Clone, Copy, Debug, PartialEq, Eq, Structural)]
pub enum AcquireOutcome {
    /// An image is available; the frame proceeds to encoding.
    Acquired,
    /// The surface was lost: recoverable by reconfiguring and rebuilding.
    Lost,
    /// The device is out of memory: fatal, not recoverable in-process.
    OutOfMemory,
    /// Any other acquisition error: the frame is skipped.
    Other,
}

/// What presenting the acquired image produced.
#[derive(Clone, Copy, Debug, PartialEq, Eq, Structural)]
pub enum PresentOutcome {
    /// The image reached the screen.
    Completed,
    /// The device is out of memory: fatal, not recoverable in-process.
    OutOfMemory,
    /// Any other presentation error: the frame is skipped.
    Other,
}

/// What the renderer asks its driver to do after an acquisition resolves.
#[derive(Clone, Copy, Debug, PartialEq, Eq, Structural)]
pub enum AcquireDecision {
    /// Encode and submit this frame.
    Proceed,
    /// Reconfigure the surface with the last known size and rebuild the
    /// depth buffer; the frame is skipped, not an error.
    Recover,
    /// Skip the frame and carry on.
    Skip,
    /// Stop: the failure cannot be recovered in-process.
    Fatal,
}

/// The frame state machine: tracks which phase of a frame is in flight,
/// whether a fatal condition was hit (after which no frame may start), and
/// how many frames have been presented.
#[derive(Debug)]
pub struct FrameRenderer {
    state: FrameState,
    fatal: bool,
    frames_presented: u64,
}

impl FrameRenderer {
    pub closed spec fn spec_state(self) -> FrameState {
        self.state
    }

    pub closed spec fn spec_fatal(self) -> bool {
        self.fatal
    }

    pub closed spec fn spec_frames_presented(self) -> u64 {
        self.frames_presented
    }

    /// A fresh renderer: idle, healthy, nothing presented yet.
    pub fn new() -> (r: FrameRenderer)
        ensures
            r.spec_state() == FrameState::Idle,
            !r.spec_fatal(),
            r.spec_frames_presented() == 0,
    {
        FrameRenderer { state: FrameState::Idle, fatal: false, frames_presented: 0 }
    }

    /// The phase currently in flight.
    pub fn state(&self) -> (r: FrameState)
        ensures
            r == self.spec_state(),
    {
        self.state
    }

    /// Whether a fatal condition has been hit; once true, no further frame
    /// may be attempted.
    pub fn is_fatal(&self) -> (r: bool)
        ensures
            r == self.spec_fatal(),
    {
        self.fatal
    }

    /// How many frames have been presented so far.
    pub fn frames_presented(&self) -> (r: u64)
        ensures
            r == self.spec_frames_presented(),
    {
        self.frames_presented
    }

    /// Leaves idle to request the next presentable image.
    pub fn begin_acquire(&mut self)
        requires
            old(self).spec_state() == FrameState::Idle,
            !old(self).spec_fatal(),
        ensures
            final(self).spec_state() == FrameState::Acquiring,
            !final(self).spec_fatal(),
            final(self).spec_frames_presented() == old(self).spec_frames_presented(),
    {
        self.state = FrameState::Acquiring;
    }

    /// Resolves the acquisition per the recovery policy: success proceeds to
    /// encoding; a lost surface recovers (reconfigure, rebuild, skip); out of
    /// memory is fatal; anything else skips the frame.
    pub fn resolve_acquire(&mut self, outcome: AcquireOutcome) -> (r: AcquireDecision)
        requires
            old(self).spec_state() == FrameState::Acquiring,
            !old(self).spec_fatal(),
        ensures
            final(self).spec_frames_presented() == old(self).spec_frames_presented(),
            match outcome {
                AcquireOutcome::Acquired => {
                    &&& r == AcquireDecision::Proceed
                    &&& final(self).spec_state() == FrameState::Encoding
                    &&& !final(self).spec_fatal()
                },
                AcquireOutcome::Lost => {
                    &&& r == AcquireDecision::Recover
                    &&& final(self).spec_state() == FrameState::Idle
                    &&& !final(self).spec_fatal()
                },
                AcquireOutcome::OutOfMemory => {
                    &&& r == AcquireDecision::Fatal
                    &&& final(self).spec_state() == FrameState::Idle
                    &&& final(self).spec_fatal()
                },
                AcquireOutcome::Other => {
                    &&& r == AcquireDecision::Skip
                    &&& final(self).spec_state() == FrameState::Idle
                    &&& !final(self).spec_fatal()
                },
            },
    {
        match outcome {
            AcquireOutcome::Acquired => {
                self.state = FrameState::Encoding;
                AcquireDecision::Proceed
            },
            AcquireOutcome::Lost => {
                self.state = FrameState::Idle;
                AcquireDecision::Recover
            },
            AcquireOutcome::OutOfMemory => {
                self.state = FrameState::Idle;
                self.fatal = true;
                AcquireDecision::Fatal
            },
            AcquireOutcome::Other => {
                self.state = FrameState::Idle;
                AcquireDecision::Skip
            },
        }
    }

    /// The frame's one command buffer is handed to the queue; across frames,
    /// submission order is the only ordering guarantee.
    pub fn submit(&mut self)
        requires
            old(self).spec_state() == FrameState::Encoding,
            !old(self).spec_fatal(),
        ensures
            final(self).spec_state() == FrameState::Submitted,
            !final(self).spec_fatal(),
            final(self).spec_frames_presented() == old(self).spec_frames_presented(),
    {
        self.state = FrameState::Submitted;
    }

    /// Resolves presentation of the submitted frame: success counts the
    /// frame as presented; out of memory is fatal; anything else skips.
    pub fn resolve_present(&mut self, outcome: PresentOutcome)
        requires
            old(self).spec_state() == FrameState::Submitted,
            !old(self).spec_fatal(),
            old(self).spec_frames_presented() < u64::MAX,
        ensures
            match outcome {
                PresentOutcome::Completed => {
                    &&& final(self).spec_state() == FrameState::Presented
                    &&& !final(self).spec_fatal()
                    &&& final(self).spec_frames_presented() == old(self).spec_frames_presented()
                        + 1
                },
                PresentOutcome::OutOfMemory => {
                    &&& final(self).spec_state() == FrameState::Idle
                    &&& final(self).spec_fatal()
                    &&& final(self).spec_frames_presented() == old(self).spec_frames_presented()
                },
                PresentOutcome::Other => {
                    &&& final(self).spec_state() == FrameState::Idle
                    &&& !final(self).spec_fatal()
                    &&& final(self).spec_frames_presented() == old(self).spec_frames_presented()
                },
            },
    {
        match outcome {
            PresentOutcome::Completed => {
                self.state = FrameState::Presented;
                self.frames_presented = self.frames_presented + 1;
            },
            PresentOutcome::OutOfMemory => {
                self.state = FrameState::Idle;
                self.fatal = true;
            },
            PresentOutcome::Other => {
                self.state = FrameState::Idle;
            },
        }
    }

    /// A successfully presented frame is finished; the machine returns to
    /// idle for the next frame.
    pub fn complete(&mut self)
        requires
            old(self).spec_state() == FrameState::Presented,
            !old(self).spec_fatal(),
        ensures
            final(self).spec_state() == FrameState::Idle,
            !final(self).spec_fatal(),
            final(self).spec_frames_presented() == old(self).spec_frames_presented(),
    {
        self.state = FrameState::Idle;
    }
}

} // verus!
