use pulsar::frame::{
    AcquireDecision, AcquireOutcome, FrameRenderer, FrameState, PresentOutcome,
};

#[test]
fn happy_path_walks_every_state() {
    let mut fr = FrameRenderer::new();
    assert_eq!(fr.state(), FrameState::Idle);
    fr.begin_acquire();
    assert_eq!(fr.state(), FrameState::Acquiring);
    assert_eq!(fr.resolve_acquire(AcquireOutcome::Acquired), AcquireDecision::Proceed);
    assert_eq!(fr.state(), FrameState::Encoding);
    fr.submit();
    assert_eq!(fr.state(), FrameState::Submitted);
    fr.resolve_present(PresentOutcome::Completed);
    assert_eq!(fr.state(), FrameState::Presented);
    fr.complete();
    assert_eq!(fr.state(), FrameState::Idle);
    assert!(!fr.is_fatal());
    assert_eq!(fr.frames_presented(), 1);
}

#[test]
fn lost_surface_recovers_to_idle() {
    let mut fr = FrameRenderer::new();
    fr.begin_acquire();
    assert_eq!(fr.resolve_acquire(AcquireOutcome::Lost), AcquireDecision::Recover);
    assert_eq!(fr.state(), FrameState::Idle);
    assert!(!fr.is_fatal());
    assert_eq!(fr.frames_presented(), 0);
}

#[test]
fn out_of_memory_on_acquire_is_fatal() {
    let mut fr = FrameRenderer::new();
    fr.begin_acquire();
    assert_eq!(fr.resolve_acquire(AcquireOutcome::OutOfMemory), AcquireDecision::Fatal);
    assert_eq!(fr.state(), FrameState::Idle);
    assert!(fr.is_fatal());
}

#[test]
fn other_acquire_error_skips_frame() {
    let mut fr = FrameRenderer::new();
    fr.begin_acquire();
    assert_eq!(fr.resolve_acquire(AcquireOutcome::Other), AcquireDecision::Skip);
    assert_eq!(fr.state(), FrameState::Idle);
    assert!(!fr.is_fatal());
}

#[test]
fn out_of_memory_on_present_is_fatal() {
    let mut fr = FrameRenderer::new();
    fr.begin_acquire();
    fr.resolve_acquire(AcquireOutcome::Acquired);
    fr.submit();
    fr.resolve_present(PresentOutcome::OutOfMemory);
    assert_eq!(fr.state(), FrameState::Idle);
    assert!(fr.is_fatal());
    assert_eq!(fr.frames_presented(), 0);
}

#[test]
fn other_present_error_skips_frame() {
    let mut fr = FrameRenderer::new();
    fr.begin_acquire();
    fr.resolve_acquire(AcquireOutcome::Acquired);
    fr.submit();
    fr.resolve_present(PresentOutcome::Other);
    assert_eq!(fr.state(), FrameState::Idle);
    assert!(!fr.is_fatal());
    assert_eq!(fr.frames_presented(), 0);
}
