use vstd::prelude::*;

verus! {

/// A window notification as the platform event loop delivers it.
#[derive(Clone, Copy, Debug, PartialEq, Eq, Structural)]
pub enum WindowNotice {
    /// The window was resized to this size (either dimension may be zero).
    Resized { width: u32, height: u32 },
    /// The window asks for the next frame.
    RedrawRequested,
    /// The user asked to close the window.
    CloseRequested,
    /// Anything else the engine does not react to.
    Other,
}

/// What the engine does in reaction to a window notification.
#[derive(Clone, Copy, Debug, PartialEq, Eq, Structural)]
pub enum EngineAction {
    /// Reconfigure the surface with this requested size and rebuild the
    /// depth buffer.
    ApplyResize { width: u32, height: u32 },
    /// Drive one frame through the state machine.
    RenderFrame,
    /// Release the device resources and end the loop.
    Shutdown,
    /// Nothing to do.
    Ignore,
}

/// Maps each window notification onto the engine's reaction: a resize goes
/// to the surface (and cascades into a depth-buffer rebuild), a redraw tick
/// drives one frame, a close request shuts the engine down, and everything
/// else is ignored.
pub fn dispatch(notice: WindowNotice) -> (r: EngineAction)
    ensures
        match notice {
            WindowNotice::Resized { width, height } => r == (EngineAction::ApplyResize {
                width,
                height,
            }),
            WindowNotice::RedrawRequested => r == EngineAction::RenderFrame,
            WindowNotice::CloseRequested => r == EngineAction::Shutdown,
            WindowNotice::Other => r == EngineAction::Ignore,
        },
{
    match notice {
        WindowNotice::Resized { width, height } => EngineAction::ApplyResize { width, height },
        WindowNotice::RedrawRequested => EngineAction::RenderFrame,
        WindowNotice::CloseRequested => EngineAction::Shutdown,
        WindowNotice::Other => EngineAction::Ignore,
    }
}

} // verus!
