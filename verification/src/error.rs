use vstd::prelude::*;

verus! {

/// Unrecoverable failure classes: each one ends the engine. Construction-time
/// failures (adapter, device, surface, shader, pipeline) propagate to the
/// caller of context construction; an out-of-memory condition during frame
/// acquisition or presentation propagates out of the render loop.
#[derive(Clone, Copy, Debug, PartialEq, Eq, Structural)]
pub enum FatalError {
    /// No graphics adapter compatible with the presentation surface exists.
    AdapterUnavailable,
    /// The adapter rejected the requested feature/limit set.
    DeviceRequestFailure,
    /// The surface reports no supported format or present mode.
    SurfaceUnsupported,
    /// The shader module failed to compile.
    ShaderCompileFailure,
    /// The binding layout does not agree with what the shader declares.
    PipelineLayoutMismatch,
    /// The device ran out of memory while acquiring or presenting a frame.
    OutOfMemory,
}

} // verus!
