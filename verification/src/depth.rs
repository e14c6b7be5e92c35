use vstd::prelude::*;

use crate::surface::{clamp_dim, configured, SurfaceConfig};

verus! {

/// Identifying code of the fixed depth-only texture format (32-bit float
/// depth, no stencil component).
pub const DEPTH_FORMAT_CODE: u32 = 0x100;

/// The auxiliary depth render target. It is rebuilt, never mutated in place:
/// a value of this type always reports the dimensions it was created with,
/// and the renderer must recreate it whenever the surface configuration
/// changes. The format is fixed (depth-only), single-sample, single-mip.
#[derive(Clone, Copy, Debug, PartialEq, Eq, Structural)]
pub struct DepthBuffer {
    width: u32,
    height: u32,
}

impl DepthBuffer {
    pub closed spec fn spec_width(self) -> u32 {
        self.width
    }

    pub closed spec fn spec_height(self) -> u32 {
        self.height
    }

    /// The buffer that `create` builds from a configuration.
    pub closed spec fn spec_create(c: SurfaceConfig) -> DepthBuffer {
        DepthBuffer { width: c.width, height: c.height }
    }

    /// The buffer's dimensions equal those of the given configuration.
    pub open spec fn matches_spec(self, c: SurfaceConfig) -> bool {
        self.spec_width() == c.width && self.spec_height() == c.height
    }

    /// Builds a depth buffer sized exactly to the given surface
    /// configuration. There is no incremental update: resize means create
    /// anew from the current configuration.
    pub fn create(config: &SurfaceConfig) -> (r: DepthBuffer)
        ensures
            r == DepthBuffer::spec_create(*config),
            r.spec_width() == config.width,
            r.spec_height() == config.height,
            r.matches_spec(*config),
    {
        DepthBuffer { width: config.width, height: config.height }
    }

    /// The width this buffer was created with.
    pub fn width(&self) -> (r: u32)
        ensures
            r == self.spec_width(),
    {
        self.width
    }

    /// The height this buffer was created with.
    pub fn height(&self) -> (r: u32)
        ensures
            r == self.spec_height(),
    {
        self.height
    }

    /// Whether this buffer still matches the given configuration; when it
    /// does not, it must be rebuilt before the next render pass.
    pub fn matches(&self, config: &SurfaceConfig) -> (r: bool)
        ensures
            r == self.matches_spec(*config),
    {
        self.width == config.width && self.height == config.height
    }
}

/// After any configure request, a depth buffer rebuilt from the resulting
/// configuration reports exactly the clamped surface dimensions.
pub proof fn lemma_rebuild_after_configure(c: SurfaceConfig, width: u32, height: u32)
    ensures
        DepthBuffer::spec_create(configured(c, width, height)).spec_width() == clamp_dim(width),
        DepthBuffer::spec_create(configured(c, width, height)).spec_height() == clamp_dim(height),
        DepthBuffer::spec_create(configured(c, width, height)).matches_spec(
            configured(c, width, height),
        ),
{
}

} // verus!
