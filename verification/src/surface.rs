use vstd::prelude::*;

use crate::error::FatalError;

verus! {

/// One presentation format as the adapter reports it: an identifying code and
/// whether it is gamma-correct (sRGB).
#[derive(Clone, Copy, Debug, PartialEq, Eq, Structural)]
pub struct SurfaceFormat {
    pub code: u32,
    pub srgb: bool,
}

/// What the adapter reports about a surface: the supported formats and
/// present modes, each in the adapter's preference order.
pub struct SurfaceCaps {
    pub formats: Vec<SurfaceFormat>,
    pub present_modes: Vec<u32>,
}

/// A surface configuration. A well-formed configuration never has a zero
/// dimension: the device refuses zero-sized surfaces.
#[derive(Clone, Copy, Debug, PartialEq, Eq, Structural)]
pub struct SurfaceConfig {
    pub width: u32,
    pub height: u32,
    pub format: SurfaceFormat,
    pub present_mode: u32,
}

impl SurfaceConfig {
    pub open spec fn wf(self) -> bool {
        self.width >= 1 && self.height >= 1
    }
}

/// A requested dimension clamped to the minimum the device accepts.
pub open spec fn clamp_dim(d: u32) -> u32 {
    if d == 0 {
        1u32
    } else {
        d
    }
}

/// The configuration that `configure(width, height)` leaves behind: clamped
/// dimensions, format and present mode untouched.
pub open spec fn configured(c: SurfaceConfig, width: u32, height: u32) -> SurfaceConfig {
    SurfaceConfig {
        width: clamp_dim(width),
        height: clamp_dim(height),
        format: c.format,
        present_mode: c.present_mode,
    }
}

/// `f` is the format the manager selects from `formats`: the first
/// gamma-correct one if any is reported, otherwise the first reported.
pub open spec fn is_preferred_format(formats: Seq<SurfaceFormat>, f: SurfaceFormat) -> bool {
    if exists|i: int| 0 <= i < formats.len() && formats[i].srgb {
        exists|i: int|
            {
                &&& 0 <= i < formats.len()
                &&& formats[i].srgb
                &&& f == formats[i]
                &&& forall|j: int| 0 <= j < i ==> !formats[j].srgb
            }
    } else {
        formats.len() > 0 && f == formats[0]
    }
}

/// Picks the first gamma-correct format, or the first format when none is
/// gamma-correct.
pub fn select_format(formats: &Vec<SurfaceFormat>) -> (r: SurfaceFormat)
    requires
        formats@.len() > 0,
    ensures
        is_preferred_format(formats@, r),
{
    let mut i: usize = 0;
    while i < formats.len()
        invariant
            0 <= i <= formats@.len(),
            forall|j: int| 0 <= j < i ==> !formats@[j].srgb,
        decreases formats@.len() - i,
    {
        if formats[i].srgb {
            return formats[i];
        }
        i += 1;
    }
    formats[0]
}

/// Owns one surface's configuration: selects format and present mode at
/// construction and keeps the stored dimensions clamped to at least 1.
#[derive(Debug)]
pub struct SurfaceManager {
    config: SurfaceConfig,
}

impl SurfaceManager {
    /// The stored configuration.
    pub closed spec fn spec_config(self) -> SurfaceConfig {
        self.config
    }

    pub open spec fn wf(self) -> bool {
        self.spec_config().wf()
    }

    /// Builds the initial configuration from the reported capabilities:
    /// gamma-correct format if available (else the first reported), the first
    /// reported present mode, and the requested size clamped to at least 1.
    /// Fails when the adapter reports no format or no present mode; that is a
    /// fatal startup condition.
    pub fn new(caps: &SurfaceCaps, width: u32, height: u32) -> (r: Result<SurfaceManager, FatalError>)
        ensures
            match r {
                Ok(m) => {
                    &&& caps.formats@.len() > 0
                    &&& caps.present_modes@.len() > 0
                    &&& m.wf()
                    &&& m.spec_config().width == clamp_dim(width)
                    &&& m.spec_config().height == clamp_dim(height)
                    &&& is_preferred_format(caps.formats@, m.spec_config().format)
                    &&& m.spec_config().present_mode == caps.present_modes@[0]
                },
                Err(e) => {
                    &&& (caps.formats@.len() == 0 || caps.present_modes@.len() == 0)
                    &&& e == FatalError::SurfaceUnsupported
                },
            },
    {
        if caps.formats.len() == 0 || caps.present_modes.len() == 0 {
            return Err(FatalError::SurfaceUnsupported);
        }
        let format = select_format(&caps.formats);
        let config = SurfaceConfig {
            width: if width == 0 {
                1
            } else {
                width
            },
            height: if height == 0 {
                1
            } else {
                height
            },
            format,
            present_mode: caps.present_modes[0],
        };
        Ok(SurfaceManager { config })
    }

    /// The current configuration, as the device last saw it.
    pub fn current_config(&self) -> (r: SurfaceConfig)
        ensures
            r == self.spec_config(),
    {
        self.config
    }

    /// Stores the requested size with both dimensions clamped to a minimum
    /// of 1; format and present mode stay as negotiated at construction. The
    /// caller must re-apply the configuration to the live surface and rebuild
    /// the depth buffer before the next frame.
    pub fn configure(&mut self, width: u32, height: u32)
        ensures
            final(self).spec_config() == configured(old(self).spec_config(), width, height),
            final(self).wf(),
    {
        self.config.width = if width == 0 {
            1
        } else {
            width
        };
        self.config.height = if height == 0 {
            1
        } else {
            height
        };
    }
}

/// For every requested size, the stored dimensions are positive: a zero
/// request is replaced by 1 and any other request is kept.
pub proof fn lemma_configured_dims_positive(c: SurfaceConfig, width: u32, height: u32)
    ensures
        configured(c, width, height).wf(),
        configured(c, width, height).width == if width == 0 {
            1u32
        } else {
            width
        },
        configured(c, width, height).height == if height == 0 {
            1u32
        } else {
            height
        },
{
}

/// Configuring twice with the same requested size leaves the stored
/// configuration exactly where one call left it.
pub proof fn lemma_configure_idempotent(c: SurfaceConfig, width: u32, height: u32)
    ensures
        configured(configured(c, width, height), width, height) == configured(c, width, height),
{
}

} // verus!
