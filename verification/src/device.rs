use vstd::prelude::*;

use crate::error::FatalError;

verus! {

/// The subset of device limits the engine cares about. The engine requests a
/// bounded baseline and only raises the resolution-related limits to what the
/// adapter reports, so a device request never asks for optional capability.
#[derive(Clone, Copy, Debug, PartialEq, Eq, Structural)]
pub struct DeviceLimits {
    pub max_texture_dimension_1d: u32,
    pub max_texture_dimension_2d: u32,
    pub max_texture_dimension_3d: u32,
    pub max_bind_groups: u32,
    pub max_uniform_buffer_binding_size: u32,
}

impl DeviceLimits {
    /// Every limit of `self` stays within what `adapter` reports.
    pub open spec fn fits_spec(self, adapter: DeviceLimits) -> bool {
        &&& self.max_texture_dimension_1d <= adapter.max_texture_dimension_1d
        &&& self.max_texture_dimension_2d <= adapter.max_texture_dimension_2d
        &&& self.max_texture_dimension_3d <= adapter.max_texture_dimension_3d
        &&& self.max_bind_groups <= adapter.max_bind_groups
        &&& self.max_uniform_buffer_binding_size <= adapter.max_uniform_buffer_binding_size
    }

    /// Whether a device request with these limits would be granted by an
    /// adapter reporting `adapter`.
    pub fn fits(&self, adapter: &DeviceLimits) -> (r: bool)
        ensures
            r == self.fits_spec(*adapter),
    {
        self.max_texture_dimension_1d <= adapter.max_texture_dimension_1d
            && self.max_texture_dimension_2d <= adapter.max_texture_dimension_2d
            && self.max_texture_dimension_3d <= adapter.max_texture_dimension_3d
            && self.max_bind_groups <= adapter.max_bind_groups
            && self.max_uniform_buffer_binding_size <= adapter.max_uniform_buffer_binding_size
    }

    /// These limits with the resolution-related entries replaced by what the
    /// adapter reports; everything else is kept.
    pub fn using_resolution(&self, adapter: &DeviceLimits) -> (r: DeviceLimits)
        ensures
            r.max_texture_dimension_1d == adapter.max_texture_dimension_1d,
            r.max_texture_dimension_2d == adapter.max_texture_dimension_2d,
            r.max_texture_dimension_3d == adapter.max_texture_dimension_3d,
            r.max_bind_groups == self.max_bind_groups,
            r.max_uniform_buffer_binding_size == self.max_uniform_buffer_binding_size,
    {
        DeviceLimits {
            max_texture_dimension_1d: adapter.max_texture_dimension_1d,
            max_texture_dimension_2d: adapter.max_texture_dimension_2d,
            max_texture_dimension_3d: adapter.max_texture_dimension_3d,
            max_bind_groups: self.max_bind_groups,
            max_uniform_buffer_binding_size: self.max_uniform_buffer_binding_size,
        }
    }
}

/// The lowest-common-denominator baseline the engine starts from.
pub open spec fn spec_baseline_limits() -> DeviceLimits {
    DeviceLimits {
        max_texture_dimension_1d: 2048,
        max_texture_dimension_2d: 2048,
        max_texture_dimension_3d: 256,
        max_bind_groups: 4,
        max_uniform_buffer_binding_size: 16384,
    }
}

/// The baseline limit set the engine would request from any adapter.
pub fn baseline_limits() -> (r: DeviceLimits)
    ensures
        r == spec_baseline_limits(),
{
    DeviceLimits {
        max_texture_dimension_1d: 2048,
        max_texture_dimension_2d: 2048,
        max_texture_dimension_3d: 256,
        max_bind_groups: 4,
        max_uniform_buffer_binding_size: 16384,
    }
}

/// The limit set the engine requests from an adapter reporting `adapter`:
/// the baseline, with the resolution limits replaced by exactly what the
/// adapter reports.
pub open spec fn spec_negotiated_limits(adapter: DeviceLimits) -> DeviceLimits {
    DeviceLimits {
        max_texture_dimension_1d: adapter.max_texture_dimension_1d,
        max_texture_dimension_2d: adapter.max_texture_dimension_2d,
        max_texture_dimension_3d: adapter.max_texture_dimension_3d,
        max_bind_groups: spec_baseline_limits().max_bind_groups,
        max_uniform_buffer_binding_size: spec_baseline_limits().max_uniform_buffer_binding_size,
    }
}

/// The limit set to put in the device request for an adapter reporting
/// `adapter`: the baseline, with resolution limits downgraded or raised to
/// exactly what the adapter reports.
pub fn negotiate_limits(adapter: &DeviceLimits) -> (r: DeviceLimits)
    ensures
        r == spec_negotiated_limits(*adapter),
{
    let baseline = baseline_limits();
    baseline.using_resolution(adapter)
}

/// An adapter that meets the baseline on the non-resolution limits always
/// grants the negotiated request: taking the resolution limits verbatim from
/// the adapter can never overshoot it.
pub proof fn lemma_negotiated_request_fits(adapter: DeviceLimits)
    requires
        adapter.max_bind_groups >= spec_baseline_limits().max_bind_groups,
        adapter.max_uniform_buffer_binding_size
            >= spec_baseline_limits().max_uniform_buffer_binding_size,
    ensures
        spec_negotiated_limits(adapter).fits_spec(adapter),
{
}

/// Classifies the outcome of adapter and device negotiation. Both failure
/// classes are fatal: there is no degraded-adapter fallback path.
pub fn classify_acquisition(adapter_found: bool, device_granted: bool) -> (r: Result<
    (),
    FatalError,
>)
    ensures
        r is Ok <==> adapter_found && device_granted,
        !adapter_found ==> r == Result::<(), FatalError>::Err(FatalError::AdapterUnavailable),
        adapter_found && !device_granted ==> r == Result::<(), FatalError>::Err(
            FatalError::DeviceRequestFailure,
        ),
{
    if !adapter_found {
        Err(FatalError::AdapterUnavailable)
    } else if !device_granted {
        Err(FatalError::DeviceRequestFailure)
    } else {
        Ok(())
    }
}

} // verus!
