use pulsar::device::{baseline_limits, classify_acquisition, negotiate_limits, DeviceLimits};
use pulsar::error::FatalError;

fn adapter_reporting(dim: u32) -> DeviceLimits {
    DeviceLimits {
        max_texture_dimension_1d: dim,
        max_texture_dimension_2d: dim,
        max_texture_dimension_3d: dim / 8,
        max_bind_groups: 8,
        max_uniform_buffer_binding_size: 65536,
    }
}

#[test]
fn negotiation_takes_resolution_from_adapter() {
    let adapter = adapter_reporting(8192);
    let r = negotiate_limits(&adapter);
    assert_eq!(r.max_texture_dimension_1d, 8192);
    assert_eq!(r.max_texture_dimension_2d, 8192);
    assert_eq!(r.max_texture_dimension_3d, 1024);
    let baseline = baseline_limits();
    assert_eq!(r.max_bind_groups, baseline.max_bind_groups);
    assert_eq!(
        r.max_uniform_buffer_binding_size,
        baseline.max_uniform_buffer_binding_size
    );
}

#[test]
fn negotiated_request_fits_a_capable_adapter() {
    let adapter = adapter_reporting(4096);
    let r = negotiate_limits(&adapter);
    assert!(r.fits(&adapter));
}

#[test]
fn baseline_does_not_fit_a_weaker_adapter() {
    let weak = DeviceLimits {
        max_texture_dimension_1d: 1024,
        max_texture_dimension_2d: 1024,
        max_texture_dimension_3d: 64,
        max_bind_groups: 2,
        max_uniform_buffer_binding_size: 4096,
    };
    assert!(!baseline_limits().fits(&weak));
}

#[test]
fn acquisition_classification() {
    assert_eq!(classify_acquisition(true, true), Ok(()));
    assert_eq!(
        classify_acquisition(false, true),
        Err(FatalError::AdapterUnavailable)
    );
    assert_eq!(
        classify_acquisition(false, false),
        Err(FatalError::AdapterUnavailable)
    );
    assert_eq!(
        classify_acquisition(true, false),
        Err(FatalError::DeviceRequestFailure)
    );
}
