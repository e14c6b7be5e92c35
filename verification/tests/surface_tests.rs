use pulsar::depth::DepthBuffer;
use pulsar::error::FatalError;
use pulsar::surface::{select_format, SurfaceCaps, SurfaceFormat, SurfaceManager};

fn caps_with_srgb() -> SurfaceCaps {
    SurfaceCaps {
        formats: vec![
            SurfaceFormat { code: 10, srgb: false },
            SurfaceFormat { code: 11, srgb: true },
            SurfaceFormat { code: 12, srgb: true },
        ],
        present_modes: vec![3, 4],
    }
}

#[test]
fn select_format_prefers_first_gamma_correct() {
    let formats = vec![
        SurfaceFormat { code: 10, srgb: false },
        SurfaceFormat { code: 11, srgb: true },
        SurfaceFormat { code: 12, srgb: true },
    ];
    assert_eq!(select_format(&formats), SurfaceFormat { code: 11, srgb: true });
}

#[test]
fn select_format_falls_back_to_first_reported() {
    let formats = vec![
        SurfaceFormat { code: 20, srgb: false },
        SurfaceFormat { code: 21, srgb: false },
    ];
    assert_eq!(select_format(&formats), SurfaceFormat { code: 20, srgb: false });
}

#[test]
fn new_negotiates_format_mode_and_clamps() {
    let m = SurfaceManager::new(&caps_with_srgb(), 800, 0).unwrap();
    let c = m.current_config();
    assert_eq!(c.width, 800);
    assert_eq!(c.height, 1);
    assert_eq!(c.format, SurfaceFormat { code: 11, srgb: true });
    assert_eq!(c.present_mode, 3);
}

#[test]
fn new_fails_without_formats() {
    let caps = SurfaceCaps { formats: vec![], present_modes: vec![3] };
    assert_eq!(
        SurfaceManager::new(&caps, 800, 600).unwrap_err(),
        FatalError::SurfaceUnsupported
    );
}

#[test]
fn new_fails_without_present_modes() {
    let caps = SurfaceCaps {
        formats: vec![SurfaceFormat { code: 1, srgb: true }],
        present_modes: vec![],
    };
    assert_eq!(
        SurfaceManager::new(&caps, 800, 600).unwrap_err(),
        FatalError::SurfaceUnsupported
    );
}

#[test]
fn configure_clamps_zero_dimensions() {
    let mut m = SurfaceManager::new(&caps_with_srgb(), 800, 600).unwrap();
    m.configure(0, 600);
    assert_eq!(m.current_config().width, 1);
    assert_eq!(m.current_config().height, 600);
    m.configure(0, 0);
    assert_eq!(m.current_config().width, 1);
    assert_eq!(m.current_config().height, 1);
    m.configure(1024, 768);
    assert_eq!(m.current_config().width, 1024);
    assert_eq!(m.current_config().height, 768);
}

#[test]
fn configure_twice_is_idempotent() {
    let mut m = SurfaceManager::new(&caps_with_srgb(), 800, 600).unwrap();
    m.configure(123, 0);
    let once = m.current_config();
    m.configure(123, 0);
    assert_eq!(m.current_config(), once);
}

#[test]
fn depth_buffer_reports_exact_config_dimensions() {
    let mut m = SurfaceManager::new(&caps_with_srgb(), 800, 600).unwrap();
    let d = DepthBuffer::create(&m.current_config());
    assert_eq!(d.width(), 800);
    assert_eq!(d.height(), 600);
    m.configure(0, 600);
    let rebuilt = DepthBuffer::create(&m.current_config());
    assert_eq!(rebuilt.width(), 1);
    assert_eq!(rebuilt.height(), 600);
    assert!(rebuilt.matches(&m.current_config()));
    assert!(!d.matches(&m.current_config()));
}
