use nospacekey_tip::render::{
    apply_dwm_chrome, is_device_lost, next_driver, Backdrop, Corner, Driver, SurfaceRenderer,
};

#[test]
fn is_device_lost_matches_known_hresults() {
    assert!(is_device_lost(0x887A0005_u32 as i32));
    assert!(is_device_lost(0x887A0007_u32 as i32));
    assert!(is_device_lost(0x8899000C_u32 as i32));
}

#[test]
fn is_device_lost_rejects_other_errors() {
    assert!(!is_device_lost(0x80004005_u32 as i32));
    assert!(!is_device_lost(0x80070057_u32 as i32));
    assert!(!is_device_lost(0));
}

#[test]
fn chrome_and_extents_follow_the_wishes() {
    let fancy = apply_dwm_chrome(true, true);
    assert_eq!((fancy.corner, fancy.backdrop), (Corner::Round, Backdrop::Transient));
    assert_eq!((fancy.corner_value(), fancy.backdrop_value()), (2, 3));
    let plain = apply_dwm_chrome(false, false);
    assert_eq!((plain.corner_value(), plain.backdrop_value()), (1, 1));
    assert_eq!(SurfaceRenderer::buffer_extent(0, 0), (1, 1));
    assert_eq!(SurfaceRenderer::buffer_extent(640, 1), (640, 1));
}

#[test]
fn a_surface_keeps_its_extent_unless_its_buffers_change() {
    let mut surface = SurfaceRenderer::new(10, 20, true);
    assert!(surface.supports_opacity());
    assert!(!surface.resize(0, 5, false));
    assert_eq!((surface.width, surface.height), (10, 20));
    assert!(surface.resize(0, 5, true));
    assert_eq!((surface.width, surface.height), (0, 5));
    assert_eq!(next_driver(None), Some(Driver::Hardware));
    assert_eq!(next_driver(Some(Driver::Hardware)), Some(Driver::Warp));
    assert_eq!(next_driver(Some(Driver::Warp)), None);
}
