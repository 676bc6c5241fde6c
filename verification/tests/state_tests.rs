use wgpu::TextureFormat;
use model_viewer::event::{KEY_ESCAPE, KEY_SPACE};
use model_viewer::postprocess::hdr::PingPong;
use model_viewer::state::{
    choose_surface_format, first_srgb_index, key_response, surface_error_response, KeyResponse,
    Pipeline, SurfaceError, SurfaceErrorResponse, SurfaceState,
};

#[test]
fn pipeline_toggles() {
    assert_eq!(Pipeline::WhiteTriangle.toggled(), Pipeline::ColorTriangle);
    assert_eq!(Pipeline::ColorTriangle.toggled(), Pipeline::WhiteTriangle);
    assert_eq!(Pipeline::WhiteTriangle.toggled().toggled(), Pipeline::WhiteTriangle);
}

#[test]
fn keys() {
    let p = Pipeline::WhiteTriangle;
    assert_eq!(key_response(p, KEY_ESCAPE, true), KeyResponse { exit: true, pipeline: p });
    assert_eq!(key_response(p, KEY_ESCAPE, false), KeyResponse { exit: false, pipeline: p });
    assert_eq!(
        key_response(p, KEY_SPACE, true),
        KeyResponse { exit: false, pipeline: Pipeline::ColorTriangle }
    );
    assert_eq!(key_response(p, KEY_SPACE, false), KeyResponse { exit: false, pipeline: p });
    assert_eq!(key_response(p, 19, true), KeyResponse { exit: false, pipeline: p });
}

#[test]
fn surface_resizes() {
    let mut s = SurfaceState::new(640, 480);
    assert!(!s.can_render());
    assert!(!s.resize(0, 100));
    assert_eq!(s, SurfaceState { width: 640, height: 480, configured: false });
    assert!(!s.resize(100, 0));
    assert!(s.resize(800, 600));
    assert_eq!(s, SurfaceState { width: 800, height: 600, configured: true });
    assert!(s.can_render());
}

#[test]
fn surface_errors() {
    assert_eq!(surface_error_response(SurfaceError::Outdated), SurfaceErrorResponse::Reconfigure);
    assert_eq!(surface_error_response(SurfaceError::OutOfMemory), SurfaceErrorResponse::SkipFrame);
    assert_eq!(surface_error_response(SurfaceError::Timeout), SurfaceErrorResponse::SkipFrame);
    assert_eq!(surface_error_response(SurfaceError::Lost), SurfaceErrorResponse::LostDevice);
    assert_eq!(surface_error_response(SurfaceError::Other), SurfaceErrorResponse::OtherFailure);
}

#[test]
fn srgb_index() {
    assert_eq!(first_srgb_index(&vec![false, true, true]), 1);
    assert_eq!(first_srgb_index(&vec![true]), 0);
    assert_eq!(first_srgb_index(&vec![false, false]), 0);
    assert_eq!(first_srgb_index(&vec![]), 0);
}

#[test]
fn surface_format_prefers_srgb() {
    assert_eq!(
        choose_surface_format(&vec![TextureFormat::Bgra8Unorm, TextureFormat::Bgra8UnormSrgb]),
        TextureFormat::Bgra8UnormSrgb
    );
    assert_eq!(
        choose_surface_format(&vec![TextureFormat::Rgba16Float, TextureFormat::Bgra8Unorm]),
        TextureFormat::Rgba16Float
    );
}

#[test]
fn ping_pong_alternates() {
    let mut p = PingPong::new();
    assert_eq!(p.frame_index(), 0);
    assert_eq!((p.current_index(), p.history_index()), (0, 1));
    p.advance_frame();
    assert_eq!((p.current_index(), p.history_index()), (1, 0));
    p.advance_frame();
    assert_eq!((p.current_index(), p.history_index()), (0, 1));
    assert_eq!(p.frame_index(), 2);
}
