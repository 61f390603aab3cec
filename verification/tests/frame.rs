use chroma::format::TexelFormat;
use chroma::frame::{
    degenerate_surface, fullscreen_triangle, may_attempt_acquire, BlendMode, Color, FrameConfig,
    Framebuffer, PowerPreference, PresentMode,
};
use chroma::geometry::SurfaceSize;

#[test]
fn config_defaults() {
    let c = FrameConfig::new(128, 112).unwrap();
    assert_eq!(c.width, 128);
    assert_eq!(c.height, 112);
    assert_eq!(c.texture_format, TexelFormat::Rgba8UnormSrgb);
    assert_eq!(c.render_texture_format, TexelFormat::Rgba8UnormSrgb);
    assert_eq!(c.present_mode, PresentMode::Fifo);
    assert_eq!(c.blend_mode, BlendMode::AlphaBlending);
    assert_eq!(c.clear_color, Color { r: 255, g: 255, b: 255, a: 255 });
    assert_eq!(c.power_preference, PowerPreference::NoPreference);
}

#[test]
fn config_rejects_degenerate_size() {
    assert!(FrameConfig::new(0, 112).is_none());
    assert!(FrameConfig::new(128, 0).is_none());
    assert!(FrameConfig::new(0, 0).is_none());
    assert!(FrameConfig::new(1, 1).is_some());
}

#[test]
fn new_framebuffer_is_zeroed() {
    let c = FrameConfig::new(16, 8).unwrap();
    let fb = Framebuffer::new(c, SurfaceSize::new(64, 32));
    assert_eq!(fb.frame().len(), 16 * 8 * 4);
    assert!(fb.frame().iter().all(|b| *b == 0));
}

#[test]
fn frame_mut_writes_show_up() {
    let c = FrameConfig::new(4, 4).unwrap();
    let mut fb = Framebuffer::new(c, SurfaceSize::new(16, 16));
    fb.frame_mut()[0] = 0xab;
    fb.frame_mut()[63] = 0xcd;
    assert_eq!(fb.frame()[0], 0xab);
    assert_eq!(fb.frame()[63], 0xcd);
    assert_eq!(fb.frame()[1], 0);
}

#[test]
fn resize_recomputes_scaling() {
    let c = FrameConfig::new(20, 20).unwrap();
    let mut fb = Framebuffer::new(c, SurfaceSize::new(80, 80));
    assert_eq!(fb.scale(), 4);
    assert_eq!(fb.clip_rect(), (0, 0, 80, 80));
    fb.resize(50, 100);
    assert_eq!(fb.scale(), 2);
    assert_eq!(fb.clip_rect(), (5, 30, 40, 40));
}

#[test]
fn degenerate_resize_is_skipped() {
    let c = FrameConfig::new(20, 20).unwrap();
    let mut fb = Framebuffer::new(c, SurfaceSize::new(80, 80));
    fb.resize(0, 500);
    assert_eq!(fb.surface, SurfaceSize::new(80, 80));
    assert_eq!(fb.scale(), 4);
    fb.resize(500, 0);
    assert_eq!(fb.surface, SurfaceSize::new(80, 80));
}

#[test]
fn upload_stride_matches_buffer_rows() {
    let c = FrameConfig::new(320, 240).unwrap();
    let fb = Framebuffer::new(c, SurfaceSize::new(640, 480));
    assert_eq!(fb.upload_stride(), 1280);
    assert_eq!(fb.upload_stride() * 240, fb.frame().len() as u64);
}

#[test]
fn facade_exposes_picking() {
    let c = FrameConfig::new(20, 20).unwrap();
    let fb = Framebuffer::new(c, SurfaceSize::new(50, 100));
    assert_eq!(fb.surface_to_logical(5, 30), Some((0, 0)));
    assert_eq!(fb.surface_to_logical(0, 0), None);
}

#[test]
fn degenerate_surface_guard() {
    assert!(degenerate_surface(0, 10));
    assert!(degenerate_surface(10, 0));
    assert!(degenerate_surface(0, 0));
    assert!(!degenerate_surface(1, 1));
}

#[test]
fn acquisition_retried_exactly_once() {
    // no failure yet: attempt; one failure: the single retry; two: fatal
    assert!(may_attempt_acquire(0));
    assert!(may_attempt_acquire(1));
    assert!(!may_attempt_acquire(2));
    assert!(!may_attempt_acquire(3));
}

#[test]
fn fullscreen_triangle_vertices() {
    let v = fullscreen_triangle();
    assert_eq!(v, vec![(-1, -1), (3, -1), (-1, 3)]);
}
