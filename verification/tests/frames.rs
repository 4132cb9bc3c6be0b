use model_viewer::frame::respond;
use model_viewer::frame::FramebufferSize;
use model_viewer::frame::Response;
use model_viewer::frame::SurfaceError;
use model_viewer::frame::Viewport;

#[test]
fn a_presented_frame_proceeds() {
    assert_eq!(respond(Ok(())), Response::Proceed);
}

#[test]
fn a_lost_surface_is_resized() {
    assert_eq!(respond(Err(SurfaceError::Lost)), Response::Resize);
}

#[test]
fn an_outdated_surface_is_resized() {
    assert_eq!(respond(Err(SurfaceError::Outdated)), Response::Resize);
}

#[test]
fn out_of_memory_leaves_the_loop() {
    assert_eq!(respond(Err(SurfaceError::OutOfMemory)), Response::Exit);
}

#[test]
fn a_timeout_is_passed_over() {
    assert_eq!(respond(Err(SurfaceError::Timeout)), Response::Ignore);
}

#[test]
fn framebuffer_size_takes_positive_numbers_as_they_are() {
    let size = FramebufferSize::from_signed(1920, 1080);
    assert_eq!(size, FramebufferSize { width: 1920, height: 1080 });
    let none = FramebufferSize::from_signed(0, 0);
    assert_eq!(none, FramebufferSize { width: 0, height: 0 });
    let most = FramebufferSize::from_signed(i32::MAX, 1);
    assert_eq!(most, FramebufferSize { width: 2_147_483_647, height: 1 });
}

#[test]
fn framebuffer_size_keeps_the_bits_of_negative_numbers() {
    let size = FramebufferSize::from_signed(-1, i32::MIN);
    assert_eq!(size.width, 4_294_967_295);
    assert_eq!(size.height, 2_147_483_648);
    let other = FramebufferSize::from_signed(-600, 600);
    assert_eq!(other.width, 4_294_966_696);
    assert_eq!(other.height, 600);
}

#[test]
fn viewport_starts_with_the_given_size() {
    let size = FramebufferSize { width: 800, height: 600 };
    let viewport = Viewport::new(size);
    assert_eq!(viewport.current(), size);
}

#[test]
fn viewport_reports_no_resize_for_the_same_size() {
    let size = FramebufferSize { width: 800, height: 600 };
    let mut viewport = Viewport::new(size);
    assert!(!viewport.observe(FramebufferSize { width: 800, height: 600 }));
    assert_eq!(viewport.current(), size);
}

#[test]
fn viewport_reports_a_resize_once() {
    let mut viewport = Viewport::new(FramebufferSize { width: 800, height: 600 });
    let wider = FramebufferSize { width: 1024, height: 600 };
    assert!(viewport.observe(wider));
    assert_eq!(viewport.current(), wider);
    assert!(!viewport.observe(wider));
    let taller = FramebufferSize { width: 1024, height: 768 };
    assert!(viewport.observe(taller));
    assert_eq!(viewport.current(), taller);
}

#[test]
fn viewport_sees_swapped_sides_as_a_resize() {
    let mut viewport = Viewport::new(FramebufferSize { width: 800, height: 600 });
    assert!(viewport.observe(FramebufferSize { width: 600, height: 800 }));
}
