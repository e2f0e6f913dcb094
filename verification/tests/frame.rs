use egui_blur_demo::frame::{handle_redraw_request, RedrawAction, SurfaceFailure};

#[test]
fn presented_frame_needs_nothing_more() {
    assert_eq!(handle_redraw_request(Ok(())), RedrawAction::Done);
}

#[test]
fn lost_surface_is_configured_again() {
    assert_eq!(handle_redraw_request(Err(SurfaceFailure::Lost)), RedrawAction::Reconfigure);
}

#[test]
fn out_of_memory_exits() {
    assert_eq!(handle_redraw_request(Err(SurfaceFailure::OutOfMemory)), RedrawAction::Exit);
}

#[test]
fn timeout_and_outdated_are_reported() {
    assert_eq!(
        handle_redraw_request(Err(SurfaceFailure::Timeout)),
        RedrawAction::Report(SurfaceFailure::Timeout)
    );
    assert_eq!(
        handle_redraw_request(Err(SurfaceFailure::Outdated)),
        RedrawAction::Report(SurfaceFailure::Outdated)
    );
}
