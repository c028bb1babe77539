use editor_ui::viewport::update_camera_viewport;
use editor_ui::viewport::ViewportRect;

#[test]
fn preview_panel_projects_to_its_pixel_rectangle() {
    // a panel centered at (500, 300) of size (400, 200), in milli-pixels
    let rect = update_camera_viewport(500_000, 300_000, 400_000, 200_000);
    assert_eq!(rect, ViewportRect { x: 300, y: 200, width: 400, height: 200 });
}

#[test]
fn fractional_coordinates_truncate() {
    // center 500.5, size 401.2 x 200.9: top-left x is 299.9, truncated
    let rect = update_camera_viewport(500_500, 300_000, 401_200, 200_900);
    assert_eq!(rect.x, 299);
    assert_eq!(rect.width, 401);
    assert_eq!(rect.height, 200);
}

#[test]
fn offscreen_top_left_clamps_to_zero() {
    // center 100 with width 400: the left edge is off screen
    let rect = update_camera_viewport(100_000, 50_000, 400_000, 200_000);
    assert_eq!(rect.x, 0);
    assert_eq!(rect.y, 0);
}

#[test]
fn degenerate_sizes_become_empty() {
    let rect = update_camera_viewport(500_000, 300_000, 0, -5_000);
    assert_eq!(rect.width, 0);
    assert_eq!(rect.height, 0);
}
