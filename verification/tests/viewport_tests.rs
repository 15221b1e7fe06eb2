use fly_camera::viewport::recenter_shift;
use fly_camera::viewport::PanelDims;

#[test]
fn no_panels_no_shift() {
    let s = recenter_shift(&PanelDims { left: 0, right: 0, top: 0, bottom: 0 });
    assert_eq!((s.x, s.y), (0, 0));
}

#[test]
fn left_panel_slides_camera_left() {
    let s = recenter_shift(&PanelDims { left: 300, right: 0, top: 0, bottom: 0 });
    assert_eq!((s.x, s.y), (-300, 0));
}

#[test]
fn top_panel_slides_camera_up() {
    let s = recenter_shift(&PanelDims { left: 0, right: 0, top: 20, bottom: 0 });
    assert_eq!((s.x, s.y), (0, 20));
}

#[test]
fn left_panel_and_top_bar_together() {
    let s = recenter_shift(&PanelDims { left: 300, right: 0, top: 20, bottom: 0 });
    assert_eq!((s.x, s.y), (-300, 20));
}

#[test]
fn opposed_panels_cancel() {
    let s = recenter_shift(&PanelDims { left: 120, right: 120, top: 40, bottom: 40 });
    assert_eq!((s.x, s.y), (0, 0));
}

#[test]
fn right_and_bottom_panels_flip_the_signs() {
    let s = recenter_shift(&PanelDims { left: 0, right: 250, top: 0, bottom: 60 });
    assert_eq!((s.x, s.y), (250, -60));
}

#[test]
fn largest_panels_still_exact() {
    let s = recenter_shift(&PanelDims { left: u32::MAX, right: 0, top: 0, bottom: u32::MAX });
    assert_eq!((s.x, s.y), (-(u32::MAX as i64), -(u32::MAX as i64)));
}
