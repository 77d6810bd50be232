use view_2d::fixed::RATIO_ONE;
use view_2d::geometry::{Pos2, Rect, RectTransform, Vec2};
use view_2d::viewport::{View2DState, ViewResponse, ZoomState};

fn pos(x: i32, y: i32) -> Pos2 {
    Pos2 { x, y }
}

fn vec2(x: i32, y: i32) -> Vec2 {
    Vec2 { x, y }
}

fn rect(x0: i32, y0: i32, x1: i32, y1: i32) -> Rect {
    Rect { min: pos(x0, y0), max: pos(x1, y1) }
}

/// Whole units to sub-units.
fn u(units: i32) -> i32 {
    units * 64
}

fn state(bbox: Rect, zoom: ZoomState) -> View2DState {
    View2DState { hovered_instance: None, scene_bbox_accum: bbox, zoom }
}

fn scaled(scale: u64, center: Pos2, accepting_scroll: bool) -> ZoomState {
    ZoomState::Scaled { scale, center, accepting_scroll }
}

fn idle(rect: Rect) -> ViewResponse {
    ViewResponse {
        hovered: false,
        hover_pos: None,
        zoom_delta: RATIO_ONE,
        dragged_by_primary: false,
        drag_delta: vec2(0, 0),
        clicked: false,
        double_clicked: false,
        rect,
    }
}

fn identity(r: Rect) -> RectTransform {
    RectTransform { from: r, to: r }
}

#[test]
fn defaults() {
    assert_eq!(ZoomState::default(), ZoomState::Auto);
    let s = View2DState::default();
    assert_eq!(s.hovered_instance, None);
    assert_eq!(s.scene_bbox_accum, Rect::nothing());
    assert_eq!(s.zoom, ZoomState::Auto);
}

#[test]
fn auto_layout_fills_the_width() {
    let s = state(rect(0, 0, u(100), u(50)), ZoomState::Auto);
    let (size, offset) = s.desired_size_and_offset(vec2(u(200), u(200)));
    assert_eq!(size, vec2(u(200), u(100)));
    assert_eq!(offset, vec2(0, 0));
}

#[test]
fn auto_layout_shrinks_to_the_height() {
    let s = state(rect(0, 0, u(100), u(50)), ZoomState::Auto);
    let (size, offset) = s.desired_size_and_offset(vec2(u(200), u(40)));
    assert_eq!(size, vec2(u(80), u(40)));
    assert_eq!(offset, vec2(0, 0));
}

#[test]
fn auto_layout_keeps_aspect_and_stays_within_available() {
    let bbox = rect(-17, 5, 1234, 777);
    let (w, h) = (bbox.width() as i128, bbox.height() as i128);
    let longer = if w >= h { w } else { h };
    for available in [vec2(1000, 1000), vec2(1, 5000), vec2(5000, 1), vec2(0, 0), vec2(333, 77)] {
        let (size, offset) = state(bbox, ZoomState::Auto).desired_size_and_offset(available);
        assert!(size.x <= available.x && size.y <= available.y);
        assert_eq!(offset, vec2(0, 0));
        let cross = size.x as i128 * h - size.y as i128 * w;
        assert!(2 * cross.abs() <= longer);
    }
}

#[test]
fn auto_layout_of_nothing_goes_by_the_unit_square() {
    let s = View2DState::default();
    assert_eq!(s.layout_bbox(), Rect::unit());
    let (size, offset) = s.desired_size_and_offset(vec2(u(200), u(100)));
    assert_eq!(size, vec2(u(100), u(100)));
    assert_eq!(offset, vec2(0, 0));
    let flat = state(rect(0, 0, u(10), 0), ZoomState::Auto);
    assert_eq!(flat.layout_bbox(), Rect::unit());
}

#[test]
fn auto_layout_falls_back_to_the_available_size() {
    let s = state(rect(0, 0, 1, i32::MAX), ZoomState::Auto);
    let available = vec2(i32::MIN, 5);
    assert_eq!(s.desired_size_and_offset(available), (available, vec2(0, 0)));
}

#[test]
fn scaled_layout_centers_the_view() {
    let s = state(rect(0, 0, u(100), u(50)), scaled(2 * RATIO_ONE, pos(u(50), u(25)), true));
    let (size, offset) = s.desired_size_and_offset(vec2(u(100), u(100)));
    assert_eq!(size, vec2(u(200), u(100)));
    assert_eq!(offset, vec2(u(50), 0));
}

#[test]
fn scaled_layout_with_an_offset_origin() {
    let s = state(
        rect(u(10), u(20), u(110), u(70)),
        scaled(RATIO_ONE + RATIO_ONE / 2, pos(u(30), u(40)), false),
    );
    let (size, offset) = s.desired_size_and_offset(vec2(u(20), u(10)));
    assert_eq!(size, vec2(u(150), u(75)));
    assert_eq!(offset, vec2(u(30) - u(10), u(30) - u(5)));
}

#[test]
fn scaled_layout_saturates() {
    let s = state(rect(0, 0, i32::MAX, i32::MAX), scaled(u64::MAX, pos(i32::MAX, 0), true));
    let (size, offset) = s.desired_size_and_offset(vec2(10, 10));
    assert_eq!(size, vec2(i32::MAX, i32::MAX));
    assert_eq!(offset, vec2(i32::MAX, -5));
}

#[test]
fn zoom_gesture_needs_the_pointer_over_the_view() {
    let mut r = idle(rect(0, 0, 10, 10));
    r.zoom_delta = 2 * RATIO_ONE;
    assert_eq!(r.hovered_zoom(), None);
    r.hovered = true;
    assert_eq!(r.hovered_zoom(), Some(2 * RATIO_ONE));
    r.zoom_delta = RATIO_ONE;
    assert_eq!(r.hovered_zoom(), None);
}

#[test]
fn idle_frames_leave_auto_alone() {
    let bbox = rect(0, 0, u(100), u(50));
    let mut s = state(bbox, ZoomState::Auto);
    s.update(&idle(bbox), identity(bbox), vec2(u(100), u(50)));
    assert_eq!(s.zoom, ZoomState::Auto);
}

#[test]
fn zoom_out_leaves_auto_alone() {
    let bbox = rect(0, 0, u(100), u(50));
    let mut s = state(bbox, ZoomState::Auto);
    let mut r = idle(bbox);
    r.hovered = true;
    r.zoom_delta = RATIO_ONE / 2;
    s.update(&r, identity(bbox), vec2(u(100), u(50)));
    assert_eq!(s.zoom, ZoomState::Auto);
}

#[test]
fn zoom_in_enters_scaled_and_zooms_at_once() {
    let bbox = rect(0, 0, u(100), u(50));
    let canvas = rect(0, 0, u(200), u(100));
    let mut s = state(bbox, ZoomState::Auto);
    let mut r = idle(canvas);
    r.hovered = true;
    r.zoom_delta = RATIO_ONE + RATIO_ONE / 2;
    r.hover_pos = Some(pos(u(100), u(50)));
    s.update(&r, RectTransform { from: canvas, to: bbox }, vec2(u(200), u(100)));
    assert_eq!(s.zoom, scaled(3 * RATIO_ONE, pos(u(50), u(25)), false));
}

#[test]
fn zoom_keeps_the_scene_under_the_pointer() {
    let bbox = rect(0, 0, u(100), u(50));
    let mut s = state(bbox, scaled(RATIO_ONE, pos(3200, 1600), true));
    let mut r = idle(bbox);
    r.hovered = true;
    r.zoom_delta = 2 * RATIO_ONE;
    r.hover_pos = Some(pos(4800, 1000));
    s.update(&r, identity(bbox), vec2(u(100), u(50)));
    assert_eq!(s.zoom, scaled(2 * RATIO_ONE, pos(4000, 1300), false));
    // Offset from the middle of the view, on the screen: the same as before.
    assert_eq!((4800 - 4000) * 2, 4800 - 3200);
    assert_eq!((1000 - 1300) * 2, 1000 - 1600);
}

#[test]
fn zoom_without_a_pointer_position_keeps_the_center() {
    let bbox = rect(0, 0, u(100), u(50));
    let mut s = state(bbox, scaled(RATIO_ONE, pos(3200, 1600), true));
    let mut r = idle(bbox);
    r.hovered = true;
    r.zoom_delta = 2 * RATIO_ONE;
    s.update(&r, identity(bbox), vec2(u(100), u(50)));
    assert_eq!(s.zoom, scaled(2 * RATIO_ONE, pos(3200, 1600), false));
}

#[test]
fn drag_moves_the_center_against_the_pointer() {
    let bbox = rect(0, 0, u(100), u(50));
    let mut s = state(bbox, scaled(2 * RATIO_ONE, pos(3200, 1600), true));
    let mut r = idle(bbox);
    r.dragged_by_primary = true;
    r.drag_delta = vec2(128, -64);
    s.update(&r, identity(bbox), vec2(u(100), u(50)));
    assert_eq!(s.zoom, scaled(2 * RATIO_ONE, pos(3136, 1632), false));
}

#[test]
fn drag_and_reverse_drag_restore_the_center() {
    let bbox = rect(0, 0, u(100), u(50));
    let start = scaled(3 * RATIO_ONE, pos(3201, 1599), true);
    let mut s = state(bbox, start);
    let mut r = idle(bbox);
    r.dragged_by_primary = true;
    r.drag_delta = vec2(1001, -77);
    s.update(&r, identity(bbox), vec2(u(100), u(50)));
    assert_ne!(s.zoom, start);
    r.drag_delta = vec2(-1001, 77);
    s.update(&r, identity(bbox), vec2(u(100), u(50)));
    assert_eq!(s.zoom, scaled(3 * RATIO_ONE, pos(3201, 1599), false));
}

#[test]
fn a_frame_without_gestures_accepts_scrolling_again() {
    let bbox = rect(0, 0, u(100), u(50));
    let mut s = state(bbox, scaled(2 * RATIO_ONE, pos(3200, 1600), false));
    s.update(&idle(bbox), identity(bbox), vec2(u(100), u(50)));
    assert_eq!(s.zoom, scaled(2 * RATIO_ONE, pos(3200, 1600), true));
}

#[test]
fn double_click_goes_back_to_auto() {
    let bbox = rect(0, 0, u(100), u(50));
    let mut s = state(bbox, scaled(2 * RATIO_ONE, pos(3200, 1600), true));
    let mut r = idle(bbox);
    r.double_clicked = true;
    s.update(&r, identity(bbox), vec2(u(100), u(50)));
    assert_eq!(s.zoom, ZoomState::Auto);
}

#[test]
fn small_content_goes_back_to_auto() {
    let bbox = rect(0, 0, u(100), u(50));
    for center in [pos(0, 0), pos(3200, 1600), pos(i32::MIN, i32::MAX)] {
        let mut s = state(bbox, scaled(RATIO_ONE / 2, center, true));
        s.update(&idle(bbox), identity(bbox), vec2(u(100), u(50)));
        assert_eq!(s.zoom, ZoomState::Auto);
    }
}

#[test]
fn content_that_fits_on_one_axis_only_stays_scaled() {
    let bbox = rect(0, 0, u(100), u(50));
    let mut s = state(bbox, scaled(RATIO_ONE, pos(3200, 1600), true));
    assert!(!s.fits(RATIO_ONE, vec2(u(100), u(200))));
    assert!(s.fits(RATIO_ONE, vec2(u(100) + 1, u(50) + 1)));
    s.update(&idle(bbox), identity(bbox), vec2(u(100), u(200)));
    assert_eq!(s.zoom, scaled(RATIO_ONE, pos(3200, 1600), true));
}

#[test]
fn zooming_out_until_the_content_fits_reverts() {
    let bbox = rect(0, 0, u(100), u(50));
    let mut s = state(bbox, scaled(2 * RATIO_ONE, pos(3200, 1600), true));
    let mut r = idle(bbox);
    r.hovered = true;
    r.zoom_delta = RATIO_ONE / 4;
    s.update(&r, identity(bbox), vec2(u(100), u(50)));
    assert_eq!(s.zoom, ZoomState::Auto);
}

#[test]
fn update_keeps_bounds_and_hover() {
    let bbox = rect(0, 0, u(100), u(50));
    let mut s = state(bbox, scaled(2 * RATIO_ONE, pos(3200, 1600), true));
    s.hovered_instance = Some(view_2d::scene::PrimitiveId { raw: 9 });
    let mut r = idle(bbox);
    r.dragged_by_primary = true;
    r.drag_delta = vec2(64, 64);
    s.update(&r, identity(bbox), vec2(u(100), u(50)));
    assert_eq!(s.scene_bbox_accum, bbox);
    assert_eq!(s.hovered_instance, Some(view_2d::scene::PrimitiveId { raw: 9 }));
}

#[test]
fn capture_scroll_recomputes_the_center() {
    let bbox = rect(u(10), u(20), u(110), u(70));
    let mut s = state(bbox, scaled(2 * RATIO_ONE, pos(0, 0), true));
    s.capture_scroll(vec2(u(30), u(10)), vec2(u(100), u(60)));
    assert_eq!(s.zoom, scaled(2 * RATIO_ONE, pos(u(10) + u(40), u(20) + u(20)), true));
}

#[test]
fn capture_scroll_needs_acceptance() {
    let bbox = rect(0, 0, u(100), u(50));
    let before = scaled(2 * RATIO_ONE, pos(17, 23), false);
    let mut s = state(bbox, before);
    s.capture_scroll(vec2(u(30), u(10)), vec2(u(100), u(60)));
    assert_eq!(s.zoom, before);
    let mut s = state(bbox, ZoomState::Auto);
    s.capture_scroll(vec2(u(30), u(10)), vec2(u(100), u(60)));
    assert_eq!(s.zoom, ZoomState::Auto);
}

#[test]
fn capture_of_the_requested_offset_keeps_the_center() {
    let bbox = rect(-333, 17, 9001, 4321);
    for scale in [RATIO_ONE, RATIO_ONE + 1, 3 * RATIO_ONE / 2, 7 * RATIO_ONE, 1000 * RATIO_ONE + 12345] {
        for center in [pos(0, 0), pos(-333, 17), pos(4000, 2000), pos(4001, 1999), pos(-5000, 7777)] {
            let before = scaled(scale, center, true);
            let mut s = state(bbox, before);
            let available = vec2(1237, 455);
            let (_, offset) = s.desired_size_and_offset(available);
            s.capture_scroll(offset, available);
            assert_eq!(s.zoom, before);
        }
    }
}

#[test]
fn capture_below_scale_one_settles_after_one_step() {
    let bbox = rect(0, 0, 9000, 4000);
    let available = vec2(1237, 455);
    let mut s = state(bbox, scaled(RATIO_ONE / 2, pos(1, 1), true));
    let (_, offset) = s.desired_size_and_offset(available);
    s.capture_scroll(offset, available);
    assert_eq!(s.zoom, scaled(RATIO_ONE / 2, pos(2, 2), true));
    let (_, again) = s.desired_size_and_offset(available);
    assert_eq!(again, offset);
}
