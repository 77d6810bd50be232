use view_2d::geometry::{Pos2, Rect, RectTransform, Vec2};
use view_2d::hit_test::{hit_test, line_segment_distance_sq_to_point, strip_distance_sq, Candidate};
use view_2d::scene::{
    Box2D, Color32, Image, LineSegments2D, ObjectPaintProperties, Point2D, PrimitiveId, Scene2D,
    Stroke,
};

fn pos(x: i32, y: i32) -> Pos2 {
    Pos2 { x, y }
}

fn rect(x0: i32, y0: i32, x1: i32, y1: i32) -> Rect {
    Rect { min: pos(x0, y0), max: pos(x1, y1) }
}

fn id(raw: u64) -> PrimitiveId {
    PrimitiveId { raw }
}

fn paint() -> ObjectPaintProperties {
    ObjectPaintProperties {
        bg_stroke: Stroke { width: 64, color: Color32 { r: 1, g: 2, b: 3, a: 4 } },
        fg_stroke: Stroke { width: 32, color: Color32 { r: 5, g: 6, b: 7, a: 8 } },
    }
}

fn image(raw: u64, r: Rect) -> Image {
    Image { instance_hash: id(raw), rect: r, paint_props: paint(), is_hovered: false }
}

fn boxed(raw: u64, r: Rect, label_size: Option<Vec2>) -> Box2D {
    Box2D { instance_hash: id(raw), bbox: r, label_size, paint_props: paint() }
}

fn strip(raw: u64, points: Vec<Pos2>) -> LineSegments2D {
    LineSegments2D { instance_hash: id(raw), points, paint_props: paint() }
}

fn point(raw: u64, p: Pos2, label_size: Option<Vec2>) -> Point2D {
    Point2D { instance_hash: id(raw), pos: p, radius: None, paint_props: paint(), label_size }
}

fn empty_scene() -> Scene2D {
    Scene2D {
        bbox: rect(0, 0, 6400, 6400),
        images: vec![],
        boxes: vec![],
        line_segments: vec![],
        points: vec![],
    }
}

fn same() -> RectTransform {
    RectTransform { from: rect(0, 0, 6400, 6400), to: rect(0, 0, 6400, 6400) }
}

const RADIUS: u32 = 320;

#[test]
fn accumulator_starts_at_the_radius() {
    let c = Candidate::threshold(320);
    assert_eq!(c, Candidate { id: PrimitiveId::none(), dist_sq: 102400 });
    assert_eq!(Candidate::threshold(u32::MAX).dist_sq, (u32::MAX as u128) * (u32::MAX as u128));
}

#[test]
fn accumulator_takes_what_is_not_farther() {
    let mut c = Candidate::threshold(10);
    c.check_hovering(id(1), 101);
    assert_eq!(c, Candidate { id: PrimitiveId::none(), dist_sq: 100 });
    c.check_hovering(id(2), 100);
    assert_eq!(c, Candidate { id: id(2), dist_sq: 100 });
    c.check_hovering(id(3), 100);
    assert_eq!(c, Candidate { id: id(3), dist_sq: 100 });
    c.check_hovering(id(4), 50);
    assert_eq!(c, Candidate { id: id(4), dist_sq: 50 });
    c.check_hovering(id(5), 51);
    assert_eq!(c, Candidate { id: id(4), dist_sq: 50 });
}

#[test]
fn nothing_is_hovered_without_a_pointer() {
    let mut scene = empty_scene();
    scene.points.push(point(7, pos(100, 100), None));
    assert_eq!(hit_test(&scene, &same(), None, RADIUS), PrimitiveId::none());
}

#[test]
fn nothing_is_hovered_in_an_empty_scene() {
    assert_eq!(hit_test(&empty_scene(), &same(), Some(pos(5, 5)), RADIUS), PrimitiveId::none());
}

#[test]
fn a_point_wins_a_tie_with_a_box() {
    let mut scene = empty_scene();
    scene.boxes.push(boxed(1, rect(1000, 1000, 2000, 2000), None));
    scene.points.push(point(2, pos(2200, 1500), None));
    assert_eq!(hit_test(&scene, &same(), Some(pos(2100, 1500)), RADIUS), id(2));
}

#[test]
fn a_box_wins_a_tie_with_an_image() {
    let mut scene = empty_scene();
    scene.images.push(image(1, rect(1000, 1000, 2000, 2000)));
    scene.boxes.push(boxed(2, rect(2200, 1000, 3000, 2000), None));
    assert_eq!(hit_test(&scene, &same(), Some(pos(2100, 1500)), RADIUS), id(2));
}

#[test]
fn a_line_strip_wins_a_tie_with_a_box_and_loses_one_with_a_point() {
    let mut scene = empty_scene();
    scene.boxes.push(boxed(1, rect(1000, 1000, 2000, 2000), None));
    scene.line_segments.push(strip(2, vec![pos(2200, 0), pos(2200, 3000)]));
    assert_eq!(hit_test(&scene, &same(), Some(pos(2100, 1500)), RADIUS), id(2));
    scene.points.push(point(3, pos(2100, 1600), None));
    assert_eq!(hit_test(&scene, &same(), Some(pos(2100, 1500)), RADIUS), id(3));
}

#[test]
fn the_later_of_two_equally_close_points_wins() {
    let mut scene = empty_scene();
    scene.points.push(point(1, pos(1000, 1000), None));
    scene.points.push(point(2, pos(1200, 1000), None));
    assert_eq!(hit_test(&scene, &same(), Some(pos(1100, 1000)), RADIUS), id(2));
}

#[test]
fn the_closer_one_wins_whatever_its_category() {
    let mut scene = empty_scene();
    scene.images.push(image(1, rect(1000, 1000, 2000, 2000)));
    scene.points.push(point(2, pos(2200, 1500), None));
    assert_eq!(hit_test(&scene, &same(), Some(pos(2050, 1500)), RADIUS), id(1));
    assert_eq!(hit_test(&scene, &same(), Some(pos(1500, 1500)), RADIUS), id(1));
}

#[test]
fn beyond_the_radius_nothing_is_hovered() {
    let mut scene = empty_scene();
    scene.points.push(point(1, pos(1000, 1000), None));
    assert_eq!(hit_test(&scene, &same(), Some(pos(1321, 1000)), RADIUS), PrimitiveId::none());
    assert_eq!(hit_test(&scene, &same(), Some(pos(1320, 1000)), RADIUS), id(1));
    assert_eq!(hit_test(&scene, &same(), Some(pos(1320, 1001)), RADIUS), PrimitiveId::none());
    assert_eq!(hit_test(&scene, &same(), Some(pos(1000, 1000)), 0), id(1));
}

#[test]
fn distances_are_measured_on_the_screen() {
    let mut scene = empty_scene();
    scene.points.push(point(1, pos(1000, 1000), None));
    let doubled = RectTransform { from: rect(0, 0, 6400, 6400), to: rect(0, 0, 12800, 12800) };
    assert_eq!(hit_test(&scene, &doubled, Some(pos(1300, 1000)), RADIUS), PrimitiveId::none());
    assert_eq!(hit_test(&scene, &doubled, Some(pos(2300, 2000)), RADIUS), id(1));
}

#[test]
fn the_label_of_a_box_is_a_target() {
    let mut scene = empty_scene();
    let size = Vec2 { x: 640, y: 128 };
    scene.boxes.push(boxed(1, rect(1000, 1000, 2000, 2000), Some(size)));
    // The label hangs 3 units below the middle of the lower edge, padded by
    // 4 and 2 units: from (924, 2064) to (2076, 2448).
    assert_eq!(hit_test(&scene, &same(), Some(pos(1500, 2700)), RADIUS), id(1));
    assert_eq!(hit_test(&scene, &same(), Some(pos(1500, 2769)), RADIUS), PrimitiveId::none());
    scene.boxes[0].label_size = None;
    assert_eq!(hit_test(&scene, &same(), Some(pos(1500, 2700)), RADIUS), PrimitiveId::none());
}

#[test]
fn the_label_of_a_point_is_a_target() {
    let mut scene = empty_scene();
    let size = Vec2 { x: 640, y: 128 };
    scene.points.push(point(1, pos(1000, 1000), Some(size)));
    // From (424, 1064) to (1576, 1448).
    assert_eq!(hit_test(&scene, &same(), Some(pos(1500, 1700)), RADIUS), id(1));
    assert_eq!(hit_test(&scene, &same(), Some(pos(1500, 1769)), RADIUS), PrimitiveId::none());
}

#[test]
fn segment_distance() {
    assert_eq!(line_segment_distance_sq_to_point(pos(0, 0), pos(100, 0), pos(50, 30)), 900);
    assert_eq!(line_segment_distance_sq_to_point(pos(0, 0), pos(100, 0), pos(-30, 40)), 2500);
    assert_eq!(line_segment_distance_sq_to_point(pos(0, 0), pos(100, 0), pos(130, -40)), 2500);
    assert_eq!(line_segment_distance_sq_to_point(pos(0, 0), pos(10, 10), pos(10, 0)), 50);
    assert_eq!(line_segment_distance_sq_to_point(pos(7, 7), pos(7, 7), pos(10, 11)), 25);
    assert_eq!(line_segment_distance_sq_to_point(pos(0, 0), pos(3, 0), pos(1, 0)), 0);
    // The closest point is a third of the way along; the grid point next to it is (0, 0).
    assert_eq!(line_segment_distance_sq_to_point(pos(0, 0), pos(1, 1), pos(1, 0)), 1);
    assert_eq!(
        line_segment_distance_sq_to_point(
            pos(i32::MIN, i32::MIN),
            pos(i32::MAX, i32::MAX),
            pos(i32::MIN, i32::MAX)
        ),
        2 * (1u128 << 31) * (1u128 << 31) - 2 * (1u128 << 31) + 1
    );
}

#[test]
fn a_strip_joins_each_point_to_the_next() {
    let points = vec![pos(0, 0), pos(1000, 0), pos(1000, 1000), pos(3000, 1000)];
    assert_eq!(strip_distance_sq(&points, &same(), pos(500, 100)), Some(10000));
    // Close to the second segment only, which joins the second and third point.
    assert_eq!(strip_distance_sq(&points, &same(), pos(1100, 500)), Some(10000));
    assert_eq!(strip_distance_sq(&points, &same(), pos(2000, 900)), Some(10000));
    assert_eq!(strip_distance_sq(&points, &same(), pos(3000, 1000)), Some(0));
}

#[test]
fn a_strip_without_a_segment_offers_nothing() {
    assert_eq!(strip_distance_sq(&vec![], &same(), pos(0, 0)), None);
    assert_eq!(strip_distance_sq(&vec![pos(5, 5)], &same(), pos(5, 5)), None);
    let mut scene = empty_scene();
    scene.line_segments.push(strip(1, vec![pos(5, 5)]));
    assert_eq!(hit_test(&scene, &same(), Some(pos(5, 5)), RADIUS), PrimitiveId::none());
    scene.line_segments.push(strip(2, vec![pos(5, 5), pos(5, 5)]));
    assert_eq!(hit_test(&scene, &same(), Some(pos(5, 5)), RADIUS), id(2));
}

#[test]
fn a_strip_is_hovered_along_all_its_segments() {
    let mut scene = empty_scene();
    scene.line_segments.push(strip(4, vec![pos(0, 0), pos(1000, 0), pos(1000, 1000)]));
    assert_eq!(hit_test(&scene, &same(), Some(pos(1100, 500)), RADIUS), id(4));
    assert_eq!(hit_test(&scene, &same(), Some(pos(500, 321)), RADIUS), PrimitiveId::none());
}
