use view_2d::fixed::RATIO_ONE;
use view_2d::geometry::{Pos2, Rect, RectTransform};
use view_2d::hover::pixel_under_pointer;
use view_2d::render::{
    box_outlines, image_outline, point_sprites, setup_view_builder, strip_lines,
    textured_rectangles, LineBatch, LineShape, PointSprite, SetupError, TargetConfiguration,
    TexturedRectangle, DEFAULT_POINT_RADIUS, MAX_BLENDED_IMAGES, POINT_OUTLINE,
};
use view_2d::scene::{
    Box2D, Color32, Image, LineSegments2D, ObjectPaintProperties, Point2D, PrimitiveId, Stroke,
};

fn pos(x: i32, y: i32) -> Pos2 {
    Pos2 { x, y }
}

fn rect(x0: i32, y0: i32, x1: i32, y1: i32) -> Rect {
    Rect { min: pos(x0, y0), max: pos(x1, y1) }
}

fn id(raw: u64) -> PrimitiveId {
    PrimitiveId { raw }
}

const BG: Color32 = Color32 { r: 1, g: 2, b: 3, a: 4 };
const FG: Color32 = Color32 { r: 5, g: 6, b: 7, a: 8 };

fn paint() -> ObjectPaintProperties {
    ObjectPaintProperties {
        bg_stroke: Stroke { width: 65, color: BG },
        fg_stroke: Stroke { width: 32, color: FG },
    }
}

fn image(raw: u64, is_hovered: bool) -> Image {
    Image { instance_hash: id(raw), rect: rect(0, 0, raw as i32, 10), paint_props: paint(), is_hovered }
}

fn outline_of(batch: &LineBatch) -> Option<Rect> {
    match &batch.shape {
        LineShape::RectangleOutline { rect } => Some(*rect),
        LineShape::Segments { .. } => None,
    }
}

fn segments_of(batch: &LineBatch) -> Option<Vec<(Pos2, Pos2)>> {
    match &batch.shape {
        LineShape::RectangleOutline { .. } => None,
        LineShape::Segments { segments } => Some(segments.clone()),
    }
}

#[test]
fn measures() {
    assert_eq!(DEFAULT_POINT_RADIUS, 96);
    assert_eq!(POINT_OUTLINE, 64);
    assert_eq!(MAX_BLENDED_IMAGES, 20);
}

#[test]
fn the_bottom_image_is_opaque_and_the_others_blend() {
    let images = vec![image(1, false), image(2, false), image(3, false)];
    assert_eq!(
        textured_rectangles(&images),
        vec![
            TexturedRectangle { image: id(1), rect: rect(0, 0, 1, 10), layers_above: 2, opacity_divisor: 1, color: FG },
            TexturedRectangle { image: id(2), rect: rect(0, 0, 2, 10), layers_above: 1, opacity_divisor: 3, color: FG },
            TexturedRectangle { image: id(3), rect: rect(0, 0, 3, 10), layers_above: 0, opacity_divisor: 3, color: FG },
        ]
    );
    assert_eq!(textured_rectangles(&vec![]), vec![]);
}

#[test]
fn many_images_blend_no_fainter_than_a_twentieth() {
    let images: Vec<Image> = (1..=25).map(|raw| image(raw, false)).collect();
    let rectangles = textured_rectangles(&images);
    assert_eq!(rectangles.len(), 25);
    assert_eq!(rectangles[0].opacity_divisor, 1);
    assert_eq!(rectangles[0].layers_above, 24);
    assert_eq!(rectangles[1].opacity_divisor, 20);
    assert_eq!(rectangles[24].opacity_divisor, 20);
    assert_eq!(rectangles[24].layers_above, 0);
    let images: Vec<Image> = (1..=20).map(|raw| image(raw, false)).collect();
    assert_eq!(textured_rectangles(&images)[7].opacity_divisor, 20);
}

#[test]
fn each_point_is_two_sprites() {
    let point = |raw: u64, radius: Option<i32>| Point2D {
        instance_hash: id(raw),
        pos: pos(raw as i32, 5),
        radius,
        paint_props: paint(),
        label_size: None,
    };
    assert_eq!(
        point_sprites(&vec![point(1, None), point(2, Some(200)), point(3, Some(i32::MAX))]),
        vec![
            PointSprite { position: pos(1, 5), radius: 160, color: BG },
            PointSprite { position: pos(1, 5), radius: 96, color: FG },
            PointSprite { position: pos(2, 5), radius: 264, color: BG },
            PointSprite { position: pos(2, 5), radius: 200, color: FG },
            PointSprite { position: pos(3, 5), radius: i32::MAX, color: BG },
            PointSprite { position: pos(3, 5), radius: i32::MAX, color: FG },
        ]
    );
}

#[test]
fn only_a_hovered_image_is_outlined() {
    assert!(image_outline(&image(4, false)).is_none());
    let batch = image_outline(&image(4, true)).unwrap();
    assert_eq!(outline_of(&batch), Some(rect(0, 0, 4, 10)));
    assert_eq!(batch.color, FG);
    assert_eq!(batch.radius, 16);
}

#[test]
fn a_box_is_outlined_twice() {
    let b = Box2D { instance_hash: id(1), bbox: rect(1, 2, 3, 4), label_size: None, paint_props: paint() };
    let (bg, fg) = box_outlines(&b);
    assert_eq!(outline_of(&bg), Some(rect(1, 2, 3, 4)));
    assert_eq!((bg.color, bg.radius), (BG, 32));
    assert_eq!(outline_of(&fg), Some(rect(1, 2, 3, 4)));
    assert_eq!((fg.color, fg.radius), (FG, 16));
}

#[test]
fn a_strip_is_drawn_from_point_to_point() {
    let strip = LineSegments2D {
        instance_hash: id(1),
        points: vec![pos(0, 0), pos(1, 1), pos(2, 0), pos(3, 3)],
        paint_props: paint(),
    };
    let (bg, fg) = strip_lines(&strip);
    let expected = vec![(pos(0, 0), pos(1, 1)), (pos(1, 1), pos(2, 0)), (pos(2, 0), pos(3, 3))];
    assert_eq!(segments_of(&bg), Some(expected.clone()));
    assert_eq!(segments_of(&fg), Some(expected));
    assert_eq!((bg.color, bg.radius), (BG, 32));
    assert_eq!((fg.color, fg.radius), (FG, 16));
    let lone = LineSegments2D { instance_hash: id(1), points: vec![pos(0, 0)], paint_props: paint() };
    assert_eq!(segments_of(&strip_lines(&lone).0), Some(vec![]));
}

fn space_from_ui() -> RectTransform {
    RectTransform { from: rect(1000, 1000, 1200, 1200), to: rect(0, 0, 6400, 6400) }
}

#[test]
fn the_target_is_the_clip_rectangle_in_pixels() {
    let target = setup_view_builder(rect(1000, 1000, 1200, 1100), &space_from_ui(), 2 * RATIO_ONE);
    assert_eq!(
        target,
        Ok(TargetConfiguration { width_in_pixel: 6, height_in_pixel: 3, camera_position_space: pos(0, 0) })
    );
    let target = setup_view_builder(rect(1100, 1050, 1196, 1146), &space_from_ui(), RATIO_ONE);
    assert_eq!(
        target,
        Ok(TargetConfiguration { width_in_pixel: 2, height_in_pixel: 2, camera_position_space: pos(3200, 1600) })
    );
}

#[test]
fn a_target_without_pixels_cannot_be_set_up() {
    assert_eq!(setup_view_builder(rect(0, 0, 0, 640), &space_from_ui(), RATIO_ONE), Err(SetupError::EmptyTarget));
    assert_eq!(setup_view_builder(rect(0, 0, 640, 31), &space_from_ui(), RATIO_ONE), Err(SetupError::EmptyTarget));
    assert_eq!(setup_view_builder(rect(0, 0, 640, -640), &space_from_ui(), RATIO_ONE), Err(SetupError::EmptyTarget));
    assert_eq!(setup_view_builder(rect(0, 0, 640, 640), &space_from_ui(), 0), Err(SetupError::EmptyTarget));
    assert!(setup_view_builder(rect(0, 0, 640, 32), &space_from_ui(), RATIO_ONE).is_ok());
}

#[test]
fn the_resolution_saturates() {
    let target = setup_view_builder(rect(i32::MIN, i32::MIN, i32::MAX, i32::MAX), &space_from_ui(), u64::MAX);
    match target {
        Ok(configuration) => {
            assert_eq!(configuration.width_in_pixel, u32::MAX);
            assert_eq!(configuration.height_in_pixel, u32::MAX);
        }
        Err(_) => panic!("the target has pixels"),
    }
}

#[test]
fn the_depth_is_read_at_the_nearest_pixel() {
    let t = space_from_ui();
    // (1100, 1050) on the screen is (3200, 1600) in the scene: column 50, row 25.
    assert_eq!(pixel_under_pointer(&t, pos(1100, 1050)), (25, 50));
    // (1001, 1002) is (32, 64): half a unit rounds up.
    assert_eq!(pixel_under_pointer(&t, pos(1001, 1002)), (1, 1));
    assert_eq!(pixel_under_pointer(&t, pos(900, 1000)), (0, 0));
}
