//! What a frame hands to the renderer, in scene coordinates: the rectangles
//! that carry the images, the outlines and line strips, and the sprites of
//! the points.

use crate::fixed::{clamp_i32, div_round, half, halve, round_div, saturate, RATIO_ONE, UNIT};
use crate::geometry::{Pos2, Rect, RectTransform};
use crate::hit_test::{consecutive_pairs, windows};
use crate::scene::{Box2D, Color32, Image, LineSegments2D, Point2D, PrimitiveId, Stroke};
use vstd::prelude::*;

verus! {

/// The radius of a point that sets none: one and a half units.
pub const DEFAULT_POINT_RADIUS: i32 = 96;

/// How far the background of a point reaches beyond it: 1 unit.
pub const POINT_OUTLINE: i32 = 64;

/// The number of images beyond which images on top get no fainter.
pub const MAX_BLENDED_IMAGES: usize = 20;

/// The rectangle that carries an image.
#[derive(Clone, Copy, Debug, PartialEq, Eq, Structural)]
pub struct TexturedRectangle {
    pub image: PrimitiveId,
    pub rect: Rect,
    /// How many images are drawn on top of this one.
    pub layers_above: usize,
    /// The image is drawn at the opacity of 1 over this number.
    pub opacity_divisor: usize,
    pub color: Color32,
}

/// What is drawn as lines.
#[derive(Clone, Debug)]
pub enum LineShape {
    /// The outline of a rectangle.
    RectangleOutline { rect: Rect },
    /// Separate segments.
    Segments { segments: Vec<(Pos2, Pos2)> },
}

/// Lines of one color and one radius.
#[derive(Clone, Debug)]
pub struct LineBatch {
    pub shape: LineShape,
    pub color: Color32,
    pub radius: i32,
}

/// A disc that shows a point.
#[derive(Clone, Copy, Debug, PartialEq, Eq, Structural)]
pub struct PointSprite {
    pub position: Pos2,
    pub radius: i32,
    pub color: Color32,
}

/// The rectangle of image `i` of `total`: the first image is opaque and at
/// the bottom, and every image on top of it is drawn at the opacity of one
/// over the number of images, or over the most that are blended.
pub open spec fn spec_textured_rectangle(image: Image, i: int, total: int) -> TexturedRectangle {
    TexturedRectangle {
        image: image.instance_hash,
        rect: image.rect,
        layers_above: (total - i - 1) as usize,
        opacity_divisor: if i == 0 {
            1
        } else if total <= MAX_BLENDED_IMAGES {
            total as usize
        } else {
            MAX_BLENDED_IMAGES
        },
        color: image.paint_props.fg_stroke.color,
    }
}

/// The two sprites of a point: its background, wider by the outline, and on
/// top of it the point in its foreground color.
pub open spec fn spec_point_sprites(point: Point2D) -> Seq<PointSprite> {
    let radius = match point.radius {
        Some(radius) => radius,
        None => DEFAULT_POINT_RADIUS,
    };
    seq![
        PointSprite {
            position: point.pos,
            radius: clamp_i32(radius + POINT_OUTLINE) as i32,
            color: point.paint_props.bg_stroke.color,
        },
        PointSprite { position: point.pos, radius, color: point.paint_props.fg_stroke.color },
    ]
}

/// Whether `batch` draws the outline of `rect` with `stroke`, at half its
/// width as radius.
pub open spec fn is_outline(batch: LineBatch, rect: Rect, stroke: Stroke) -> bool {
    &&& batch.shape matches LineShape::RectangleOutline { rect: outlined }
    &&& outlined == rect
    &&& batch.color == stroke.color
    &&& batch.radius == half(stroke.width as int)
}

/// Whether `batch` draws the segments between the neighbours of `points`
/// with `stroke`, at half its width as radius.
pub open spec fn is_strip(batch: LineBatch, points: Seq<Pos2>, stroke: Stroke) -> bool {
    &&& batch.shape matches LineShape::Segments { segments }
    &&& segments@ == windows(points)
    &&& batch.color == stroke.color
    &&& batch.radius == half(stroke.width as int)
}

/// The rectangles that carry the images, in drawing order.
pub fn textured_rectangles(images: &Vec<Image>) -> (rectangles: Vec<TexturedRectangle>)
    ensures
        rectangles@ == Seq::new(
            images@.len(),
            |i: int| spec_textured_rectangle(images@[i], i, images@.len() as int),
        ),
{
    let total_num_images: usize = images.len();
    let mut rectangles: Vec<TexturedRectangle> = Vec::new();
    for image_idx in 0..total_num_images
        invariant
            total_num_images == images@.len(),
            rectangles@ == Seq::new(
                image_idx as nat,
                |i: int| spec_textured_rectangle(images@[i], i, total_num_images as int),
            ),
    {
        let img: &Image = &images[image_idx];
        let opacity_divisor: usize = if image_idx == 0 {
            1
        } else if total_num_images <= MAX_BLENDED_IMAGES {
            total_num_images
        } else {
            MAX_BLENDED_IMAGES
        };
        rectangles.push(
            TexturedRectangle {
                image: img.instance_hash,
                rect: img.rect,
                layers_above: total_num_images - image_idx - 1,
                opacity_divisor,
                color: img.paint_props.fg_stroke.color,
            },
        );
        assert(rectangles@ =~= Seq::new(
            (image_idx + 1) as nat,
            |i: int| spec_textured_rectangle(images@[i], i, total_num_images as int),
        ));
    }
    rectangles
}

/// The sprites of the points, in drawing order: for each point its
/// background and then the point itself.
pub fn point_sprites(points: &Vec<Point2D>) -> (sprites: Vec<PointSprite>)
    ensures
        sprites@.len() == 2 * points@.len(),
        forall|i: int|
            0 <= i < points@.len() ==> sprites@[2 * i] == spec_point_sprites(
                #[trigger] points@[i],
            )[0] && sprites@[2 * i + 1] == spec_point_sprites(points@[i])[1],
{
    let n: usize = points.len();
    let mut sprites: Vec<PointSprite> = Vec::new();
    for k in 0..n
        invariant
            n == points@.len(),
            sprites@.len() == 2 * k,
            forall|i: int|
                0 <= i < k ==> sprites@[2 * i] == spec_point_sprites(#[trigger] points@[i])[0]
                    && sprites@[2 * i + 1] == spec_point_sprites(points@[i])[1],
    {
        let point: &Point2D = &points[k];
        let radius: i32 = match point.radius {
            Some(radius) => radius,
            None => DEFAULT_POINT_RADIUS,
        };
        sprites.push(
            PointSprite {
                position: point.pos,
                radius: saturate(radius as i128 + POINT_OUTLINE as i128),
                color: point.paint_props.bg_stroke.color,
            },
        );
        sprites.push(
            PointSprite { position: point.pos, radius, color: point.paint_props.fg_stroke.color },
        );
    }
    sprites
}

/// The outline of a hovered image, in its foreground stroke; nothing for an
/// image that is not hovered.
pub fn image_outline(image: &Image) -> (batch: Option<LineBatch>)
    ensures
        image.is_hovered ==> batch is Some && is_outline(
            batch->0,
            image.rect,
            image.paint_props.fg_stroke,
        ),
        !image.is_hovered ==> batch is None,
{
    if image.is_hovered {
        Some(
            LineBatch {
                shape: LineShape::RectangleOutline { rect: image.rect },
                color: image.paint_props.fg_stroke.color,
                radius: halve(image.paint_props.fg_stroke.width),
            },
        )
    } else {
        None
    }
}

/// The two outlines of a box: in its background stroke, and on top of it in
/// its foreground stroke.
pub fn box_outlines(b: &Box2D) -> (batches: (LineBatch, LineBatch))
    ensures
        is_outline(batches.0, b.bbox, b.paint_props.bg_stroke),
        is_outline(batches.1, b.bbox, b.paint_props.fg_stroke),
{
    (
        LineBatch {
            shape: LineShape::RectangleOutline { rect: b.bbox },
            color: b.paint_props.bg_stroke.color,
            radius: halve(b.paint_props.bg_stroke.width),
        },
        LineBatch {
            shape: LineShape::RectangleOutline { rect: b.bbox },
            color: b.paint_props.fg_stroke.color,
            radius: halve(b.paint_props.fg_stroke.width),
        },
    )
}

/// The two runs of segments of a line strip: in its background stroke, and
/// on top of it in its foreground stroke. Each joins every point to the next.
pub fn strip_lines(strip: &LineSegments2D) -> (batches: (LineBatch, LineBatch))
    ensures
        is_strip(batches.0, strip.points@, strip.paint_props.bg_stroke),
        is_strip(batches.1, strip.points@, strip.paint_props.fg_stroke),
{
    (
        LineBatch {
            shape: LineShape::Segments { segments: consecutive_pairs(&strip.points) },
            color: strip.paint_props.bg_stroke.color,
            radius: halve(strip.paint_props.bg_stroke.width),
        },
        LineBatch {
            shape: LineShape::Segments { segments: consecutive_pairs(&strip.points) },
            color: strip.paint_props.fg_stroke.color,
            radius: halve(strip.paint_props.fg_stroke.width),
        },
    )
}

/// Why a frame cannot be drawn.
#[derive(Clone, Copy, Debug, PartialEq, Eq, Structural)]
pub enum SetupError {
    /// The target has no pixel on one of its axes.
    EmptyTarget,
}

/// The target that the renderer draws a frame into.
#[derive(Clone, Copy, Debug, PartialEq, Eq, Structural)]
pub struct TargetConfiguration {
    /// The width of the target in whole pixels.
    pub width_in_pixel: u32,
    /// The height of the target in whole pixels.
    pub height_in_pixel: u32,
    /// The scene position at the upper left corner of the target.
    pub camera_position_space: Pos2,
}

/// The whole pixels that a length on the screen covers at the ratio
/// `pixels_from_points` of pixels to units: rounded, none for a negative
/// length, and held to a `u32`.
pub open spec fn spec_pixels(length: int, pixels_from_points: int) -> int {
    let exact = round_div(length * pixels_from_points, RATIO_ONE * UNIT);
    if exact < 0 {
        0
    } else if exact > u32::MAX {
        u32::MAX as int
    } else {
        exact
    }
}

fn pixels(length: i64, pixels_from_points: u64) -> (n: u32)
    ensures
        n == spec_pixels(length as int, pixels_from_points as int),
{
    assert(-0x8000_0000_0000_0000_0000_0000_0000_0000 < (length as int) * (
    pixels_from_points as int) < 0x8000_0000_0000_0000_0000_0000_0000_0000) by (nonlinear_arith)
        requires
            -0x8000_0000_0000_0000 <= length < 0x8000_0000_0000_0000,
            0 <= pixels_from_points < 0x1_0000_0000_0000_0000,
    ;
    assert(RATIO_ONE * UNIT == 0x40_0000_0000) by (nonlinear_arith)
        requires
            RATIO_ONE == 0x1_0000_0000,
            UNIT == 64,
    ;
    let exact: i128 = div_round((length as i128) * (pixels_from_points as i128), 0x40_0000_0000);
    if exact < 0 {
        0
    } else if exact > 0xffff_ffff {
        0xffff_ffff
    } else {
        exact as u32
    }
}

/// Sets the target of a frame up: its resolution is the clip rectangle in
/// pixels, and its camera looks at the scene position under the upper left
/// corner of the clip rectangle. A target without a pixel on one of its axes
/// cannot be drawn into.
pub fn setup_view_builder(
    clip_rect: Rect,
    space_from_ui: &RectTransform,
    pixels_from_points: u64,
) -> (target: Result<TargetConfiguration, SetupError>)
    ensures
        match target {
            Ok(configuration) => {
                &&& configuration.width_in_pixel == spec_pixels(
                    clip_rect.spec_width(),
                    pixels_from_points as int,
                )
                &&& configuration.height_in_pixel == spec_pixels(
                    clip_rect.spec_height(),
                    pixels_from_points as int,
                )
                &&& configuration.width_in_pixel > 0
                &&& configuration.height_in_pixel > 0
                &&& configuration.camera_position_space == space_from_ui.spec_transform_pos(
                    clip_rect.min,
                )
            },
            Err(SetupError::EmptyTarget) => spec_pixels(
                clip_rect.spec_width(),
                pixels_from_points as int,
            ) == 0 || spec_pixels(clip_rect.spec_height(), pixels_from_points as int) == 0,
        },
{
    let width_in_pixel: u32 = pixels(clip_rect.width(), pixels_from_points);
    let height_in_pixel: u32 = pixels(clip_rect.height(), pixels_from_points);
    if width_in_pixel == 0 || height_in_pixel == 0 {
        return Err(SetupError::EmptyTarget);
    }
    Ok(
        TargetConfiguration {
            width_in_pixel,
            height_in_pixel,
            camera_position_space: space_from_ui.transform_pos(clip_rect.min),
        },
    )
}

} // verus!
