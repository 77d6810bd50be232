//! The primitives of one frame: images, boxes, line strips and points, each
//! with the handle by which it is found again, and the emphasis given to the
//! one that is hovered.

use crate::fixed::clamp_i32;
use crate::geometry::{Pos2, Rect, Vec2};
use vstd::prelude::*;

verus! {

/// The handle of one primitive. The raw value zero names no primitive.
#[derive(Clone, Copy, Debug, PartialEq, Eq, Hash, Structural)]
pub struct PrimitiveId {
    pub raw: u64,
}

impl PrimitiveId {
    /// The handle that names nothing.
    pub open spec fn spec_none() -> PrimitiveId {
        PrimitiveId { raw: 0 }
    }

    /// The handle that names nothing.
    pub fn none() -> (id: PrimitiveId)
        ensures
            id == PrimitiveId::spec_none(),
    {
        PrimitiveId { raw: 0 }
    }

    /// Whether the handle names nothing.
    pub fn is_none(&self) -> (b: bool)
        ensures
            b == (*self == PrimitiveId::spec_none()),
    {
        self.raw == 0
    }
}

/// A color of four eight-bit channels.
#[derive(Clone, Copy, Debug, PartialEq, Eq, Structural)]
pub struct Color32 {
    pub r: u8,
    pub g: u8,
    pub b: u8,
    pub a: u8,
}

impl Color32 {
    /// Opaque black.
    pub open spec fn spec_black() -> Color32 {
        Color32 { r: 0, g: 0, b: 0, a: 255 }
    }

    /// Opaque white.
    pub open spec fn spec_white() -> Color32 {
        Color32 { r: 255, g: 255, b: 255, a: 255 }
    }

    /// Opaque black.
    pub fn black() -> (c: Color32)
        ensures
            c == Color32::spec_black(),
    {
        Color32 { r: 0, g: 0, b: 0, a: 255 }
    }

    /// Opaque white.
    pub fn white() -> (c: Color32)
        ensures
            c == Color32::spec_white(),
    {
        Color32 { r: 255, g: 255, b: 255, a: 255 }
    }
}

/// The width and color of an outline.
#[derive(Clone, Copy, Debug, PartialEq, Eq, Structural)]
pub struct Stroke {
    pub width: i32,
    pub color: Color32,
}

/// How a primitive is painted: a foreground stroke over a background stroke.
#[derive(Clone, Copy, Debug, PartialEq, Eq, Structural)]
pub struct ObjectPaintProperties {
    pub bg_stroke: Stroke,
    pub fg_stroke: Stroke,
}

/// A raster image, by the rectangle that it covers in the scene.
#[derive(Clone, Copy, Debug, PartialEq, Eq, Structural)]
pub struct Image {
    pub instance_hash: PrimitiveId,
    pub rect: Rect,
    pub paint_props: ObjectPaintProperties,
    /// Whether the image is the hovered primitive and gets an outline.
    pub is_hovered: bool,
}

/// A box, with the laid-out size of its label where it has one.
#[derive(Clone, Copy, Debug, PartialEq, Eq, Structural)]
pub struct Box2D {
    pub instance_hash: PrimitiveId,
    pub bbox: Rect,
    pub label_size: Option<Vec2>,
    pub paint_props: ObjectPaintProperties,
}

/// A line strip: each point is joined to the next.
#[derive(Clone, Debug)]
pub struct LineSegments2D {
    pub instance_hash: PrimitiveId,
    pub points: Vec<Pos2>,
    pub paint_props: ObjectPaintProperties,
}

/// A point, with its radius where one is set and the laid-out size of its
/// label where it has one.
#[derive(Clone, Copy, Debug, PartialEq, Eq, Structural)]
pub struct Point2D {
    pub instance_hash: PrimitiveId,
    pub pos: Pos2,
    pub radius: Option<i32>,
    pub paint_props: ObjectPaintProperties,
    pub label_size: Option<Vec2>,
}

/// The primitives of one frame and the bounds of what they cover.
#[derive(Clone, Debug)]
pub struct Scene2D {
    pub bbox: Rect,
    pub images: Vec<Image>,
    pub boxes: Vec<Box2D>,
    pub line_segments: Vec<LineSegments2D>,
    pub points: Vec<Point2D>,
}

/// Twice a width, held to the coordinate range.
pub open spec fn doubled(width: i32) -> i32 {
    clamp_i32(2 * width) as i32
}

/// Twice a width, held to the coordinate range.
pub fn double(width: i32) -> (r: i32)
    ensures
        r == doubled(width),
{
    if width > 1073741823 {
        2147483647
    } else if width < -1073741824 {
        -2147483648
    } else {
        2 * width
    }
}

impl ObjectPaintProperties {
    /// The emphasis of a hovered primitive: both strokes twice as wide, the
    /// background black and the foreground white.
    pub open spec fn spec_hovered(self) -> ObjectPaintProperties {
        ObjectPaintProperties {
            bg_stroke: Stroke {
                width: doubled(self.bg_stroke.width),
                color: Color32::spec_black(),
            },
            fg_stroke: Stroke {
                width: doubled(self.fg_stroke.width),
                color: Color32::spec_white(),
            },
        }
    }

    /// The properties as they are for the primitive `id` while `hovered` is
    /// the hovered one.
    pub open spec fn spec_emphasized(self, id: PrimitiveId, hovered: PrimitiveId) -> ObjectPaintProperties {
        if id == hovered {
            self.spec_hovered()
        } else {
            self
        }
    }
}

/// Gives the paint properties the emphasis of a hovered primitive.
pub fn apply_hover_effect(paint_props: &mut ObjectPaintProperties)
    ensures
        *final(paint_props) == old(paint_props).spec_hovered(),
{
    paint_props.bg_stroke.width = double(paint_props.bg_stroke.width);
    paint_props.bg_stroke.color = Color32::black();
    paint_props.fg_stroke.width = double(paint_props.fg_stroke.width);
    paint_props.fg_stroke.color = Color32::white();
}

impl Image {
    /// The image as it is while `hovered` is the hovered primitive: flagged and
    /// emphasized if it is the one.
    pub open spec fn spec_emphasized(self, hovered: PrimitiveId) -> Image {
        Image {
            is_hovered: self.instance_hash == hovered,
            paint_props: self.paint_props.spec_emphasized(self.instance_hash, hovered),
            ..self
        }
    }
}

impl Box2D {
    /// The box as it is while `hovered` is the hovered primitive.
    pub open spec fn spec_emphasized(self, hovered: PrimitiveId) -> Box2D {
        Box2D {
            paint_props: self.paint_props.spec_emphasized(self.instance_hash, hovered),
            ..self
        }
    }
}

impl LineSegments2D {
    /// Whether `after` is this line strip with the emphasis that it has while
    /// `hovered` is the hovered primitive.
    pub open spec fn spec_emphasized_to(self, hovered: PrimitiveId, after: LineSegments2D) -> bool {
        &&& after.instance_hash == self.instance_hash
        &&& after.points@ == self.points@
        &&& after.paint_props == self.paint_props.spec_emphasized(self.instance_hash, hovered)
    }
}

impl Point2D {
    /// A hovered point is also drawn at twice its radius.
    pub open spec fn spec_emphasized(self, hovered: PrimitiveId) -> Point2D {
        Point2D {
            paint_props: self.paint_props.spec_emphasized(self.instance_hash, hovered),
            radius: match self.radius {
                Some(radius) if self.instance_hash == hovered => Some(doubled(radius)),
                other => other,
            },
            ..self
        }
    }
}

/// Whether `after` is the scene `before` with the primitive that `hovered`
/// names marked in every category: its strokes are emphasized, an image is
/// flagged as hovered, a point doubles its radius. Every other primitive, and
/// the geometry of all, is as it was.
pub open spec fn spec_hover_effect(before: Scene2D, hovered: PrimitiveId, after: Scene2D) -> bool {
    &&& after.bbox == before.bbox
    &&& after.images@ == before.images@.map_values(|image: Image| image.spec_emphasized(hovered))
    &&& after.boxes@ == before.boxes@.map_values(|b: Box2D| b.spec_emphasized(hovered))
    &&& after.line_segments@.len() == before.line_segments@.len()
    &&& forall|i: int|
        0 <= i < before.line_segments@.len() ==> (#[trigger] before.line_segments@[i]).spec_emphasized_to(
            hovered,
            after.line_segments@[i],
        )
    &&& after.points@ == before.points@.map_values(
        |point: Point2D| point.spec_emphasized(hovered),
    )
}

/// Marks the primitive that `hovered` names, in every category.
pub fn hover_effect(scene: &mut Scene2D, hovered: PrimitiveId)
    ensures
        spec_hover_effect(*old(scene), hovered, *final(scene)),
{
    let ghost before = *scene;
    let n_images: usize = scene.images.len();
    for i in 0..n_images
        invariant
            n_images == before.images@.len(),
            scene.images@.len() == n_images,
            scene.bbox == before.bbox,
            scene.boxes == before.boxes,
            scene.line_segments == before.line_segments,
            scene.points == before.points,
            forall|j: int|
                0 <= j < i ==> scene.images@[j] == (#[trigger] before.images@[j]).spec_emphasized(
                    hovered,
                ),
            forall|j: int| i <= j < n_images ==> scene.images@[j] == before.images@[j],
    {
        let obj: &mut Image = &mut scene.images[i];
        obj.is_hovered = obj.instance_hash == hovered;
        if obj.is_hovered {
            apply_hover_effect(&mut obj.paint_props);
        }
    }
    assert(scene.images@ =~= before.images@.map_values(
        |image: Image| image.spec_emphasized(hovered),
    ));
    let ghost images_after = scene.images;

    let n_boxes: usize = scene.boxes.len();
    for i in 0..n_boxes
        invariant
            n_boxes == before.boxes@.len(),
            scene.boxes@.len() == n_boxes,
            scene.bbox == before.bbox,
            scene.images == images_after,
            scene.line_segments == before.line_segments,
            scene.points == before.points,
            forall|j: int|
                0 <= j < i ==> scene.boxes@[j] == (#[trigger] before.boxes@[j]).spec_emphasized(
                    hovered,
                ),
            forall|j: int| i <= j < n_boxes ==> scene.boxes@[j] == before.boxes@[j],
    {
        let obj: &mut Box2D = &mut scene.boxes[i];
        if obj.instance_hash == hovered {
            apply_hover_effect(&mut obj.paint_props);
        }
    }
    assert(scene.boxes@ =~= before.boxes@.map_values(|b: Box2D| b.spec_emphasized(hovered)));
    let ghost boxes_after = scene.boxes;

    let n_strips: usize = scene.line_segments.len();
    for i in 0..n_strips
        invariant
            n_strips == before.line_segments@.len(),
            scene.line_segments@.len() == n_strips,
            scene.bbox == before.bbox,
            scene.images == images_after,
            scene.boxes == boxes_after,
            scene.points == before.points,
            forall|j: int|
                0 <= j < i ==> (#[trigger] before.line_segments@[j]).spec_emphasized_to(
                    hovered,
                    scene.line_segments@[j],
                ),
            forall|j: int|
                i <= j < n_strips ==> scene.line_segments@[j] == before.line_segments@[j],
    {
        let obj: &mut LineSegments2D = &mut scene.line_segments[i];
        if obj.instance_hash == hovered {
            apply_hover_effect(&mut obj.paint_props);
        }
    }
    let ghost strips_after = scene.line_segments;

    let n_points: usize = scene.points.len();
    for i in 0..n_points
        invariant
            n_points == before.points@.len(),
            scene.points@.len() == n_points,
            scene.bbox == before.bbox,
            scene.images == images_after,
            scene.boxes == boxes_after,
            scene.line_segments == strips_after,
            forall|j: int|
                0 <= j < i ==> scene.points@[j] == (#[trigger] before.points@[j]).spec_emphasized(
                    hovered,
                ),
            forall|j: int| i <= j < n_points ==> scene.points@[j] == before.points@[j],
    {
        let obj: &mut Point2D = &mut scene.points[i];
        if obj.instance_hash == hovered {
            apply_hover_effect(&mut obj.paint_props);
            if let Some(radius) = obj.radius {
                obj.radius = Some(double(radius));
            }
        }
    }
    assert(scene.points@ =~= before.points@.map_values(
        |point: Point2D| point.spec_emphasized(hovered),
    ));
}

} // verus!
