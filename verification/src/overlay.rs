//! The shapes that a view lays over its canvas: the labels of primitives and
//! the marker of a hover projected from a linked 3D view. The host lays out
//! the text and hands its size and a handle for it; the shapes say where it
//! goes.

use crate::fixed::{clamp_i32, saturate};
use crate::geometry::{Pos2, Rect, Vec2};
use crate::hover::Projection;
use crate::label::{label_rect, label_text_rect, spec_label_rect, spec_label_text_rect};
use crate::scene::{Color32, ObjectPaintProperties};
use vstd::prelude::*;

verus! {

/// The rounding of the corners of a label's background: 3 units.
pub const LABEL_ROUNDING: i32 = 192;

/// The radius of the disc that marks a projected hover: 4 units.
pub const MARKER_RADIUS: i32 = 256;

/// The radius of the black disc below it, which shows as an outline of
/// 2 units: 6 units.
pub const MARKER_OUTER_RADIUS: i32 = 384;

/// The gap between the marker and the text that states its depth: 5 units.
pub const MARKER_TEXT_GAP: i32 = 320;

/// The rounding of the corners behind that text: 2 units.
pub const MARKER_TEXT_ROUNDING: i32 = 128;

/// The opacity of the black behind that text.
pub const MARKER_TEXT_SHADE: u8 = 196;

/// A shape for the host to paint.
#[derive(Clone, Copy, Debug, PartialEq, Eq, Structural)]
pub enum Shape {
    /// A filled rectangle with rounded corners.
    RectFilled { rect: Rect, rounding: i32, fill: Color32 },
    /// A filled disc.
    CircleFilled { center: Pos2, radius: i32, fill: Color32 },
    /// The laid-out text `galley`, placed at `pos`.
    Galley { pos: Pos2, galley: u64 },
}

/// The two shapes of a label hanging from `text_anchor_pos`: its background,
/// and its text at the middle of the upper edge of the text's rectangle.
pub open spec fn spec_label_shapes(
    galley: u64,
    galley_size: Vec2,
    paint_props: ObjectPaintProperties,
    text_anchor_pos: Pos2,
) -> Seq<Shape> {
    let text_rect = spec_label_text_rect(text_anchor_pos, galley_size);
    seq![
        Shape::RectFilled {
            rect: spec_label_rect(text_anchor_pos, galley_size),
            rounding: LABEL_ROUNDING,
            fill: paint_props.bg_stroke.color,
        },
        Shape::Galley { pos: Pos2 { x: text_rect.spec_center().x, y: text_rect.min.y }, galley },
    ]
}

/// The four shapes that mark a projected hover: a white disc on a black one,
/// and below them the text that states the depth, on a shade of black.
pub open spec fn spec_projection_shapes(projection: Projection, galley: u64, galley_size: Vec2) -> Seq<
    Shape,
> {
    let at = projection.pos_in_ui;
    let text_rect = spec_label_text_rect(
        Pos2 { x: at.x, y: clamp_i32(at.y + MARKER_TEXT_GAP) as i32 },
        galley_size,
    );
    seq![
        Shape::CircleFilled {
            center: at,
            radius: MARKER_OUTER_RADIUS,
            fill: Color32::spec_black(),
        },
        Shape::CircleFilled { center: at, radius: MARKER_RADIUS, fill: Color32::spec_white() },
        Shape::RectFilled {
            rect: text_rect,
            rounding: MARKER_TEXT_ROUNDING,
            fill: Color32 { r: 0, g: 0, b: 0, a: MARKER_TEXT_SHADE },
        },
        Shape::Galley { pos: text_rect.min, galley },
    ]
}

/// Adds the label of a primitive to the shapes and returns the rectangle
/// that it covers, which is a target for the pointer.
pub fn add_label(
    galley: u64,
    galley_size: Vec2,
    paint_props: &ObjectPaintProperties,
    text_anchor_pos: Pos2,
    shapes: &mut Vec<Shape>,
) -> (bg_rect: Rect)
    ensures
        bg_rect == spec_label_rect(text_anchor_pos, galley_size),
        final(shapes)@ == old(shapes)@ + spec_label_shapes(
            galley,
            galley_size,
            *paint_props,
            text_anchor_pos,
        ),
{
    let text_rect: Rect = label_text_rect(text_anchor_pos, galley_size);
    let bg_rect: Rect = label_rect(text_anchor_pos, galley_size);
    shapes.push(
        Shape::RectFilled {
            rect: bg_rect,
            rounding: LABEL_ROUNDING,
            fill: paint_props.bg_stroke.color,
        },
    );
    shapes.push(Shape::Galley { pos: Pos2 { x: text_rect.center().x, y: text_rect.min.y }, galley });
    proof {
        let added = spec_label_shapes(galley, galley_size, *paint_props, text_anchor_pos);
        assert(shapes@ =~= old(shapes)@ + added);
    }
    bg_rect
}

/// Adds the marker of a hover projected from a linked 3D view to the shapes.
pub fn show_projection(
    projection: &Projection,
    galley: u64,
    galley_size: Vec2,
    shapes: &mut Vec<Shape>,
)
    ensures
        final(shapes)@ == old(shapes)@ + spec_projection_shapes(*projection, galley, galley_size),
{
    let at: Pos2 = projection.pos_in_ui;
    let anchor = Pos2 { x: at.x, y: saturate(at.y as i128 + MARKER_TEXT_GAP as i128) };
    let text_rect: Rect = label_text_rect(anchor, galley_size);
    shapes.push(
        Shape::CircleFilled {
            center: at,
            radius: MARKER_OUTER_RADIUS,
            fill: Color32::black(),
        },
    );
    shapes.push(Shape::CircleFilled { center: at, radius: MARKER_RADIUS, fill: Color32::white() });
    shapes.push(
        Shape::RectFilled {
            rect: text_rect,
            rounding: MARKER_TEXT_ROUNDING,
            fill: Color32 { r: 0, g: 0, b: 0, a: MARKER_TEXT_SHADE },
        },
    );
    shapes.push(Shape::Galley { pos: text_rect.min, galley });
    proof {
        let added = spec_projection_shapes(*projection, galley, galley_size);
        assert(shapes@ =~= old(shapes)@ + added);
    }
}

} // verus!
