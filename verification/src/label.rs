//! Where the label of a primitive goes: centered below its anchor, on a
//! padded background that also serves as a target for the pointer.

use crate::fixed::{clamp_i32, half, halve, saturate};
use crate::geometry::{Pos2, Rect, Vec2};
use vstd::prelude::*;

verus! {

/// The gap between a primitive and the top of its label: 3 units.
pub const LABEL_GAP: i32 = 192;

/// The padding of the label's background to the left and right: 4 units.
pub const LABEL_PADDING_X: i32 = 256;

/// The padding of the label's background above and below: 2 units.
pub const LABEL_PADDING_Y: i32 = 128;

/// The least width at which the label of a box wraps: 60 units.
pub const LABEL_MIN_WRAP_WIDTH: i32 = 3840;

/// The point from which the label of a box hangs: the gap below the middle
/// of its lower edge.
pub open spec fn spec_box_label_anchor(rect_in_ui: Rect) -> Pos2 {
    Pos2 { x: rect_in_ui.spec_center().x, y: clamp_i32(rect_in_ui.max.y + LABEL_GAP) as i32 }
}

/// The point from which the label of a point hangs: the gap below it.
pub open spec fn spec_point_label_anchor(pos_in_ui: Pos2) -> Pos2 {
    Pos2 { x: pos_in_ui.x, y: clamp_i32(pos_in_ui.y + LABEL_GAP) as i32 }
}

/// The width at which the label of a box wraps: the width of the box less
/// the padding, and no less than the least wrap width.
pub open spec fn spec_box_label_wrap_width(rect_in_ui: Rect) -> i32 {
    let inner = clamp_i32(rect_in_ui.spec_width() - LABEL_PADDING_X);
    if inner >= LABEL_MIN_WRAP_WIDTH {
        inner as i32
    } else {
        LABEL_MIN_WRAP_WIDTH
    }
}

/// The rectangle of a text of size `size` whose upper edge is centered on
/// `anchor`.
pub open spec fn spec_label_text_rect(anchor: Pos2, size: Vec2) -> Rect {
    Rect {
        min: Pos2 { x: clamp_i32(anchor.x - half(size.x as int)) as i32, y: anchor.y },
        max: Pos2 {
            x: clamp_i32(anchor.x - half(size.x as int) + size.x) as i32,
            y: clamp_i32(anchor.y + size.y) as i32,
        },
    }
}

/// The background of that text: its rectangle, padded on all sides.
pub open spec fn spec_label_rect(anchor: Pos2, size: Vec2) -> Rect {
    Rect {
        min: Pos2 {
            x: clamp_i32(anchor.x - half(size.x as int) - LABEL_PADDING_X) as i32,
            y: clamp_i32(anchor.y - LABEL_PADDING_Y) as i32,
        },
        max: Pos2 {
            x: clamp_i32(anchor.x - half(size.x as int) + size.x + LABEL_PADDING_X) as i32,
            y: clamp_i32(anchor.y + size.y + LABEL_PADDING_Y) as i32,
        },
    }
}

/// The point from which the label of a box hangs.
pub fn box_label_anchor(rect_in_ui: Rect) -> (p: Pos2)
    ensures
        p == spec_box_label_anchor(rect_in_ui),
{
    Pos2 { x: rect_in_ui.center().x, y: saturate(rect_in_ui.max.y as i128 + LABEL_GAP as i128) }
}

/// The point from which the label of a point hangs.
pub fn point_label_anchor(pos_in_ui: Pos2) -> (p: Pos2)
    ensures
        p == spec_point_label_anchor(pos_in_ui),
{
    Pos2 { x: pos_in_ui.x, y: saturate(pos_in_ui.y as i128 + LABEL_GAP as i128) }
}

/// The width at which the label of a box wraps.
pub fn box_label_wrap_width(rect_in_ui: Rect) -> (w: i32)
    ensures
        w == spec_box_label_wrap_width(rect_in_ui),
{
    let inner: i32 = saturate(rect_in_ui.width() as i128 - LABEL_PADDING_X as i128);
    if inner >= LABEL_MIN_WRAP_WIDTH {
        inner
    } else {
        LABEL_MIN_WRAP_WIDTH
    }
}

/// The rectangle of a text of size `size` whose upper edge is centered on
/// `anchor`.
pub fn label_text_rect(anchor: Pos2, size: Vec2) -> (r: Rect)
    ensures
        r == spec_label_text_rect(anchor, size),
{
    let left: i128 = anchor.x as i128 - halve(size.x) as i128;
    Rect {
        min: Pos2 { x: saturate(left), y: anchor.y },
        max: Pos2 {
            x: saturate(left + size.x as i128),
            y: saturate(anchor.y as i128 + size.y as i128),
        },
    }
}

/// The background of a label: the rectangle of its text, padded on all
/// sides.
pub fn label_rect(anchor: Pos2, size: Vec2) -> (r: Rect)
    ensures
        r == spec_label_rect(anchor, size),
{
    let left: i128 = anchor.x as i128 - halve(size.x) as i128;
    Rect {
        min: Pos2 {
            x: saturate(left - LABEL_PADDING_X as i128),
            y: saturate(anchor.y as i128 - LABEL_PADDING_Y as i128),
        },
        max: Pos2 {
            x: saturate(left + size.x as i128 + LABEL_PADDING_X as i128),
            y: saturate(anchor.y as i128 + size.y as i128 + LABEL_PADDING_Y as i128),
        },
    }
}

} // verus!
