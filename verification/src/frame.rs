//! One frame of a 2D view, in the two steps between which the scroll area of
//! the host does its work: what to ask of the scroll area, and what to make
//! of the canvas that it hands back.

use crate::geometry::{Rect, RectTransform, Vec2};
use crate::hit_test::{closest, hit_test, scene_candidates};
use crate::hover::{
    depth_at_pointer, project_onto_other_spaces, projections_from_3d_space, spec_projections,
    HoverContext, HoverPos, HoveredSpace, Projection, SpaceId,
};
use crate::scene::{hover_effect, spec_hover_effect, PrimitiveId, Scene2D};
use crate::viewport::{View2DState, ViewResponse};
use vstd::prelude::*;

verus! {

/// The radius around the pointer within which a primitive is hovered: 5 units.
pub const HOVER_RADIUS: u32 = 320;

/// What the view asks of the scroll area.
#[derive(Clone, Copy, Debug, PartialEq, Eq, Structural)]
pub struct ScrollRequest {
    pub desired_size: Vec2,
    pub offset: Vec2,
}

/// What a frame leaves for the host.
#[derive(Clone, Debug)]
pub struct FrameOutput {
    /// The map from the scene to the screen.
    pub ui_from_space: RectTransform,
    /// The primitive under the pointer, to be resolved for the next frame.
    pub closest: PrimitiveId,
    /// What a click selected: the primitive hovered since the last frame.
    pub selection: Option<PrimitiveId>,
    /// Where the hover of a linked 3D view shows in this view.
    pub projections: Vec<Projection>,
}

/// One component of a scroll offset held between zero and the length by
/// which the canvas exceeds the view. Where the canvas is the smaller one,
/// zero.
pub open spec fn bounded_offset_axis(offset: int, desired: int, available: int) -> int {
    let most = if offset <= desired - available {
        offset
    } else {
        desired - available
    };
    if most >= 0 {
        most
    } else {
        0
    }
}

/// A scroll offset held so that the visible region ends with the canvas.
pub open spec fn spec_bound_offset(offset: Vec2, desired_size: Vec2, available_size: Vec2) -> Vec2 {
    Vec2 {
        x: bounded_offset_axis(offset.x as int, desired_size.x as int, available_size.x as int) as i32,
        y: bounded_offset_axis(offset.y as int, desired_size.y as int, available_size.y as int) as i32,
    }
}

fn bound_offset_axis(offset: i32, desired: i32, available: i32) -> (r: i32)
    ensures
        r == bounded_offset_axis(offset as int, desired as int, available as int),
        0 <= r,
        r <= offset || r == 0,
{
    let room: i64 = desired as i64 - available as i64;
    let most: i64 = if offset as i64 <= room {
        offset as i64
    } else {
        room
    };
    if most >= 0 {
        most as i32
    } else {
        0
    }
}

/// Holds a scroll offset between zero and the length by which the canvas
/// exceeds the view, on each axis.
pub fn bound_offset(offset: Vec2, desired_size: Vec2, available_size: Vec2) -> (r: Vec2)
    ensures
        r == spec_bound_offset(offset, desired_size, available_size),
{
    Vec2 {
        x: bound_offset_axis(offset.x, desired_size.x, available_size.x),
        y: bound_offset_axis(offset.y, desired_size.y, available_size.y),
    }
}

/// The first step of a frame: the primitive hovered since the last frame is
/// emphasized in the scene, and the canvas size and the bounded scroll offset
/// are worked out for the scroll area.
pub fn view_2d(state: &View2DState, scene: &mut Scene2D, available_size: Vec2) -> (request:
    ScrollRequest)
    requires
        state.wf(),
    ensures
        match state.hovered_instance {
            Some(hovered) => spec_hover_effect(*old(scene), hovered, *final(scene)),
            None => *final(scene) == *old(scene),
        },
        request.desired_size == state.spec_desired_size_and_offset(available_size).0,
        request.offset == spec_bound_offset(
            state.spec_desired_size_and_offset(available_size).1,
            request.desired_size,
            available_size,
        ),
{
    if let Some(hovered_instance) = state.hovered_instance {
        hover_effect(scene, hovered_instance);
    }
    let (desired_size, offset): (Vec2, Vec2) = state.desired_size_and_offset(available_size);
    let offset: Vec2 = bound_offset(offset, desired_size, available_size);
    ScrollRequest { desired_size, offset }
}

impl View2DState {
    /// The state once the bounds of the scene of this frame were taken in.
    pub open spec fn spec_accumulated(self, scene_bbox: Rect) -> View2DState {
        View2DState { scene_bbox_accum: self.scene_bbox_accum.spec_union(scene_bbox), ..self }
    }

    /// The map from the scene to the canvas at `rect` on the screen.
    pub open spec fn spec_ui_from_space(self, rect: Rect) -> RectTransform {
        RectTransform { from: self.spec_layout_bbox(), to: rect }
    }

    /// Takes the bounds of the scene of this frame into the accumulated
    /// bounds, which only grow.
    pub fn accumulate(&mut self, scene_bbox: Rect)
        ensures
            *final(self) == old(self).spec_accumulated(scene_bbox),
            old(self).wf() ==> final(self).wf(),
    {
        self.scene_bbox_accum = self.scene_bbox_accum.union(scene_bbox);
    }

    /// The map from the scene to the canvas at `rect` on the screen: it
    /// carries the bounds that layout goes by onto the canvas.
    pub fn ui_from_space(&self, rect: Rect) -> (t: RectTransform)
        ensures
            t == self.spec_ui_from_space(rect),
    {
        RectTransform::from_to(self.layout_bbox(), rect)
    }

    /// What a click selects: the primitive hovered since the last frame.
    pub fn clicked_instance(&self, response: &ViewResponse) -> (selection: Option<PrimitiveId>)
        ensures
            selection == if response.clicked {
                self.hovered_instance
            } else {
                None
            },
    {
        if response.clicked {
            self.hovered_instance
        } else {
            None
        }
    }

    /// Ends a frame: the primitive under the pointer is the hovered one of
    /// the next frame if the store still holds what it names, and nothing is
    /// hovered otherwise.
    pub fn set_hovered(&mut self, closest: PrimitiveId, resolved: bool)
        ensures
            final(self).hovered_instance == if resolved && closest != PrimitiveId::spec_none() {
                Some(closest)
            } else {
                None
            },
            final(self).scene_bbox_accum == old(self).scene_bbox_accum,
            final(self).zoom == old(self).zoom,
    {
        self.hovered_instance = if resolved && !closest.is_none() {
            Some(closest)
        } else {
            None
        };
    }
}

/// The second step of a frame, on the canvas that the scroll area handed
/// back: the bounds of the scene are taken in, the interaction of the frame
/// goes into the zoom state, the primitive under the pointer is found, the
/// pointer is published for linked views, and the hover that a 3D view
/// published in the frame before is projected into this view.
///
/// The map between screen and scene is the one of the bounds before the
/// interaction is applied: it is what the frame shows.
pub fn view_2d_scrollable(
    available_size: Vec2,
    ctx: &mut HoverContext,
    state: &mut View2DState,
    space: SpaceId,
    scene: &Scene2D,
    response: &ViewResponse,
    depths_at_pointer: &Vec<i32>,
) -> (out: FrameOutput)
    requires
        old(state).wf(),
    ensures
        final(state).wf(),
        final(state).scene_bbox_accum == old(state).scene_bbox_accum.spec_union(scene.bbox),
        final(state).hovered_instance == old(state).hovered_instance,
        out.ui_from_space == old(state).spec_accumulated(scene.bbox).spec_ui_from_space(
            response.rect,
        ),
        final(state).zoom == old(state).spec_accumulated(scene.bbox).spec_updated_zoom(
            *response,
            out.ui_from_space.spec_inverse(),
            available_size,
        ),
        out.closest == match response.hover_pos {
            Some(p) => closest(scene_candidates(*scene, out.ui_from_space, p), HOVER_RADIUS),
            None => PrimitiveId::spec_none(),
        },
        out.selection == if response.clicked {
            old(state).hovered_instance
        } else {
            None
        },
        final(ctx).hovered_space_previous_frame == old(ctx).hovered_space_previous_frame,
        final(ctx).hovered_space_this_frame == match response.hover_pos {
            Some(pointer_in_screen) => HoveredSpace::TwoD {
                space_2d: space,
                pos: HoverPos {
                    x: out.ui_from_space.spec_inverse().spec_transform_pos(pointer_in_screen).x,
                    y: out.ui_from_space.spec_inverse().spec_transform_pos(pointer_in_screen).y,
                    depth: if depths_at_pointer@.len() == 1 {
                        Some(depths_at_pointer@[0])
                    } else {
                        None
                    },
                },
            },
            None => old(ctx).hovered_space_this_frame,
        },
        out.projections@ == match old(ctx).hovered_space_previous_frame {
            HoveredSpace::ThreeD { target_spaces, .. } => spec_projections(
                target_spaces@,
                space,
                out.ui_from_space,
            ),
            _ => Seq::empty(),
        },
{
    state.accumulate(scene.bbox);
    let ui_from_space: RectTransform = state.ui_from_space(response.rect);
    let space_from_ui: RectTransform = ui_from_space.inverse();

    state.update(response, space_from_ui, available_size);

    let closest: PrimitiveId = hit_test(scene, &ui_from_space, response.hover_pos, HOVER_RADIUS);
    let selection: Option<PrimitiveId> = state.clicked_instance(response);

    let depth: Option<i32> = depth_at_pointer(depths_at_pointer);
    project_onto_other_spaces(ctx, space, response.hover_pos, &space_from_ui, depth);
    let projections: Vec<Projection> = projections_from_3d_space(ctx, space, &ui_from_space);

    FrameOutput { ui_from_space, closest, selection, projections }
}

} // verus!
