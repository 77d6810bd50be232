//! The hover record shared between linked views. A 2D view publishes where
//! its pointer is in the scene for the frame in progress, and reads what a
//! 3D view published in the frame before, so that two views that react to
//! each other never wait on one another.

use crate::fixed::{div_round, round_div, UNIT};
use crate::geometry::{Pos2, RectTransform};
use vstd::prelude::*;

verus! {

/// The identity of a space: the coordinate system that a view shows.
#[derive(Clone, Copy, Debug, PartialEq, Eq, Hash, Structural)]
pub struct SpaceId {
    pub raw: u64,
}

/// A position in a 2D space with the depth measured there, if any.
#[derive(Clone, Copy, Debug, PartialEq, Eq, Structural)]
pub struct HoverPos {
    pub x: i32,
    pub y: i32,
    pub depth: Option<i32>,
}

/// A point or a direction in three dimensions.
#[derive(Clone, Copy, Debug, PartialEq, Eq, Structural)]
pub struct Vec3 {
    pub x: i32,
    pub y: i32,
    pub z: i32,
}

/// A ray through a 2D space, as a 3D view casts it.
#[derive(Clone, Copy, Debug, PartialEq, Eq, Structural)]
pub struct Ray3 {
    pub origin: Vec3,
    pub dir: Vec3,
}

/// What a hover in a 3D view means for one linked 2D space.
#[derive(Clone, Copy, Debug, PartialEq, Eq, Structural)]
pub struct TargetSpace {
    pub space_2d: SpaceId,
    /// The ray of the pointer, where the 3D view has a camera for the space.
    pub ray: Option<Ray3>,
    /// The hovered point projected into the space, where it resolves.
    pub pos: Option<HoverPos>,
}

/// What is hovered, and in which space.
#[derive(Clone, Debug)]
pub enum HoveredSpace {
    /// Nothing is hovered.
    Nothing,
    /// The pointer is over a 2D view of `space_2d`, at `pos` in its scene.
    TwoD { space_2d: SpaceId, pos: HoverPos },
    /// The pointer is over a 3D view of `space_3d`.
    ThreeD { space_3d: SpaceId, target_spaces: Vec<TargetSpace> },
}

/// The hover records of a session: the one that the views of this frame
/// write, and the one of the frame before, which they read.
#[derive(Clone, Debug)]
pub struct HoverContext {
    pub hovered_space_this_frame: HoveredSpace,
    pub hovered_space_previous_frame: HoveredSpace,
}

/// A place on the screen where a hover in a 3D view projects into this view.
#[derive(Clone, Copy, Debug, PartialEq, Eq, Structural)]
pub struct Projection {
    pub pos_in_ui: Pos2,
    pub depth: Option<i32>,
}

impl HoverContext {
    /// A session in which nothing was hovered yet.
    pub fn new() -> (ctx: HoverContext)
        ensures
            ctx.hovered_space_this_frame is Nothing,
            ctx.hovered_space_previous_frame is Nothing,
    {
        HoverContext {
            hovered_space_this_frame: HoveredSpace::Nothing,
            hovered_space_previous_frame: HoveredSpace::Nothing,
        }
    }

    /// Begins a frame: what the last frame published becomes what this frame
    /// reads, and nothing is published yet.
    pub fn on_frame_start(&mut self)
        ensures
            final(self).hovered_space_previous_frame == old(self).hovered_space_this_frame,
            final(self).hovered_space_this_frame is Nothing,
    {
        let mut published = HoveredSpace::Nothing;
        std::mem::swap(&mut published, &mut self.hovered_space_this_frame);
        self.hovered_space_previous_frame = published;
    }
}

/// The index of the whole unit nearest to a coordinate; zero for a negative
/// coordinate.
pub open spec fn spec_unit_index(coordinate: int) -> int {
    let nearest = round_div(coordinate, UNIT as int);
    if nearest < 0 {
        0
    } else {
        nearest
    }
}

fn unit_index(coordinate: i32) -> (index: u32)
    ensures
        index == spec_unit_index(coordinate as int),
{
    let nearest: i128 = div_round(coordinate as i128, UNIT as i128);
    proof {
        crate::fixed::lemma_round_div_magnitude(coordinate as int, UNIT as int);
    }
    if nearest < 0 {
        0
    } else {
        nearest as u32
    }
}

/// The row and column of the pixel of an image under the pointer, at which
/// the host reads the depth: the position under the pointer in the scene,
/// rounded to whole units on each axis.
pub fn pixel_under_pointer(space_from_ui: &RectTransform, pointer_pos: Pos2) -> (pixel: (u32, u32))
    ensures
        pixel.0 == spec_unit_index(space_from_ui.spec_transform_pos(pointer_pos).y as int),
        pixel.1 == spec_unit_index(space_from_ui.spec_transform_pos(pointer_pos).x as int),
{
    let pos_in_image: Pos2 = space_from_ui.transform_pos(pointer_pos);
    (unit_index(pos_in_image.y), unit_index(pos_in_image.x))
}

/// The depth under the pointer: the reading of the one image that has one.
/// No reading, or readings of several images, give no depth.
pub fn depth_at_pointer(depths_at_pointer: &Vec<i32>) -> (depth: Option<i32>)
    ensures
        depth == if depths_at_pointer@.len() == 1 {
            Some(depths_at_pointer@[0])
        } else {
            None
        },
{
    if depths_at_pointer.len() == 1 {
        Some(depths_at_pointer[0])
    } else {
        None
    }
}

/// Publishes the pointer of this view for the frame in progress: while the
/// pointer is over the view, the record becomes the position under it in the
/// scene of `space`, with the depth `z`. Without a pointer nothing changes.
pub fn project_onto_other_spaces(
    ctx: &mut HoverContext,
    space: SpaceId,
    hover_pos: Option<Pos2>,
    space_from_ui: &RectTransform,
    z: Option<i32>,
)
    ensures
        final(ctx).hovered_space_previous_frame == old(ctx).hovered_space_previous_frame,
        final(ctx).hovered_space_this_frame == match hover_pos {
            Some(pointer_in_screen) => HoveredSpace::TwoD {
                space_2d: space,
                pos: HoverPos {
                    x: space_from_ui.spec_transform_pos(pointer_in_screen).x,
                    y: space_from_ui.spec_transform_pos(pointer_in_screen).y,
                    depth: z,
                },
            },
            None => old(ctx).hovered_space_this_frame,
        },
{
    if let Some(pointer_in_screen) = hover_pos {
        let pointer_in_space: Pos2 = space_from_ui.transform_pos(pointer_in_screen);
        ctx.hovered_space_this_frame =
        HoveredSpace::TwoD {
            space_2d: space,
            pos: HoverPos { x: pointer_in_space.x, y: pointer_in_space.y, depth: z },
        };
    }
}

/// The projections that the targets give into `space`: one for each target
/// that names the space and carries a projected point, in order.
pub open spec fn spec_projections(
    targets: Seq<TargetSpace>,
    space: SpaceId,
    ui_from_space: RectTransform,
) -> Seq<Projection>
    decreases targets.len(),
{
    if targets.len() == 0 {
        Seq::empty()
    } else {
        let before = spec_projections(targets.drop_last(), space, ui_from_space);
        let last = targets.last();
        match last.pos {
            Some(pos) if last.space_2d == space => before.push(
                Projection {
                    pos_in_ui: ui_from_space.spec_transform_pos(Pos2 { x: pos.x, y: pos.y }),
                    depth: pos.depth,
                },
            ),
            _ => before,
        }
    }
}

/// Where the hover of a linked 3D view shows in this view: the record of the
/// previous frame is read, and each of its targets that names `space` and
/// carries a projected point gives the place of a marker on the screen.
/// A target with a ray alone gives nothing.
pub fn projections_from_3d_space(
    ctx: &HoverContext,
    space: SpaceId,
    ui_from_space: &RectTransform,
) -> (projections: Vec<Projection>)
    ensures
        projections@ == match ctx.hovered_space_previous_frame {
            HoveredSpace::ThreeD { target_spaces, .. } => spec_projections(
                target_spaces@,
                space,
                *ui_from_space,
            ),
            _ => Seq::empty(),
        },
{
    let mut projections: Vec<Projection> = Vec::new();
    if let HoveredSpace::ThreeD { target_spaces, .. } = &ctx.hovered_space_previous_frame {
        let n: usize = target_spaces.len();
        for i in 0..n
            invariant
                n == target_spaces@.len(),
                projections@ == spec_projections(
                    target_spaces@.take(i as int),
                    space,
                    *ui_from_space,
                ),
        {
            let target: TargetSpace = target_spaces[i];
            proof {
                assert(target_spaces@.take(i + 1).drop_last() =~= target_spaces@.take(i as int));
            }
            if target.space_2d == space {
                if let Some(pos) = target.pos {
                    let pos_in_ui: Pos2 = ui_from_space.transform_pos(Pos2 { x: pos.x, y: pos.y });
                    projections.push(Projection { pos_in_ui, depth: pos.depth });
                }
            }
        }
        proof {
            assert(target_spaces@.take(n as int) =~= target_spaces@);
        }
    }
    projections
}

} // verus!
