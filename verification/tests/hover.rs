use view_2d::geometry::{Pos2, Rect, RectTransform};
use view_2d::hover::{
    depth_at_pointer, project_onto_other_spaces, projections_from_3d_space, HoverContext,
    HoverPos, HoveredSpace, Projection, Ray3, SpaceId, TargetSpace, Vec3,
};

fn pos(x: i32, y: i32) -> Pos2 {
    Pos2 { x, y }
}

fn rect(x0: i32, y0: i32, x1: i32, y1: i32) -> Rect {
    Rect { min: pos(x0, y0), max: pos(x1, y1) }
}

fn doubling() -> RectTransform {
    RectTransform { from: rect(0, 0, 100, 100), to: rect(1000, 1000, 1200, 1200) }
}

fn is_nothing(h: &HoveredSpace) -> bool {
    matches!(h, HoveredSpace::Nothing)
}

fn two_d(h: &HoveredSpace) -> Option<(SpaceId, HoverPos)> {
    match h {
        HoveredSpace::TwoD { space_2d, pos } => Some((*space_2d, *pos)),
        _ => None,
    }
}

#[test]
fn a_session_starts_with_nothing_hovered() {
    let ctx = HoverContext::new();
    assert!(is_nothing(&ctx.hovered_space_this_frame));
    assert!(is_nothing(&ctx.hovered_space_previous_frame));
}

#[test]
fn depth_needs_exactly_one_reading() {
    assert_eq!(depth_at_pointer(&vec![]), None);
    assert_eq!(depth_at_pointer(&vec![1500]), Some(1500));
    assert_eq!(depth_at_pointer(&vec![1500, 1500]), None);
    assert_eq!(depth_at_pointer(&vec![1, 2, 3]), None);
}

#[test]
fn the_pointer_is_published_in_scene_coordinates() {
    let mut ctx = HoverContext::new();
    let space_from_ui = doubling().inverse();
    project_onto_other_spaces(&mut ctx, SpaceId { raw: 3 }, Some(pos(1100, 1050)), &space_from_ui, Some(7));
    assert_eq!(
        two_d(&ctx.hovered_space_this_frame),
        Some((SpaceId { raw: 3 }, HoverPos { x: 50, y: 25, depth: Some(7) }))
    );
    assert!(is_nothing(&ctx.hovered_space_previous_frame));
}

#[test]
fn without_a_pointer_nothing_is_published() {
    let mut ctx = HoverContext::new();
    let space_from_ui = doubling().inverse();
    project_onto_other_spaces(&mut ctx, SpaceId { raw: 3 }, Some(pos(1100, 1050)), &space_from_ui, None);
    project_onto_other_spaces(&mut ctx, SpaceId { raw: 4 }, None, &space_from_ui, Some(1));
    assert_eq!(
        two_d(&ctx.hovered_space_this_frame),
        Some((SpaceId { raw: 3 }, HoverPos { x: 50, y: 25, depth: None }))
    );
}

#[test]
fn a_new_frame_reads_what_the_last_one_published() {
    let mut ctx = HoverContext::new();
    let space_from_ui = doubling().inverse();
    project_onto_other_spaces(&mut ctx, SpaceId { raw: 3 }, Some(pos(1100, 1050)), &space_from_ui, None);
    ctx.on_frame_start();
    assert!(is_nothing(&ctx.hovered_space_this_frame));
    assert_eq!(
        two_d(&ctx.hovered_space_previous_frame),
        Some((SpaceId { raw: 3 }, HoverPos { x: 50, y: 25, depth: None }))
    );
    ctx.on_frame_start();
    assert!(is_nothing(&ctx.hovered_space_previous_frame));
}

fn ray() -> Ray3 {
    Ray3 { origin: Vec3 { x: 0, y: 0, z: 0 }, dir: Vec3 { x: 0, y: 0, z: 64 } }
}

fn hovered_in_3d() -> HoveredSpace {
    HoveredSpace::ThreeD {
        space_3d: SpaceId { raw: 100 },
        target_spaces: vec![
            TargetSpace { space_2d: SpaceId { raw: 1 }, ray: None, pos: Some(HoverPos { x: 10, y: 10, depth: Some(5) }) },
            TargetSpace { space_2d: SpaceId { raw: 2 }, ray: Some(ray()), pos: Some(HoverPos { x: 50, y: 25, depth: Some(9) }) },
            TargetSpace { space_2d: SpaceId { raw: 2 }, ray: Some(ray()), pos: None },
            TargetSpace { space_2d: SpaceId { raw: 2 }, ray: None, pos: Some(HoverPos { x: 0, y: 100, depth: None }) },
        ],
    }
}

#[test]
fn projections_are_read_from_the_previous_frame() {
    let mut ctx = HoverContext::new();
    ctx.hovered_space_this_frame = hovered_in_3d();
    assert_eq!(projections_from_3d_space(&ctx, SpaceId { raw: 2 }, &doubling()), vec![]);
    ctx.on_frame_start();
    assert_eq!(
        projections_from_3d_space(&ctx, SpaceId { raw: 2 }, &doubling()),
        vec![
            Projection { pos_in_ui: pos(1100, 1050), depth: Some(9) },
            Projection { pos_in_ui: pos(1000, 1200), depth: None },
        ]
    );
    assert_eq!(
        projections_from_3d_space(&ctx, SpaceId { raw: 1 }, &doubling()),
        vec![Projection { pos_in_ui: pos(1020, 1020), depth: Some(5) }]
    );
    assert_eq!(projections_from_3d_space(&ctx, SpaceId { raw: 3 }, &doubling()), vec![]);
}

#[test]
fn a_hover_in_a_2d_view_projects_nothing() {
    let mut ctx = HoverContext::new();
    ctx.hovered_space_previous_frame = HoveredSpace::TwoD {
        space_2d: SpaceId { raw: 2 },
        pos: HoverPos { x: 1, y: 2, depth: None },
    };
    assert_eq!(projections_from_3d_space(&ctx, SpaceId { raw: 2 }, &doubling()), vec![]);
}
