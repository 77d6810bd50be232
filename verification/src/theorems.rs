//! What holds whatever the input: statements that relate the layout, the
//! interaction update and the scroll capture of the viewport to one another,
//! and statements on which candidate a search for the hovered primitive ends.

use crate::fixed::{
    div_ratio, half, lemma_round_div_bound, lemma_round_div_error,
    lemma_round_div_exact, lemma_round_div_neg, lemma_round_div_unique, mul_ratio, round_div,
    RATIO_ONE,
};
use crate::frame::{bounded_offset_axis, spec_bound_offset};
use crate::geometry::{remap, Pos2, Rect, RectTransform, Vec2};
use crate::hit_test::{
    all_box_candidates, all_image_candidates, all_point_candidates, all_strip_candidates,
    closest, closest_from, lemma_closest_from_concat, scene_candidates, threshold,
    Candidate,
};
use crate::scene::{PrimitiveId, Scene2D};
use crate::viewport::{
    auto_fit, content_fits, dragged_center, representable, zoomed_center,
    zoomed_scale, View2DState, ViewResponse, ZoomState,
};
use vstd::prelude::*;

verus! {

/// The magnitude of an integer.
pub open spec fn magnitude(v: int) -> int {
    if v >= 0 {
        v
    } else {
        -v
    }
}

/// Where a scene coordinate shows on the screen relative to the middle of the
/// visible region, in screen sub-units times `RATIO_ONE`.
pub open spec fn screen_offset(scene: int, center: int, scale: int) -> int {
    (scene - center) * scale
}

/// The scale that the gestures of `response` leave.
pub open spec fn gestured_scale(scale: u64, response: ViewResponse) -> u64 {
    match response.spec_hovered_zoom() {
        Some(zoom) => zoomed_scale(scale, zoom),
        None => scale,
    }
}

/// The automatic fit never exceeds the available size on either axis and is
/// not scrolled. Where the fitted size is a pair of coordinates, as it is for
/// every available size without a negative component, it has the aspect ratio
/// of the bounds up to rounding: the cross products of the two sizes differ by
/// at most half the longer side of the bounds.
pub proof fn theorem_auto_layout_keeps_aspect_within_available(
    state: View2DState,
    available_size: Vec2,
)
    requires
        state.zoom is Auto,
        state.scene_bbox_accum.spec_is_positive(),
    ensures
        ({
            let (desired, offset) = state.spec_desired_size_and_offset(available_size);
            let w = state.scene_bbox_accum.spec_width();
            let h = state.scene_bbox_accum.spec_height();
            let fit = auto_fit(w, h, available_size.x as int, available_size.y as int);
            &&& desired.x <= available_size.x
            &&& desired.y <= available_size.y
            &&& offset == (Vec2 { x: 0, y: 0 })
            &&& available_size.x >= 0 && available_size.y >= 0 ==> representable(fit)
            &&& representable(fit) ==> 2 * magnitude(desired.x * h - desired.y * w) <= (if w
                >= h {
                w
            } else {
                h
            })
        }),
{
    let w = state.scene_bbox_accum.spec_width();
    let h = state.scene_bbox_accum.spec_height();
    let ax = available_size.x as int;
    let ay = available_size.y as int;
    if h * ax <= ay * w {
        let y = round_div(h * ax, w);
        lemma_round_div_bound(h * ax, w, ay);
        lemma_round_div_error(h * ax, w);
        assert(ax * h == h * ax) by (nonlinear_arith);
        if ax >= 0 && ay >= 0 {
            assert(h * ax >= 0) by (nonlinear_arith)
                requires
                    h > 0,
                    ax >= 0,
            ;
        }
    } else {
        let x = round_div(w * ay, h);
        assert(w * ay <= ax * h) by (nonlinear_arith)
            requires
                h * ax > ay * w,
        ;
        lemma_round_div_bound(w * ay, h, ax);
        lemma_round_div_error(w * ay, h);
        assert(ay * w == w * ay) by (nonlinear_arith);
        if ax >= 0 && ay >= 0 {
            assert(w * ay >= 0) by (nonlinear_arith)
                requires
                    w > 0,
                    ay >= 0,
            ;
        }
    }
}

/// Zooming keeps the scene under the pointer in place: the scene coordinate
/// `anchor` shows as far from the middle of the visible region after the scale
/// changed as before, up to the rounding of the center, which is half a scene
/// sub-unit at the new scale. Holds unless the new center leaves the
/// coordinate range.
pub proof fn theorem_zoom_keeps_anchor(center: i32, anchor: i32, old_scale: u64, new_scale: u64)
    requires
        new_scale > 0,
        i32::MIN <= center + round_div((anchor - center) * (new_scale - old_scale), new_scale as int)
            <= i32::MAX,
    ensures
        2 * magnitude(
            screen_offset(
                anchor as int,
                zoomed_center(center as int, anchor as int, old_scale as int, new_scale as int),
                new_scale as int,
            ) - screen_offset(anchor as int, center as int, old_scale as int),
        ) <= new_scale,
{
    let dist = anchor - center;
    let n = dist * (new_scale - old_scale);
    let shift = round_div(n, new_scale as int);
    lemma_round_div_error(n, new_scale as int);
    assert((dist - shift) * new_scale - dist * old_scale == n - shift * new_scale)
        by (nonlinear_arith)
        requires
            n == dist * (new_scale - old_scale),
    ;
}

/// The statement of `theorem_zoom_keeps_anchor` for a frame of interaction:
/// after a zoom gesture with the pointer at `hover_pos`, the scene position
/// under the pointer shows where it showed before, on both axes. Holds
/// while the view stays zoomed, that is without a double click and with
/// content that does not fit the available size at the new scale, without a
/// drag in the same frame, and unless the new center leaves the coordinate
/// range.
pub proof fn theorem_update_zooms_toward_pointer(
    state: View2DState,
    response: ViewResponse,
    ui_to_space: RectTransform,
    available_size: Vec2,
    hover_pos: Pos2,
)
    requires
        state.wf(),
        state.zoom is Scaled,
        response.spec_hovered_zoom() is Some,
        response.hover_pos == Some(hover_pos),
        !response.dragged_by_primary,
        !response.double_clicked,
        !content_fits(
            state.spec_layout_bbox(),
            gestured_scale(state.zoom->scale, response),
            available_size,
        ),
        ({
            let scale = state.zoom->scale;
            let center = state.zoom->center;
            let anchor = ui_to_space.spec_transform_pos(hover_pos);
            let new_scale = gestured_scale(scale, response);
            &&& i32::MIN <= center.x + round_div(
                (anchor.x - center.x) * (new_scale - scale),
                new_scale as int,
            ) <= i32::MAX
            &&& i32::MIN <= center.y + round_div(
                (anchor.y - center.y) * (new_scale - scale),
                new_scale as int,
            ) <= i32::MAX
        }),
    ensures
        ({
            let scale = state.zoom->scale;
            let center = state.zoom->center;
            let anchor = ui_to_space.spec_transform_pos(hover_pos);
            let new_scale = gestured_scale(scale, response);
            let after = state.spec_updated_zoom(response, ui_to_space, available_size);
            &&& after matches ZoomState::Scaled {
                scale: after_scale,
                center: after_center,
                accepting_scroll: after_accepting,
            }
            &&& after_scale == new_scale
            &&& !after_accepting
            &&& 2 * magnitude(
                screen_offset(anchor.x as int, after_center.x as int, new_scale as int)
                    - screen_offset(anchor.x as int, center.x as int, scale as int),
            ) <= new_scale
            &&& 2 * magnitude(
                screen_offset(anchor.y as int, after_center.y as int, new_scale as int)
                    - screen_offset(anchor.y as int, center.y as int, scale as int),
            ) <= new_scale
        }),
{
    let scale = state.zoom->scale;
    let center = state.zoom->center;
    let anchor = ui_to_space.spec_transform_pos(hover_pos);
    let new_scale = gestured_scale(scale, response);
    theorem_zoom_keeps_anchor(center.x, anchor.x, scale, new_scale);
    theorem_zoom_keeps_anchor(center.y, anchor.y, scale, new_scale);
}

/// A drag followed by the opposite drag restores the center exactly. Holds
/// while the view stays zoomed in between, that is without a zoom gesture or a
/// double click and with content that does not fit the available size, and
/// unless the first drag takes the center out of the coordinate range.
pub proof fn theorem_drag_and_reverse_restores_center(
    state: View2DState,
    first: ViewResponse,
    second: ViewResponse,
    ui_to_space: RectTransform,
    available_size: Vec2,
)
    requires
        state.wf(),
        state.zoom is Scaled,
        first.spec_hovered_zoom() is None,
        second.spec_hovered_zoom() is None,
        first.dragged_by_primary,
        second.dragged_by_primary,
        !first.double_clicked,
        !second.double_clicked,
        second.drag_delta.x == -first.drag_delta.x,
        second.drag_delta.y == -first.drag_delta.y,
        !content_fits(state.spec_layout_bbox(), state.zoom->scale, available_size),
        i32::MIN <= state.zoom->center.x - div_ratio(
            first.drag_delta.x as int,
            state.zoom->scale as int,
        ) <= i32::MAX,
        i32::MIN <= state.zoom->center.y - div_ratio(
            first.drag_delta.y as int,
            state.zoom->scale as int,
        ) <= i32::MAX,
    ensures
        ({
            let between = View2DState {
                zoom: state.spec_updated_zoom(first, ui_to_space, available_size),
                ..state
            };
            between.spec_updated_zoom(second, ui_to_space, available_size) == (ZoomState::Scaled {
                scale: state.zoom->scale,
                center: state.zoom->center,
                accepting_scroll: false,
            })
        }),
{
    let scale = state.zoom->scale;
    let center = state.zoom->center;
    lemma_round_div_neg(first.drag_delta.x * RATIO_ONE, scale as int);
    lemma_round_div_neg(first.drag_delta.y * RATIO_ONE, scale as int);
    assert((-first.drag_delta.x) * RATIO_ONE == -(first.drag_delta.x * RATIO_ONE))
        by (nonlinear_arith);
    assert((-first.drag_delta.y) * RATIO_ONE == -(first.drag_delta.y * RATIO_ONE))
        by (nonlinear_arith);
    let between = View2DState {
        zoom: state.spec_updated_zoom(first, ui_to_space, available_size),
        ..state
    };
    assert(between.spec_layout_bbox() == state.spec_layout_bbox());
    assert(between.zoom == ZoomState::Scaled {
        scale,
        center: Pos2 {
            x: dragged_center(center.x as int, first.drag_delta.x as int, scale as int) as i32,
            y: dragged_center(center.y as int, first.drag_delta.y as int, scale as int) as i32,
        },
        accepting_scroll: false,
    });
}

/// Content smaller than the available size on both axes ends the zoom: where
/// the bounds at the scale that the gestures of the frame leave fit, the view
/// fits automatically after the update, whatever the center was. Without a
/// zoom gesture that scale is the scale before the update.
pub proof fn theorem_small_content_reverts_to_auto(
    state: View2DState,
    response: ViewResponse,
    ui_to_space: RectTransform,
    available_size: Vec2,
)
    requires
        state.wf(),
        state.zoom is Scaled,
        content_fits(
            state.spec_layout_bbox(),
            gestured_scale(state.zoom->scale, response),
            available_size,
        ),
    ensures
        state.spec_updated_zoom(response, ui_to_space, available_size) == ZoomState::Auto,
        response.spec_hovered_zoom() is None ==> gestured_scale(state.zoom->scale, response)
            == state.zoom->scale,
{
}

/// Capturing the very offset that the layout asked for leaves the center
/// unchanged. Holds at scales of at least one screen sub-unit per scene
/// sub-unit, where no two centers share an offset, and unless the offset
/// leaves the coordinate range.
pub proof fn theorem_capture_of_requested_offset_keeps_center(
    state: View2DState,
    available_size: Vec2,
)
    requires
        state.wf(),
        state.zoom is Scaled,
        state.zoom->accepting_scroll,
        state.zoom->scale >= RATIO_ONE,
        ({
            let bbox = state.spec_layout_bbox();
            &&& i32::MIN <= mul_ratio(
                state.zoom->center.x - bbox.min.x,
                state.zoom->scale as int,
            ) - half(available_size.x as int) <= i32::MAX
            &&& i32::MIN <= mul_ratio(
                state.zoom->center.y - bbox.min.y,
                state.zoom->scale as int,
            ) - half(available_size.y as int) <= i32::MAX
        }),
    ensures
        state.spec_captured_zoom(
            state.spec_desired_size_and_offset(available_size).1,
            available_size,
        ) == state.zoom,
{
    let bbox = state.spec_layout_bbox();
    let scale = state.zoom->scale;
    let center = state.zoom->center;
    lemma_scale_round_trip(center.x - bbox.min.x, scale as int);
    lemma_scale_round_trip(center.y - bbox.min.y, scale as int);
}

/// At a scale of at least 1, scaling up and back down returns the length.
pub proof fn lemma_scale_round_trip(d: int, scale: int)
    requires
        scale >= RATIO_ONE,
    ensures
        div_ratio(mul_ratio(d, scale), scale) == d,
{
    let k = RATIO_ONE as int;
    let q = round_div(d * scale, k);
    if scale == k {
        lemma_round_div_exact(d, k);
        lemma_round_div_exact(d, scale);
    } else {
        lemma_round_div_error(d * scale, k);
        lemma_round_div_unique(q * k, scale, d);
    }
}

/// At a scale of at most 1, scaling down and back up returns the length.
pub proof fn lemma_unscale_round_trip(q: int, scale: int)
    requires
        0 < scale <= RATIO_ONE,
    ensures
        mul_ratio(div_ratio(q, scale), scale) == q,
{
    let k = RATIO_ONE as int;
    let d = round_div(q * k, scale);
    if scale == k {
        lemma_round_div_exact(q, scale);
        lemma_round_div_exact(q, k);
    } else {
        lemma_round_div_error(q * k, scale);
        lemma_round_div_unique(d * scale, k, q);
    }
}

/// Below that scale several centers share an offset, and capturing the
/// requested offset may move the center to another of them; the layout then
/// asks for the same offset again, so that what is shown stays put. Holds
/// unless the offset or the captured center leaves the coordinate range.
pub proof fn theorem_capture_of_requested_offset_keeps_offset(
    state: View2DState,
    available_size: Vec2,
)
    requires
        state.wf(),
        state.zoom is Scaled,
        state.zoom->accepting_scroll,
        state.zoom->scale <= RATIO_ONE,
        ({
            let bbox = state.spec_layout_bbox();
            let scale = state.zoom->scale as int;
            let from_left = mul_ratio(state.zoom->center.x - bbox.min.x, scale);
            let from_top = mul_ratio(state.zoom->center.y - bbox.min.y, scale);
            &&& i32::MIN <= from_left - half(available_size.x as int) <= i32::MAX
            &&& i32::MIN <= from_top - half(available_size.y as int) <= i32::MAX
            &&& i32::MIN <= bbox.min.x + div_ratio(from_left, scale) <= i32::MAX
            &&& i32::MIN <= bbox.min.y + div_ratio(from_top, scale) <= i32::MAX
        }),
    ensures
        ({
            let requested = state.spec_desired_size_and_offset(available_size).1;
            let captured = View2DState {
                zoom: state.spec_captured_zoom(requested, available_size),
                ..state
            };
            captured.spec_desired_size_and_offset(available_size).1 == requested
        }),
{
    let bbox = state.spec_layout_bbox();
    let scale = state.zoom->scale as int;
    let center = state.zoom->center;
    lemma_unscale_round_trip(mul_ratio(center.x - bbox.min.x, scale), scale);
    lemma_unscale_round_trip(mul_ratio(center.y - bbox.min.y, scale), scale);
    let requested = state.spec_desired_size_and_offset(available_size).1;
    let captured = View2DState {
        zoom: state.spec_captured_zoom(requested, available_size),
        ..state
    };
    assert(captured.spec_layout_bbox() == bbox);
}

/// The accumulated bounds only grow: whatever lay in them, or lies in the
/// bounds of the scene taken in, lies in them afterwards.
pub proof fn theorem_accumulated_bounds_never_shrink(state: View2DState, scene_bbox: Rect, p: Pos2)
    requires
        state.scene_bbox_accum.spec_contains(p) || scene_bbox.spec_contains(p),
    ensures
        state.spec_accumulated(scene_bbox).scene_bbox_accum.spec_contains(p),
{
}

/// The bounded scroll offset keeps the visible region within the canvas: it
/// is never negative, and where the canvas is at least as large as the view
/// on an axis, the view ends where the canvas ends or before. An offset that
/// meets that already is left as it is.
pub proof fn theorem_bounded_offset_stays_within_canvas(
    offset: Vec2,
    desired_size: Vec2,
    available_size: Vec2,
)
    ensures
        ({
            let bounded = spec_bound_offset(offset, desired_size, available_size);
            &&& 0 <= bounded.x
            &&& 0 <= bounded.y
            &&& desired_size.x >= available_size.x ==> bounded.x + available_size.x
                <= desired_size.x
            &&& desired_size.y >= available_size.y ==> bounded.y + available_size.y
                <= desired_size.y
            &&& 0 <= offset.x <= desired_size.x - available_size.x ==> bounded.x == offset.x
            &&& 0 <= offset.y <= desired_size.y - available_size.y ==> bounded.y == offset.y
        }),
{
    let bx = bounded_offset_axis(offset.x as int, desired_size.x as int, available_size.x as int);
    let by = bounded_offset_axis(offset.y as int, desired_size.y as int, available_size.y as int);
    assert(0 <= bx <= i32::MAX);
    assert(0 <= by <= i32::MAX);
}

/// The map between two rectangles carries the corners of the first onto the
/// corners of the second, and keeps the order of coordinates on each axis
/// where the second rectangle is not flipped.
pub proof fn theorem_transform_carries_corners(t: RectTransform, a: Pos2, b: Pos2)
    requires
        t.from.spec_is_positive(),
    ensures
        t.spec_transform_pos(t.from.min) == t.to.min,
        t.spec_transform_pos(t.from.max) == t.to.max,
        a.x <= b.x && t.to.min.x <= t.to.max.x ==> t.spec_transform_pos(a).x
            <= t.spec_transform_pos(b).x,
        a.y <= b.y && t.to.min.y <= t.to.max.y ==> t.spec_transform_pos(a).y
            <= t.spec_transform_pos(b).y,
{
    lemma_remap_carries_ends(
        t.from.min.x as int,
        t.from.max.x as int,
        t.to.min.x as int,
        t.to.max.x as int,
        a.x as int,
        b.x as int,
    );
    lemma_remap_carries_ends(
        t.from.min.y as int,
        t.from.max.y as int,
        t.to.min.y as int,
        t.to.max.y as int,
        a.y as int,
        b.y as int,
    );
}

/// `remap` sends the ends of the source interval to the ends of the target
/// interval and is monotonic where the target interval is not flipped.
pub proof fn lemma_remap_carries_ends(f0: int, f1: int, t0: int, t1: int, a: int, b: int)
    requires
        f0 < f1,
    ensures
        remap(f0, f0, f1, t0, t1) == t0,
        remap(f1, f0, f1, t0, t1) == t1,
        a <= b && t0 <= t1 ==> remap(a, f0, f1, t0, t1) <= remap(b, f0, f1, t0, t1),
{
    assert((f0 - f0) * (t1 - t0) == 0 * (f1 - f0)) by (nonlinear_arith);
    lemma_round_div_exact(0, f1 - f0);
    assert((f1 - f0) * (t1 - t0) == (t1 - t0) * (f1 - f0)) by (nonlinear_arith);
    lemma_round_div_exact(t1 - t0, f1 - f0);
    if a <= b && t0 <= t1 {
        assert((a - f0) * (t1 - t0) <= (b - f0) * (t1 - t0)) by (nonlinear_arith)
            requires
                a <= b,
                t0 <= t1,
        ;
        crate::fixed::lemma_round_div_monotonic(
            (a - f0) * (t1 - t0),
            (b - f0) * (t1 - t0),
            f1 - f0,
        );
    }
}

/// Whether candidate `i` is as near as any, and nearer than all after it.
pub open spec fn is_last_nearest(candidates: Seq<Candidate>, i: int) -> bool {
    &&& 0 <= i < candidates.len()
    &&& forall|j: int|
        0 <= j < candidates.len() ==> (#[trigger] candidates[j]).dist_sq >= candidates[i].dist_sq
    &&& forall|j: int|
        i < j < candidates.len() ==> (#[trigger] candidates[j]).dist_sq > candidates[i].dist_sq
}

/// A search ends on its start or on one of the candidates, and on nothing
/// farther than the start.
pub proof fn lemma_closest_from_is_offered(best: Candidate, candidates: Seq<Candidate>)
    ensures
        closest_from(best, candidates).dist_sq <= best.dist_sq,
        closest_from(best, candidates) == best || exists|j: int|
            0 <= j < candidates.len() && closest_from(best, candidates) == #[trigger] candidates[j],
    decreases candidates.len(),
{
    if candidates.len() > 0 {
        let before = candidates.drop_last();
        lemma_closest_from_is_offered(best, before);
        let found = closest_from(best, before);
        if closest_from(best, candidates) == candidates.last() {
            assert(closest_from(best, candidates) == candidates[candidates.len() - 1]);
        } else if found != best {
            let j = choose|j: int| 0 <= j < before.len() && found == #[trigger] before[j];
            assert(found == candidates[j]);
        }
    }
}

/// A search over candidates that are all farther than its start ends on the
/// start.
pub proof fn lemma_closest_from_none_nearer(best: Candidate, candidates: Seq<Candidate>)
    requires
        forall|j: int|
            0 <= j < candidates.len() ==> (#[trigger] candidates[j]).dist_sq > best.dist_sq,
    ensures
        closest_from(best, candidates) == best,
    decreases candidates.len(),
{
    if candidates.len() > 0 {
        let before = candidates.drop_last();
        assert forall|j: int| 0 <= j < before.len() implies (#[trigger] before[j]).dist_sq
            > best.dist_sq by {
            assert(before[j] == candidates[j]);
        }
        lemma_closest_from_none_nearer(best, before);
        assert(candidates.last() == candidates[candidates.len() - 1]);
    }
}

/// A search ends on the last of the nearest candidates, where that one is no
/// farther than the start.
pub proof fn lemma_closest_from_is_last_nearest(
    best: Candidate,
    candidates: Seq<Candidate>,
    i: int,
)
    requires
        is_last_nearest(candidates, i),
        candidates[i].dist_sq <= best.dist_sq,
    ensures
        closest_from(best, candidates) == candidates[i],
    decreases candidates.len(),
{
    let before = candidates.drop_last();
    let last = candidates.last();
    let found = closest_from(best, before);
    assert(last == candidates[candidates.len() - 1]);
    if i == candidates.len() - 1 {
        lemma_closest_from_is_offered(best, before);
        if found != best {
            let j = choose|j: int| 0 <= j < before.len() && found == #[trigger] before[j];
            assert(found == candidates[j]);
        }
    } else {
        assert(before[i] == candidates[i]);
        assert forall|j: int| 0 <= j < before.len() implies (#[trigger] before[j]).dist_sq
            >= before[i].dist_sq by {
            assert(before[j] == candidates[j]);
        }
        assert forall|j: int| i < j < before.len() implies (#[trigger] before[j]).dist_sq
            > before[i].dist_sq by {
            assert(before[j] == candidates[j]);
        }
        lemma_closest_from_is_last_nearest(best, before, i);
    }
}

/// The hovered primitive is the last of the nearest candidates, if that one
/// is within the hover radius, and nothing if every candidate is beyond it.
pub proof fn theorem_closest_is_last_nearest(candidates: Seq<Candidate>, hover_radius: u32)
    ensures
        (forall|j: int|
            0 <= j < candidates.len() ==> (#[trigger] candidates[j]).dist_sq > hover_radius
                * hover_radius) ==> closest(candidates, hover_radius) == PrimitiveId::spec_none(),
        forall|i: int|
            is_last_nearest(candidates, i) && (#[trigger] candidates[i]).dist_sq <= hover_radius
                * hover_radius ==> closest(candidates, hover_radius) == candidates[i].id,
{
    lemma_radius_squared_fits(hover_radius);
    if forall|j: int|
        0 <= j < candidates.len() ==> (#[trigger] candidates[j]).dist_sq > hover_radius
            * hover_radius {
        lemma_closest_from_none_nearer(threshold(hover_radius), candidates);
    }
    assert forall|i: int|
        is_last_nearest(candidates, i) && (#[trigger] candidates[i]).dist_sq <= hover_radius
            * hover_radius implies closest(candidates, hover_radius) == candidates[i].id by {
        lemma_closest_from_is_last_nearest(threshold(hover_radius), candidates, i);
    }
}

/// The square of a hover radius is the distance that the search starts from.
pub proof fn lemma_radius_squared_fits(hover_radius: u32)
    ensures
        threshold(hover_radius).dist_sq == hover_radius * hover_radius,
{
    assert(0 <= (hover_radius as int) * (hover_radius as int) <= 0xffff_ffff * 0xffff_ffff)
        by (nonlinear_arith)
        requires
            0 <= hover_radius <= 0xffff_ffff,
    ;
}

/// A primitive whose every candidate is farther from the pointer than the
/// hover radius is never the hovered one, even where it is the only one.
pub proof fn theorem_beyond_radius_never_hovered(
    candidates: Seq<Candidate>,
    hover_radius: u32,
    id: PrimitiveId,
)
    requires
        id != PrimitiveId::spec_none(),
        forall|j: int|
            0 <= j < candidates.len() && (#[trigger] candidates[j]).id == id ==> candidates[j].dist_sq
                > hover_radius * hover_radius,
    ensures
        closest(candidates, hover_radius) != id,
{
    lemma_radius_squared_fits(hover_radius);
    lemma_closest_from_is_offered(threshold(hover_radius), candidates);
    let found = closest_from(threshold(hover_radius), candidates);
    if found != threshold(hover_radius) {
        let j = choose|j: int| 0 <= j < candidates.len() && found == #[trigger] candidates[j];
        assert(candidates[j].dist_sq <= hover_radius * hover_radius);
    }
}

/// Ties go to what is evaluated later: where a candidate of the later run is
/// within the hover radius and as near as every candidate of both runs, the
/// search ends on a candidate of the later run at that distance, however
/// near the candidates of the earlier run are.
pub proof fn theorem_later_run_wins_ties(
    earlier: Seq<Candidate>,
    later: Seq<Candidate>,
    hover_radius: u32,
    j: int,
)
    requires
        0 <= j < later.len(),
        later[j].dist_sq <= hover_radius * hover_radius,
        forall|k: int| 0 <= k < earlier.len() ==> (#[trigger] earlier[k]).dist_sq >= later[j].dist_sq,
        forall|k: int| 0 <= k < later.len() ==> (#[trigger] later[k]).dist_sq >= later[j].dist_sq,
    ensures
        exists|m: int|
            0 <= m < later.len() && closest_from(threshold(hover_radius), earlier + later)
                == #[trigger] later[m] && later[m].dist_sq == later[j].dist_sq,
{
    lemma_radius_squared_fits(hover_radius);
    let start = threshold(hover_radius);
    lemma_closest_from_concat(start, earlier, later);
    let mid = closest_from(start, earlier);
    lemma_closest_from_is_offered(start, earlier);
    assert(mid.dist_sq >= later[j].dist_sq) by {
        if mid != start {
            let k = choose|k: int| 0 <= k < earlier.len() && mid == #[trigger] earlier[k];
            assert(earlier[k].dist_sq >= later[j].dist_sq);
        }
    }
    let m = last_nearest_index(later, j);
    lemma_closest_from_is_last_nearest(mid, later, m);
}

/// The index of the last candidate as near as candidate `j`, where `j` is as
/// near as any.
pub proof fn last_nearest_index(candidates: Seq<Candidate>, j: int) -> (m: int)
    requires
        0 <= j < candidates.len(),
        forall|k: int|
            0 <= k < candidates.len() ==> (#[trigger] candidates[k]).dist_sq >= candidates[j].dist_sq,
    ensures
        j <= m < candidates.len(),
        candidates[m].dist_sq == candidates[j].dist_sq,
        is_last_nearest(candidates, m),
    decreases candidates.len() - j,
{
    if exists|k: int| j < k < candidates.len() && (#[trigger] candidates[k]).dist_sq == candidates[j].dist_sq {
        let k = choose|k: int|
            j < k < candidates.len() && (#[trigger] candidates[k]).dist_sq == candidates[j].dist_sq;
        last_nearest_index(candidates, k)
    } else {
        j
    }
}

/// Points outrank everything at equal distance: where a candidate of a point
/// is within the hover radius and as near as every candidate of the scene,
/// the hovered primitive is what a candidate of a point at that distance
/// names.
pub proof fn theorem_points_win_ties(
    scene: Scene2D,
    ui_from_space: RectTransform,
    p: Pos2,
    hover_radius: u32,
    j: int,
)
    requires
        ({
            let points = all_point_candidates(scene.points@, ui_from_space, p);
            let all = scene_candidates(scene, ui_from_space, p);
            &&& 0 <= j < points.len()
            &&& points[j].dist_sq <= hover_radius * hover_radius
            &&& forall|k: int| 0 <= k < all.len() ==> (#[trigger] all[k]).dist_sq >= points[j].dist_sq
        }),
    ensures
        ({
            let points = all_point_candidates(scene.points@, ui_from_space, p);
            exists|m: int|
                0 <= m < points.len() && closest(
                    scene_candidates(scene, ui_from_space, p),
                    hover_radius,
                ) == (#[trigger] points[m]).id && points[m].dist_sq == points[j].dist_sq
        }),
{
    let images = all_image_candidates(scene.images@, ui_from_space, p);
    let boxes = all_box_candidates(scene.boxes@, ui_from_space, p);
    let strips = all_strip_candidates(scene.line_segments@, ui_from_space, p);
    let points = all_point_candidates(scene.points@, ui_from_space, p);
    let earlier = images + boxes + strips;
    let all = scene_candidates(scene, ui_from_space, p);
    assert(all == earlier + points);
    assert forall|k: int| 0 <= k < earlier.len() implies (#[trigger] earlier[k]).dist_sq
        >= points[j].dist_sq by {
        assert(all[k] == earlier[k]);
    }
    assert forall|k: int| 0 <= k < points.len() implies (#[trigger] points[k]).dist_sq
        >= points[j].dist_sq by {
        assert(all[earlier.len() + k] == points[k]);
    }
    theorem_later_run_wins_ties(earlier, points, hover_radius, j);
}

/// Boxes outrank images at equal distance: in a scene of images and boxes
/// alone, where a candidate of a box is within the hover radius and as near
/// as every candidate, the hovered primitive is what a candidate of a box at
/// that distance names.
pub proof fn theorem_boxes_win_ties_over_images(
    scene: Scene2D,
    ui_from_space: RectTransform,
    p: Pos2,
    hover_radius: u32,
    j: int,
)
    requires
        scene.line_segments@.len() == 0,
        scene.points@.len() == 0,
        ({
            let boxes = all_box_candidates(scene.boxes@, ui_from_space, p);
            let all = scene_candidates(scene, ui_from_space, p);
            &&& 0 <= j < boxes.len()
            &&& boxes[j].dist_sq <= hover_radius * hover_radius
            &&& forall|k: int| 0 <= k < all.len() ==> (#[trigger] all[k]).dist_sq >= boxes[j].dist_sq
        }),
    ensures
        ({
            let boxes = all_box_candidates(scene.boxes@, ui_from_space, p);
            exists|m: int|
                0 <= m < boxes.len() && closest(
                    scene_candidates(scene, ui_from_space, p),
                    hover_radius,
                ) == (#[trigger] boxes[m]).id && boxes[m].dist_sq == boxes[j].dist_sq
        }),
{
    let images = all_image_candidates(scene.images@, ui_from_space, p);
    let boxes = all_box_candidates(scene.boxes@, ui_from_space, p);
    let strips = all_strip_candidates(scene.line_segments@, ui_from_space, p);
    let points = all_point_candidates(scene.points@, ui_from_space, p);
    let all = scene_candidates(scene, ui_from_space, p);
    assert(strips =~= Seq::<Candidate>::empty());
    assert(points =~= Seq::<Candidate>::empty());
    assert(all =~= images + boxes);
    assert forall|k: int| 0 <= k < images.len() implies (#[trigger] images[k]).dist_sq
        >= boxes[j].dist_sq by {
        assert(all[k] == images[k]);
    }
    assert forall|k: int| 0 <= k < boxes.len() implies (#[trigger] boxes[k]).dist_sq
        >= boxes[j].dist_sq by {
        assert(all[images.len() + k] == boxes[k]);
    }
    theorem_later_run_wins_ties(images, boxes, hover_radius, j);
}

} // verus!
