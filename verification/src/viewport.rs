//! The viewport state: the accumulated bounds of the scene and the choice
//! between fitting them automatically and a zoom and pan set by the user.

use crate::fixed::{
    clamp_i32, clamp_ratio, compose_ratio, div_by_ratio, div_ratio, div_round, half, halve,
    lemma_product_bound, lemma_round_div_magnitude, mul_by_ratio, mul_ratio, ratio_of,
    round_div, saturate, scale_up, RATIO_ONE,
};
use crate::geometry::{Pos2, Rect, RectTransform, Vec2};
use crate::scene::PrimitiveId;
use vstd::prelude::*;

verus! {

/// How the scene is fitted into the view.
#[derive(Clone, Copy, Debug, PartialEq, Eq, Structural)]
pub enum ZoomState {
    /// The accumulated bounds are fitted into the available size.
    Auto,
    /// The user has zoomed or panned.
    Scaled {
        /// Sub-units of the screen per sub-unit of the scene, as a ratio.
        scale: u64,
        /// The scene position shown at the middle of the visible region.
        center: Pos2,
        /// Whether the offset that the scroll area reports next is folded
        /// back into `center`.
        accepting_scroll: bool,
    },
}

impl Default for ZoomState {
    fn default() -> (z: ZoomState)
        ensures
            z == ZoomState::Auto,
    {
        ZoomState::Auto
    }
}

/// What persists of a 2D view from frame to frame.
#[derive(Clone, Copy, Debug, PartialEq, Eq, Structural)]
pub struct View2DState {
    /// What the pointer hovered in the previous frame.
    pub hovered_instance: Option<PrimitiveId>,
    /// The union of the scene bounds of all frames so far.
    pub scene_bbox_accum: Rect,
    /// Automatic fit, or the user's zoom and pan.
    pub zoom: ZoomState,
}

impl Default for View2DState {
    fn default() -> (s: View2DState)
        ensures
            s.hovered_instance.is_none(),
            s.scene_bbox_accum == Rect::spec_nothing(),
            s.zoom == ZoomState::Auto,
            s.wf(),
    {
        View2DState {
            hovered_instance: None,
            scene_bbox_accum: Rect::nothing(),
            zoom: ZoomState::Auto,
        }
    }
}

/// What the view's canvas reports of the pointer for one frame.
#[derive(Clone, Copy, Debug, PartialEq, Eq, Structural)]
pub struct ViewResponse {
    /// Whether the pointer is over the view.
    pub hovered: bool,
    /// Where the pointer is on the screen, if anywhere.
    pub hover_pos: Option<Pos2>,
    /// The factor of the zoom gesture, as a ratio; `RATIO_ONE` without one.
    pub zoom_delta: u64,
    /// Whether the view is dragged with the primary button.
    pub dragged_by_primary: bool,
    /// How far the pointer was dragged.
    pub drag_delta: Vec2,
    /// Whether the view was clicked.
    pub clicked: bool,
    /// Whether the view was double-clicked.
    pub double_clicked: bool,
    /// The rectangle of the screen that the canvas occupies.
    pub rect: Rect,
}

impl ViewResponse {
    /// The factor of a zoom gesture made over the view.
    pub open spec fn spec_hovered_zoom(self) -> Option<u64> {
        if self.hovered && self.zoom_delta != RATIO_ONE {
            Some(self.zoom_delta)
        } else {
            None
        }
    }

    /// The factor of a zoom gesture made over the view.
    pub fn hovered_zoom(&self) -> (z: Option<u64>)
        ensures
            z == self.spec_hovered_zoom(),
    {
        if self.hovered && self.zoom_delta != RATIO_ONE {
            Some(self.zoom_delta)
        } else {
            None
        }
    }
}

/// The scale after a zoom gesture of factor `zoom`.
pub open spec fn zoomed_scale(scale: u64, zoom: u64) -> u64 {
    clamp_ratio(mul_ratio(scale as int, zoom as int)) as u64
}

/// One coordinate of the center after the scale went from `old_scale` to
/// `new_scale` with the scene coordinate `anchor` under the pointer: the
/// center moves toward the anchor by the share `(new - old) / new` of their
/// distance, which keeps the anchor where it is on the screen.
pub open spec fn zoomed_center(center: int, anchor: int, old_scale: int, new_scale: int) -> int {
    clamp_i32(center + round_div((anchor - center) * (new_scale - old_scale), new_scale))
}

/// One coordinate of the center after the content was dragged by `delta` on
/// the screen.
pub open spec fn dragged_center(center: int, delta: int, scale: int) -> int {
    clamp_i32(center - div_ratio(delta, scale))
}

/// One coordinate of the center that shows at the scroll offset `offset`.
pub open spec fn scrolled_center(origin: int, available: int, offset: int, scale: int) -> int {
    clamp_i32(origin + div_ratio(half(available) + offset, scale))
}

/// Whether the bounds at `scale` are smaller than the available size on both
/// axes.
pub open spec fn content_fits(bbox: Rect, scale: u64, available_size: Vec2) -> bool {
    &&& bbox.spec_width() * scale < available_size.x * RATIO_ONE
    &&& bbox.spec_height() * scale < available_size.y * RATIO_ONE
}

/// The size that fills the width `ax` at the aspect ratio `w : h`, shrunk to
/// the height `ay` where it would be taller. Meaningful for positive `w`, `h`.
pub open spec fn auto_fit(w: int, h: int, ax: int, ay: int) -> (int, int) {
    if h * ax <= ay * w {
        (ax, round_div(h * ax, w))
    } else {
        (round_div(w * ay, h), ay)
    }
}

/// Whether both components are coordinates.
pub open spec fn representable(size: (int, int)) -> bool {
    i32::MIN <= size.0 <= i32::MAX && i32::MIN <= size.1 <= i32::MAX
}

impl View2DState {
    /// A scale is positive.
    pub open spec fn wf(self) -> bool {
        self.zoom matches ZoomState::Scaled { scale, .. } ==> scale > 0
    }

    /// The bounds that layout goes by: the accumulated ones, or the unit
    /// square while they have no positive area.
    pub open spec fn spec_layout_bbox(self) -> Rect {
        if self.scene_bbox_accum.spec_is_positive() {
            self.scene_bbox_accum
        } else {
            Rect::spec_unit()
        }
    }

    /// The canvas size and scroll offset that the state asks for.
    pub open spec fn spec_desired_size_and_offset(self, available_size: Vec2) -> (Vec2, Vec2) {
        let bbox = self.spec_layout_bbox();
        match self.zoom {
            ZoomState::Scaled { scale, center, .. } => (
                Vec2 {
                    x: clamp_i32(mul_ratio(bbox.spec_width(), scale as int)) as i32,
                    y: clamp_i32(mul_ratio(bbox.spec_height(), scale as int)) as i32,
                },
                Vec2 {
                    x: clamp_i32(
                        mul_ratio(center.x - bbox.min.x, scale as int) - half(
                            available_size.x as int,
                        ),
                    ) as i32,
                    y: clamp_i32(
                        mul_ratio(center.y - bbox.min.y, scale as int) - half(
                            available_size.y as int,
                        ),
                    ) as i32,
                },
            ),
            ZoomState::Auto => {
                let fit = auto_fit(
                    bbox.spec_width(),
                    bbox.spec_height(),
                    available_size.x as int,
                    available_size.y as int,
                );
                if representable(fit) {
                    (Vec2 { x: fit.0 as i32, y: fit.1 as i32 }, Vec2 { x: 0, y: 0 })
                } else {
                    (available_size, Vec2 { x: 0, y: 0 })
                }
            },
        }
    }

    /// The zoom state with which the gestures of `response` are met: a zoom-in
    /// over a view that fits automatically starts from the scale at which the
    /// bounds fill the height of the canvas, centered on the bounds.
    pub open spec fn spec_entered(self, response: ViewResponse) -> ZoomState {
        match self.zoom {
            ZoomState::Auto => match response.spec_hovered_zoom() {
                Some(zoom) if zoom > RATIO_ONE => ZoomState::Scaled {
                    scale: clamp_ratio(
                        div_ratio(
                            response.rect.spec_height(),
                            self.spec_layout_bbox().spec_height(),
                        ),
                    ) as u64,
                    center: self.spec_layout_bbox().spec_center(),
                    accepting_scroll: false,
                },
                _ => ZoomState::Auto,
            },
            scaled => scaled,
        }
    }

    /// The zoom state after the zoom and drag gestures of `response`.
    pub open spec fn spec_gestured(
        zoom: ZoomState,
        response: ViewResponse,
        ui_to_space: RectTransform,
    ) -> ZoomState {
        match zoom {
            ZoomState::Auto => ZoomState::Auto,
            ZoomState::Scaled { scale, center, .. } => {
                let new_scale = match response.spec_hovered_zoom() {
                    Some(zoom) => zoomed_scale(scale, zoom),
                    None => scale,
                };
                let zoomed = match (response.spec_hovered_zoom(), response.hover_pos) {
                    (Some(_), Some(hover_pos)) => {
                        let anchor = ui_to_space.spec_transform_pos(hover_pos);
                        Pos2 {
                            x: zoomed_center(
                                center.x as int,
                                anchor.x as int,
                                scale as int,
                                new_scale as int,
                            ) as i32,
                            y: zoomed_center(
                                center.y as int,
                                anchor.y as int,
                                scale as int,
                                new_scale as int,
                            ) as i32,
                        }
                    },
                    _ => center,
                };
                let dragged = if response.dragged_by_primary {
                    Pos2 {
                        x: dragged_center(
                            zoomed.x as int,
                            response.drag_delta.x as int,
                            new_scale as int,
                        ) as i32,
                        y: dragged_center(
                            zoomed.y as int,
                            response.drag_delta.y as int,
                            new_scale as int,
                        ) as i32,
                    }
                } else {
                    zoomed
                };
                ZoomState::Scaled {
                    scale: new_scale,
                    center: dragged,
                    accepting_scroll: response.spec_hovered_zoom().is_none()
                        && !response.dragged_by_primary,
                }
            },
        }
    }

    /// The zoom state after the reasons to fit automatically again were
    /// looked at: a double click, or content smaller than the available size.
    pub open spec fn spec_reverted(
        self,
        zoom: ZoomState,
        response: ViewResponse,
        available_size: Vec2,
    ) -> ZoomState {
        match zoom {
            ZoomState::Auto => ZoomState::Auto,
            ZoomState::Scaled { scale, .. } => if response.double_clicked || content_fits(
                self.spec_layout_bbox(),
                scale,
                available_size,
            ) {
                ZoomState::Auto
            } else {
                zoom
            },
        }
    }

    /// The zoom state after one frame of interaction.
    pub open spec fn spec_updated_zoom(
        self,
        response: ViewResponse,
        ui_to_space: RectTransform,
        available_size: Vec2,
    ) -> ZoomState {
        self.spec_reverted(
            Self::spec_gestured(self.spec_entered(response), response, ui_to_space),
            response,
            available_size,
        )
    }

    /// The zoom state after the scroll area reported `offset`.
    pub open spec fn spec_captured_zoom(self, offset: Vec2, available_size: Vec2) -> ZoomState {
        match self.zoom {
            ZoomState::Scaled { scale, center, accepting_scroll } if accepting_scroll => {
                let bbox = self.spec_layout_bbox();
                ZoomState::Scaled {
                    scale,
                    center: Pos2 {
                        x: scrolled_center(
                            bbox.min.x as int,
                            available_size.x as int,
                            offset.x as int,
                            scale as int,
                        ) as i32,
                        y: scrolled_center(
                            bbox.min.y as int,
                            available_size.y as int,
                            offset.y as int,
                            scale as int,
                        ) as i32,
                    },
                    accepting_scroll,
                }
            },
            other => other,
        }
    }

    /// The bounds that layout goes by: the accumulated ones, or the unit
    /// square while they have no positive area.
    pub fn layout_bbox(&self) -> (r: Rect)
        ensures
            r == self.spec_layout_bbox(),
            r.spec_is_positive(),
    {
        if self.scene_bbox_accum.is_positive() {
            self.scene_bbox_accum
        } else {
            Rect::unit()
        }
    }

    /// The size of the canvas that shows the scene, and the scroll offset at
    /// which the visible region starts in it.
    ///
    /// Fitted automatically, the canvas fills the available width at the
    /// aspect ratio of the bounds, or the available height where that would be
    /// taller, and is not scrolled; a size that is no coordinate gives way to
    /// the available size. Zoomed, the canvas is the bounds times the scale,
    /// scrolled so that `center` lands in the middle of the available size.
    pub fn desired_size_and_offset(&self, available_size: Vec2) -> (r: (Vec2, Vec2))
        requires
            self.wf(),
        ensures
            r == self.spec_desired_size_and_offset(available_size),
    {
        let bbox: Rect = self.layout_bbox();
        let w: i64 = bbox.width();
        let h: i64 = bbox.height();
        match self.zoom {
            ZoomState::Scaled { scale, center, .. } => {
                let desired_size = Vec2 { x: scale_up(w, scale), y: scale_up(h, scale) };
                let from_left: i128 = mul_by_ratio(center.x as i64 - bbox.min.x as i64, scale);
                let from_top: i128 = mul_by_ratio(center.y as i64 - bbox.min.y as i64, scale);
                let scroll_offset = Vec2 {
                    x: saturate(from_left - halve(available_size.x) as i128),
                    y: saturate(from_top - halve(available_size.y) as i128),
                };
                (desired_size, scroll_offset)
            },
            ZoomState::Auto => {
                let ax: i128 = available_size.x as i128;
                let ay: i128 = available_size.y as i128;
                proof {
                    lemma_product_bound(h as int, ax as int, 0x1_0000_0000, 0x1_0000_0000);
                    lemma_product_bound(ay as int, w as int, 0x1_0000_0000, 0x1_0000_0000);
                }
                let fill_width: i128 = (h as i128) * ax;
                let fill_height: i128 = ay * (w as i128);
                let (fx, fy): (i128, i128) = if fill_width <= fill_height {
                    (ax, div_round(fill_width, w as i128))
                } else {
                    (div_round(fill_height, h as i128), ay)
                };
                if -2147483648 <= fx && fx <= 2147483647 && -2147483648 <= fy && fy <= 2147483647 {
                    (Vec2 { x: fx as i32, y: fy as i32 }, Vec2::zero())
                } else {
                    (available_size, Vec2::zero())
                }
            },
        }
    }

    /// Whether the bounds at `scale` are smaller than the available size on
    /// both axes.
    pub fn fits(&self, scale: u64, available_size: Vec2) -> (b: bool)
        ensures
            b == content_fits(self.spec_layout_bbox(), scale, available_size),
    {
        let bbox: Rect = self.layout_bbox();
        let w: i128 = bbox.width() as i128;
        let h: i128 = bbox.height() as i128;
        let s: i128 = scale as i128;
        let ax: i128 = available_size.x as i128;
        let ay: i128 = available_size.y as i128;
        proof {
            lemma_product_bound(w as int, s as int, 0x1_0000_0000, 0x1_0000_0000_0000_0000);
            lemma_product_bound(h as int, s as int, 0x1_0000_0000, 0x1_0000_0000_0000_0000);
            lemma_product_bound(ax as int, RATIO_ONE as int, 0x1_0000_0000, 0x1_0000_0000);
            lemma_product_bound(ay as int, RATIO_ONE as int, 0x1_0000_0000, 0x1_0000_0000);
        }
        w * s < ax * (RATIO_ONE as i128) && h * s < ay * (RATIO_ONE as i128)
    }

    /// Takes one frame of interaction into the zoom state.
    ///
    /// A zoom-in over a view that fits automatically starts a zoom. While
    /// zoomed, a zoom gesture multiplies the scale and moves the center so
    /// that the scene stays put under the pointer; a drag with the primary
    /// button moves the center against the drag. The next scroll offset is
    /// accepted only after a frame without either. A double click, or content
    /// that has become smaller than the available size, goes back to the
    /// automatic fit.
    pub fn update(
        &mut self,
        response: &ViewResponse,
        ui_to_space: RectTransform,
        available_size: Vec2,
    )
        requires
            old(self).wf(),
        ensures
            final(self).wf(),
            final(self).zoom == old(self).spec_updated_zoom(
                *response,
                ui_to_space,
                available_size,
            ),
            final(self).hovered_instance == old(self).hovered_instance,
            final(self).scene_bbox_accum == old(self).scene_bbox_accum,
    {
        let hovered_zoom: Option<u64> = response.hovered_zoom();
        let bbox: Rect = self.layout_bbox();

        let entered: ZoomState = match self.zoom {
            ZoomState::Auto => match hovered_zoom {
                Some(zoom) => if zoom > RATIO_ONE {
                    ZoomState::Scaled {
                        scale: ratio_of(response.rect.height(), bbox.height()),
                        center: bbox.center(),
                        accepting_scroll: false,
                    }
                } else {
                    ZoomState::Auto
                },
                None => ZoomState::Auto,
            },
            scaled => scaled,
        };

        let gestured: ZoomState = match entered {
            ZoomState::Auto => ZoomState::Auto,
            ZoomState::Scaled { scale, center, .. } => {
                let mut scale: u64 = scale;
                let mut center: Pos2 = center;
                let mut accepting_scroll: bool = true;
                if let Some(zoom) = hovered_zoom {
                    let new_scale: u64 = compose_ratio(scale, zoom);
                    if let Some(hover_pos) = response.hover_pos {
                        let zoom_loc: Pos2 = ui_to_space.transform_pos(hover_pos);
                        center = Pos2 {
                            x: zoom_toward(center.x, zoom_loc.x, scale, new_scale),
                            y: zoom_toward(center.y, zoom_loc.y, scale, new_scale),
                        };
                    }
                    scale = new_scale;
                    accepting_scroll = false;
                }
                if response.dragged_by_primary {
                    center = Pos2 {
                        x: saturate(
                            center.x as i128 - div_by_ratio(response.drag_delta.x as i64, scale),
                        ),
                        y: saturate(
                            center.y as i128 - div_by_ratio(response.drag_delta.y as i64, scale),
                        ),
                    };
                    accepting_scroll = false;
                }
                ZoomState::Scaled { scale, center, accepting_scroll }
            },
        };

        self.zoom = match gestured {
            ZoomState::Auto => ZoomState::Auto,
            ZoomState::Scaled { scale, .. } => if response.double_clicked || self.fits(
                scale,
                available_size,
            ) {
                ZoomState::Auto
            } else {
                gestured
            },
        };
    }

    /// Takes the offset that the scroll area settled on back into the center,
    /// so that the pan follows what is on the screen. Only a zoomed state that
    /// accepts scrolling changes.
    pub fn capture_scroll(&mut self, offset: Vec2, available_size: Vec2)
        requires
            old(self).wf(),
        ensures
            final(self).wf(),
            final(self).zoom == old(self).spec_captured_zoom(offset, available_size),
            final(self).hovered_instance == old(self).hovered_instance,
            final(self).scene_bbox_accum == old(self).scene_bbox_accum,
    {
        if let ZoomState::Scaled { scale, accepting_scroll, .. } = self.zoom {
            if accepting_scroll {
                let bbox: Rect = self.layout_bbox();
                let shown_x: i64 = halve(available_size.x) as i64 + offset.x as i64;
                let shown_y: i64 = halve(available_size.y) as i64 + offset.y as i64;
                let center = Pos2 {
                    x: saturate(bbox.min.x as i128 + div_by_ratio(shown_x, scale)),
                    y: saturate(bbox.min.y as i128 + div_by_ratio(shown_y, scale)),
                };
                self.zoom = ZoomState::Scaled { scale, center, accepting_scroll };
            }
        }
    }
}

/// `zoomed_center` on machine integers.
fn zoom_toward(center: i32, anchor: i32, old_scale: u64, new_scale: u64) -> (c: i32)
    requires
        new_scale > 0,
    ensures
        c == zoomed_center(center as int, anchor as int, old_scale as int, new_scale as int),
{
    let dist: i128 = anchor as i128 - center as i128;
    let growth: i128 = new_scale as i128 - old_scale as i128;
    proof {
        lemma_product_bound(dist as int, growth as int, 0x1_0000_0000, 0x1_0000_0000_0000_0000);
    }
    let shift: i128 = div_round(dist * growth, new_scale as i128);
    proof {
        lemma_round_div_magnitude((dist as int) * (growth as int), new_scale as int);
    }
    saturate(center as i128 + shift)
}

} // verus!
