//! A pannable, zoomable 2D viewport in fixed-point arithmetic: the layout of
//! the scrollable canvas, the transform between screen and scene, the search
//! for the primitive under the pointer, and the hover record shared with
//! linked views.
//!
//! Every coordinate is an `i32` counting sub-units, [`fixed::UNIT`] to the
//! whole unit. Every ratio (a scale, a zoom factor) is a `u64` with
//! [`fixed::RATIO_ONE`] standing for 1. Intermediate results are exact;
//! what is stored is rounded to the nearest sub-unit and held to the range of
//! its type.
//!
//! A frame takes two calls, between which the host runs its scroll area:
//! [`frame::view_2d`] says what to ask of the scroll area, and
//! [`frame::view_2d_scrollable`] works on the canvas that comes back. The
//! modules below them can be used on their own.

pub mod fixed;
pub mod frame;
pub mod geometry;
pub mod hover;
pub mod label;
pub mod overlay;
pub mod render;
pub mod scene;
pub mod theorems;
pub mod tooltip;
pub mod viewport;
