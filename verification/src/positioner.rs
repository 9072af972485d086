//! Dock geometry: the rectangles the dock reserves along a screen edge.
//!
//! From a monitor's work area, the configured side, the configured
//! thickness in device-independent units and the monitor's pixel scale, the
//! positioner derives the dock's reserved rectangle, the one-pixel sliver
//! it collapses to while hidden, and which of the two is registered with
//! the shell under each hide mode.

use vstd::prelude::*;
use crate::geometry::Rect;

verus! {

/// The screen edge the dock sits on.
#[derive(Clone, Copy, Debug, PartialEq, Eq, Structural)]
pub enum SeelenWegSide {
    Left,
    Right,
    Top,
    Bottom,
}

/// When the dock yields its reserved region to other windows.
#[derive(Clone, Copy, Debug, PartialEq, Eq, Structural)]
pub enum HideMode {
    /// The dock is permanently visible and permanently reserves space.
    Never,
    /// The dock hides whenever it is not being used.
    Always,
    /// The dock hides while a foreground window overlaps it.
    OnOverlap,
}

/// The thickness in device pixels: the configured thickness times the
/// monitor scale, truncated toward zero. The scale is given in hundredths,
/// so a scale of one and a quarter is `125`.
pub open spec fn spec_scaled_size(total_size: u32, scale_hundredths: u32) -> int {
    (total_size * scale_hundredths) / 100
}

/// Computes the scaled thickness.
pub fn scaled_size(total_size: u32, scale_hundredths: u32) -> (r: u64)
    ensures
        r == spec_scaled_size(total_size, scale_hundredths),
{
    proof {
        assert(total_size * scale_hundredths <= 0xffff_ffff * 0xffff_ffff) by (nonlinear_arith)
            requires
                total_size <= 0xffff_ffffu32,
                scale_hundredths <= 0xffff_ffffu32,
        ;
    }
    (total_size as u64) * (scale_hundredths as u64) / 100
}

/// The work area with the edge on the configured side moved inward by
/// `scaled`: the rectangle the dock occupies while shown.
pub open spec fn theoretical_rect_for(work_area: Rect, side: SeelenWegSide, scaled: int) -> Rect {
    match side {
        SeelenWegSide::Left => Rect { right: (work_area.left + scaled) as i32, ..work_area },
        SeelenWegSide::Right => Rect { left: (work_area.right - scaled) as i32, ..work_area },
        SeelenWegSide::Top => Rect { bottom: (work_area.top + scaled) as i32, ..work_area },
        SeelenWegSide::Bottom => Rect { top: (work_area.bottom - scaled) as i32, ..work_area },
    }
}

/// The work area collapsed to a one-pixel sliver on the same edge: the
/// rectangle registered while the dock is logically hidden, so the
/// reserved region shrinks to almost nothing without destroying the dock's
/// window.
pub open spec fn hidden_rect_for(work_area: Rect, side: SeelenWegSide) -> Rect {
    match side {
        SeelenWegSide::Left => Rect { right: (work_area.left + 1) as i32, ..work_area },
        SeelenWegSide::Right => Rect { left: (work_area.right - 1) as i32, ..work_area },
        SeelenWegSide::Top => Rect { bottom: (work_area.top + 1) as i32, ..work_area },
        SeelenWegSide::Bottom => Rect { top: (work_area.bottom - 1) as i32, ..work_area },
    }
}

/// The rectangle registered with the shell: the full reserved rectangle
/// when the dock never hides, and the one-pixel sliver under every other
/// hide mode, so other windows may use the region while the dock is not
/// shown.
pub open spec fn reservation_rect_for(
    work_area: Rect,
    side: SeelenWegSide,
    scaled: int,
    hide_mode: HideMode,
) -> Rect {
    if hide_mode is Never {
        theoretical_rect_for(work_area, side, scaled)
    } else {
        hidden_rect_for(work_area, side)
    }
}

/// The machine limits on placement arithmetic: the scaled thickness and
/// the moved edge must stay within the coordinate range.
pub open spec fn placement_inputs_ok(work_area: Rect, side: SeelenWegSide, scaled: int) -> bool {
    &&& 0 <= scaled <= i32::MAX
    &&& match side {
        SeelenWegSide::Left => work_area.left + scaled <= i32::MAX && work_area.left + 1
            <= i32::MAX,
        SeelenWegSide::Right => i32::MIN <= work_area.right - scaled && i32::MIN <= work_area.right
            - 1,
        SeelenWegSide::Top => work_area.top + scaled <= i32::MAX && work_area.top + 1 <= i32::MAX,
        SeelenWegSide::Bottom => i32::MIN <= work_area.bottom - scaled && i32::MIN
            <= work_area.bottom - 1,
    }
}

/// Everything the caller must hand to the window manager after the dock's
/// geometry was recomputed: the edge and rectangle to register with the
/// shell, and the two placement steps for the dock's own window.
///
/// Both placement steps use the full work area: the first forces the
/// window manager to recompute scale-dependent resources, and the second
/// repositions the window; the observed behavior keeps the full work area
/// for the second step as well, and that two-step structure is preserved
/// here deliberately.
#[derive(Clone, Copy, Debug, PartialEq, Eq, Structural)]
pub struct DockPlacementPlan {
    /// The screen edge to register the reservation on.
    pub edge: SeelenWegSide,
    /// The rectangle the dock occupies while shown.
    pub theoretical_rect: Rect,
    /// The one-pixel sliver on the same edge.
    pub hidden_rect: Rect,
    /// The hide mode the plan was computed under.
    pub hide_mode: HideMode,
    /// The work area the plan was derived from.
    pub work_area: Rect,
    /// The rectangle to register with the shell.
    pub reservation_rect: Rect,
    /// Where to place the dock's window first.
    pub pre_position_rect: Rect,
    /// Where to place the dock's window afterwards.
    pub final_position_rect: Rect,
}

/// The rectangle handed to the shell is the full reserved rectangle
/// exactly when the hide mode is `Never`, and the one-pixel sliver under
/// every other hide mode, on every side.
pub proof fn lemma_reservation_rect_selection(
    work_area: Rect,
    side: SeelenWegSide,
    scaled: int,
    hide_mode: HideMode,
)
    ensures
        hide_mode is Never ==> reservation_rect_for(work_area, side, scaled, hide_mode)
            == theoretical_rect_for(work_area, side, scaled),
        !(hide_mode is Never) ==> reservation_rect_for(work_area, side, scaled, hide_mode)
            == hidden_rect_for(work_area, side),
{
}

} // verus!
