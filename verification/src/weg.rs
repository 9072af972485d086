//! One dock instance: its overlap state machine and its placement.
//!
//! The instance keeps the dock's hidden flag, its overlapped flag and the
//! rectangle it currently reserves. Foreground-change observations drive
//! the overlapped flag; an "auto-hide" notification is owed exactly when
//! the flag flips, so downstream consumers can treat each notification as
//! an edge trigger.

use vstd::prelude::*;
use crate::events::{opt_event_view, WegEvent, WegEventView};
use crate::geometry::{are_overlaped, rects_overlap, Rect};
use crate::positioner::{
    hidden_rect_for, placement_inputs_ok, reservation_rect_for, scaled_size, spec_scaled_size,
    theoretical_rect_for, DockPlacementPlan, HideMode, SeelenWegSide,
};
use crate::text::str_eq;

verus! {

/// What the caller observed about the foreground window before asking the
/// dock to re-evaluate its overlap state.
pub struct ForegroundInfo {
    /// The window is currently visible.
    pub is_visible: bool,
    /// The window is one of the dock's own surfaces.
    pub is_seelen_overlay: bool,
    /// The window's current title.
    pub title: String,
    /// The window's executable name; empty when it could not be resolved.
    pub exe: String,
    /// The window's on-screen rectangle with any drop-shadow border
    /// trimmed.
    pub rect: Rect,
}

/// Foreground titles that never drive the auto-hide state.
pub open spec fn overlap_excluded_title(t: Seq<char>) -> bool {
    t == ""@ || t == "Task Switching"@
}

/// Foreground executables that never drive the auto-hide state.
pub open spec fn overlap_excluded_exe(e: Seq<char>) -> bool {
    ||| e == "SearchHost.exe"@
    ||| e == "StartMenuExperienceHost.exe"@
    ||| e == "ShellExperienceHost.exe"@
    ||| e == "msedgewebview2.exe"@
}

/// A foreground observation that must not change the dock's overlap state:
/// the window is invisible, is the dock's own surface, or its title or
/// executable is on the fixed exclusion list.
pub open spec fn overlap_exempt(fg: ForegroundInfo) -> bool {
    ||| !fg.is_visible
    ||| fg.is_seelen_overlay
    ||| overlap_excluded_title(fg.title@)
    ||| overlap_excluded_exe(fg.exe@)
}

/// One debounce step: the stored flag, the observed overlap, the new flag
/// and the notification owed. A notification is owed exactly when the
/// observation differs from the stored flag.
pub open spec fn overlap_step(overlaped: bool, observed: bool) -> (bool, Option<bool>) {
    if overlaped == observed {
        (overlaped, None)
    } else {
        (observed, Some(observed))
    }
}

/// The auto-hide notifications owed over a run of overlap observations,
/// starting from the stored flag `overlaped`.
pub open spec fn overlap_emissions(overlaped: bool, observations: Seq<bool>) -> Seq<bool>
    decreases observations.len(),
{
    if observations.len() == 0 {
        Seq::empty()
    } else {
        let step = overlap_step(overlaped, observations[0]);
        match step.1 {
            Some(b) => seq![b] + overlap_emissions(step.0, observations.skip(1)),
            None => overlap_emissions(step.0, observations.skip(1)),
        }
    }
}

/// One dock instance.
pub struct SeelenWeg {
    /// The dock's own window is currently hidden from the screen.
    pub hidden: bool,
    /// The reserved region is currently overlapped by the foreground
    /// window.
    pub overlaped: bool,
    /// The rectangle the dock occupies while shown.
    pub theoretical_rect: Rect,
}

impl SeelenWeg {
    /// A fresh instance: shown, unoverlapped, with no geometry yet.
    pub fn new() -> (w: SeelenWeg)
        ensures
            w == (SeelenWeg {
                hidden: false,
                overlaped: false,
                theoretical_rect: Rect { left: 0, top: 0, right: 0, bottom: 0 },
            }),
    {
        SeelenWeg { hidden: false, overlaped: false, theoretical_rect: Rect::zeroed() }
    }

    /// Records that the dock's window was hidden.
    pub fn hide_dock(&mut self)
        ensures
            *final(self) == (SeelenWeg { hidden: true, ..*old(self) }),
    {
        self.hidden = true;
    }

    /// Records that the dock's window was shown.
    pub fn show(&mut self)
        ensures
            *final(self) == (SeelenWeg { hidden: false, ..*old(self) }),
    {
        self.hidden = false;
    }

    /// Whether a window rectangle intersects the dock's reserved
    /// rectangle.
    pub fn is_overlapping(&self, window_rect: &Rect) -> (r: bool)
        ensures
            r == rects_overlap(self.theoretical_rect, *window_rect),
    {
        are_overlaped(&self.theoretical_rect, window_rect)
    }

    /// Stores a freshly observed overlap state.
    ///
    /// When the observation equals the stored flag nothing changes and
    /// nothing is owed; when it differs the flag is updated and exactly
    /// one "auto-hide" notification carrying the new value is owed.
    pub fn set_overlaped_status(&mut self, is_overlaped: bool) -> (r: Option<WegEvent>)
        ensures
            final(self).overlaped == overlap_step(old(self).overlaped, is_overlaped).0,
            final(self).hidden == old(self).hidden,
            final(self).theoretical_rect == old(self).theoretical_rect,
            opt_event_view(r) == match overlap_step(old(self).overlaped, is_overlaped).1 {
                Some(b) => Some(WegEventView::SetAutoHide(b)),
                None => None::<WegEventView>,
            },
    {
        if self.overlaped == is_overlaped {
            return None;
        }
        self.overlaped = is_overlaped;
        Some(WegEvent::SetAutoHide(is_overlaped))
    }

    /// Re-evaluates the overlap state against a foreground observation.
    ///
    /// An exempt observation — the dock's own surface, an excluded title
    /// or executable, or an invisible window — retains the prior state and
    /// owes nothing. Otherwise the observation is whether the foreground
    /// rectangle intersects the reserved rectangle, debounced as in
    /// [`Self::set_overlaped_status`].
    pub fn handle_overlaped_status(&mut self, fg: &ForegroundInfo) -> (r: Option<WegEvent>)
        ensures
            overlap_exempt(*fg) ==> *final(self) == *old(self) && r is None,
            !overlap_exempt(*fg) ==> ({
                let observed = rects_overlap(old(self).theoretical_rect, fg.rect);
                &&& final(self).overlaped == overlap_step(old(self).overlaped, observed).0
                &&& final(self).hidden == old(self).hidden
                &&& final(self).theoretical_rect == old(self).theoretical_rect
                &&& opt_event_view(r) == match overlap_step(old(self).overlaped, observed).1 {
                    Some(b) => Some(WegEventView::SetAutoHide(b)),
                    None => None::<WegEventView>,
                }
            }),
    {
        let exempt = !fg.is_visible || fg.is_seelen_overlay || overlap_title_excluded(
            fg.title.as_str(),
        ) || overlap_exe_excluded(fg.exe.as_str());
        if exempt {
            return None;
        }
        let observed = self.is_overlapping(&fg.rect);
        self.set_overlaped_status(observed)
    }

    /// Recomputes the dock's geometry for a monitor.
    ///
    /// Derives the reserved rectangle and the one-pixel sliver from the
    /// work area, side, thickness and scale; stores the reserved
    /// rectangle; and returns the plan the caller must carry out: register
    /// the chosen rectangle with the shell, then place the dock's window
    /// in the two observed steps.
    pub fn set_positions(
        &mut self,
        work_area: Rect,
        side: SeelenWegSide,
        total_size: u32,
        scale_hundredths: u32,
        hide_mode: HideMode,
    ) -> (plan: DockPlacementPlan)
        requires
            placement_inputs_ok(work_area, side, spec_scaled_size(total_size, scale_hundredths)),
        ensures
            ({
                let scaled = spec_scaled_size(total_size, scale_hundredths);
                &&& final(self).theoretical_rect == theoretical_rect_for(work_area, side, scaled)
                &&& final(self).hidden == old(self).hidden
                &&& final(self).overlaped == old(self).overlaped
                &&& plan == (DockPlacementPlan {
                    edge: side,
                    theoretical_rect: theoretical_rect_for(work_area, side, scaled),
                    hidden_rect: hidden_rect_for(work_area, side),
                    hide_mode,
                    work_area,
                    reservation_rect: reservation_rect_for(work_area, side, scaled, hide_mode),
                    pre_position_rect: work_area,
                    final_position_rect: work_area,
                })
            }),
    {
        let scaled64 = scaled_size(total_size, scale_hundredths);
        let scaled = scaled64 as i32;
        let mut theoretical = work_area;
        let mut hidden_rect = work_area;
        match side {
            SeelenWegSide::Left => {
                theoretical.right = work_area.left + scaled;
                hidden_rect.right = work_area.left + 1;
            },
            SeelenWegSide::Right => {
                theoretical.left = work_area.right - scaled;
                hidden_rect.left = work_area.right - 1;
            },
            SeelenWegSide::Top => {
                theoretical.bottom = work_area.top + scaled;
                hidden_rect.bottom = work_area.top + 1;
            },
            SeelenWegSide::Bottom => {
                theoretical.top = work_area.bottom - scaled;
                hidden_rect.top = work_area.bottom - 1;
            },
        }
        self.theoretical_rect = theoretical;
        let reservation_rect = match hide_mode {
            HideMode::Never => theoretical,
            _ => hidden_rect,
        };
        DockPlacementPlan {
            edge: side,
            theoretical_rect: theoretical,
            hidden_rect,
            hide_mode,
            work_area,
            reservation_rect,
            pre_position_rect: work_area,
            final_position_rect: work_area,
        }
    }

    /// The notifications owed when a window takes the foreground: its id,
    /// then its executable path.
    pub fn set_active_window(hwnd: isize, exe: String) -> (r: (WegEvent, WegEvent))
        ensures
            r.0@ == WegEventView::SetFocusedHandle(hwnd),
            r.1@ == WegEventView::SetFocusedExecutable(exe@),
    {
        (WegEvent::SetFocusedHandle(hwnd), WegEvent::SetFocusedExecutable(exe))
    }
}

/// Whether `t` is on the fixed overlap exclusion list of titles.
pub fn overlap_title_excluded(t: &str) -> (r: bool)
    ensures
        r == overlap_excluded_title(t@),
{
    str_eq(t, "") || str_eq(t, "Task Switching")
}

/// Whether `e` is on the fixed overlap exclusion list of executables.
pub fn overlap_exe_excluded(e: &str) -> (r: bool)
    ensures
        r == overlap_excluded_exe(e@),
{
    str_eq(e, "SearchHost.exe") || str_eq(e, "StartMenuExperienceHost.exe") || str_eq(
        e,
        "ShellExperienceHost.exe",
    ) || str_eq(e, "msedgewebview2.exe")
}

/// On the observation run [free, free, overlap, overlap, free] a tracker
/// that starts unoverlapped owes exactly two auto-hide notifications, in
/// order: `true`, then `false`.
pub proof fn lemma_overlap_debounce()
    ensures
        overlap_emissions(false, seq![false, false, true, true, false]) =~= seq![true, false],
{
    let s0 = seq![false, false, true, true, false];
    let s1 = seq![false, true, true, false];
    let s2 = seq![true, true, false];
    let s3 = seq![true, false];
    let s4 = seq![false];
    let s5 = Seq::<bool>::empty();
    assert(s0.skip(1) =~= s1);
    assert(s1.skip(1) =~= s2);
    assert(s2.skip(1) =~= s3);
    assert(s3.skip(1) =~= s4);
    assert(s4.skip(1) =~= s5);
    assert(overlap_emissions(false, s5) =~= Seq::<bool>::empty());
    assert(overlap_emissions(true, s4) =~= seq![false]);
    assert(overlap_emissions(true, s3) =~= seq![false]);
    assert(overlap_emissions(false, s2) =~= seq![true, false]);
    assert(overlap_emissions(false, s1) =~= seq![true, false]);
    assert(overlap_emissions(false, s0) =~= seq![true, false]);
}

} // verus!
