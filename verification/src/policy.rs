//! The admission policy: should a given window be tracked by the dock.
//!
//! The policy is a pure predicate over a window's queryable attributes. The
//! caller gathers the attributes from the window manager and hands them in
//! as plain values; the verdict depends on nothing else.

use vstd::prelude::*;
use crate::text::{is_prefix_of, str_eq, str_starts_with};

verus! {

/// The outcome of resolving a window's "frame creator": the genuine
/// top-level owning window behind a lightweight host frame.
#[derive(Clone, Copy, Debug, PartialEq, Eq, Structural)]
pub enum FrameCreatorResolution {
    /// Resolution succeeded and named the owning window.
    Resolved(isize),
    /// Resolution succeeded and reported that there is no creator.
    NoCreator,
    /// Resolution failed with an error.
    Failed,
}

/// The queryable attributes of one window, gathered at evaluation time.
pub struct WindowAttributes {
    /// The window's own id.
    pub hwnd: isize,
    /// The window is currently visible.
    pub is_visible: bool,
    /// The window has an owning parent window.
    pub has_parent: bool,
    /// The window is one of the dock's own surfaces.
    pub is_seelen_overlay: bool,
    /// Extended style carries the tool-window flag.
    pub is_tool_window: bool,
    /// Extended style carries the no-activate flag.
    pub is_no_activate: bool,
    /// Extended style carries the explicit app-window flag.
    pub is_app_window: bool,
    /// The frame-creator resolution for this window.
    pub frame_creator: FrameCreatorResolution,
    /// The window belongs to a suspended packaged application. A failed
    /// query counts as not suspended.
    pub is_uwp_suspended: bool,
    /// The backing executable path, when it could be resolved.
    pub exe: Option<String>,
    /// Per-application configuration marks this window as hidden.
    pub config_hidden: bool,
    /// The window's current title.
    pub title: String,
}

/// Titles that are never admitted.
pub open spec fn title_black_listed(t: Seq<char>) -> bool {
    ||| t == ""@
    ||| t == "Task Switching"@
    ||| t == "DesktopWindowXamlSource"@
    ||| t == "Program Manager"@
}

/// The protected system-package directory: windows whose executable lives
/// under it are never admitted.
pub open spec fn under_system_apps(path: Seq<char>) -> bool {
    is_prefix_of("C:\\Windows\\SystemApps"@, path)
}

/// The admission verdict for a window with attributes `w`.
pub open spec fn admitted(w: WindowAttributes) -> bool {
    &&& w.is_visible
    &&& !w.has_parent
    &&& !w.is_seelen_overlay
    &&& !((w.is_tool_window || w.is_no_activate) && !w.is_app_window)
    &&& !(w.frame_creator is NoCreator)
    &&& !w.is_uwp_suspended
    &&& (w.exe matches Some(p) ==> !under_system_apps(p@))
    &&& !w.config_hidden
    &&& !title_black_listed(w.title@)
}

/// Whether the window described by `w` should be tracked by the dock.
///
/// Evaluates the admission conditions in order, short-circuiting on the
/// first failing one: visibility, no owning parent, not the dock's own
/// surface, extended styles, frame-creator resolution, packaged-app
/// suspension, protected system directory, per-application configuration,
/// and the fixed title exclusions.
pub fn should_be_added(w: &WindowAttributes) -> (r: bool)
    ensures
        r == admitted(*w),
{
    if !w.is_visible || w.has_parent || w.is_seelen_overlay {
        return false;
    }

    if (w.is_tool_window || w.is_no_activate) && !w.is_app_window {
        return false;
    }

    if matches!(w.frame_creator, FrameCreatorResolution::NoCreator) {
        return false;
    }

    if w.is_uwp_suspended {
        return false;
    }

    if let Some(path) = &w.exe {
        if str_starts_with(path.as_str(), "C:\\Windows\\SystemApps") {
            return false;
        }
    }

    if w.config_hidden {
        return false;
    }

    !title_matches_black_list(w.title.as_str())
}

/// Whether `t` is one of the fixed title exclusions.
pub fn title_matches_black_list(t: &str) -> (r: bool)
    ensures
        r == title_black_listed(t@),
{
    str_eq(t, "") || str_eq(t, "Task Switching") || str_eq(t, "DesktopWindowXamlSource") || str_eq(
        t,
        "Program Manager",
    )
}

/// The window to treat as a window's creator, given its frame-creator
/// resolution: an explicit "no creator" yields none and aborts tracking, a
/// failed resolution falls back to the window itself.
pub open spec fn creator_of(hwnd: isize, r: FrameCreatorResolution) -> Option<isize> {
    match r {
        FrameCreatorResolution::Resolved(c) => Some(c),
        FrameCreatorResolution::NoCreator => None,
        FrameCreatorResolution::Failed => Some(hwnd),
    }
}

/// Resolves which window id stands as the creator of `hwnd`.
pub fn resolve_creator(hwnd: isize, r: &FrameCreatorResolution) -> (c: Option<isize>)
    ensures
        c == creator_of(hwnd, *r),
{
    match r {
        FrameCreatorResolution::Resolved(c) => Some(*c),
        FrameCreatorResolution::NoCreator => None,
        FrameCreatorResolution::Failed => Some(hwnd),
    }
}

/// The admission verdict is a pure function of the attribute set: equal
/// observations give equal verdicts, however often and in whatever order
/// the policy is evaluated.
pub proof fn lemma_admission_deterministic(a: WindowAttributes, b: WindowAttributes)
    requires
        a == b,
    ensures
        admitted(a) == admitted(b),
{
}

} // verus!
