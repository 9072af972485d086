//! Outbound notifications the dock emits toward its user-interface layer.
//!
//! The library never delivers a notification itself: mutating operations
//! return the notifications they owe, and the caller delivers them and
//! decides what to do with a delivery failure.

use vstd::prelude::*;
use crate::registry::{AppView, SeelenWegApp};

verus! {

/// A notification owed to the user-interface layer. The wire name of each
/// variant is given by [`WegEvent::event_name`].
pub enum WegEvent {
    /// A newly admitted window, with its full entry.
    AddOpenApp(SeelenWegApp),
    /// An existing entry whose title was re-read.
    UpdateOpenAppInfo(SeelenWegApp),
    /// A window that left the registry, by id.
    RemoveOpenApp(isize),
    /// The whole registry in insertion order, in reply to a bulk-list request.
    AddMultipleOpenApps(Vec<SeelenWegApp>),
    /// The window id that took the foreground.
    SetFocusedHandle(isize),
    /// The executable path behind the foreground window.
    SetFocusedExecutable(String),
    /// The dock's auto-hide toggle: `true` when the reserved region became
    /// overlapped, `false` when it became free again.
    SetAutoHide(bool),
}

/// The mathematical image of a [`WegEvent`]: strings as character sequences,
/// entries as [`AppView`]s.
pub ghost enum WegEventView {
    AddOpenApp(AppView),
    UpdateOpenAppInfo(AppView),
    RemoveOpenApp(isize),
    AddMultipleOpenApps(Seq<AppView>),
    SetFocusedHandle(isize),
    SetFocusedExecutable(Seq<char>),
    SetAutoHide(bool),
}

impl View for WegEvent {
    type V = WegEventView;

    open spec fn view(&self) -> WegEventView {
        match self {
            WegEvent::AddOpenApp(a) => WegEventView::AddOpenApp(a@),
            WegEvent::UpdateOpenAppInfo(a) => WegEventView::UpdateOpenAppInfo(a@),
            WegEvent::RemoveOpenApp(h) => WegEventView::RemoveOpenApp(*h),
            WegEvent::AddMultipleOpenApps(v) => WegEventView::AddMultipleOpenApps(
                crate::registry::views_of(v@),
            ),
            WegEvent::SetFocusedHandle(h) => WegEventView::SetFocusedHandle(*h),
            WegEvent::SetFocusedExecutable(e) => WegEventView::SetFocusedExecutable(e@),
            WegEvent::SetAutoHide(b) => WegEventView::SetAutoHide(*b),
        }
    }
}

/// The view of an optional notification.
pub open spec fn opt_event_view(r: Option<WegEvent>) -> Option<WegEventView> {
    match r {
        Some(e) => Some(e@),
        None => None,
    }
}

impl WegEvent {
    /// The event name under which this notification travels to the
    /// user-interface layer.
    pub fn event_name(&self) -> (r: &'static str)
        ensures
            r@ == self.spec_event_name(),
    {
        match self {
            WegEvent::AddOpenApp(_) => "add-open-app",
            WegEvent::UpdateOpenAppInfo(_) => "update-open-app-info",
            WegEvent::RemoveOpenApp(_) => "remove-open-app",
            WegEvent::AddMultipleOpenApps(_) => "add-multiple-open-apps",
            WegEvent::SetFocusedHandle(_) => "set-focused-handle",
            WegEvent::SetFocusedExecutable(_) => "set-focused-executable",
            WegEvent::SetAutoHide(_) => "set-auto-hide",
        }
    }

    /// The wire name, at the specification level.
    pub open spec fn spec_event_name(&self) -> Seq<char> {
        match self {
            WegEvent::AddOpenApp(_) => "add-open-app"@,
            WegEvent::UpdateOpenAppInfo(_) => "update-open-app-info"@,
            WegEvent::RemoveOpenApp(_) => "remove-open-app"@,
            WegEvent::AddMultipleOpenApps(_) => "add-multiple-open-apps"@,
            WegEvent::SetFocusedHandle(_) => "set-focused-handle"@,
            WegEvent::SetFocusedExecutable(_) => "set-focused-executable"@,
            WegEvent::SetAutoHide(_) => "set-auto-hide"@,
        }
    }
}

} // verus!
