//! The registry of tracked windows.
//!
//! An ordered, exclusive-access store of the windows the dock shows.
//! Mutations return the notification they owe to the user-interface layer;
//! the caller delivers it. The registry never has two entries with the same
//! identity, and never gains an entry whose id matches an earlier entry's
//! recorded frame-creator id.

use vstd::prelude::*;
use crate::events::{opt_event_view, WegEvent, WegEventView};
use crate::policy::{creator_of, FrameCreatorResolution};

verus! {

/// One tracked window, as surfaced to the user-interface layer.
#[derive(Debug)]
pub struct SeelenWegApp {
    /// The window's own id.
    pub hwnd: isize,
    /// The backing executable path; empty when it could not be resolved.
    pub exe: String,
    /// The window's display title.
    pub title: String,
    /// The cached icon file for the executable, or the missing-icon
    /// fallback.
    pub icon_path: String,
    /// The user-facing launch path: the packaged-application shell path
    /// when the executable is packaged, else the raw executable path.
    pub execution_path: String,
    /// The id of the window's frame creator.
    pub creator_hwnd: isize,
}

/// The mathematical image of a tracked-window entry.
pub ghost struct AppView {
    pub hwnd: isize,
    pub exe: Seq<char>,
    pub title: Seq<char>,
    pub icon_path: Seq<char>,
    pub execution_path: Seq<char>,
    pub creator_hwnd: isize,
}

impl View for SeelenWegApp {
    type V = AppView;

    open spec fn view(&self) -> AppView {
        AppView {
            hwnd: self.hwnd,
            exe: self.exe@,
            title: self.title@,
            icon_path: self.icon_path@,
            execution_path: self.execution_path@,
            creator_hwnd: self.creator_hwnd,
        }
    }
}

impl Clone for SeelenWegApp {
    /// A clone is equal to the original, field for field.
    fn clone(&self) -> (r: Self)
        ensures
            r == *self,
    {
        SeelenWegApp {
            hwnd: self.hwnd,
            exe: self.exe.clone(),
            title: self.title.clone(),
            icon_path: self.icon_path.clone(),
            execution_path: self.execution_path.clone(),
            creator_hwnd: self.creator_hwnd,
        }
    }
}

/// The views of a sequence of entries.
pub open spec fn views_of(s: Seq<SeelenWegApp>) -> Seq<AppView> {
    s.map_values(|a: SeelenWegApp| a@)
}

/// No entry repeats an identity, and no entry's id matches an earlier
/// entry's recorded frame-creator id.
pub open spec fn registry_wf(v: Seq<AppView>) -> bool {
    forall|i: int, j: int|
        0 <= i < j < v.len() ==> v[j].hwnd != v[i].hwnd && v[j].hwnd != v[i].creator_hwnd
}

/// Some entry has this id, or records it as its frame creator.
pub open spec fn contains_id(v: Seq<AppView>, hwnd: isize) -> bool {
    exists|i: int| 0 <= i < v.len() && (v[i].hwnd == hwnd || v[i].creator_hwnd == hwnd)
}

/// Some entry has exactly this id.
pub open spec fn contains_hwnd(v: Seq<AppView>, hwnd: isize) -> bool {
    exists|i: int| 0 <= i < v.len() && v[i].hwnd == hwnd
}

/// The position of the entry with this id.
pub open spec fn index_of_hwnd(v: Seq<AppView>, hwnd: isize) -> int {
    choose|i: int| 0 <= i < v.len() && v[i].hwnd == hwnd
}

/// What the caller could find out about a window's resolved creator, for
/// building a registry entry.
pub struct CreatorLookup {
    /// The creator's executable path, when it could be resolved.
    pub exe: Option<String>,
    /// The extracted icon file for that executable; `None` when extraction
    /// failed.
    pub icon_path: Option<String>,
    /// The packaged-application launch path, when the executable belongs
    /// to a package that offers one.
    pub shell_path: Option<String>,
    /// The missing-icon fallback path.
    pub missing_icon: String,
}

/// The mathematical image of a [`CreatorLookup`].
pub ghost struct CreatorLookupView {
    pub exe: Option<Seq<char>>,
    pub icon_path: Option<Seq<char>>,
    pub shell_path: Option<Seq<char>>,
    pub missing_icon: Seq<char>,
}

impl View for CreatorLookup {
    type V = CreatorLookupView;

    open spec fn view(&self) -> CreatorLookupView {
        CreatorLookupView {
            exe: match &self.exe {
                Some(p) => Some(p@),
                None => None,
            },
            icon_path: match &self.icon_path {
                Some(p) => Some(p@),
                None => None,
            },
            shell_path: match &self.shell_path {
                Some(p) => Some(p@),
                None => None,
            },
            missing_icon: self.missing_icon@,
        }
    }
}

/// The entry built for an admitted window: executable path and icon with
/// their documented fallbacks, and the launch path delegated to the
/// packaged-application resolver when one applies.
pub open spec fn entry_view(
    hwnd: isize,
    title: Seq<char>,
    creator_hwnd: isize,
    lk: CreatorLookupView,
) -> AppView {
    match lk.exe {
        Some(exe) => AppView {
            hwnd,
            exe,
            title,
            icon_path: match lk.icon_path {
                Some(p) => p,
                None => lk.missing_icon,
            },
            execution_path: match lk.shell_path {
                Some(p) => p,
                None => exe,
            },
            creator_hwnd,
        },
        None => AppView {
            hwnd,
            exe: Seq::empty(),
            title,
            icon_path: lk.missing_icon,
            execution_path: Seq::empty(),
            creator_hwnd,
        },
    }
}

/// What adding a window does to the registry: the new contents, and the
/// added entry when one was admitted.
pub open spec fn add_result(
    v: Seq<AppView>,
    hwnd: isize,
    title: Seq<char>,
    resolution: FrameCreatorResolution,
    lk: CreatorLookupView,
) -> (Seq<AppView>, Option<WegEventView>) {
    if contains_id(v, hwnd) {
        (v, None)
    } else {
        match creator_of(hwnd, resolution) {
            None => (v, None),
            Some(creator_hwnd) => {
                let e = entry_view(hwnd, title, creator_hwnd, lk);
                (v.push(e), Some(WegEventView::AddOpenApp(e)))
            },
        }
    }
}

/// The ordered store of tracked windows.
pub struct WindowRegistry {
    apps: Vec<SeelenWegApp>,
}

impl View for WindowRegistry {
    type V = Seq<AppView>;

    closed spec fn view(&self) -> Seq<AppView> {
        views_of(self.apps@)
    }
}

impl WindowRegistry {
    /// The registry invariant.
    pub open spec fn wf(&self) -> bool {
        registry_wf(self@)
    }

    /// An empty registry.
    pub fn new() -> (r: WindowRegistry)
        ensures
            r@ == Seq::<AppView>::empty(),
            r.wf(),
    {
        let r = WindowRegistry { apps: Vec::new() };
        proof {
            assert(r@ =~= Seq::<AppView>::empty());
        }
        r
    }

    /// The number of tracked windows.
    pub fn len(&self) -> (n: usize)
        ensures
            n == self@.len(),
    {
        self.apps.len()
    }

    /// Whether a window with this id is already tracked, directly or as a
    /// recorded frame creator.
    pub fn contains_app(&self, hwnd: isize) -> (r: bool)
        ensures
            r == contains_id(self@, hwnd),
    {
        let n = self.apps.len();
        let mut i: usize = 0;
        while i < n
            invariant
                n == self.apps@.len(),
                i <= n,
                forall|j: int|
                    0 <= j < i ==> self@[j].hwnd != hwnd && self@[j].creator_hwnd != hwnd,
            decreases n - i,
        {
            let app = &self.apps[i];
            if app.hwnd == hwnd || app.creator_hwnd == hwnd {
                proof {
                    assert(self@[i as int].hwnd == hwnd || self@[i as int].creator_hwnd == hwnd);
                }
                return true;
            }
            i = i + 1;
        }
        false
    }

    /// Tracks a new window.
    ///
    /// Idempotent: a window that is already tracked, directly or as a
    /// recorded frame creator, leaves the registry unchanged and owes no
    /// notification. A frame-creator resolution that explicitly reported
    /// "no creator" aborts the add before any entry is built; a failed
    /// resolution falls back to the window itself. Otherwise the entry is
    /// appended in insertion order and an "added" notification carrying it
    /// is owed.
    pub fn add_hwnd(
        &mut self,
        hwnd: isize,
        title: String,
        resolution: FrameCreatorResolution,
        lookup: CreatorLookup,
    ) -> (r: Option<WegEvent>)
        requires
            old(self).wf(),
        ensures
            final(self).wf(),
            final(self)@ == add_result(old(self)@, hwnd, title@, resolution, lookup@).0,
            opt_event_view(r) == add_result(old(self)@, hwnd, title@, resolution, lookup@).1,
    {
        if self.contains_app(hwnd) {
            return None;
        }
        let creator_hwnd = match resolution {
            FrameCreatorResolution::NoCreator => {
                return None;
            },
            FrameCreatorResolution::Resolved(c) => c,
            FrameCreatorResolution::Failed => hwnd,
        };
        let CreatorLookup { exe, icon_path, shell_path, missing_icon } = lookup;
        let app = match exe {
            Some(exe_path) => {
                let icon = match icon_path {
                    Some(p) => p,
                    None => missing_icon,
                };
                let execution_path = match shell_path {
                    Some(p) => p,
                    None => exe_path.clone(),
                };
                SeelenWegApp {
                    hwnd,
                    exe: exe_path,
                    title,
                    icon_path: icon,
                    execution_path,
                    creator_hwnd,
                }
            },
            None => SeelenWegApp {
                hwnd,
                exe: String::new(),
                title,
                icon_path: missing_icon,
                execution_path: String::new(),
                creator_hwnd,
            },
        };
        let event = WegEvent::AddOpenApp(app.clone());
        proof {
            assert(app@ == entry_view(hwnd, title@, creator_hwnd, lookup@));
        }
        let ghost prior = self.apps@;
        self.apps.push(app);
        proof {
            assert(self@ =~= views_of(prior).push(app@));
            assert forall|i: int, j: int|
                0 <= i < j < self@.len() implies (self@[j].hwnd != self@[i].hwnd && self@[j].hwnd
                != self@[i].creator_hwnd) by {
                if j < self@.len() - 1 {
                    assert(registry_wf(views_of(prior)));
                } else {
                    assert(!contains_id(views_of(prior), hwnd));
                }
            }
        }
        Some(event)
    }

    /// Re-reads the title of the tracked window with this id.
    ///
    /// When the id is tracked, its entry's title is replaced and an
    /// "updated" notification carrying the patched entry is owed; when it
    /// is not, nothing changes and nothing is owed.
    pub fn update_app(&mut self, hwnd: isize, new_title: String) -> (r: Option<WegEvent>)
        requires
            old(self).wf(),
        ensures
            final(self).wf(),
            !contains_hwnd(old(self)@, hwnd) ==> final(self)@ == old(self)@ && r is None,
            contains_hwnd(old(self)@, hwnd) ==> ({
                let i = index_of_hwnd(old(self)@, hwnd);
                let patched = AppView { title: new_title@, ..old(self)@[i] };
                &&& final(self)@ == old(self)@.update(i, patched)
                &&& opt_event_view(r) == Some(WegEventView::UpdateOpenAppInfo(patched))
            }),
    {
        let n = self.apps.len();
        let mut i: usize = 0;
        while i < n
            invariant
                *self == *old(self),
                self.wf(),
                n == self.apps@.len(),
                i <= n,
                forall|j: int| 0 <= j < i ==> self@[j].hwnd != hwnd,
            decreases n - i,
        {
            if self.apps[i].hwnd == hwnd {
                proof {
                    assert(self@[i as int].hwnd == hwnd);
                    assert(contains_hwnd(self@, hwnd));
                    assert(index_of_hwnd(self@, hwnd) == i as int) by {
                        let k = index_of_hwnd(self@, hwnd);
                        assert(0 <= k < self@.len() && self@[k].hwnd == hwnd);
                        assert(registry_wf(self@));
                    }
                }
                let old_app = &self.apps[i];
                let patched = SeelenWegApp {
                    hwnd: old_app.hwnd,
                    exe: old_app.exe.clone(),
                    title: new_title,
                    icon_path: old_app.icon_path.clone(),
                    execution_path: old_app.execution_path.clone(),
                    creator_hwnd: old_app.creator_hwnd,
                };
                let event = WegEvent::UpdateOpenAppInfo(patched.clone());
                let ghost prior = self.apps@;
                self.apps.set(i, patched);
                proof {
                    assert(self@ =~= views_of(prior).update(i as int, self@[i as int]));
                }
                return Some(event);
            }
            i = i + 1;
        }
        None
    }

    /// Stops tracking the window with this id.
    ///
    /// When the id is tracked, its entry is deleted and a "removed"
    /// notification carrying the id is owed; when it is not, nothing
    /// changes and nothing is owed.
    pub fn remove_hwnd(&mut self, hwnd: isize) -> (r: Option<WegEvent>)
        requires
            old(self).wf(),
        ensures
            final(self).wf(),
            !contains_hwnd(old(self)@, hwnd) ==> final(self)@ == old(self)@ && r is None,
            contains_hwnd(old(self)@, hwnd) ==> final(self)@ == old(self)@.remove(
                index_of_hwnd(old(self)@, hwnd),
            ) && opt_event_view(r) == Some(WegEventView::RemoveOpenApp(hwnd)),
    {
        let n = self.apps.len();
        let mut i: usize = 0;
        while i < n
            invariant
                *self == *old(self),
                self.wf(),
                n == self.apps@.len(),
                i <= n,
                forall|j: int| 0 <= j < i ==> self@[j].hwnd != hwnd,
            decreases n - i,
        {
            if self.apps[i].hwnd == hwnd {
                proof {
                    assert(self@[i as int].hwnd == hwnd);
                    assert(contains_hwnd(self@, hwnd));
                    assert(index_of_hwnd(self@, hwnd) == i as int) by {
                        let k = index_of_hwnd(self@, hwnd);
                        assert(0 <= k < self@.len() && self@[k].hwnd == hwnd);
                        assert(registry_wf(self@));
                    }
                }
                let ghost prior = self.apps@;
                self.apps.remove(i);
                proof {
                    assert(self@ =~= views_of(prior).remove(i as int));
                }
                return Some(WegEvent::RemoveOpenApp(hwnd));
            }
            i = i + 1;
        }
        None
    }

    /// The full registry in insertion order, for bulk-list requests.
    pub fn snapshot(&self) -> (r: Vec<SeelenWegApp>)
        ensures
            views_of(r@) == self@,
    {
        let n = self.apps.len();
        let mut out: Vec<SeelenWegApp> = Vec::new();
        let mut i: usize = 0;
        while i < n
            invariant
                n == self.apps@.len(),
                i <= n,
                out@ == self.apps@.subrange(0, i as int),
            decreases n - i,
        {
            out.push(self.apps[i].clone());
            proof {
                assert(out@ =~= self.apps@.subrange(0, i + 1 as int));
            }
            i = i + 1;
        }
        proof {
            assert(out@ =~= self.apps@);
        }
        out
    }

    /// The bulk reply owed to a "list everything" request: the whole
    /// registry, in insertion order, in one notification.
    pub fn all_open_apps_event(&self) -> (e: WegEvent)
        ensures
            e@ == WegEventView::AddMultipleOpenApps(self@),
    {
        WegEvent::AddMultipleOpenApps(self.snapshot())
    }
}

/// Adding the same window id twice: whatever was observed for the second
/// attempt, once an add has admitted the window every further add of the
/// same id leaves the registry unchanged and owes no further "added"
/// notification; and a repeat of the very same observation never changes
/// the registry either, so two adds of one id owe at most one notification
/// in total — exactly one when the window was admitted.
pub proof fn lemma_add_hwnd_idempotent(
    v: Seq<AppView>,
    hwnd: isize,
    t1: Seq<char>,
    r1: FrameCreatorResolution,
    lk1: CreatorLookupView,
    t2: Seq<char>,
    r2: FrameCreatorResolution,
    lk2: CreatorLookupView,
)
    ensures
        add_result(v, hwnd, t1, r1, lk1).1 is Some ==> {
            let first = add_result(v, hwnd, t1, r1, lk1);
            let second = add_result(first.0, hwnd, t2, r2, lk2);
            second.0 == first.0 && second.1 is None
        },
        r2 == r1 ==> {
            let first = add_result(v, hwnd, t1, r1, lk1);
            let second = add_result(first.0, hwnd, t2, r2, lk2);
            second.0 == first.0 && second.1 is None
        },
{
    let first = add_result(v, hwnd, t1, r1, lk1);
    if first.1 is Some {
        let n = v.len() as int;
        assert(first.0[n].hwnd == hwnd);
        assert(contains_id(first.0, hwnd));
    }
}

} // verus!
