//! Suppressing and restoring the operating system's own taskbars.
//!
//! The scanner collects the native-taskbar windows found during one
//! enumeration pass of all top-level windows. The suppressor keeps the
//! snapshot of each taskbar's reservation state captured before
//! suppression, decides the per-attempt enforcement actions, and plans the
//! restore. The caller performs the window-manager calls the plans name
//! and runs the retry loop on its own schedule.

use vstd::prelude::*;
use crate::text::str_eq;

verus! {

/// The shell's classification of a reservation window.
#[derive(Clone, Copy, Debug, PartialEq, Eq, Structural)]
pub enum AppBarDataState {
    /// The window hides until the pointer reaches its edge.
    AutoHide,
    /// The window stays above ordinary windows and reserves its region.
    AlwaysOnTop,
    /// Neither behavior.
    Normal,
}

/// How a planned action shows or hides a taskbar window.
#[derive(Clone, Copy, Debug, PartialEq, Eq, Structural)]
pub enum TaskbarVisibility {
    /// Hide the window.
    Hide,
    /// Show the window normally.
    ShowNormal,
}

/// One planned window-manager action on a native taskbar.
#[derive(Clone, Copy, Debug, PartialEq, Eq, Structural)]
pub struct SuppressorAction {
    /// The taskbar window to act on.
    pub hwnd: isize,
    /// The reservation state to apply.
    pub state: AppBarDataState,
    /// The visibility to apply afterwards.
    pub visibility: TaskbarVisibility,
}

/// How many enforcement attempts one suppression episode makes before
/// giving up, whatever the shell did meanwhile.
pub const SUPPRESSION_ATTEMPT_BUDGET: u32 = 10;

/// The pause between two enforcement attempts, in milliseconds.
pub const SUPPRESSION_INTERVAL_MS: u64 = 50;

/// The window classes of the native taskbars.
pub open spec fn is_taskbar_class(class: Seq<char>) -> bool {
    class == "Shell_TrayWnd"@ || class == "Shell_SecondaryTrayWnd"@
}

/// Whether a window class names a native taskbar.
pub fn taskbar_class_matches(class: &str) -> (r: bool)
    ensures
        r == is_taskbar_class(class@),
{
    str_eq(class, "Shell_TrayWnd") || str_eq(class, "Shell_SecondaryTrayWnd")
}

/// The handles collected after one more enumeration observation: the
/// window is kept exactly when its class names a native taskbar.
pub open spec fn scan_step(founds: Seq<isize>, class: Seq<char>, hwnd: isize) -> Seq<isize> {
    if is_taskbar_class(class) {
        founds.push(hwnd)
    } else {
        founds
    }
}

/// The handles collected over a whole run of observations, each a window
/// class with its handle.
pub open spec fn scan_fold(founds: Seq<isize>, observations: Seq<(Seq<char>, isize)>) -> Seq<isize>
    decreases observations.len(),
{
    if observations.len() == 0 {
        founds
    } else {
        scan_fold(
            scan_step(founds, observations[0].0, observations[0].1),
            observations.skip(1),
        )
    }
}

/// The handles of the taskbar-classed windows among a run of
/// observations, in observation order.
pub open spec fn taskbar_handles_of(observations: Seq<(Seq<char>, isize)>) -> Seq<isize>
    decreases observations.len(),
{
    if observations.len() == 0 {
        Seq::empty()
    } else {
        let rest = taskbar_handles_of(observations.skip(1));
        if is_taskbar_class(observations[0].0) {
            seq![observations[0].1] + rest
        } else {
            rest
        }
    }
}

/// What a scan collects is determined by the observed windows alone: the
/// buffer's prior contents followed by the handles of the taskbar-classed
/// windows, in observation order. Two scans that start from a drained
/// buffer and observe the same windows therefore return equal lists.
pub proof fn lemma_enumeration_deterministic(
    founds: Seq<isize>,
    observations: Seq<(Seq<char>, isize)>,
)
    ensures
        scan_fold(founds, observations) =~= founds + taskbar_handles_of(observations),
    decreases observations.len(),
{
    if observations.len() == 0 {
        assert(founds + Seq::<isize>::empty() =~= founds);
    } else {
        let stepped = scan_step(founds, observations[0].0, observations[0].1);
        lemma_enumeration_deterministic(stepped, observations.skip(1));
        if is_taskbar_class(observations[0].0) {
            assert(founds.push(observations[0].1) + taskbar_handles_of(observations.skip(1)) =~= founds
                + (seq![observations[0].1] + taskbar_handles_of(observations.skip(1))));
        }
    }
}

/// The shared accumulation buffer of one enumeration pass.
///
/// Only one enumeration may be in flight at a time: the buffer is drained
/// and cleared as the result is produced, so a reentrant pass would
/// corrupt it. Holding the buffer in a value of this type, handed to one
/// pass at a time, keeps passes serialized.
pub struct TaskbarScanner {
    founds: Vec<isize>,
}

impl View for TaskbarScanner {
    type V = Seq<isize>;

    closed spec fn view(&self) -> Seq<isize> {
        self.founds@
    }
}

impl TaskbarScanner {
    /// A fresh, empty buffer.
    pub fn new() -> (r: TaskbarScanner)
        ensures
            r@ == Seq::<isize>::empty(),
    {
        let r = TaskbarScanner { founds: Vec::new() };
        proof {
            assert(r@ =~= Seq::<isize>::empty());
        }
        r
    }

    /// Records one enumerated top-level window: its handle is kept exactly
    /// when its class names a native taskbar.
    pub fn record_window(&mut self, class: &str, hwnd: isize)
        ensures
            final(self)@ == scan_step(old(self)@, class@, hwnd),
    {
        if taskbar_class_matches(class) {
            self.founds.push(hwnd);
        }
    }

    /// Drains the buffer: returns every handle collected since the last
    /// drain, in collection order, and leaves the buffer empty for the
    /// next pass.
    pub fn get_taskbars_handles(&mut self) -> (r: Vec<isize>)
        ensures
            r@ == old(self)@,
            final(self)@ == Seq::<isize>::empty(),
    {
        let mut result: Vec<isize> = Vec::new();
        core::mem::swap(&mut result, &mut self.founds);
        proof {
            assert(self@ =~= Seq::<isize>::empty());
        }
        result
    }
}

/// The reservation state captured for each native taskbar before
/// suppression, as a map from window id to state.
pub open spec fn snapshot_map(s: Seq<(isize, AppBarDataState)>) -> Map<isize, AppBarDataState>
    decreases s.len(),
{
    if s.len() == 0 {
        Map::empty()
    } else {
        snapshot_map(s.drop_last()).insert(s.last().0, s.last().1)
    }
}

/// No id is captured twice.
pub open spec fn snapshot_keys_unique(s: Seq<(isize, AppBarDataState)>) -> bool {
    forall|i: int, j: int| 0 <= i < j < s.len() ==> s[i].0 != s[j].0
}

/// One capture: the state is recorded only when no state is recorded for
/// this id yet — the first capture wins.
pub open spec fn capture_step(
    m: Map<isize, AppBarDataState>,
    hwnd: isize,
    state: AppBarDataState,
) -> Map<isize, AppBarDataState> {
    if m.dom().contains(hwnd) {
        m
    } else {
        m.insert(hwnd, state)
    }
}

/// The snapshot after capturing a whole enumeration of taskbars with their
/// current states.
pub open spec fn capture_fold(
    m: Map<isize, AppBarDataState>,
    taskbars: Seq<(isize, AppBarDataState)>,
) -> Map<isize, AppBarDataState>
    decreases taskbars.len(),
{
    if taskbars.len() == 0 {
        m
    } else {
        capture_fold(capture_step(m, taskbars[0].0, taskbars[0].1), taskbars.skip(1))
    }
}

/// The state a restore reapplies to a taskbar: the captured one, or
/// `AlwaysOnTop` when none was captured.
pub open spec fn restore_state_of(m: Map<isize, AppBarDataState>, hwnd: isize) -> AppBarDataState {
    if m.dom().contains(hwnd) {
        m[hwnd]
    } else {
        AppBarDataState::AlwaysOnTop
    }
}

/// An id is in the snapshot exactly when some capture recorded it.
proof fn lemma_snapshot_dom(s: Seq<(isize, AppBarDataState)>, k: isize)
    ensures
        snapshot_map(s).dom().contains(k) <==> exists|i: int| 0 <= i < s.len() && s[i].0 == k,
    decreases s.len(),
{
    if s.len() == 0 {
    } else {
        let t = s.drop_last();
        lemma_snapshot_dom(t, k);
        if s.last().0 == k {
            assert(s[s.len() - 1].0 == k);
        } else {
            if exists|i: int| 0 <= i < s.len() && s[i].0 == k {
                let i = choose|i: int| 0 <= i < s.len() && s[i].0 == k;
                assert(t[i].0 == k);
            }
            if exists|i: int| 0 <= i < t.len() && t[i].0 == k {
                let i = choose|i: int| 0 <= i < t.len() && t[i].0 == k;
                assert(s[i].0 == k);
            }
        }
    }
}

/// With unique ids, the snapshot maps each captured id to its captured
/// state.
proof fn lemma_snapshot_get(s: Seq<(isize, AppBarDataState)>, i: int)
    requires
        snapshot_keys_unique(s),
        0 <= i < s.len(),
    ensures
        snapshot_map(s).dom().contains(s[i].0),
        snapshot_map(s)[s[i].0] == s[i].1,
    decreases s.len(),
{
    let t = s.drop_last();
    if i == s.len() - 1 {
    } else {
        assert(snapshot_keys_unique(t)) by {
            assert(forall|a: int, b: int|
                0 <= a < b < t.len() ==> s[a].0 == t[a].0 && s[b].0 == t[b].0);
        }
        lemma_snapshot_get(t, i);
        assert(s.last().0 != s[i].0);
    }
}

/// The snapshot of each native taskbar's reservation state, captured
/// before suppression and consulted — then cleared — by restore.
pub struct NativeTaskbarSuppressor {
    captured: Vec<(isize, AppBarDataState)>,
}

impl View for NativeTaskbarSuppressor {
    type V = Map<isize, AppBarDataState>;

    closed spec fn view(&self) -> Map<isize, AppBarDataState> {
        snapshot_map(self.captured@)
    }
}

impl NativeTaskbarSuppressor {
    /// The snapshot invariant: no id captured twice.
    pub closed spec fn wf(&self) -> bool {
        snapshot_keys_unique(self.captured@)
    }

    /// A fresh suppressor with nothing captured.
    pub fn new() -> (r: NativeTaskbarSuppressor)
        ensures
            r@ == Map::<isize, AppBarDataState>::empty(),
            r.wf(),
    {
        let r = NativeTaskbarSuppressor { captured: Vec::new() };
        proof {
            assert(r.captured@.len() == 0);
        }
        r
    }

    /// Captures a taskbar's current reservation state, unless a state is
    /// already captured for this id: the first capture wins, across
    /// repeated suppression episodes.
    pub fn capture_state(&mut self, hwnd: isize, state: AppBarDataState)
        requires
            old(self).wf(),
        ensures
            final(self).wf(),
            final(self)@ == capture_step(old(self)@, hwnd, state),
    {
        let n = self.captured.len();
        let mut i: usize = 0;
        while i < n
            invariant
                *self == *old(self),
                self.wf(),
                n == self.captured@.len(),
                i <= n,
                forall|j: int| 0 <= j < i ==> self.captured@[j].0 != hwnd,
            decreases n - i,
        {
            let entry = self.captured[i];
            if entry.0 == hwnd {
                proof {
                    lemma_snapshot_dom(self.captured@, hwnd);
                }
                return ;
            }
            i = i + 1;
        }
        proof {
            lemma_snapshot_dom(self.captured@, hwnd);
            assert(!self@.dom().contains(hwnd));
        }
        let ghost prior = self.captured@;
        self.captured.push((hwnd, state));
        proof {
            assert(self.captured@.drop_last() =~= prior);
            assert(self@ == snapshot_map(prior).insert(hwnd, state));
        }
    }

    /// The state restore would reapply to this taskbar: the captured one,
    /// defaulting to `AlwaysOnTop` when none was captured.
    pub fn captured_state_or_default(&self, hwnd: isize) -> (r: AppBarDataState)
        requires
            self.wf(),
        ensures
            r == restore_state_of(self@, hwnd),
    {
        let n = self.captured.len();
        let mut i: usize = 0;
        while i < n
            invariant
                self.wf(),
                n == self.captured@.len(),
                i <= n,
                forall|j: int| 0 <= j < i ==> self.captured@[j].0 != hwnd,
            decreases n - i,
        {
            let entry = self.captured[i];
            if entry.0 == hwnd {
                proof {
                    lemma_snapshot_get(self.captured@, i as int);
                }
                return entry.1;
            }
            i = i + 1;
        }
        proof {
            lemma_snapshot_dom(self.captured@, hwnd);
        }
        AppBarDataState::AlwaysOnTop
    }

    /// One enforcement attempt over the currently enumerable taskbars,
    /// each with its current reservation state.
    ///
    /// Captures each taskbar's state first-capture-wins, and plans, for
    /// each taskbar in order, to force its state to `AutoHide` and hide
    /// it. The caller performs the planned calls; their failures do not
    /// stop the episode.
    pub fn suppress_attempt(&mut self, taskbars: &Vec<(isize, AppBarDataState)>) -> (r: Vec<
        SuppressorAction,
    >)
        requires
            old(self).wf(),
        ensures
            final(self).wf(),
            final(self)@ == capture_fold(old(self)@, taskbars@),
            r@.len() == taskbars@.len(),
            forall|i: int|
                0 <= i < taskbars@.len() ==> r@[i] == (SuppressorAction {
                    hwnd: taskbars@[i].0,
                    state: AppBarDataState::AutoHide,
                    visibility: TaskbarVisibility::Hide,
                }),
    {
        let mut actions: Vec<SuppressorAction> = Vec::new();
        let n = taskbars.len();
        proof {
            assert(taskbars@.skip(0) =~= taskbars@);
        }
        let mut i: usize = 0;
        while i < n
            invariant
                self.wf(),
                n == taskbars@.len(),
                i <= n,
                capture_fold(self@, taskbars@.skip(i as int)) == capture_fold(
                    old(self)@,
                    taskbars@,
                ),
                actions@.len() == i,
                forall|j: int|
                    0 <= j < i ==> actions@[j] == (SuppressorAction {
                        hwnd: taskbars@[j].0,
                        state: AppBarDataState::AutoHide,
                        visibility: TaskbarVisibility::Hide,
                    }),
            decreases n - i,
        {
            let entry = taskbars[i];
            proof {
                assert(taskbars@.skip(i as int)[0] == taskbars@[i as int]);
                assert(taskbars@.skip(i as int).skip(1) =~= taskbars@.skip(i as int + 1));
            }
            self.capture_state(entry.0, entry.1);
            actions.push(
                SuppressorAction {
                    hwnd: entry.0,
                    state: AppBarDataState::AutoHide,
                    visibility: TaskbarVisibility::Hide,
                },
            );
            i = i + 1;
        }
        proof {
            assert(taskbars@.skip(n as int) =~= Seq::<(isize, AppBarDataState)>::empty());
        }
        actions
    }

    /// Plans the restore of every currently discoverable taskbar: reapply
    /// its captured state — `AlwaysOnTop` when none was captured — and
    /// show it normally. The episode's snapshot is consumed: the
    /// suppressor ends empty. The caller performs the planned calls and
    /// surfaces the first failure while still attempting the rest.
    pub fn restore_taskbar(&mut self, taskbars: &Vec<isize>) -> (r: Vec<SuppressorAction>)
        requires
            old(self).wf(),
        ensures
            final(self).wf(),
            final(self)@ == Map::<isize, AppBarDataState>::empty(),
            r@.len() == taskbars@.len(),
            forall|i: int|
                0 <= i < taskbars@.len() ==> r@[i] == (SuppressorAction {
                    hwnd: taskbars@[i],
                    state: restore_state_of(old(self)@, taskbars@[i]),
                    visibility: TaskbarVisibility::ShowNormal,
                }),
    {
        let mut actions: Vec<SuppressorAction> = Vec::new();
        let n = taskbars.len();
        let mut i: usize = 0;
        while i < n
            invariant
                *self == *old(self),
                self.wf(),
                n == taskbars@.len(),
                i <= n,
                actions@.len() == i,
                forall|j: int|
                    0 <= j < i ==> actions@[j] == (SuppressorAction {
                        hwnd: taskbars@[j],
                        state: restore_state_of(old(self)@, taskbars@[j]),
                        visibility: TaskbarVisibility::ShowNormal,
                    }),
            decreases n - i,
        {
            let hwnd = taskbars[i];
            let state = self.captured_state_or_default(hwnd);
            actions.push(
                SuppressorAction { hwnd, state, visibility: TaskbarVisibility::ShowNormal },
            );
            i = i + 1;
        }
        self.captured = Vec::new();
        proof {
            assert(self.captured@.len() == 0);
        }
        actions
    }
}

/// Whether the enforcement loop should run another attempt: the attempt
/// budget is not exhausted and the feature is still enabled. The loop has
/// no hard cancellation signal; it polls this condition each iteration.
pub fn should_continue_suppression(attempts: u32, enabled: bool) -> (r: bool)
    ensures
        r == (attempts < SUPPRESSION_ATTEMPT_BUDGET && enabled),
{
    attempts < SUPPRESSION_ATTEMPT_BUDGET && enabled
}

proof fn lemma_capture_fold_dom_frame(
    m: Map<isize, AppBarDataState>,
    taskbars: Seq<(isize, AppBarDataState)>,
    k: isize,
)
    requires
        !m.dom().contains(k),
        forall|i: int| 0 <= i < taskbars.len() ==> taskbars[i].0 != k,
    ensures
        !capture_fold(m, taskbars).dom().contains(k),
    decreases taskbars.len(),
{
    if taskbars.len() == 0 {
    } else {
        assert(forall|i: int|
            0 <= i < taskbars.skip(1).len() ==> taskbars.skip(1)[i] == taskbars[i + 1]);
        lemma_capture_fold_dom_frame(
            capture_step(m, taskbars[0].0, taskbars[0].1),
            taskbars.skip(1),
            k,
        );
    }
}

/// A taskbar for which no prior state was captured, and which no capture
/// of the suppression episode recorded either, is restored to
/// `AlwaysOnTop`: the documented default for an id without a snapshot
/// entry.
pub proof fn lemma_restore_defaults_to_always_on_top(
    m: Map<isize, AppBarDataState>,
    taskbars: Seq<(isize, AppBarDataState)>,
    hwnd: isize,
)
    requires
        !m.dom().contains(hwnd),
        forall|i: int| 0 <= i < taskbars.len() ==> taskbars[i].0 != hwnd,
    ensures
        restore_state_of(capture_fold(m, taskbars), hwnd) == AppBarDataState::AlwaysOnTop,
{
    lemma_capture_fold_dom_frame(m, taskbars, hwnd);
}

/// Capturing an id a second time keeps the state captured first.
pub proof fn lemma_capture_keeps_first(
    m: Map<isize, AppBarDataState>,
    hwnd: isize,
    s1: AppBarDataState,
    s2: AppBarDataState,
)
    requires
        !m.dom().contains(hwnd),
    ensures
        capture_step(capture_step(m, hwnd, s1), hwnd, s2)[hwnd] == s1,
{
}

proof fn lemma_capture_fold_dom_monotonic(
    m: Map<isize, AppBarDataState>,
    taskbars: Seq<(isize, AppBarDataState)>,
    k: isize,
)
    requires
        m.dom().contains(k),
    ensures
        capture_fold(m, taskbars).dom().contains(k),
    decreases taskbars.len(),
{
    if taskbars.len() == 0 {
    } else {
        lemma_capture_fold_dom_monotonic(
            capture_step(m, taskbars[0].0, taskbars[0].1),
            taskbars.skip(1),
            k,
        );
    }
}

proof fn lemma_capture_fold_captures_all(
    m: Map<isize, AppBarDataState>,
    taskbars: Seq<(isize, AppBarDataState)>,
    i: int,
)
    requires
        0 <= i < taskbars.len(),
    ensures
        capture_fold(m, taskbars).dom().contains(taskbars[i].0),
    decreases taskbars.len(),
{
    let m1 = capture_step(m, taskbars[0].0, taskbars[0].1);
    if i == 0 {
        lemma_capture_fold_dom_monotonic(m1, taskbars.skip(1), taskbars[0].0);
    } else {
        lemma_capture_fold_captures_all(m1, taskbars.skip(1), i - 1);
        assert(taskbars.skip(1)[i - 1] == taskbars[i]);
    }
}

proof fn lemma_capture_fold_noop(
    m: Map<isize, AppBarDataState>,
    taskbars: Seq<(isize, AppBarDataState)>,
)
    requires
        forall|i: int| 0 <= i < taskbars.len() ==> m.dom().contains(taskbars[i].0),
    ensures
        capture_fold(m, taskbars) == m,
    decreases taskbars.len(),
{
    if taskbars.len() == 0 {
    } else {
        assert(capture_step(m, taskbars[0].0, taskbars[0].1) == m);
        assert(forall|i: int|
            0 <= i < taskbars.skip(1).len() ==> taskbars.skip(1)[i] == taskbars[i + 1]);
        lemma_capture_fold_noop(m, taskbars.skip(1));
    }
}

/// Two suppression episodes in a row over the same taskbars capture each
/// taskbar's original state only once: the second episode's captures
/// change nothing.
pub proof fn lemma_first_capture_wins(
    m: Map<isize, AppBarDataState>,
    taskbars: Seq<(isize, AppBarDataState)>,
)
    ensures
        capture_fold(capture_fold(m, taskbars), taskbars) == capture_fold(m, taskbars),
{
    let m1 = capture_fold(m, taskbars);
    assert forall|i: int| 0 <= i < taskbars.len() implies m1.dom().contains(taskbars[i].0) by {
        lemma_capture_fold_captures_all(m, taskbars, i);
    }
    lemma_capture_fold_noop(m1, taskbars);
}

} // verus!
