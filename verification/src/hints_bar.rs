//! The decisions of the hint-bar actor: when the bar is rendered, hidden or
//! torn down, how bursts of snapshots are coalesced, and how the `auto`
//! flash timer is armed. The caller owns the windows and the timers; it hands
//! each event to [`HintsBar::handle`] and performs the actions it gets back.
use vstd::prelude::*;
use crate::hints::{ColumnCell, active_member_of};
use crate::settings::{HintsBarOverflow, HintsBarSettings, HintsBarVisibility};
use crate::text::{chars_of, chars_eq};

verus! {

/// One occupied workspace on the bar's overview rail.
#[derive(Clone, Debug)]
pub struct WorkspaceCell {
    pub label: String,
    /// The workspace's index within its space.
    pub index: usize,
    pub active: bool,
    /// Processes whose icons the pill shows.
    pub pids: Vec<i32>,
}

/// Full strip state for one workspace, as the reactor computes it. The
/// frames stay with the caller, under the key `frames`.
#[derive(Clone, Debug)]
pub struct Snapshot {
    /// The caller's key for this snapshot's bar, screen and overflow frames.
    pub frames: u64,
    pub cells: Vec<ColumnCell>,
    /// Occupied workspaces for the overview rail.
    pub workspaces: Vec<WorkspaceCell>,
    /// Overflow policy resolved from config.
    pub overflow: HintsBarOverflow,
    /// Column chips that fit on the top strip (== `cells.len()` if no overflow).
    pub top_count: usize,
    /// Whether a frame for the second (overflow) bar was computed.
    pub has_overflow_frame: bool,
}

/// What a cell contributes to the change signature: its hint, flags, active
/// index, member count, and the active member's label and title joined by
/// `\u{1}` (empty without an active member).
pub open spec fn active_label_of(c: ColumnCell) -> Seq<char> {
    match active_member_of(c) {
        Some(m) => m.label@ + seq!['\u{1}'] + m.title@,
        None => Seq::empty(),
    }
}

pub open spec fn cell_sig(c: ColumnCell) -> (Seq<char>, bool, bool, bool, usize, nat, Seq<char>) {
    (c.hint@, c.focused, c.visible, c.tabbed, c.active, c.members@.len(), active_label_of(c))
}

pub open spec fn workspace_sig(w: WorkspaceCell) -> (Seq<char>, bool, Seq<i32>) {
    (w.label@, w.active, w.pids@)
}

/// The part of a snapshot whose change makes the bar re-render (and, in
/// `auto` mode, flash).
pub open spec fn signature_of(s: Snapshot) -> (
    Seq<(Seq<char>, bool, bool, bool, usize, nat, Seq<char>)>,
    Seq<(Seq<char>, bool, Seq<i32>)>,
    usize,
) {
    (
        s.cells@.map_values(|c: ColumnCell| cell_sig(c)),
        s.workspaces@.map_values(|w: WorkspaceCell| workspace_sig(w)),
        s.top_count,
    )
}

/// Two snapshots with the same signature have the same number of columns,
/// and each column the same hint, focus, visibility, tabbing, active index
/// and number of windows; they have the same split point and the same
/// workspace pills (label, activity, apps). So a change in any of these
/// (a focus move, for one) is a change of signature, and a visible bar
/// redraws on it.
pub proof fn law_same_signature_same_cells(a: Snapshot, b: Snapshot)
    requires
        signature_of(a) == signature_of(b),
    ensures
        a.cells@.len() == b.cells@.len(),
        forall|i: int| #![trigger a.cells@[i], b.cells@[i]] 0 <= i < a.cells@.len() ==> {
            &&& a.cells@[i].hint@ == b.cells@[i].hint@
            &&& a.cells@[i].focused == b.cells@[i].focused
            &&& a.cells@[i].visible == b.cells@[i].visible
            &&& a.cells@[i].tabbed == b.cells@[i].tabbed
            &&& a.cells@[i].active == b.cells@[i].active
            &&& a.cells@[i].members@.len() == b.cells@[i].members@.len()
        },
        a.top_count == b.top_count,
        a.workspaces@.len() == b.workspaces@.len(),
        forall|i: int| #![trigger a.workspaces@[i], b.workspaces@[i]] 0 <= i < a.workspaces@.len() ==> {
            &&& a.workspaces@[i].label@ == b.workspaces@[i].label@
            &&& a.workspaces@[i].active == b.workspaces@[i].active
            &&& a.workspaces@[i].pids@ == b.workspaces@[i].pids@
        },
{
    let sa = signature_of(a);
    let sb = signature_of(b);
    assert(sa.0.len() == a.cells@.len() && sb.0.len() == b.cells@.len());
    assert forall|i: int| #![trigger a.cells@[i], b.cells@[i]] 0 <= i < a.cells@.len() implies {
        &&& a.cells@[i].hint@ == b.cells@[i].hint@
        &&& a.cells@[i].focused == b.cells@[i].focused
        &&& a.cells@[i].visible == b.cells@[i].visible
        &&& a.cells@[i].tabbed == b.cells@[i].tabbed
        &&& a.cells@[i].active == b.cells@[i].active
        &&& a.cells@[i].members@.len() == b.cells@[i].members@.len()
    } by {
        assert(sa.0[i] == sb.0[i]);
    }
    assert(sa.1.len() == a.workspaces@.len() && sb.1.len() == b.workspaces@.len());
    assert forall|i: int| #![trigger a.workspaces@[i], b.workspaces@[i]] 0 <= i < a.workspaces@.len() implies {
        &&& a.workspaces@[i].label@ == b.workspaces@[i].label@
        &&& a.workspaces@[i].active == b.workspaces@[i].active
        &&& a.workspaces@[i].pids@ == b.workspaces@[i].pids@
    } by {
        assert(sa.1[i] == sb.1[i]);
    }
}

/// The active member's label, `\u{1}`, and its title.
fn active_label(c: &ColumnCell) -> (v: Vec<char>)
    ensures
        v@ == active_label_of(*c),
{
    match c.active_member() {
        Some(m) => {
            let mut v = chars_of(m.label.as_str());
            v.push('\u{1}');
            let t = chars_of(m.title.as_str());
            let ghost before = v@;
            let mut k: usize = 0;
            while k < t.len()
                invariant
                    k <= t@.len(),
                    v@ == before + t@.take(k as int),
                decreases t@.len() - k,
            {
                v.push(t[k]);
                assert(t@.take(k + 1) == t@.take(k as int).push(t@[k as int]));
                k = k + 1;
            }
            assert(t@.take(t@.len() as int) == t@);
            v
        },
        None => Vec::new(),
    }
}

fn same_text(a: &String, b: &String) -> (r: bool)
    ensures
        r == (a@ == b@),
{
    let x = chars_of(a.as_str());
    let y = chars_of(b.as_str());
    chars_eq(x.as_slice(), y.as_slice())
}

fn same_cell_sig(a: &ColumnCell, b: &ColumnCell) -> (r: bool)
    ensures
        r == (cell_sig(*a) == cell_sig(*b)),
{
    if a.focused != b.focused || a.visible != b.visible || a.tabbed != b.tabbed || a.active != b.active
        || a.members.len() != b.members.len() {
        return false;
    }
    if !same_text(&a.hint, &b.hint) {
        return false;
    }
    let x = active_label(a);
    let y = active_label(b);
    chars_eq(x.as_slice(), y.as_slice())
}

fn same_pids(a: &Vec<i32>, b: &Vec<i32>) -> (r: bool)
    ensures
        r == (a@ == b@),
{
    if a.len() != b.len() {
        return false;
    }
    let n = a.len();
    for k in 0..n
        invariant
            n == a@.len(),
            n == b@.len(),
            forall|m: int| 0 <= m < k ==> a@[m] == b@[m],
    {
        if a[k] != b[k] {
            return false;
        }
    }
    assert(a@ =~= b@);
    true
}

fn same_workspace_sig(a: &WorkspaceCell, b: &WorkspaceCell) -> (r: bool)
    ensures
        r == (workspace_sig(*a) == workspace_sig(*b)),
{
    a.active == b.active && same_text(&a.label, &b.label) && same_pids(&a.pids, &b.pids)
}

/// Whether two snapshots carry the same change signature.
pub fn same_signature(a: &Snapshot, b: &Snapshot) -> (r: bool)
    ensures
        r == (signature_of(*a) == signature_of(*b)),
{
    if a.top_count != b.top_count || a.cells.len() != b.cells.len()
        || a.workspaces.len() != b.workspaces.len() {
        proof {
            if a.cells.len() != b.cells.len() {
                assert(signature_of(*a).0.len() != signature_of(*b).0.len());
            }
            if a.workspaces.len() != b.workspaces.len() {
                assert(signature_of(*a).1.len() != signature_of(*b).1.len());
            }
        }
        return false;
    }
    let ghost sa = signature_of(*a);
    let ghost sb = signature_of(*b);
    let n = a.cells.len();
    for k in 0..n
        invariant
            n == a.cells@.len(),
            n == b.cells@.len(),
            sa == signature_of(*a),
            sb == signature_of(*b),
            forall|m: int| 0 <= m < k ==> sa.0[m] == sb.0[m],
    {
        if !same_cell_sig(&a.cells[k], &b.cells[k]) {
            assert(sa.0[k as int] != sb.0[k as int]);
            return false;
        }
    }
    assert(sa.0 =~= sb.0);
    let w = a.workspaces.len();
    for k in 0..w
        invariant
            w == a.workspaces@.len(),
            w == b.workspaces@.len(),
            sa == signature_of(*a),
            sb == signature_of(*b),
            forall|m: int| 0 <= m < k ==> sa.1[m] == sb.1[m],
    {
        if !same_workspace_sig(&a.workspaces[k], &b.workspaces[k]) {
            assert(sa.1[k as int] != sb.1[k as int]);
            return false;
        }
    }
    assert(sa.1 =~= sb.1);
    true
}

/// How the columns of a snapshot are split between the main bar and the
/// overflow bar: the main bar shows `cells[..main_len]`, with a second row
/// starting at `main_split` when there is one; the overflow bar shows
/// `cells[from..]` for `overflow_from == Some(from)` and is hidden otherwise.
#[derive(Clone, Copy, Debug, PartialEq, Eq)]
pub struct RenderPlan {
    pub frames: u64,
    pub main_len: usize,
    pub main_split: Option<usize>,
    pub overflow_from: Option<usize>,
}

/// The partition for a snapshot: with real overflow (`top_count` below the
/// column count), `row` wraps the main bar at `top_count` and `bar` moves the
/// tail to the overflow bar (when it has a frame); otherwise every column
/// goes on the main bar.
pub open spec fn plan_of(s: Snapshot) -> RenderPlan {
    let total = s.cells.len();
    let has_overflow = s.top_count < total;
    match s.overflow {
        HintsBarOverflow::Row if has_overflow => RenderPlan {
            frames: s.frames,
            main_len: total,
            main_split: Some(s.top_count),
            overflow_from: None,
        },
        HintsBarOverflow::Bar if has_overflow => RenderPlan {
            frames: s.frames,
            main_len: s.top_count,
            main_split: None,
            overflow_from: if s.has_overflow_frame { Some(s.top_count) } else { None },
        },
        _ => RenderPlan { frames: s.frames, main_len: total, main_split: None, overflow_from: None },
    }
}

/// Splits a snapshot's columns per its overflow mode.
pub fn render_plan(s: &Snapshot) -> (p: RenderPlan)
    ensures
        p == plan_of(*s),
{
    let total = s.cells.len();
    let has_overflow = s.top_count < total;
    match s.overflow {
        HintsBarOverflow::Row if has_overflow => RenderPlan {
            frames: s.frames,
            main_len: total,
            main_split: Some(s.top_count),
            overflow_from: None,
        },
        HintsBarOverflow::Bar if has_overflow => RenderPlan {
            frames: s.frames,
            main_len: s.top_count,
            main_split: None,
            overflow_from: if s.has_overflow_frame { Some(s.top_count) } else { None },
        },
        _ => RenderPlan { frames: s.frames, main_len: total, main_split: None, overflow_from: None },
    }
}

/// The delay (ms) of the debounce window that coalesces bursts of snapshots.
pub const DEBOUNCE_MS: u64 = 12;

/// Work for the caller, in the order given.
#[derive(Clone, Copy, Debug, PartialEq, Eq)]
pub enum BarAction {
    /// (Re)arm the debounce timer to fire after this many ms.
    ArmDebounce(u64),
    /// (Re)arm the auto-flash hide timer to fire after this many ms.
    ArmHideTimer(u64),
    /// Create or reframe the bar(s) and draw the plan's columns.
    Render(RenderPlan),
    /// Hide both bars if visible and republish the hit rectangles.
    Hide,
    /// Hide and drop both bar windows and clear the hit rectangles.
    Teardown,
}

/// The part of `[settings.ui.hints_bar]` the actor decides by.
#[derive(Clone, Copy, Debug, PartialEq, Eq, Structural)]
pub struct BarConfig {
    pub enabled: bool,
    pub visibility: HintsBarVisibility,
    /// Auto-hide delay (ms) after the strip last changed, for `visibility = auto`.
    pub auto_hide_ms: u64,
}

impl BarConfig {
    /// The deciding settings of a hint-bar configuration.
    pub fn of(hb: &HintsBarSettings) -> (c: BarConfig)
        ensures
            c == (BarConfig { enabled: hb.enabled, visibility: hb.visibility, auto_hide_ms: hb.auto_hide_ms }),
    {
        BarConfig { enabled: hb.enabled, visibility: hb.visibility, auto_hide_ms: hb.auto_hide_ms }
    }
}

/// What the actor reacts to.
pub enum BarEvent {
    /// New strip state for the active display space (empty cells = nothing to show).
    Snapshot(Snapshot),
    /// A reloaded configuration, by its hint-bar part.
    ConfigUpdated(BarConfig),
    /// A click that the event tap resolved onto the bar; the caller
    /// hit-tests it after performing the actions.
    MouseDown,
    /// `toggle_hints_bar` command.
    Toggle,
    /// The auto-flash hide timer fired.
    HideTimerFired,
    /// The debounce timer fired.
    DebounceFired,
}

/// The hint-bar actor's state.
pub struct HintsBar {
    pub config: BarConfig,
    pub last_snapshot: Option<Snapshot>,
    /// Whether the user toggled the bar on (only meaningful for `on_demand`).
    pub user_shown: bool,
    /// True while the `auto`-mode flash is showing (guards the hide timer).
    pub auto_pending: bool,
    /// Delay (ms) to (re)arm the hide timer with at the end of this turn.
    pub pending_arm: Option<u64>,
    /// Newest snapshot awaiting the debounce window (coalesces bursts).
    pub pending: Option<Snapshot>,
    /// Whether the debounce timer is currently armed.
    pub debounce_armed: bool,
    /// Whether the main bar is on screen.
    pub bar_visible: bool,
}

pub open spec fn enabled_in(s: HintsBar) -> bool {
    s.config.enabled
}

pub open spec fn visibility_in(s: HintsBar) -> HintsBarVisibility {
    s.config.visibility
}

/// The flash delay: `auto_hide_ms`, at least 1.
pub open spec fn flash_ms(s: HintsBar) -> u64 {
    let ms = s.config.auto_hide_ms;
    if ms < 1 { 1 } else { ms }
}

pub open spec fn arm_flash_spec(s: HintsBar) -> HintsBar {
    HintsBar { pending_arm: Some(flash_ms(s)), ..s }
}

pub open spec fn hide_spec(s: HintsBar) -> (HintsBar, Seq<BarAction>) {
    (HintsBar { bar_visible: false, ..s }, seq![BarAction::Hide])
}

pub open spec fn teardown_spec(s: HintsBar) -> (HintsBar, Seq<BarAction>) {
    (
        HintsBar { bar_visible: false, auto_pending: false, pending_arm: None, ..s },
        seq![BarAction::Teardown],
    )
}

/// Decide visibility for the current mode and render or hide accordingly.
#[verifier::opaque]
pub open spec fn reevaluate_spec(s: HintsBar, changed: bool) -> (HintsBar, Seq<BarAction>) {
    match s.last_snapshot {
        None => (s, Seq::empty()),
        Some(snap) => if !enabled_in(s) || snap.cells@.len() == 0 {
            hide_spec(s)
        } else {
            let s1 = if visibility_in(s) == HintsBarVisibility::Auto && changed {
                arm_flash_spec(s)
            } else {
                s
            };
            let show = match visibility_in(s) {
                HintsBarVisibility::Always => true,
                HintsBarVisibility::OnDemand => s.user_shown,
                HintsBarVisibility::Auto => changed || s1.auto_pending || s1.pending_arm is Some,
            };
            if show {
                if changed || !s1.bar_visible {
                    (HintsBar { bar_visible: true, ..s1 }, seq![BarAction::Render(plan_of(snap))])
                } else {
                    (s1, Seq::empty())
                }
            } else {
                hide_spec(s1)
            }
        },
    }
}

/// Whether a snapshot differs, by signature, from the last one taken.
pub open spec fn changed_from(last: Option<Snapshot>, snap: Snapshot) -> bool {
    match last {
        None => true,
        Some(l) => signature_of(l) != signature_of(snap),
    }
}

pub open spec fn on_snapshot_spec(s: HintsBar, snap: Snapshot) -> (HintsBar, Seq<BarAction>) {
    if !enabled_in(s) {
        teardown_spec(s)
    } else {
        reevaluate_spec(HintsBar { last_snapshot: Some(snap), ..s }, changed_from(s.last_snapshot, snap))
    }
}

pub open spec fn on_config_spec(s: HintsBar, config: BarConfig) -> (HintsBar, Seq<BarAction>) {
    let s1 = HintsBar { config: config, ..s };
    if !enabled_in(s1) {
        teardown_spec(s1)
    } else {
        reevaluate_spec(s1, true)
    }
}

pub open spec fn on_toggle_spec(s: HintsBar) -> (HintsBar, Seq<BarAction>) {
    if !enabled_in(s) {
        (s, Seq::empty())
    } else {
        match visibility_in(s) {
            HintsBarVisibility::OnDemand => reevaluate_spec(HintsBar { user_shown: !s.user_shown, ..s }, false),
            HintsBarVisibility::Auto => reevaluate_spec(arm_flash_spec(s), false),
            HintsBarVisibility::Always => (s, Seq::empty()),
        }
    }
}

/// Takes the snapshot waiting out the debounce window, if any.
#[verifier::opaque]
pub open spec fn flush_spec(s: HintsBar) -> (HintsBar, Seq<BarAction>) {
    match s.pending {
        Some(p) => on_snapshot_spec(HintsBar { pending: None, ..s }, p),
        None => (s, Seq::empty()),
    }
}

/// Arms the hide timer with the delay a flash asked for, if any.
pub open spec fn arm_hide_spec(s: HintsBar) -> (HintsBar, Seq<BarAction>) {
    match s.pending_arm {
        Some(d) => (HintsBar { pending_arm: None, auto_pending: true, ..s }, seq![BarAction::ArmHideTimer(d)]),
        None => (s, Seq::empty()),
    }
}

/// Flush, then the event's own handling, then arming the hide timer.
pub open spec fn flush_handle_arm(s: HintsBar, e: BarEvent) -> (HintsBar, Seq<BarAction>) {
    let (s1, a1) = flush_spec(s);
    let (s2, a2) = match e {
        BarEvent::ConfigUpdated(c) => on_config_spec(s1, c),
        BarEvent::Toggle => on_toggle_spec(s1),
        _ => (s1, Seq::empty()),
    };
    let (s3, a3) = arm_hide_spec(s2);
    (s3, a1 + a2 + a3)
}

/// One turn of the actor: the state after `e`, given whether the main bar
/// is visible now, and the actions for the caller.
pub open spec fn step_spec(s: HintsBar, e: BarEvent, visible: bool) -> (HintsBar, Seq<BarAction>) {
    let s0 = HintsBar { bar_visible: visible, ..s };
    match e {
        BarEvent::Snapshot(snap) => if !s0.debounce_armed {
            (
                HintsBar { pending: Some(snap), debounce_armed: true, ..s0 },
                seq![BarAction::ArmDebounce(DEBOUNCE_MS)],
            )
        } else {
            (HintsBar { pending: Some(snap), ..s0 }, Seq::empty())
        },
        BarEvent::HideTimerFired => if s0.auto_pending {
            hide_spec(HintsBar { auto_pending: false, ..s0 })
        } else {
            (s0, Seq::empty())
        },
        BarEvent::DebounceFired => if s0.debounce_armed {
            flush_handle_arm(HintsBar { debounce_armed: false, ..s0 }, BarEvent::DebounceFired)
        } else {
            (s0, Seq::empty())
        },
        _ => flush_handle_arm(s0, e),
    }
}

/// What re-deciding visibility leaves alone, and what it does while disabled.
proof fn lemma_reevaluate(s: HintsBar, changed: bool)
    ensures
        reevaluate_spec(s, changed).0.config == s.config,
        reevaluate_spec(s, changed).0.user_shown == s.user_shown,
        reevaluate_spec(s, changed).0.last_snapshot == s.last_snapshot,
        reevaluate_spec(s, changed).0.pending == s.pending,
        reevaluate_spec(s, changed).0.debounce_armed == s.debounce_armed,
        !enabled_in(s) && s.last_snapshot is Some ==> reevaluate_spec(s, changed) == hide_spec(s),
        !enabled_in(s) && s.last_snapshot is None ==> reevaluate_spec(s, changed) == (s, Seq::<BarAction>::empty()),
{
    reveal(reevaluate_spec);
}

/// Toggling twice in `on_demand` mode leaves the user's choice where it was,
/// whatever snapshot was waiting and whatever the bar showed.
pub proof fn law_toggle_twice_restores(s: HintsBar, v1: bool, v2: bool)
    requires
        enabled_in(s),
        visibility_in(s) == HintsBarVisibility::OnDemand,
    ensures
        step_spec(step_spec(s, BarEvent::Toggle, v1).0, BarEvent::Toggle, v2).0.user_shown == s.user_shown,
        step_spec(s, BarEvent::Toggle, v1).0.user_shown == !s.user_shown,
{
    let s0 = HintsBar { bar_visible: v1, ..s };
    lemma_flush_keeps(s0);
    let f = flush_spec(s0).0;
    lemma_reevaluate(HintsBar { user_shown: !f.user_shown, ..f }, false);
    let s1 = step_spec(s, BarEvent::Toggle, v1).0;
    let t0 = HintsBar { bar_visible: v2, ..s1 };
    lemma_flush_keeps(t0);
    let g = flush_spec(t0).0;
    lemma_reevaluate(HintsBar { user_shown: !g.user_shown, ..g }, false);
}

/// Taking the waiting snapshot keeps the configuration and the user's toggle.
proof fn lemma_flush_keeps(s: HintsBar)
    ensures
        flush_spec(s).0.config == s.config,
        flush_spec(s).0.user_shown == s.user_shown,
        flush_spec(s).0.pending is None,
        flush_spec(s).0.debounce_armed == s.debounce_armed,
        s.pending is None ==> flush_spec(s) == (s, Seq::<BarAction>::empty()),
        !enabled_in(s) ==> no_render(flush_spec(s).1),
{
    reveal(flush_spec);
    match s.pending {
        Some(p) => {
            let t = HintsBar { pending: None, ..s };
            lemma_reevaluate(HintsBar { last_snapshot: Some(p), ..t }, changed_from(t.last_snapshot, p));
        },
        None => {},
    }
}

/// No action of the sequence draws the bar.
pub open spec fn no_render(a: Seq<BarAction>) -> bool {
    forall|i: int| 0 <= i < a.len() ==> !(#[trigger] a[i] is Render)
}

proof fn lemma_no_render_concat(a: Seq<BarAction>, b: Seq<BarAction>)
    requires
        no_render(a),
        no_render(b),
    ensures
        no_render(a + b),
{
    assert forall|i: int| 0 <= i < (a + b).len() implies !(#[trigger] (a + b)[i] is Render) by {
        if i < a.len() {
            assert((a + b)[i] == a[i]);
        } else {
            assert((a + b)[i] == b[i - a.len()]);
        }
    }
}

proof fn lemma_disabled_turn(s: HintsBar, e: BarEvent)
    requires
        !enabled_in(s),
        e matches BarEvent::ConfigUpdated(c) ==> !c.enabled,
    ensures
        no_render(flush_handle_arm(s, e).1),
{
    lemma_flush_keeps(s);
    let (s1, a1) = flush_spec(s);
    let (s2, a2) = match e {
        BarEvent::ConfigUpdated(c) => on_config_spec(s1, c),
        BarEvent::Toggle => on_toggle_spec(s1),
        _ => (s1, Seq::empty()),
    };
    let (s3, a3) = arm_hide_spec(s2);
    assert(no_render(a2));
    assert(no_render(a3));
    lemma_no_render_concat(a1, a2);
    lemma_no_render_concat(a1 + a2, a3);
}

/// While the bar is disabled, and no new configuration enables it, no event
/// draws it.
pub proof fn law_disabled_never_renders(s: HintsBar, e: BarEvent, visible: bool)
    requires
        !enabled_in(s),
        e matches BarEvent::ConfigUpdated(c) ==> !c.enabled,
    ensures
        no_render(step_spec(s, e, visible).1),
{
    let s0 = HintsBar { bar_visible: visible, ..s };
    match e {
        BarEvent::Snapshot(snap) => {},
        BarEvent::HideTimerFired => {},
        BarEvent::DebounceFired => {
            if s0.debounce_armed {
                lemma_disabled_turn(HintsBar { debounce_armed: false, ..s0 }, BarEvent::DebounceFired);
            }
        },
        BarEvent::ConfigUpdated(c) => {
            lemma_disabled_turn(s0, e);
        },
        BarEvent::MouseDown => {
            lemma_disabled_turn(s0, e);
        },
        BarEvent::Toggle => {
            lemma_disabled_turn(s0, e);
        },
    }
}

/// Snapshots arriving in a burst are coalesced: only the newest waits, and
/// the debounce timer is armed once, by the first.
pub proof fn law_snapshots_coalesce(s: HintsBar, a: Snapshot, b: Snapshot, v1: bool, v2: bool)
    requires
        !s.debounce_armed,
    ensures
        ({
            let (s1, a1) = step_spec(s, BarEvent::Snapshot(a), v1);
            let (s2, a2) = step_spec(s1, BarEvent::Snapshot(b), v2);
            &&& a1 == seq![BarAction::ArmDebounce(DEBOUNCE_MS)]
            &&& a2 == Seq::<BarAction>::empty()
            &&& s2.pending == Some(b)
            &&& s2.debounce_armed
            &&& s2.last_snapshot == s.last_snapshot
        }),
{
}

/// In `always` mode, once the debounce window ends, a non-empty snapshot
/// that changed (or found the bar hidden) is drawn, before anything else.
pub proof fn law_always_renders(s: HintsBar, snap: Snapshot, visible: bool)
    requires
        enabled_in(s),
        visibility_in(s) == HintsBarVisibility::Always,
        s.pending == Some(snap),
        s.debounce_armed,
        snap.cells@.len() > 0,
        changed_from(s.last_snapshot, snap) || !visible,
    ensures
        step_spec(s, BarEvent::DebounceFired, visible).1.len() > 0,
        step_spec(s, BarEvent::DebounceFired, visible).1[0] == BarAction::Render(plan_of(snap)),
        step_spec(s, BarEvent::DebounceFired, visible).0.bar_visible,
        step_spec(s, BarEvent::DebounceFired, visible).0.last_snapshot == Some(snap),
        step_spec(s, BarEvent::DebounceFired, visible).0.pending is None,
{
    reveal(reevaluate_spec);
    reveal(flush_spec);
}

/// In `auto` mode a changed, non-empty snapshot is drawn and arms the hide
/// timer with the flash delay; when that timer fires, the bar is hidden.
pub proof fn law_auto_flash(s: HintsBar, snap: Snapshot, visible: bool)
    requires
        enabled_in(s),
        visibility_in(s) == HintsBarVisibility::Auto,
        s.pending == Some(snap),
        s.debounce_armed,
        snap.cells@.len() > 0,
        changed_from(s.last_snapshot, snap),
    ensures
        ({
            let (s1, a1) = step_spec(s, BarEvent::DebounceFired, visible);
            let (s2, a2) = step_spec(s1, BarEvent::HideTimerFired, true);
            &&& a1 == seq![BarAction::Render(plan_of(snap)), BarAction::ArmHideTimer(flash_ms(s))]
            &&& s1.auto_pending
            &&& a2 == seq![BarAction::Hide]
            &&& !s2.bar_visible
            &&& !s2.auto_pending
        }),
{
    reveal(reevaluate_spec);
    reveal(flush_spec);
    let (s1, a1) = step_spec(s, BarEvent::DebounceFired, visible);
    assert(a1 =~= seq![BarAction::Render(plan_of(snap)), BarAction::ArmHideTimer(flash_ms(s))]);
}

/// In `on_demand` mode, with nothing waiting, a toggle shows the last
/// non-empty snapshot and a second toggle hides it again.
pub proof fn law_on_demand_toggle_shows_then_hides(s: HintsBar, snap: Snapshot, visible: bool)
    requires
        enabled_in(s),
        visibility_in(s) == HintsBarVisibility::OnDemand,
        !s.user_shown,
        s.pending is None,
        s.pending_arm is None,
        s.last_snapshot == Some(snap),
        snap.cells@.len() > 0,
        !visible,
    ensures
        ({
            let (s1, a1) = step_spec(s, BarEvent::Toggle, visible);
            let (s2, a2) = step_spec(s1, BarEvent::Toggle, true);
            &&& a1 == seq![BarAction::Render(plan_of(snap))]
            &&& s1.bar_visible
            &&& a2 == seq![BarAction::Hide]
            &&& !s2.bar_visible
            &&& s2.user_shown == s.user_shown
        }),
{
    reveal(reevaluate_spec);
    lemma_flush_keeps(HintsBar { bar_visible: visible, ..s });
    let (s1, a1) = step_spec(s, BarEvent::Toggle, visible);
    lemma_flush_keeps(HintsBar { bar_visible: true, ..s1 });
    assert(a1 =~= seq![BarAction::Render(plan_of(snap))]);
    let (s2, a2) = step_spec(s1, BarEvent::Toggle, true);
    assert(a2 =~= seq![BarAction::Hide]);
}

/// The plan never reaches past the columns, and the two strips split them:
/// the overflow bar starts exactly where the main bar ends, and a second row
/// starts inside a main bar that holds every column.
pub proof fn law_plan_partitions_columns(s: Snapshot)
    ensures
        plan_of(s).main_len <= s.cells@.len(),
        plan_of(s).frames == s.frames,
        plan_of(s).overflow_from matches Some(f) ==> f == plan_of(s).main_len && f < s.cells@.len(),
        plan_of(s).main_split matches Some(k) ==> k < s.cells@.len() && plan_of(s).main_len == s.cells@.len(),
        plan_of(s).main_split is Some ==> plan_of(s).overflow_from is None,
{
}

/// Render gating: once the debounce window ends, a snapshot with the same
/// signature as the last one draws nothing while the bar is up.
pub proof fn law_unchanged_snapshot_not_redrawn(s: HintsBar, snap: Snapshot)
    requires
        s.pending == Some(snap),
        s.debounce_armed,
        s.last_snapshot matches Some(l) && signature_of(l) == signature_of(snap),
    ensures
        no_render(step_spec(s, BarEvent::DebounceFired, true).1),
{
    reveal(reevaluate_spec);
    reveal(flush_spec);
    let t = HintsBar { debounce_armed: false, bar_visible: true, ..s };
    let (s1, a1) = flush_spec(t);
    let (s3, a3) = arm_hide_spec(s1);
    assert(no_render(a1));
    assert(no_render(a3));
    lemma_no_render_concat(a1, Seq::<BarAction>::empty());
    lemma_no_render_concat(a1 + Seq::<BarAction>::empty(), a3);
}

/// A new configuration that keeps the bar enabled redraws the last
/// non-empty snapshot in `always` mode, with the new style.
pub proof fn law_config_update_redraws(s: HintsBar, c: BarConfig, snap: Snapshot, visible: bool)
    requires
        s.pending is None,
        s.last_snapshot == Some(snap),
        snap.cells@.len() > 0,
        c.enabled,
        c.visibility == HintsBarVisibility::Always,
    ensures
        step_spec(s, BarEvent::ConfigUpdated(c), visible).1.len() > 0,
        step_spec(s, BarEvent::ConfigUpdated(c), visible).1[0] == BarAction::Render(plan_of(snap)),
        step_spec(s, BarEvent::ConfigUpdated(c), visible).0.config == c,
{
    reveal(reevaluate_spec);
    lemma_flush_keeps(HintsBar { bar_visible: visible, ..s });
}

/// In `always` mode, a snapshot in which some column's focus differs from
/// the last snapshot is drawn once the debounce window ends, even while the
/// bar is up.
pub proof fn law_focus_change_redraws(s: HintsBar, last: Snapshot, snap: Snapshot, i: int)
    requires
        enabled_in(s),
        visibility_in(s) == HintsBarVisibility::Always,
        s.last_snapshot == Some(last),
        s.pending == Some(snap),
        s.debounce_armed,
        0 <= i < last.cells@.len(),
        0 <= i < snap.cells@.len(),
        last.cells@[i].focused != snap.cells@[i].focused,
    ensures
        step_spec(s, BarEvent::DebounceFired, true).1.len() > 0,
        step_spec(s, BarEvent::DebounceFired, true).1[0] == BarAction::Render(plan_of(snap)),
{
    if signature_of(last) == signature_of(snap) {
        law_same_signature_same_cells(last, snap);
        assert(last.cells@[i].focused == snap.cells@[i].focused);
    }
    law_always_renders(s, snap, true);
}

impl HintsBar {
    /// A bar with nothing shown yet.
    pub fn new(config: BarConfig) -> (h: HintsBar)
        ensures
            h == (HintsBar {
                config: config,
                last_snapshot: None,
                user_shown: false,
                auto_pending: false,
                pending_arm: None,
                pending: None,
                debounce_armed: false,
                bar_visible: false,
            }),
    {
        HintsBar {
            config,
            last_snapshot: None,
            user_shown: false,
            auto_pending: false,
            pending_arm: None,
            pending: None,
            debounce_armed: false,
            bar_visible: false,
        }
    }

    fn is_enabled(&self) -> (r: bool)
        ensures
            r == enabled_in(*self),
    {
        self.config.enabled
    }

    fn arm_flash(&mut self)
        ensures
            *final(self) == arm_flash_spec(*old(self)),
    {
        let ms = self.config.auto_hide_ms;
        self.pending_arm = Some(if ms < 1 { 1 } else { ms });
    }

    fn hide_bars(&mut self, actions: &mut Vec<BarAction>)
        ensures
            *final(self) == hide_spec(*old(self)).0,
            final(actions)@ == old(actions)@ + hide_spec(*old(self)).1,
    {
        self.bar_visible = false;
        actions.push(BarAction::Hide);
        assert(actions@ =~= old(actions)@ + hide_spec(*old(self)).1);
    }

    fn teardown(&mut self, actions: &mut Vec<BarAction>)
        ensures
            *final(self) == teardown_spec(*old(self)).0,
            final(actions)@ == old(actions)@ + teardown_spec(*old(self)).1,
    {
        self.bar_visible = false;
        self.auto_pending = false;
        self.pending_arm = None;
        actions.push(BarAction::Teardown);
        assert(actions@ =~= old(actions)@ + teardown_spec(*old(self)).1);
    }

    fn reevaluate(&mut self, changed: bool, actions: &mut Vec<BarAction>)
        ensures
            *final(self) == reevaluate_spec(*old(self), changed).0,
            final(actions)@ == old(actions)@ + reevaluate_spec(*old(self), changed).1,
    {
        reveal(reevaluate_spec);
        let (empty, plan) = match &self.last_snapshot {
            None => {
                assert(actions@ =~= old(actions)@ + Seq::<BarAction>::empty());
                return;
            },
            Some(snap) => (snap.cells.len() == 0, render_plan(snap)),
        };
        if !self.is_enabled() || empty {
            self.hide_bars(actions);
            return;
        }
        let vis = self.config.visibility;
        if vis == HintsBarVisibility::Auto && changed {
            self.arm_flash();
        }
        let show = match vis {
            HintsBarVisibility::Always => true,
            HintsBarVisibility::OnDemand => self.user_shown,
            HintsBarVisibility::Auto => changed || self.auto_pending || self.pending_arm.is_some(),
        };
        if show {
            if changed || !self.bar_visible {
                self.bar_visible = true;
                actions.push(BarAction::Render(plan));
                assert(actions@ =~= old(actions)@ + reevaluate_spec(*old(self), changed).1);
            } else {
                assert(actions@ =~= old(actions)@ + reevaluate_spec(*old(self), changed).1);
            }
        } else {
            self.hide_bars(actions);
        }
    }

    fn on_snapshot(&mut self, snapshot: Snapshot, actions: &mut Vec<BarAction>)
        ensures
            *final(self) == on_snapshot_spec(*old(self), snapshot).0,
            final(actions)@ == old(actions)@ + on_snapshot_spec(*old(self), snapshot).1,
    {
        if !self.is_enabled() {
            self.teardown(actions);
            return;
        }
        let changed = match &self.last_snapshot {
            None => true,
            Some(last) => !same_signature(last, &snapshot),
        };
        self.last_snapshot = Some(snapshot);
        self.reevaluate(changed, actions);
    }

    fn on_config(&mut self, config: BarConfig, actions: &mut Vec<BarAction>)
        ensures
            *final(self) == on_config_spec(*old(self), config).0,
            final(actions)@ == old(actions)@ + on_config_spec(*old(self), config).1,
    {
        self.config = config;
        if !self.is_enabled() {
            self.teardown(actions);
            return;
        }
        self.reevaluate(true, actions);
    }

    fn on_toggle(&mut self, actions: &mut Vec<BarAction>)
        ensures
            *final(self) == on_toggle_spec(*old(self)).0,
            final(actions)@ == old(actions)@ + on_toggle_spec(*old(self)).1,
    {
        if !self.is_enabled() {
            assert(actions@ =~= old(actions)@ + Seq::<BarAction>::empty());
            return;
        }
        match self.config.visibility {
            HintsBarVisibility::OnDemand => {
                self.user_shown = !self.user_shown;
                self.reevaluate(false, actions);
            },
            HintsBarVisibility::Auto => {
                self.arm_flash();
                self.reevaluate(false, actions);
            },
            HintsBarVisibility::Always => {
                assert(actions@ =~= old(actions)@ + Seq::<BarAction>::empty());
            },
        }
    }

    fn flush_pending(&mut self, actions: &mut Vec<BarAction>)
        ensures
            *final(self) == flush_spec(*old(self)).0,
            final(actions)@ == old(actions)@ + flush_spec(*old(self)).1,
    {
        reveal(flush_spec);
        let pending = self.pending.take();
        match pending {
            Some(snapshot) => self.on_snapshot(snapshot, actions),
            None => {
                assert(actions@ =~= old(actions)@ + Seq::<BarAction>::empty());
            },
        }
    }

    fn arm_hide(&mut self, actions: &mut Vec<BarAction>)
        ensures
            *final(self) == arm_hide_spec(*old(self)).0,
            final(actions)@ == old(actions)@ + arm_hide_spec(*old(self)).1,
    {
        match self.pending_arm {
            Some(delay) => {
                self.pending_arm = None;
                self.auto_pending = true;
                actions.push(BarAction::ArmHideTimer(delay));
                assert(actions@ =~= old(actions)@ + arm_hide_spec(*old(self)).1);
            },
            None => {
                assert(actions@ =~= old(actions)@ + Seq::<BarAction>::empty());
            },
        }
    }

    fn flush_handle_arm(&mut self, event: BarEvent, actions: &mut Vec<BarAction>)
        ensures
            *final(self) == flush_handle_arm(*old(self), event).0,
            final(actions)@ == old(actions)@ + flush_handle_arm(*old(self), event).1,
    {
        let ghost s0 = *self;
        let ghost a0 = actions@;
        self.flush_pending(actions);
        let ghost a1 = actions@;
        match event {
            BarEvent::ConfigUpdated(config) => self.on_config(config, actions),
            BarEvent::Toggle => self.on_toggle(actions),
            _ => {
                assert(actions@ =~= a1 + Seq::<BarAction>::empty());
            },
        }
        let ghost a2 = actions@;
        self.arm_hide(actions);
        proof {
            let (s1, b1) = flush_spec(s0);
            assert(a1 == a0 + b1);
            assert(actions@ =~= a0 + flush_handle_arm(s0, event).1);
        }
    }

    /// One turn of the actor: records whether the main bar is visible now,
    /// applies `event`, and returns the work for the caller in order. A
    /// snapshot only waits out the debounce window (arming it if idle); a
    /// fired debounce timer, a click, a toggle or a new configuration first
    /// handles the waiting snapshot, then the event, then arms the hide timer
    /// if a flash asked for it; a fired hide timer ends the flash.
    pub fn handle(&mut self, event: BarEvent, bar_visible: bool) -> (actions: Vec<BarAction>)
        ensures
            *final(self) == step_spec(*old(self), event, bar_visible).0,
            actions@ == step_spec(*old(self), event, bar_visible).1,
    {
        let mut actions: Vec<BarAction> = Vec::new();
        self.bar_visible = bar_visible;
        match event {
            BarEvent::Snapshot(snapshot) => {
                self.pending = Some(snapshot);
                if !self.debounce_armed {
                    actions.push(BarAction::ArmDebounce(DEBOUNCE_MS));
                    self.debounce_armed = true;
                }
                assert(actions@ =~= step_spec(*old(self), event, bar_visible).1);
            },
            BarEvent::HideTimerFired => {
                if self.auto_pending {
                    self.auto_pending = false;
                    self.hide_bars(&mut actions);
                }
                assert(actions@ =~= step_spec(*old(self), event, bar_visible).1);
            },
            BarEvent::DebounceFired => {
                if self.debounce_armed {
                    self.debounce_armed = false;
                    self.flush_handle_arm(BarEvent::DebounceFired, &mut actions);
                }
                assert(actions@ =~= step_spec(*old(self), event, bar_visible).1);
            },
            other => {
                self.flush_handle_arm(other, &mut actions);
                assert(actions@ =~= step_spec(*old(self), event, bar_visible).1);
            },
        }
        actions
    }
}

} // verus!
