//! Reactor state managers: workspace switching and refresh quarantine.
use vstd::prelude::*;
use crate::hints::WindowId;

verus! {

/// Whether a workspace switch is under way.
#[derive(Clone, Copy, Debug, PartialEq, Eq, Structural)]
pub enum WorkspaceSwitchState {
    Inactive,
    Active,
}

/// Who started a workspace switch: the user, or rift reacting to an app.
#[derive(Clone, Copy, Debug, PartialEq, Eq, Structural)]
pub enum WorkspaceSwitchOrigin {
    Manual,
    Auto,
}

/// Manages workspace switching state
#[derive(Clone, Debug)]
pub struct WorkspaceSwitchManager {
    pub workspace_switch_state: WorkspaceSwitchState,
    pub workspace_switch_generation: u64,
    pub active_workspace_switch: Option<u64>,
    pub pending_workspace_switch_origin: Option<WorkspaceSwitchOrigin>,
    pub pending_workspace_mouse_warp: Option<WindowId>,
}

/// The generation after `g`, wrapping around at `u64::MAX`.
pub open spec fn next_generation(g: u64) -> u64 {
    if g == u64::MAX { 0 } else { (g + 1) as u64 }
}

/// A manual switch is under way.
pub open spec fn manual_in_progress(m: WorkspaceSwitchManager) -> bool {
    m.workspace_switch_state == WorkspaceSwitchState::Active
        && m.pending_workspace_switch_origin == Some(WorkspaceSwitchOrigin::Manual)
}

/// The manager after starting a switch from `origin`: the generation
/// advances (wrapping) and becomes the active switch, the state turns active
/// and the origin is recorded; the pending mouse warp is kept.
pub open spec fn switch_started(m: WorkspaceSwitchManager, origin: WorkspaceSwitchOrigin) -> WorkspaceSwitchManager {
    WorkspaceSwitchManager {
        workspace_switch_state: WorkspaceSwitchState::Active,
        workspace_switch_generation: next_generation(m.workspace_switch_generation),
        active_workspace_switch: Some(next_generation(m.workspace_switch_generation)),
        pending_workspace_switch_origin: Some(origin),
        pending_workspace_mouse_warp: m.pending_workspace_mouse_warp,
    }
}

/// The manager after the switch is marked inactive: the state turns inactive
/// and the origin is forgotten; everything else is kept.
pub open spec fn switch_marked_inactive(m: WorkspaceSwitchManager) -> WorkspaceSwitchManager {
    WorkspaceSwitchManager {
        workspace_switch_state: WorkspaceSwitchState::Inactive,
        pending_workspace_switch_origin: None,
        ..m
    }
}

impl WorkspaceSwitchManager {
    /// Starts a new switch from `origin`.
    pub fn start_workspace_switch(&mut self, origin: WorkspaceSwitchOrigin)
        ensures
            *final(self) == switch_started(*old(self), origin),
    {
        let g = self.workspace_switch_generation;
        let next = g.wrapping_add(1);
        assert(next == next_generation(g));
        self.workspace_switch_generation = next;
        self.active_workspace_switch = Some(next);
        self.workspace_switch_state = WorkspaceSwitchState::Active;
        self.pending_workspace_switch_origin = Some(origin);
    }

    /// A switch is active and was started manually.
    pub fn manual_switch_in_progress(&self) -> (b: bool)
        ensures
            b == manual_in_progress(*self),
    {
        self.workspace_switch_state == WorkspaceSwitchState::Active && match self.pending_workspace_switch_origin {
            Some(WorkspaceSwitchOrigin::Manual) => true,
            _ => false,
        }
    }

    /// Marks the switch finished.
    pub fn mark_workspace_switch_inactive(&mut self)
        ensures
            *final(self) == switch_marked_inactive(*old(self)),
    {
        self.workspace_switch_state = WorkspaceSwitchState::Inactive;
        self.pending_workspace_switch_origin = None;
    }
}

/// After a manual switch starts, a manual switch is in progress; after an
/// automatic one starts, none is; after the switch is marked inactive, none
/// is. Each start hands out a generation different from the one before, and
/// makes it the active switch.
pub proof fn law_workspace_switch_lifecycle(m: WorkspaceSwitchManager)
    ensures
        manual_in_progress(switch_started(m, WorkspaceSwitchOrigin::Manual)),
        !manual_in_progress(switch_started(m, WorkspaceSwitchOrigin::Auto)),
        !manual_in_progress(switch_marked_inactive(m)),
        switch_started(m, WorkspaceSwitchOrigin::Manual).workspace_switch_generation != m.workspace_switch_generation,
        switch_started(m, WorkspaceSwitchOrigin::Auto).active_workspace_switch
            == Some(switch_started(m, WorkspaceSwitchOrigin::Auto).workspace_switch_generation),
{
}

/// Why refreshes are held back, in priority order.
#[derive(Clone, Copy, Debug, PartialEq, Eq, Structural)]
pub enum RefreshQuarantineState {
    Ready,
    Sleeping,
    SessionInactive,
    DisplayChurn,
}

/// Tracks the conditions under which window refreshes must wait.
#[derive(Clone, Copy, Debug)]
pub struct RefreshQuarantineManager {
    pub sleeping: bool,
    pub session_inactive: bool,
    pub display_churn_active: bool,
    pub awaiting_post_wake_snapshot: bool,
    pub awaiting_post_session_snapshot: bool,
    pub pending_visible_refresh: bool,
    pub deferred_refresh_tracks_mission_control: bool,
}

/// The quarantine state: sleep first, then an inactive session, then display
/// churn; ready when none holds.
pub open spec fn quarantine_state(m: RefreshQuarantineManager) -> RefreshQuarantineState {
    if m.sleeping {
        RefreshQuarantineState::Sleeping
    } else if m.session_inactive {
        RefreshQuarantineState::SessionInactive
    } else if m.display_churn_active {
        RefreshQuarantineState::DisplayChurn
    } else {
        RefreshQuarantineState::Ready
    }
}

impl RefreshQuarantineManager {
    /// The current quarantine state.
    pub fn state(&self) -> (s: RefreshQuarantineState)
        ensures
            s == quarantine_state(*self),
    {
        if self.sleeping {
            RefreshQuarantineState::Sleeping
        } else if self.session_inactive {
            RefreshQuarantineState::SessionInactive
        } else if self.display_churn_active {
            RefreshQuarantineState::DisplayChurn
        } else {
            RefreshQuarantineState::Ready
        }
    }

    /// Whether refreshes are held back (the state is not `Ready`).
    pub fn blocks_refreshes(&self) -> (b: bool)
        ensures
            b == (quarantine_state(*self) != RefreshQuarantineState::Ready),
    {
        self.state() != RefreshQuarantineState::Ready
    }
}

/// Refreshes are held back exactly while the system sleeps, the session is
/// inactive, or displays are churning.
pub proof fn law_blocks_iff_any_condition(m: RefreshQuarantineManager)
    ensures
        (quarantine_state(m) != RefreshQuarantineState::Ready) <==> (m.sleeping || m.session_inactive
            || m.display_churn_active),
{
}

/// The hint bar's reserve feedback around a layout pass: applying a layout
/// may change the strip the bar reserves (marking it dirty), and a dirty
/// reserve earns one more pass so that the tiled windows settle under the new
/// strip; that extra pass never asks for another.
#[derive(Clone, Copy, Debug, PartialEq, Eq, Structural)]
pub struct ReserveConvergence {
    /// The reserve changed during this pass.
    pub hints_bar_reserve_dirty: bool,
    /// A convergence pass is running (guards against re-entry).
    pub hints_bar_reserve_converging: bool,
}

/// One more pass is due: the reserve changed and no convergence pass is
/// running.
pub open spec fn convergence_due(s: ReserveConvergence) -> bool {
    s.hints_bar_reserve_dirty && !s.hints_bar_reserve_converging
}

impl ReserveConvergence {
    /// Starts a layout pass: nothing has changed the reserve yet.
    pub fn start_pass(&mut self)
        ensures
            *final(self) == (ReserveConvergence { hints_bar_reserve_dirty: false, ..*old(self) }),
    {
        self.hints_bar_reserve_dirty = false;
    }

    /// After the layout was applied: whether to run one more pass, which is
    /// so exactly when the reserve changed and no convergence pass is running
    /// yet. The extra pass is then marked as running.
    pub fn begin_convergence(&mut self) -> (again: bool)
        ensures
            again == convergence_due(*old(self)),
            again ==> *final(self) == (ReserveConvergence { hints_bar_reserve_converging: true, ..*old(self) }),
            !again ==> *final(self) == *old(self),
    {
        if self.hints_bar_reserve_dirty && !self.hints_bar_reserve_converging {
            self.hints_bar_reserve_converging = true;
            true
        } else {
            false
        }
    }

    /// The convergence pass is over.
    pub fn end_convergence(&mut self)
        ensures
            *final(self) == (ReserveConvergence { hints_bar_reserve_converging: false, ..*old(self) }),
    {
        self.hints_bar_reserve_converging = false;
    }
}

/// One extra pass at most: once `begin_convergence` started the extra pass,
/// no reserve change made while it runs makes another one due.
pub proof fn law_one_convergence_pass(s: ReserveConvergence, dirty_after_apply: bool)
    requires
        convergence_due(s),
    ensures
        !convergence_due(ReserveConvergence {
            hints_bar_reserve_dirty: dirty_after_apply,
            hints_bar_reserve_converging: true,
        }),
{
}

/// How a layout pass moves a space's windows into place.
#[derive(Clone, Copy, Debug, PartialEq, Eq, Structural)]
pub enum FrameApplication {
    /// The workspace-switch transition.
    WorkspaceSwitch,
    /// At once, without animation.
    Instant,
    /// Animated.
    Animated,
}

/// A pass that switches workspaces uses the switch transition; while a
/// switch is still under way frames are set at once; otherwise they are
/// animated.
pub fn frame_application(is_workspace_switch: bool, switches: &WorkspaceSwitchManager) -> (a: FrameApplication)
    ensures
        a == if is_workspace_switch {
            FrameApplication::WorkspaceSwitch
        } else if switches.active_workspace_switch is Some {
            FrameApplication::Instant
        } else {
            FrameApplication::Animated
        },
{
    if is_workspace_switch {
        FrameApplication::WorkspaceSwitch
    } else if switches.active_workspace_switch.is_some() {
        FrameApplication::Instant
    } else {
        FrameApplication::Animated
    }
}

/// The window a layout pass leaves where it is: the one set aside for this
/// pass (which is then cleared), else the window being dragged.
pub fn take_skip_window(skip_layout_for_window: &mut Option<WindowId>, dragged: Option<WindowId>) -> (w: Option<WindowId>)
    ensures
        *final(skip_layout_for_window) is None,
        w == match *old(skip_layout_for_window) {
            Some(s) => Some(s),
            None => dragged,
        },
{
    match skip_layout_for_window.take() {
        Some(s) => Some(s),
        None => dragged,
    }
}

/// The screens a layout pass lays out, in screen order: those showing a
/// space that is active and, when the pass is scoped, is the scoped space.
/// Each screen is given by its space (if any) and whether that space is
/// active; the result lists (screen position, space).
pub open spec fn spaces_to_lay_out_of(screens: Seq<(Option<u64>, bool)>, scope: Option<u64>) -> Seq<(usize, u64)>
    decreases screens.len(),
{
    if screens.len() == 0 {
        Seq::empty()
    } else {
        let rest = spaces_to_lay_out_of(screens.drop_last(), scope);
        let (space, active) = screens.last();
        match space {
            Some(sp) => if active && (scope is None || scope == Some(sp)) {
                rest.push(((screens.len() - 1) as usize, sp))
            } else {
                rest
            },
            None => rest,
        }
    }
}

/// See [`spaces_to_lay_out_of`]; with no tracked windows there is nothing to
/// lay out.
pub fn spaces_to_lay_out(tracked_windows: usize, screens: &Vec<(Option<u64>, bool)>, scope: Option<u64>) -> (r: Vec<(usize, u64)>)
    ensures
        r@ == if tracked_windows == 0 { Seq::empty() } else { spaces_to_lay_out_of(screens@, scope) },
{
    let mut r: Vec<(usize, u64)> = Vec::new();
    if tracked_windows == 0 {
        return r;
    }
    for k in 0..screens.len()
        invariant
            r@ == spaces_to_lay_out_of(screens@.take(k as int), scope),
    {
        assert(screens@.take(k + 1).drop_last() =~= screens@.take(k as int));
        assert(screens@.take(k + 1).last() == screens@[k as int]);
        let (space, active) = screens[k];
        match space {
            Some(sp) => {
                if active && (scope.is_none() || scope == Some(sp)) {
                    r.push((k, sp));
                }
            },
            None => {},
        }
    }
    assert(screens@.take(screens@.len() as int) =~= screens@);
    r
}

} // verus!
