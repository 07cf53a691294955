use rift::hints::{ColumnCell, WindowId, WindowMember};
use rift::hints_bar::{render_plan, same_signature, BarAction, BarConfig, BarEvent, HintsBar, RenderPlan, Snapshot, WorkspaceCell, DEBOUNCE_MS};
use rift::bar_layout::detail_column;
use rift::managers::{
    frame_application, spaces_to_lay_out, take_skip_window, FrameApplication, ReserveConvergence,
    RefreshQuarantineManager, RefreshQuarantineState, WorkspaceSwitchManager, WorkspaceSwitchOrigin,
    WorkspaceSwitchState,
};
use rift::settings::{HintsBarOverflow, HintsBarSettings, HintsBarVisibility};

fn cell(hint: &str, label: &str) -> ColumnCell {
    ColumnCell {
        hint: hint.to_string(),
        members: vec![WindowMember { window_id: WindowId::new(1, 1), label: label.to_string(), title: String::new() }],
        active: 0,
        tabbed: false,
        focused: false,
        visible: true,
    }
}

fn snapshot(frames: u64, cells: Vec<ColumnCell>) -> Snapshot {
    let top = cells.len();
    Snapshot { frames, cells, workspaces: Vec::new(), overflow: HintsBarOverflow::Scale, top_count: top, has_overflow_frame: false }
}

fn config(enabled: bool, visibility: HintsBarVisibility, auto_hide_ms: u64) -> BarConfig {
    let mut hb = HintsBarSettings::default();
    hb.enabled = enabled;
    hb.visibility = visibility;
    hb.auto_hide_ms = auto_hide_ms;
    BarConfig::of(&hb)
}

fn full_plan(frames: u64, n: usize) -> RenderPlan {
    RenderPlan { frames, main_len: n, main_split: None, overflow_from: None }
}

#[test]
fn snapshots_are_debounced_then_rendered() {
    let mut bar = HintsBar::new(config(true, HintsBarVisibility::Always, 1000));
    assert_eq!(bar.handle(BarEvent::Snapshot(snapshot(1, vec![cell("a", "One")])), false), vec![BarAction::ArmDebounce(DEBOUNCE_MS)]);
    assert_eq!(bar.handle(BarEvent::Snapshot(snapshot(2, vec![cell("a", "Two")])), false), vec![]);
    assert_eq!(bar.handle(BarEvent::DebounceFired, false), vec![BarAction::Render(full_plan(2, 1))]);
    // The same strip again, with the bar up: nothing to do.
    assert_eq!(bar.handle(BarEvent::Snapshot(snapshot(3, vec![cell("a", "Two")])), true), vec![BarAction::ArmDebounce(DEBOUNCE_MS)]);
    assert_eq!(bar.handle(BarEvent::DebounceFired, true), vec![]);
    // A fired debounce timer with nothing armed is ignored.
    assert_eq!(bar.handle(BarEvent::DebounceFired, true), vec![]);
}

#[test]
fn empty_snapshot_hides_the_bar() {
    let mut bar = HintsBar::new(config(true, HintsBarVisibility::Always, 1000));
    bar.handle(BarEvent::Snapshot(snapshot(1, Vec::new())), true);
    assert_eq!(bar.handle(BarEvent::DebounceFired, true), vec![BarAction::Hide]);
}

#[test]
fn disabled_bar_tears_down() {
    let mut bar = HintsBar::new(config(false, HintsBarVisibility::Always, 1000));
    bar.handle(BarEvent::Snapshot(snapshot(1, vec![cell("a", "One")])), false);
    assert_eq!(bar.handle(BarEvent::DebounceFired, false), vec![BarAction::Teardown]);
    assert_eq!(bar.handle(BarEvent::Toggle, false), vec![]);
}

#[test]
fn on_demand_toggles_show_and_hide() {
    let mut bar = HintsBar::new(config(true, HintsBarVisibility::OnDemand, 1000));
    bar.handle(BarEvent::Snapshot(snapshot(7, vec![cell("a", "One"), cell("s", "Two")])), false);
    assert_eq!(bar.handle(BarEvent::DebounceFired, false), vec![BarAction::Hide]);
    assert_eq!(bar.handle(BarEvent::Toggle, false), vec![BarAction::Render(full_plan(7, 2))]);
    assert!(bar.user_shown);
    assert_eq!(bar.handle(BarEvent::Toggle, true), vec![BarAction::Hide]);
    assert!(!bar.user_shown);
}

#[test]
fn auto_mode_flashes_and_hides_on_the_timer() {
    let mut bar = HintsBar::new(config(true, HintsBarVisibility::Auto, 0));
    bar.handle(BarEvent::Snapshot(snapshot(1, vec![cell("a", "One")])), false);
    assert_eq!(
        bar.handle(BarEvent::DebounceFired, false),
        vec![BarAction::Render(full_plan(1, 1)), BarAction::ArmHideTimer(1)]
    );
    assert!(bar.auto_pending);
    assert_eq!(bar.handle(BarEvent::HideTimerFired, true), vec![BarAction::Hide]);
    assert!(!bar.auto_pending);
    // Not pending any more: a late timer does nothing.
    assert_eq!(bar.handle(BarEvent::HideTimerFired, false), vec![]);
}

#[test]
fn new_config_restyles_with_the_last_snapshot() {
    let mut bar = HintsBar::new(config(true, HintsBarVisibility::Always, 1000));
    bar.handle(BarEvent::Snapshot(snapshot(1, vec![cell("a", "One")])), false);
    bar.handle(BarEvent::DebounceFired, false);
    assert_eq!(
        bar.handle(BarEvent::ConfigUpdated(config(true, HintsBarVisibility::Always, 500)), true),
        vec![BarAction::Render(full_plan(1, 1))]
    );
    assert_eq!(
        bar.handle(BarEvent::ConfigUpdated(config(false, HintsBarVisibility::Always, 500)), true),
        vec![BarAction::Teardown]
    );
}

#[test]
fn a_click_flushes_the_waiting_snapshot() {
    let mut bar = HintsBar::new(config(true, HintsBarVisibility::Always, 1000));
    bar.handle(BarEvent::Snapshot(snapshot(4, vec![cell("a", "One")])), false);
    assert_eq!(bar.handle(BarEvent::MouseDown, false), vec![BarAction::Render(full_plan(4, 1))]);
    assert!(bar.pending.is_none());
}

#[test]
fn overflow_plans_split_the_columns() {
    let cells = vec![cell("a", "1"), cell("s", "2"), cell("d", "3")];
    let mut s = snapshot(9, cells);
    s.top_count = 2;
    s.overflow = HintsBarOverflow::Row;
    assert_eq!(render_plan(&s), RenderPlan { frames: 9, main_len: 3, main_split: Some(2), overflow_from: None });
    s.overflow = HintsBarOverflow::Bar;
    assert_eq!(render_plan(&s), RenderPlan { frames: 9, main_len: 2, main_split: None, overflow_from: None });
    s.has_overflow_frame = true;
    assert_eq!(render_plan(&s), RenderPlan { frames: 9, main_len: 2, main_split: None, overflow_from: Some(2) });
    s.overflow = HintsBarOverflow::Scale;
    assert_eq!(render_plan(&s), full_plan(9, 3));
    s.top_count = 3;
    s.overflow = HintsBarOverflow::Bar;
    assert_eq!(render_plan(&s), full_plan(9, 3));
}

#[test]
fn signatures_ignore_frames_but_see_labels_and_workspaces() {
    let a = snapshot(1, vec![cell("a", "One")]);
    let b = snapshot(2, vec![cell("a", "One")]);
    assert!(same_signature(&a, &b));
    let c = snapshot(1, vec![cell("a", "Other")]);
    assert!(!same_signature(&a, &c));
    let mut d = snapshot(1, vec![cell("a", "One")]);
    d.workspaces.push(WorkspaceCell { label: "1".to_string(), index: 0, active: true, pids: vec![1] });
    assert!(!same_signature(&a, &d));
    let mut e = snapshot(1, vec![cell("a", "One")]);
    e.top_count = 0;
    assert!(!same_signature(&a, &e));
}

fn switch_manager() -> WorkspaceSwitchManager {
    WorkspaceSwitchManager {
        workspace_switch_state: WorkspaceSwitchState::Inactive,
        workspace_switch_generation: 0,
        active_workspace_switch: None,
        pending_workspace_switch_origin: None,
        pending_workspace_mouse_warp: None,
    }
}

#[test]
fn workspace_switch_lifecycle() {
    let mut m = switch_manager();
    assert!(!m.manual_switch_in_progress());
    m.start_workspace_switch(WorkspaceSwitchOrigin::Manual);
    assert_eq!(m.workspace_switch_generation, 1);
    assert_eq!(m.active_workspace_switch, Some(1));
    assert!(m.manual_switch_in_progress());
    m.mark_workspace_switch_inactive();
    assert!(!m.manual_switch_in_progress());
    assert_eq!(m.active_workspace_switch, Some(1));
    m.start_workspace_switch(WorkspaceSwitchOrigin::Auto);
    assert_eq!(m.workspace_switch_generation, 2);
    assert!(!m.manual_switch_in_progress());
}

#[test]
fn workspace_switch_generation_wraps() {
    let mut m = switch_manager();
    m.workspace_switch_generation = u64::MAX;
    m.start_workspace_switch(WorkspaceSwitchOrigin::Manual);
    assert_eq!(m.workspace_switch_generation, 0);
    assert_eq!(m.active_workspace_switch, Some(0));
}

#[test]
fn refresh_quarantine_priorities() {
    let mut q = RefreshQuarantineManager {
        sleeping: false,
        session_inactive: false,
        display_churn_active: false,
        awaiting_post_wake_snapshot: true,
        awaiting_post_session_snapshot: false,
        pending_visible_refresh: false,
        deferred_refresh_tracks_mission_control: false,
    };
    assert_eq!(q.state(), RefreshQuarantineState::Ready);
    assert!(!q.blocks_refreshes());
    q.display_churn_active = true;
    assert_eq!(q.state(), RefreshQuarantineState::DisplayChurn);
    q.session_inactive = true;
    assert_eq!(q.state(), RefreshQuarantineState::SessionInactive);
    q.sleeping = true;
    assert_eq!(q.state(), RefreshQuarantineState::Sleeping);
    assert!(q.blocks_refreshes());
}

#[test]
fn reserve_change_earns_one_extra_pass() {
    let mut c = ReserveConvergence { hints_bar_reserve_dirty: true, hints_bar_reserve_converging: false };
    c.start_pass();
    assert!(!c.hints_bar_reserve_dirty);
    c.hints_bar_reserve_dirty = true;
    assert!(c.begin_convergence());
    assert!(c.hints_bar_reserve_converging);
    c.start_pass();
    c.hints_bar_reserve_dirty = true;
    assert!(!c.begin_convergence());
    c.end_convergence();
    assert!(!c.hints_bar_reserve_converging);
    assert!(c.hints_bar_reserve_dirty);
}

#[test]
fn layout_pass_decisions() {
    use_decisions();
}

fn use_decisions() {
    let mut m = switch_manager();
    assert_eq!(frame_application(true, &m), FrameApplication::WorkspaceSwitch);
    assert_eq!(frame_application(false, &m), FrameApplication::Animated);
    m.start_workspace_switch(WorkspaceSwitchOrigin::Auto);
    assert_eq!(frame_application(false, &m), FrameApplication::Instant);

    let a = WindowId::new(1, 1);
    let b = WindowId::new(2, 2);
    let mut skip = Some(a);
    assert_eq!(take_skip_window(&mut skip, Some(b)), Some(a));
    assert_eq!(skip, None);
    assert_eq!(take_skip_window(&mut skip, Some(b)), Some(b));

    let screens = vec![(Some(7u64), true), (None, true), (Some(8u64), false), (Some(9u64), true)];
    assert_eq!(spaces_to_lay_out(3, &screens, None), vec![(0, 7), (3, 9)]);
    assert_eq!(spaces_to_lay_out(3, &screens, Some(9)), vec![(3, 9)]);
    assert_eq!(spaces_to_lay_out(0, &screens, None), vec![]);
}

#[test]
fn detail_shows_for_the_first_focused_multi_window_column() {
    let mut one = cell("a", "One");
    one.focused = true;
    let mut two = cell("s", "Two");
    two.members.push(WindowMember { window_id: WindowId::new(1, 2), label: "Two".to_string(), title: String::new() });
    assert_eq!(detail_column(&vec![one.clone(), two.clone()]), None);
    two.focused = true;
    assert_eq!(detail_column(&vec![one, two]), Some(1));
}
