use rift::bar_layout::{overflow_applies, reserve_edges, visible_run, workspace_cells};
use rift::hints::{build_hints_bar_cells, scrolling_strip_columns, ColumnCell, TabGroup, WindowId, WindowMember};
use rift::number::ConfigFloat;
use rift::settings::{HintsBarOverflow, HintsBarPlacement, HintsBarPosition, HintsBarSettings};

fn x_of(x: f64) -> i64 {
    x.round() as i64
}

#[test]
fn strip_columns_exclude_windows_from_other_workspaces() {
    let active_a = WindowId::new(1, 1);
    let active_b = WindowId::new(1, 2);
    let parked: Vec<WindowId> = (10..18).map(|i| WindowId::new(2, i)).collect();

    let mut layout = vec![(active_a, x_of(10.0)), (active_b, x_of(1203.0))];
    layout.extend(parked.iter().map(|w| (*w, x_of(-4255.0))));

    let active = vec![active_a, active_b];
    let columns = scrolling_strip_columns(&layout, &active, &Vec::new());

    assert_eq!(columns.len(), 2, "parked windows must not add a phantom column");
    assert_eq!(
        columns.iter().map(|c| c.x).collect::<Vec<_>>(),
        vec![10, 1203],
        "columns keyed by x, ordered left -> right"
    );
    assert!(
        columns.iter().all(|c| c.members.len() == 1),
        "no column should collect the parked windows as members (the badge \"8\")"
    );
}

#[test]
fn strip_columns_group_a_stack_and_drop_floating() {
    let stacked_a = WindowId::new(1, 1);
    let stacked_b = WindowId::new(1, 2);
    let floater = WindowId::new(1, 3);
    let layout = vec![(stacked_a, x_of(10.0)), (stacked_b, x_of(10.0)), (floater, x_of(400.0))];
    let active = vec![stacked_a, stacked_b, floater];

    let columns = scrolling_strip_columns(&layout, &active, &vec![floater]);
    assert_eq!(columns.len(), 1, "a vertical stack is one column");
    assert_eq!(columns[0].x, 10);
    assert_eq!(columns[0].members.len(), 2, "both stacked windows are members");
    assert!(
        !columns.iter().flat_map(|c| c.members.iter()).any(|k| layout[*k].0 == floater),
        "floating windows are not on the strip"
    );
}

#[test]
fn strip_columns_round_subpixel_x_into_one_column() {
    let a = WindowId::new(1, 1);
    let b = WindowId::new(1, 2);
    let layout = vec![(a, x_of(10.2)), (b, x_of(9.8))];
    let active = vec![a, b];
    let columns = scrolling_strip_columns(&layout, &active, &Vec::new());
    assert_eq!(columns.len(), 1, "10.2 and 9.8 both round to 10");
}

#[test]
fn strip_columns_sort_out_of_order_input() {
    let a = WindowId::new(1, 1);
    let b = WindowId::new(1, 2);
    let c = WindowId::new(1, 3);
    let layout = vec![(a, 900), (b, -20), (c, 900)];
    let columns = scrolling_strip_columns(&layout, &vec![a, b, c], &Vec::new());
    assert_eq!(columns.iter().map(|c| c.x).collect::<Vec<_>>(), vec![-20, 900]);
    assert_eq!(columns[1].members, vec![0, 2]);
    assert_eq!(columns[0].members, vec![1]);
}

fn member(pid: i32, idx: u32, label: &str, title: &str) -> WindowMember {
    WindowMember { window_id: WindowId::new(pid, idx), label: label.to_string(), title: title.to_string() }
}

#[test]
fn cells_get_hints_focus_and_tabs() {
    let a = WindowId::new(1, 1);
    let b = WindowId::new(2, 1);
    let c = WindowId::new(3, 1);
    let layout = vec![(a, 0), (b, 500), (c, 500)];
    let cols = scrolling_strip_columns(&layout, &vec![a, b, c], &Vec::new());
    assert_eq!(cols.len(), 2);
    let names = vec![member(1, 1, "Terminal", "zsh"), member(2, 1, "Safari", "Docs"), member(3, 1, "Notes", "")];
    let groups = vec![TabGroup { window_ids: vec![b, c], selected_index: 0 }];
    let cells = build_hints_bar_cells(&layout, &cols, &vec![true, false], Some(c), &groups, &names, "ab");
    assert_eq!(cells.len(), 2);
    assert_eq!(cells[0].hint, "a");
    assert!(!cells[0].tabbed);
    assert!(!cells[0].focused);
    assert!(cells[0].visible);
    assert_eq!(cells[0].label(), "Terminal");
    assert_eq!(cells[1].hint, "b");
    assert!(cells[1].tabbed);
    assert!(cells[1].focused);
    assert!(!cells[1].visible);
    assert_eq!(cells[1].active, 1);
    assert_eq!(cells[1].window_id(), Some(c));
    assert_eq!(cells[1].primary(true), "Notes");
    assert_eq!(cells[0].primary(true), "zsh");
    assert_eq!(cells[0].primary(false), "Terminal");
}

#[test]
fn cells_run_out_of_keys() {
    let a = WindowId::new(1, 1);
    let b = WindowId::new(1, 2);
    let layout = vec![(a, 0), (b, 10)];
    let cols = scrolling_strip_columns(&layout, &vec![a, b], &Vec::new());
    let cells = build_hints_bar_cells(&layout, &cols, &vec![true, true], None, &Vec::new(), &Vec::new(), "q");
    assert_eq!(cells[0].hint, "q");
    assert_eq!(cells[1].hint, "");
    assert_eq!(cells[1].label(), "");
}

#[test]
fn cell_without_active_member_has_no_window() {
    let cell = ColumnCell {
        hint: "a".to_string(),
        members: Vec::new(),
        active: 0,
        tabbed: false,
        focused: false,
        visible: true,
    };
    assert_eq!(cell.window_id(), None);
    assert_eq!(cell.title(), "");
}

#[test]
fn workspace_pills_skip_empty_workspaces_and_count_from_one() {
    let summaries = vec![(0usize, true, vec![10, 11]), (1usize, false, Vec::new()), (2usize, false, vec![12])];
    let pills = workspace_cells(&summaries);
    assert_eq!(pills.len(), 2);
    assert_eq!(pills[0].label, "1");
    assert_eq!(pills[0].index, 0);
    assert!(pills[0].active);
    assert_eq!(pills[0].pids, vec![10, 11]);
    assert_eq!(pills[1].label, "3");
    assert_eq!(pills[1].index, 2);
}

fn ratio(x: f64) -> ConfigFloat {
    ConfigFloat::from_parts(x.to_bits(), &x.to_string())
}

#[test]
fn overflow_is_measured_only_for_horizontal_non_scaling_bars() {
    let mut hb = HintsBarSettings::default();
    hb.overflow = HintsBarOverflow::Row;
    hb.max_width_ratio = ratio(0.6);
    assert!(overflow_applies(&hb, 3));
    assert!(!overflow_applies(&hb, 0));
    hb.max_width_ratio = ratio(1.0);
    assert!(!overflow_applies(&hb, 3));
    hb.max_width_ratio = ratio(0.6);
    hb.position = HintsBarPosition::Left;
    assert!(!overflow_applies(&hb, 3));
    hb.position = HintsBarPosition::Top;
    hb.overflow = HintsBarOverflow::Scale;
    assert!(!overflow_applies(&hb, 3));
}

#[test]
fn overflow_reserves_the_expected_edge() {
    let mut hb = HintsBarSettings::default();
    hb.placement = HintsBarPlacement::Reserve;
    hb.position = HintsBarPosition::Bottom;
    hb.overflow = HintsBarOverflow::Row;
    assert_eq!(reserve_edges(&hb, true), (false, true));
    assert_eq!(reserve_edges(&hb, false), (false, false));
    hb.overflow = HintsBarOverflow::Bar;
    assert_eq!(reserve_edges(&hb, true), (true, false));
    hb.position = HintsBarPosition::Top;
    assert_eq!(reserve_edges(&hb, true), (false, true));
    hb.overflow = HintsBarOverflow::Row;
    assert_eq!(reserve_edges(&hb, true), (true, false));
    hb.placement = HintsBarPlacement::Overlay;
    assert_eq!(reserve_edges(&hb, true), (false, false));
}

#[test]
fn viewport_run_brackets_the_visible_columns() {
    assert_eq!(visible_run(&vec![false, true, false, true, false]), Some((1, 3)));
    assert_eq!(visible_run(&vec![true]), Some((0, 0)));
    assert_eq!(visible_run(&vec![false, false]), None);
    assert_eq!(visible_run(&Vec::new()), None);
}
