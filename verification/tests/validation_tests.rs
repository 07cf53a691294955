use rift::number::ConfigFloat;
use rift::settings::{
    Config, GapOverride, GapSettings, InnerGaps, LayoutMode, LayoutSettings, OuterGaps, Settings,
    VirtualWorkspaceSettings, WindowInsertionPoint,
};
use rift::validation::MIN_MASTER_RATIO_BITS;

fn num(x: f64) -> ConfigFloat {
    ConfigFloat::from_parts(x.to_bits(), &x.to_string())
}

fn outer(t: f64, l: f64, b: f64, r: f64) -> OuterGaps {
    OuterGaps { top: num(t), left: num(l), bottom: num(b), right: num(r) }
}

#[test]
fn default_configuration_is_valid() {
    let cfg = Config { settings: Settings::default(), virtual_workspaces: VirtualWorkspaceSettings::default() };
    assert_eq!(cfg.validate(), Vec::<String>::new());
}

#[test]
fn negative_gaps_are_reported_with_their_value() {
    let mut gaps = GapSettings::default();
    gaps.outer = outer(-1.0, 0.0, 0.0, -2.5);
    gaps.inner = InnerGaps { horizontal: num(0.0), vertical: num(-3.0) };
    assert_eq!(
        gaps.validate(),
        vec![
            "outer.top gap must be non-negative, got -1".to_string(),
            "outer.right gap must be non-negative, got -2.5".to_string(),
            "inner.vertical gap must be non-negative, got -3".to_string(),
        ]
    );
}

#[test]
fn display_override_issues_name_the_display() {
    let mut gaps = GapSettings::default();
    gaps.per_display.push((
        "ABC".to_string(),
        GapOverride { outer: Some(outer(0.0, -4.0, 0.0, 0.0)), inner: None },
    ));
    assert_eq!(gaps.validate(), vec!["per_display[ABC] outer.left gap must be non-negative, got -4".to_string()]);
}

#[test]
fn display_overrides_apply_only_to_their_display() {
    let mut gaps = GapSettings::default();
    gaps.outer = outer(5.0, 5.0, 5.0, 5.0);
    gaps.per_display.push((
        "ABC".to_string(),
        GapOverride { outer: Some(outer(1.0, 2.0, 3.0, 4.0)), inner: None },
    ));
    let here = gaps.effective_for_display(Some("ABC"));
    assert_eq!(here.outer.left.bits, 2.0f64.to_bits());
    assert_eq!(here.inner.horizontal.bits, gaps.inner.horizontal.bits);
    assert!(here.per_display.is_empty());
    let elsewhere = gaps.effective_for_display(Some("XYZ"));
    assert_eq!(elsewhere.outer.left.bits, 5.0f64.to_bits());
    let none = gaps.effective_for_display(None);
    assert_eq!(none.outer.top.bits, 5.0f64.to_bits());
}

#[test]
fn master_stack_bounds_are_checked() {
    let mut layout = LayoutSettings::default();
    layout.master_stack.master_ratio = num(0.01);
    layout.master_stack.master_count = 0;
    let issues = layout.validate();
    assert!(issues.contains(&"master_stack.master_ratio must be between 0.05 and 0.95, got 0.01".to_string()));
    assert!(issues.contains(&"master_stack.master_count must be at least 1".to_string()));
    layout.master_stack.master_ratio = ConfigFloat::from_parts(MIN_MASTER_RATIO_BITS, "0.05");
    layout.master_stack.master_count = 1;
    assert!(layout.validate().is_empty());
}

#[test]
fn insertion_point_falls_back_per_mode() {
    let mut layout = LayoutSettings::default();
    layout.scrolling.base.window_insertion_point = Some(WindowInsertionPoint::NextToSelection);
    assert_eq!(layout.window_insertion_point_for(LayoutMode::Scrolling), WindowInsertionPoint::NextToSelection);
    let resolved = layout.resolved_base_for(LayoutMode::Scrolling);
    assert_eq!(resolved.window_insertion_point, Some(WindowInsertionPoint::NextToSelection));
}

#[test]
fn workspace_counts_are_checked() {
    let mut vw = VirtualWorkspaceSettings::default();
    vw.default_workspace_count = 0;
    let issues = vw.validate();
    assert!(issues.contains(&"default_workspace_count must be at least 1".to_string()));
    assert!(issues.iter().any(|i| i.starts_with("default_workspace (0) must be less than default_workspace_count (0)")));
}
