//! Default values of the configuration.
use vstd::prelude::*;
use vstd::string::*;
use crate::issues::views;
use crate::number::ConfigFloat;
use crate::commands::AnimationEasing;
use crate::settings::{
    ActiveWorkspaceLabel, Settings, BaseLayoutSettings, BspLayoutSettings, GapOverride, GapSettings, GestureSettings, HapticPattern, HintsBarAlign, HintsBarDensity, HintsBarDetailSettings, HintsBarDetailStyle, HintsBarNotch, HintsBarOverflow, HintsBarPad, HintsBarPlacement, HintsBarPosition, HintsBarSettings, HintsBarVisibility, HorizontalPlacement, InnerGaps, LayoutMode, LayoutSettings, MasterStackNewWindowPlacement, MasterStackSettings, MasterStackSide, MenuBarDisplayMode, MenuBarSettings, MissionControlSettings, OuterGaps, ScrollingAlignment, ScrollingFocusNavigationStyle, ScrollingGestureSettings, ScrollingLayoutSettings, StackDefaultOrientation, StackLineHoverMode, StackLineSettings, StackSettings, TraditionalLayoutSettings, UiSettings, VerticalPlacement, VirtualWorkspaceSettings, WindowSnappingSettings, WorkspaceDisplayStyle, float_is,
};

verus! {

/// `true`
pub fn yes() -> (b: bool)
    ensures
        b,
{
    true
}

/// `false`
pub fn no() -> (b: bool)
    ensures
        !b,
{
    false
}

/// Windows kept in the master area: 1.
pub fn default_master_stack_count() -> (n: usize)
    ensures
        n == 1,
{
    1
}

/// Auto-hide delay of the hint bar, in ms: 1000.
pub fn default_hints_bar_auto_hide_ms() -> (n: u64)
    ensures
        n == 1000,
{
    1000
}

/// The hint bar's keys: the home row.
pub fn default_hints_bar_keys() -> (s: String)
    ensures
        s@ == "asdfghjkl;"@,
{
    String::from_str("asdfghjkl;")
}

/// Hint bar blur radius: 0 (off).
pub fn default_hints_bar_blur() -> (n: u32)
    ensures
        n == 0,
{
    0
}

/// The hint bar's chips sit centered.
pub fn default_align_center() -> (a: HintsBarAlign)
    ensures
        a == HintsBarAlign::Center,
{
    HintsBarAlign::Center
}

/// Stacks take the orientation perpendicular to their parent.
pub fn default_stack_orientation() -> (o: StackDefaultOrientation)
    ensures
        o == StackDefaultOrientation::Perpendicular,
{
    StackDefaultOrientation::Perpendicular
}

/// New windows go to the master area.
pub fn default_master_stack_new_window_placement() -> (p: MasterStackNewWindowPlacement)
    ensures
        p == MasterStackNewWindowPlacement::Master,
{
    MasterStackNewWindowPlacement::Master
}

/// Saved layouts live in `~/.config/rift/layouts`.
pub fn default_layout_folder() -> (s: String)
    ensures
        s@ == "~/.config/rift/layouts"@,
{
    String::from_str("~/.config/rift/layouts")
}

/// Virtual workspaces per space: 4.
pub fn default_workspace_count() -> (n: usize)
    ensures
        n == 4,
{
    4
}

/// The default workspace names.
pub fn default_workspace_names() -> (v: Vec<String>)
    ensures
        views(v@) == seq!["Main"@, "Development"@, "Communication"@, "Utilities"@],
{
    let mut v: Vec<String> = Vec::new();
    v.push(String::from_str("Main"));
    v.push(String::from_str("Development"));
    v.push(String::from_str("Communication"));
    v.push(String::from_str("Utilities"));
    assert(views(v@) =~= seq!["Main"@, "Development"@, "Communication"@, "Utilities"@]);
    v
}

/// Fingers of a swipe: 3.
pub fn default_swipe_fingers() -> (n: usize)
    ensures
        n == 3,
{
    3
}

/// `0.0`
pub fn zero_float() -> (f: ConfigFloat)
    ensures
        float_is(f, 0, "0"@),
{
    ConfigFloat::from_parts(0, "0")
}

/// Fade duration of Mission Control, in ms: 180.
pub fn default_mission_control_fade_duration_ms() -> (f: ConfigFloat)
    ensures
        float_is(f, 0x4066800000000000, "180"@),
{
    ConfigFloat::from_parts(0x4066800000000000, "180")
}

/// Fraction of a window a drag must cover to swap: 0.3.
pub fn default_drag_swap_fraction() -> (f: ConfigFloat)
    ensures
        float_is(f, 0x3fd3333333333333, "0.3"@),
{
    ConfigFloat::from_parts(0x3fd3333333333333, "0.3")
}

/// Share of the master area: 0.6.
pub fn default_master_stack_ratio() -> (f: ConfigFloat)
    ensures
        float_is(f, 0x3fe3333333333333, "0.6"@),
{
    ConfigFloat::from_parts(0x3fe3333333333333, "0.6")
}

/// Default scrolling column width ratio: 0.7.
pub fn default_scrolling_column_width_ratio() -> (f: ConfigFloat)
    ensures
        float_is(f, 0x3fe6666666666666, "0.7"@),
{
    ConfigFloat::from_parts(0x3fe6666666666666, "0.7")
}

/// Smallest scrolling column width ratio: 0.3.
pub fn default_scrolling_min_column_width_ratio() -> (f: ConfigFloat)
    ensures
        float_is(f, 0x3fd3333333333333, "0.3"@),
{
    ConfigFloat::from_parts(0x3fd3333333333333, "0.3")
}

/// Largest scrolling column width ratio: 0.9.
pub fn default_scrolling_max_column_width_ratio() -> (f: ConfigFloat)
    ensures
        float_is(f, 0x3feccccccccccccd, "0.9"@),
{
    ConfigFloat::from_parts(0x3feccccccccccccd, "0.9")
}

/// Hint bar height in points: 26.
pub fn default_hints_bar_height() -> (f: ConfigFloat)
    ensures
        float_is(f, 0x403a000000000000, "26"@),
{
    ConfigFloat::from_parts(0x403a000000000000, "26")
}

/// Share of the display width the chip row may fill: 1.
pub fn default_hints_bar_max_width_ratio() -> (f: ConfigFloat)
    ensures
        float_is(f, 0x3ff0000000000000, "1"@),
{
    ConfigFloat::from_parts(0x3ff0000000000000, "1")
}

/// Offset between stacked windows, in pixels: 40.
pub fn default_stack_offset() -> (f: ConfigFloat)
    ensures
        float_is(f, 0x4044000000000000, "40"@),
{
    ConfigFloat::from_parts(0x4044000000000000, "40")
}

/// Animation duration in seconds: 0.3.
pub fn default_animation_duration() -> (f: ConfigFloat)
    ensures
        float_is(f, 0x3fd3333333333333, "0.3"@),
{
    ConfigFloat::from_parts(0x3fd3333333333333, "0.3")
}

/// Animation frame rate: 100.
pub fn default_animation_fps() -> (f: ConfigFloat)
    ensures
        float_is(f, 0x4059000000000000, "100"@),
{
    ConfigFloat::from_parts(0x4059000000000000, "100")
}

/// Vertical tolerance of a horizontal swipe: 0.4.
pub fn default_swipe_vertical_tolerance() -> (f: ConfigFloat)
    ensures
        float_is(f, 0x3fd999999999999a, "0.4"@),
{
    ConfigFloat::from_parts(0x3fd999999999999a, "0.4")
}

/// Normalized swipe distance that fires: 0.08.
pub fn default_distance_pct() -> (f: ConfigFloat)
    ensures
        float_is(f, 0x3fb47ae147ae147b, "0.08"@),
{
    ConfigFloat::from_parts(0x3fb47ae147ae147b, "0.08")
}

/// Overscroll that switches workspaces: 0.15.
pub fn default_overscroll_threshold() -> (f: ConfigFloat)
    ensures
        float_is(f, 0x3fc3333333333333, "0.15"@),
{
    ConfigFloat::from_parts(0x3fc3333333333333, "0.15")
}

/// Scroll gesture speed multiplier: 1.
pub fn default_scroll_speed() -> (f: ConfigFloat)
    ensures
        float_is(f, 0x3ff0000000000000, "1"@),
{
    ConfigFloat::from_parts(0x3ff0000000000000, "1")
}

/// Gap between a window and its stack line: 1.
pub fn default_stack_line_spacing() -> (f: ConfigFloat)
    ensures
        float_is(f, 0x3ff0000000000000, "1"@),
{
    ConfigFloat::from_parts(0x3ff0000000000000, "1")
}

/// Stack line thickness: 20.
pub fn default_stack_line_thickness() -> (f: ConfigFloat)
    ensures
        float_is(f, 0x4034000000000000, "20"@),
{
    ConfigFloat::from_parts(0x4034000000000000, "20")
}

/// Stack line outline width: 0.5.
pub fn default_stack_line_border_width() -> (f: ConfigFloat)
    ensures
        float_is(f, 0x3fe0000000000000, "0.5"@),
{
    ConfigFloat::from_parts(0x3fe0000000000000, "0.5")
}

/// Column widths cycled by `cycle_column_width`: 0.33, 0.5, 0.66.
pub fn default_scrolling_width_presets() -> (v: Vec<ConfigFloat>)
    ensures
        v@.len() == 3,
        float_is(v@[0], 0x3fd51eb851eb851f, "0.33"@),
        float_is(v@[1], 0x3fe0000000000000, "0.5"@),
        float_is(v@[2], 0x3fe51eb851eb851f, "0.66"@),
{
    let mut v: Vec<ConfigFloat> = Vec::new();
    v.push(ConfigFloat::from_parts(0x3fd51eb851eb851f, "0.33"));
    v.push(ConfigFloat::from_parts(0x3fe0000000000000, "0.5"));
    v.push(ConfigFloat::from_parts(0x3fe51eb851eb851f, "0.66"));
    v
}

/// `f` is zero, written `0`.
pub open spec fn zero(f: ConfigFloat) -> bool {
    float_is(f, 0, "0"@)
}

/// The default `[virtual_workspaces]` table.
pub open spec fn default_virtual_workspaces(r: VirtualWorkspaceSettings) -> bool {
    &&& r.enabled && r.auto_assign_windows && r.preserve_focus_per_workspace
    &&& !r.workspace_auto_back_and_forth && !r.prevent_wrapping && !r.reapply_app_rules_on_title_change
    &&& r.default_workspace_count == 4
    &&& views(r.workspace_names@) == seq!["Main"@, "Development"@, "Communication"@, "Utilities"@]
    &&& r.default_workspace == 0
    &&& r.app_rules@.len() == 0
    &&& r.workspace_rules@.len() == 0
}

/// The default `[settings.gestures]` table.
pub open spec fn default_gestures(r: GestureSettings) -> bool {
    &&& !r.enabled && r.consume_dock_swipe && !r.invert_horizontal_swipe && r.skip_empty && r.haptics_enabled
    &&& float_is(r.swipe_vertical_tolerance, 0x3fd999999999999a, "0.4"@)
    &&& r.fingers == 3
    &&& float_is(r.distance_pct, 0x3fb47ae147ae147b, "0.08"@)
    &&& r.haptic_pattern == HapticPattern::LevelChange
}

/// The default `[settings.window_snapping]` table.
pub open spec fn default_window_snapping(r: WindowSnappingSettings) -> bool {
    zero(r.drag_swap_fraction)
}

/// The default `[settings.ui.menu_bar]` table.
pub open spec fn default_menu_bar(r: MenuBarSettings) -> bool {
    &&& !r.enabled && !r.show_empty
    &&& r.mode == MenuBarDisplayMode::All
    &&& r.active_label == ActiveWorkspaceLabel::Index
    &&& r.display_style == WorkspaceDisplayStyle::Layout
    &&& r.layout_folder@ == "~/.config/rift/layouts"@
}

/// The default `[settings.ui.stack_line]` table.
pub open spec fn default_stack_line(r: StackLineSettings) -> bool {
    &&& !r.enabled && !r.show_titles
    &&& r.hover == StackLineHoverMode::Hover
    &&& zero(r.thickness) && zero(r.border_width) && zero(r.spacing)
    &&& r.horiz_placement == HorizontalPlacement::Top
    &&& r.vert_placement == VerticalPlacement::Left
    &&& r.active_color is None && r.inactive_color is None
    &&& r.active_title_color is None && r.inactive_title_color is None
    &&& r.font_size is None
}

/// The default `[settings.ui.mission_control]` table.
pub open spec fn default_mission_control(r: MissionControlSettings) -> bool {
    !r.enabled && !r.fade_enabled && zero(r.fade_duration_ms)
}

/// No padding on any side.
pub open spec fn default_pad(r: HintsBarPad) -> bool {
    zero(r.top) && zero(r.bottom) && zero(r.left) && zero(r.right)
}

/// The default focused-column detail.
pub open spec fn default_detail(r: HintsBarDetailSettings) -> bool {
    &&& r.style == HintsBarDetailStyle::Popover
    &&& r.position == HintsBarPosition::Bottom
    &&& r.align == HintsBarAlign::End
    &&& default_pad(r.pad)
}

/// The default `[settings.ui.hints_bar]` table.
pub open spec fn default_hints_bar(r: HintsBarSettings) -> bool {
    &&& !r.enabled && !r.show_titles && !r.show_workspace
    &&& r.position == HintsBarPosition::Bottom
    &&& r.placement == HintsBarPlacement::Overlay
    &&& r.visibility == HintsBarVisibility::Always
    &&& r.density == HintsBarDensity::Compact
    &&& float_is(r.height, 0x403a000000000000, "26"@)
    &&& r.auto_hide_ms == 1000
    &&& r.keys@ == "asdfghjkl;"@
    &&& r.background is None && r.focused_color is None && r.viewport_color is None
    &&& r.label_color is None && r.hint_color is None && r.font_size is None
    &&& r.blur == 0
    &&& default_pad(r.pad)
    &&& r.align == HintsBarAlign::Center
    &&& r.notch == HintsBarNotch::Flow
    &&& float_is(r.max_width_ratio, 0x3ff0000000000000, "1"@)
    &&& r.overflow == HintsBarOverflow::Scale
    &&& default_detail(r.detail)
}

/// The default `[settings.ui]` table.
pub open spec fn default_ui(r: UiSettings) -> bool {
    &&& default_menu_bar(r.menu_bar)
    &&& default_stack_line(r.stack_line)
    &&& default_mission_control(r.mission_control)
    &&& default_hints_bar(r.hints_bar)
}

/// The default `[settings.layout.scrolling.gestures]` table.
pub open spec fn default_scrolling_gestures(r: ScrollingGestureSettings) -> bool {
    &&& !r.enabled && !r.invert_horizontal && !r.propagate_to_workspace_swipe
    &&& float_is(r.vertical_tolerance, 0x3fd999999999999a, "0.4"@)
    &&& r.fingers == 3
    &&& float_is(r.distance_pct, 0x3fb47ae147ae147b, "0.08"@)
    &&& float_is(r.scroll_speed, 0x3ff0000000000000, "1"@)
    &&& float_is(r.workspace_switch_threshold, 0x3fc3333333333333, "0.15"@)
}

/// The default column width presets: 0.33, 0.5, 0.66.
pub open spec fn default_width_presets(v: Seq<ConfigFloat>) -> bool {
    &&& v.len() == 3
    &&& float_is(v[0], 0x3fd51eb851eb851f, "0.33"@)
    &&& float_is(v[1], 0x3fe0000000000000, "0.5"@)
    &&& float_is(v[2], 0x3fe51eb851eb851f, "0.66"@)
}

/// The default `[settings.layout.scrolling]` table.
pub open spec fn default_scrolling(r: ScrollingLayoutSettings) -> bool {
    &&& r.base.window_insertion_point is None
    &&& r.animate is None
    &&& float_is(r.column_width_ratio, 0x3fe6666666666666, "0.7"@)
    &&& float_is(r.min_column_width_ratio, 0x3fd3333333333333, "0.3"@)
    &&& float_is(r.max_column_width_ratio, 0x3feccccccccccccd, "0.9"@)
    &&& default_width_presets(r.width_presets@)
    &&& r.alignment == ScrollingAlignment::Center
    &&& r.focus_navigation_style == ScrollingFocusNavigationStyle::Niri
    &&& default_scrolling_gestures(r.gestures)
}

/// The default `[settings.layout.stack]` table.
pub open spec fn default_stack(r: StackSettings) -> bool {
    &&& r.base.window_insertion_point is None
    &&& float_is(r.stack_offset, 0x4044000000000000, "40"@)
    &&& r.default_orientation == StackDefaultOrientation::Perpendicular
}

/// The default `[settings.layout.master_stack]` table.
pub open spec fn default_master_stack(r: MasterStackSettings) -> bool {
    &&& r.base.window_insertion_point is None
    &&& float_is(r.master_ratio, 0x3fe3333333333333, "0.6"@)
    &&& r.master_count == 1
    &&& r.master_side == MasterStackSide::Left
    &&& r.new_window_placement == MasterStackNewWindowPlacement::Master
    &&& r.master_arrangement is None && r.stack_arrangement is None
}

/// No outer gap on any side.
pub open spec fn default_outer(r: OuterGaps) -> bool {
    zero(r.top) && zero(r.left) && zero(r.bottom) && zero(r.right)
}

/// No inner gap either way.
pub open spec fn default_inner(r: InnerGaps) -> bool {
    zero(r.horizontal) && zero(r.vertical)
}

/// The default `[settings.layout.gaps]` table.
pub open spec fn default_gaps(r: GapSettings) -> bool {
    default_outer(r.outer) && default_inner(r.inner) && r.per_display@.len() == 0
}

/// The default `[settings.layout]` table.
pub open spec fn default_layout(r: LayoutSettings) -> bool {
    &&& r.base.window_insertion_point is None
    &&& r.mode == LayoutMode::Traditional
    &&& r.traditional.base.window_insertion_point is None && r.traditional.equalize_nodes
    &&& r.bsp.base.window_insertion_point is None
    &&& default_stack(r.stack)
    &&& default_master_stack(r.master_stack)
    &&& default_gaps(r.gaps)
    &&& default_scrolling(r.scrolling)
    &&& zero(r.external_bar_top) && zero(r.external_bar_bottom)
    &&& !r.activate_on_focus
}

/// The default `[settings]` table.
pub open spec fn default_settings(r: Settings) -> bool {
    &&& !r.animate
    &&& float_is(r.animation_duration, 0x3fd3333333333333, "0.3"@)
    &&& float_is(r.animation_fps, 0x4059000000000000, "100"@)
    &&& r.animation_easing == AnimationEasing::EaseInOut
    &&& r.default_disable && r.mouse_follows_focus && r.mouse_hides_on_focus && r.focus_follows_mouse
    &&& r.focus_follows_mouse_disable_hotkey is None
    &&& r.auto_focus_blacklist@.len() == 0
    &&& default_layout(r.layout)
    &&& default_ui(r.ui)
    &&& default_gestures(r.gestures)
    &&& default_window_snapping(r.window_snapping)
    &&& r.run_on_start@.len() == 0
    &&& r.hot_reload
}

impl Default for VirtualWorkspaceSettings {
    fn default() -> (r: Self)
        ensures
            default_virtual_workspaces(r),
    {
        VirtualWorkspaceSettings {
            enabled: true,
            default_workspace_count: default_workspace_count(),
            auto_assign_windows: true,
            preserve_focus_per_workspace: true,
            workspace_auto_back_and_forth: false,
            prevent_wrapping: false,
            workspace_names: default_workspace_names(),
            default_workspace: 0,
            reapply_app_rules_on_title_change: false,
            app_rules: Vec::new(),
            workspace_rules: Vec::new(),
        }
    }
}

impl Default for GestureSettings {
    fn default() -> (r: Self)
        ensures
            default_gestures(r),
    {
        GestureSettings {
            enabled: false,
            consume_dock_swipe: true,
            invert_horizontal_swipe: false,
            swipe_vertical_tolerance: default_swipe_vertical_tolerance(),
            skip_empty: true,
            fingers: default_swipe_fingers(),
            distance_pct: default_distance_pct(),
            haptics_enabled: true,
            haptic_pattern: HapticPattern::LevelChange,
        }
    }
}

impl Default for WindowSnappingSettings {
    fn default() -> (r: Self)
        ensures
            default_window_snapping(r),
    {
        WindowSnappingSettings { drag_swap_fraction: zero_float() }
    }
}

impl Default for MenuBarSettings {
    fn default() -> (r: Self)
        ensures
            default_menu_bar(r),
    {
        MenuBarSettings {
            enabled: false,
            show_empty: false,
            mode: MenuBarDisplayMode::default(),
            active_label: ActiveWorkspaceLabel::default(),
            display_style: WorkspaceDisplayStyle::default(),
            layout_folder: default_layout_folder(),
        }
    }
}

impl Default for StackLineSettings {
    fn default() -> (r: Self)
        ensures
            default_stack_line(r),
    {
        StackLineSettings {
            enabled: false,
            hover: StackLineHoverMode::default(),
            thickness: zero_float(),
            border_width: zero_float(),
            horiz_placement: HorizontalPlacement::default(),
            vert_placement: VerticalPlacement::default(),
            spacing: zero_float(),
            show_titles: false,
            active_color: None,
            inactive_color: None,
            active_title_color: None,
            inactive_title_color: None,
            font_size: None,
        }
    }
}

impl Default for MissionControlSettings {
    fn default() -> (r: Self)
        ensures
            default_mission_control(r),
    {
        MissionControlSettings { enabled: false, fade_enabled: false, fade_duration_ms: zero_float() }
    }
}

impl Default for HintsBarPad {
    fn default() -> (r: Self)
        ensures
            default_pad(r),
    {
        HintsBarPad { top: zero_float(), bottom: zero_float(), left: zero_float(), right: zero_float() }
    }
}

impl Default for HintsBarDetailSettings {
    fn default() -> (r: Self)
        ensures
            default_detail(r),
    {
        HintsBarDetailSettings {
            style: HintsBarDetailStyle::default(),
            position: HintsBarPosition::default(),
            align: HintsBarAlign::default(),
            pad: HintsBarPad::default(),
        }
    }
}

impl Default for HintsBarSettings {
    fn default() -> (r: Self)
        ensures
            default_hints_bar(r),
    {
        HintsBarSettings {
            enabled: false,
            position: HintsBarPosition::default(),
            placement: HintsBarPlacement::default(),
            visibility: HintsBarVisibility::default(),
            density: HintsBarDensity::default(),
            height: default_hints_bar_height(),
            auto_hide_ms: default_hints_bar_auto_hide_ms(),
            keys: default_hints_bar_keys(),
            background: None,
            focused_color: None,
            viewport_color: None,
            label_color: None,
            hint_color: None,
            font_size: None,
            blur: default_hints_bar_blur(),
            show_titles: false,
            show_workspace: false,
            pad: HintsBarPad::default(),
            align: HintsBarAlign::Center,
            notch: HintsBarNotch::default(),
            max_width_ratio: default_hints_bar_max_width_ratio(),
            overflow: HintsBarOverflow::default(),
            detail: HintsBarDetailSettings::default(),
        }
    }
}

impl Default for UiSettings {
    fn default() -> (r: Self)
        ensures
            default_ui(r),
    {
        UiSettings {
            menu_bar: MenuBarSettings::default(),
            stack_line: StackLineSettings::default(),
            mission_control: MissionControlSettings::default(),
            hints_bar: HintsBarSettings::default(),
        }
    }
}

impl Default for BaseLayoutSettings {
    fn default() -> (r: Self)
        ensures
            r.window_insertion_point is None,
    {
        BaseLayoutSettings { window_insertion_point: None }
    }
}

impl Default for TraditionalLayoutSettings {
    fn default() -> (r: Self)
        ensures
            r.base.window_insertion_point is None,
            r.equalize_nodes,
    {
        TraditionalLayoutSettings { base: BaseLayoutSettings::default(), equalize_nodes: true }
    }
}

impl Default for BspLayoutSettings {
    fn default() -> (r: Self)
        ensures
            r.base.window_insertion_point is None,
    {
        BspLayoutSettings { base: BaseLayoutSettings::default() }
    }
}

impl Default for ScrollingGestureSettings {
    fn default() -> (r: Self)
        ensures
            default_scrolling_gestures(r),
    {
        ScrollingGestureSettings {
            enabled: false,
            invert_horizontal: false,
            vertical_tolerance: default_swipe_vertical_tolerance(),
            fingers: default_swipe_fingers(),
            distance_pct: default_distance_pct(),
            scroll_speed: default_scroll_speed(),
            propagate_to_workspace_swipe: false,
            workspace_switch_threshold: default_overscroll_threshold(),
        }
    }
}

impl Default for ScrollingLayoutSettings {
    fn default() -> (r: Self)
        ensures
            default_scrolling(r),
    {
        ScrollingLayoutSettings {
            base: BaseLayoutSettings::default(),
            animate: None,
            column_width_ratio: default_scrolling_column_width_ratio(),
            min_column_width_ratio: default_scrolling_min_column_width_ratio(),
            max_column_width_ratio: default_scrolling_max_column_width_ratio(),
            width_presets: default_scrolling_width_presets(),
            alignment: ScrollingAlignment::default(),
            focus_navigation_style: ScrollingFocusNavigationStyle::default(),
            gestures: ScrollingGestureSettings::default(),
        }
    }
}

impl Default for StackSettings {
    fn default() -> (r: Self)
        ensures
            default_stack(r),
    {
        StackSettings {
            base: BaseLayoutSettings::default(),
            stack_offset: default_stack_offset(),
            default_orientation: default_stack_orientation(),
        }
    }
}

impl Default for MasterStackSettings {
    fn default() -> (r: Self)
        ensures
            default_master_stack(r),
    {
        MasterStackSettings {
            base: BaseLayoutSettings::default(),
            master_ratio: default_master_stack_ratio(),
            master_count: default_master_stack_count(),
            master_side: MasterStackSide::Left,
            new_window_placement: default_master_stack_new_window_placement(),
            master_arrangement: None,
            stack_arrangement: None,
        }
    }
}

impl Default for OuterGaps {
    fn default() -> (r: Self)
        ensures
            default_outer(r),
    {
        OuterGaps { top: zero_float(), left: zero_float(), bottom: zero_float(), right: zero_float() }
    }
}

impl Default for InnerGaps {
    fn default() -> (r: Self)
        ensures
            default_inner(r),
    {
        InnerGaps { horizontal: zero_float(), vertical: zero_float() }
    }
}

impl Default for GapOverride {
    fn default() -> (r: Self)
        ensures
            r.outer is None && r.inner is None,
    {
        GapOverride { outer: None, inner: None }
    }
}

impl Default for GapSettings {
    fn default() -> (r: Self)
        ensures
            default_gaps(r),
    {
        GapSettings { outer: OuterGaps::default(), inner: InnerGaps::default(), per_display: Vec::new() }
    }
}

impl Default for LayoutSettings {
    fn default() -> (r: Self)
        ensures
            default_layout(r),
    {
        LayoutSettings {
            base: BaseLayoutSettings::default(),
            mode: LayoutMode::default(),
            traditional: TraditionalLayoutSettings::default(),
            bsp: BspLayoutSettings::default(),
            stack: StackSettings::default(),
            master_stack: MasterStackSettings::default(),
            gaps: GapSettings::default(),
            scrolling: ScrollingLayoutSettings::default(),
            external_bar_top: zero_float(),
            external_bar_bottom: zero_float(),
            activate_on_focus: false,
        }
    }
}

/// What an empty `[settings]` table gives: every field at its documented
/// default.
impl Default for Settings {
    fn default() -> (r: Self)
        ensures
            default_settings(r),
    {
        Settings {
            animate: no(),
            animation_duration: default_animation_duration(),
            animation_fps: default_animation_fps(),
            animation_easing: AnimationEasing::default(),
            default_disable: yes(),
            mouse_follows_focus: yes(),
            mouse_hides_on_focus: yes(),
            focus_follows_mouse: yes(),
            focus_follows_mouse_disable_hotkey: None,
            auto_focus_blacklist: Vec::new(),
            layout: LayoutSettings::default(),
            ui: UiSettings::default(),
            gestures: GestureSettings::default(),
            window_snapping: WindowSnappingSettings::default(),
            run_on_start: Vec::new(),
            hot_reload: yes(),
        }
    }
}

} // verus!
