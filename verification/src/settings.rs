//! The configuration model: settings structures and their enumerations.
use vstd::prelude::*;
use crate::commands::AnimationEasing;
use crate::number::ConfigFloat;

verus! {

/// Upper bound on the number of virtual workspaces per space.
pub const MAX_WORKSPACES: usize = 128;

/// The layout systems a workspace can use.
#[derive(Clone, Copy, Debug, PartialEq, Eq, Structural)]
pub enum LayoutMode {
    Traditional,
    Bsp,
    Stack,
    MasterStack,
    Scrolling,
}

impl Default for LayoutMode {
    fn default() -> (r: Self)
        ensures
            r == LayoutMode::Traditional,
    {
        LayoutMode::Traditional
    }
}

/// A workspace named by its index or by its name.
#[derive(Clone, Debug)]
pub enum WorkspaceSelector {
    Index(usize),
    Name(String),
}

/// Per-workspace layout override.
#[derive(Clone, Debug)]
pub struct WorkspaceLayoutRule {
    /// Target workspace by index or name
    pub workspace: WorkspaceSelector,
    /// Layout mode to use for this workspace
    pub layout: LayoutMode,
}

/// Initial normalized position for a floating window: `(0, 0)` is the
/// top-left and `(1, 1)` the bottom-right of the available screen area.
#[derive(Clone, Debug)]
pub struct AppRulePosition {
    pub x: ConfigFloat,
    pub y: ConfigFloat,
}

/// Preferred window size in logical pixels.
#[derive(Clone, Debug)]
pub struct AppRuleSize {
    pub w: Option<ConfigFloat>,
    pub h: Option<ConfigFloat>,
}

/// A rule that matches windows and assigns them a workspace and placement.
#[derive(Clone, Debug)]
pub struct AppWorkspaceRule {
    /// Application bundle identifier (e.g. "com.apple.Terminal")
    pub app_id: Option<String>,
    /// Target workspace index (0 based) or name; `None` = active workspace.
    pub workspace: Option<WorkspaceSelector>,
    /// Whether windows should be floating in this workspace
    pub floating: bool,
    /// Initial normalized position for a floating window.
    pub position: Option<AppRulePosition>,
    /// Preferred window size in logical pixels.
    pub size: Option<AppRuleSize>,
    /// Focus the window after applying this rule.
    pub focus: bool,
    /// Explicit management override (`false` hides the window from rift).
    pub manage: Option<bool>,
    /// Application name pattern (alternative to app_id)
    pub app_name: Option<String>,
    /// Regular expression matched against the window title
    pub title_regex: Option<String>,
    /// Substring searched for in the window title
    pub title_substring: Option<String>,
    /// Accessibility role to match (AXRole)
    pub ax_role: Option<String>,
    /// Accessibility subrole to match (AXSubrole)
    pub ax_subrole: Option<String>,
}

/// `[virtual_workspaces]`
#[derive(Clone, Debug)]
pub struct VirtualWorkspaceSettings {
    pub enabled: bool,
    pub default_workspace_count: usize,
    pub auto_assign_windows: bool,
    pub preserve_focus_per_workspace: bool,
    pub workspace_auto_back_and_forth: bool,
    pub prevent_wrapping: bool,
    pub workspace_names: Vec<String>,
    pub default_workspace: usize,
    pub reapply_app_rules_on_title_change: bool,
    pub app_rules: Vec<AppWorkspaceRule>,
    pub workspace_rules: Vec<WorkspaceLayoutRule>,
}


/// How the menu bar lists workspaces.
#[derive(Clone, Copy, Debug, PartialEq, Eq, Structural)]
pub enum MenuBarDisplayMode {
    All,
    Active,
}

impl Default for MenuBarDisplayMode {
    fn default() -> (r: Self)
        ensures
            r == MenuBarDisplayMode::All,
    {
        MenuBarDisplayMode::All
    }
}

/// What labels the active workspace in the menu bar.
#[derive(Clone, Copy, Debug, PartialEq, Eq, Structural)]
pub enum ActiveWorkspaceLabel {
    Index,
    Name,
}

impl Default for ActiveWorkspaceLabel {
    fn default() -> (r: Self)
        ensures
            r == ActiveWorkspaceLabel::Index,
    {
        ActiveWorkspaceLabel::Index
    }
}

/// How a workspace is drawn in the menu bar.
#[derive(Clone, Copy, Debug, PartialEq, Eq, Structural)]
pub enum WorkspaceDisplayStyle {
    Layout,
    Label,
}

impl Default for WorkspaceDisplayStyle {
    fn default() -> (r: Self)
        ensures
            r == WorkspaceDisplayStyle::Layout,
    {
        WorkspaceDisplayStyle::Layout
    }
}

/// How the stack-line indicator reacts to the pointer.
#[derive(Clone, Copy, Debug, PartialEq, Eq, Structural)]
pub enum StackLineHoverMode {
    Click,
    Hover,
}

impl Default for StackLineHoverMode {
    fn default() -> (r: Self)
        ensures
            r == StackLineHoverMode::Hover,
    {
        StackLineHoverMode::Hover
    }
}

/// Edge of a horizontal stack-line indicator.
#[derive(Clone, Copy, Debug, PartialEq, Eq, Structural)]
pub enum HorizontalPlacement {
    Top,
    Bottom,
}

impl Default for HorizontalPlacement {
    fn default() -> (r: Self)
        ensures
            r == HorizontalPlacement::Top,
    {
        HorizontalPlacement::Top
    }
}

/// Edge of a vertical stack-line indicator.
#[derive(Clone, Copy, Debug, PartialEq, Eq, Structural)]
pub enum VerticalPlacement {
    Left,
    Right,
}

impl Default for VerticalPlacement {
    fn default() -> (r: Self)
        ensures
            r == VerticalPlacement::Left,
    {
        VerticalPlacement::Left
    }
}

/// When the scrolling-strip hint bar is shown: always, when toggled on, or in a flash after each change.
#[derive(Clone, Copy, Debug, PartialEq, Eq, Structural)]
pub enum HintsBarVisibility {
    Always,
    OnDemand,
    Auto,
}

impl Default for HintsBarVisibility {
    fn default() -> (r: Self)
        ensures
            r == HintsBarVisibility::Always,
    {
        HintsBarVisibility::Always
    }
}

/// How the hint bar occupies space: floating over the windows, or reserving its own strip.
#[derive(Clone, Copy, Debug, PartialEq, Eq, Structural)]
pub enum HintsBarPlacement {
    Overlay,
    Reserve,
}

impl Default for HintsBarPlacement {
    fn default() -> (r: Self)
        ensures
            r == HintsBarPlacement::Overlay,
    {
        HintsBarPlacement::Overlay
    }
}

/// Which edge the hint bar sits on.
#[derive(Clone, Copy, Debug, PartialEq, Eq, Structural)]
pub enum HintsBarPosition {
    Bottom,
    Top,
    Left,
    Right,
}

impl Default for HintsBarPosition {
    fn default() -> (r: Self)
        ensures
            r == HintsBarPosition::Bottom,
    {
        HintsBarPosition::Bottom
    }
}

/// How much per-column detail the hint bar renders.
#[derive(Clone, Copy, Debug, PartialEq, Eq, Structural)]
pub enum HintsBarDensity {
    Compact,
    Full,
    Dots,
}

impl Default for HintsBarDensity {
    fn default() -> (r: Self)
        ensures
            r == HintsBarDensity::Compact,
    {
        HintsBarDensity::Compact
    }
}

/// What the bar does when its chip row exceeds its width budget.
#[derive(Clone, Copy, Debug, PartialEq, Eq, Structural)]
pub enum HintsBarOverflow {
    Scale,
    Row,
    Bar,
}

impl Default for HintsBarOverflow {
    fn default() -> (r: Self)
        ensures
            r == HintsBarOverflow::Scale,
    {
        HintsBarOverflow::Scale
    }
}

/// How the focused multi-window column's detail is shown.
#[derive(Clone, Copy, Debug, PartialEq, Eq, Structural)]
pub enum HintsBarDetailStyle {
    Popover,
    Bar,
}

impl Default for HintsBarDetailStyle {
    fn default() -> (r: Self)
        ensures
            r == HintsBarDetailStyle::Popover,
    {
        HintsBarDetailStyle::Popover
    }
}

/// Where a bar's content sits along its docked edge.
#[derive(Clone, Copy, Debug, PartialEq, Eq, Structural)]
pub enum HintsBarAlign {
    Start,
    Center,
    End,
}

impl Default for HintsBarAlign {
    fn default() -> (r: Self)
        ensures
            r == HintsBarAlign::End,
    {
        HintsBarAlign::End
    }
}

/// How a top bar handles a display notch.
#[derive(Clone, Copy, Debug, PartialEq, Eq, Structural)]
pub enum HintsBarNotch {
    Flow,
    Stop,
    Ignore,
}

impl Default for HintsBarNotch {
    fn default() -> (r: Self)
        ensures
            r == HintsBarNotch::Flow,
    {
        HintsBarNotch::Flow
    }
}

/// Where newly managed windows are inserted.
#[derive(Clone, Copy, Debug, PartialEq, Eq, Structural)]
pub enum WindowInsertionPoint {
    NextToSelection,
    EndOfTree,
}

impl Default for WindowInsertionPoint {
    fn default() -> (r: Self)
        ensures
            r == WindowInsertionPoint::NextToSelection,
    {
        WindowInsertionPoint::NextToSelection
    }
}

/// Which side the master area occupies.
#[derive(Clone, Copy, Debug, PartialEq, Eq, Structural)]
pub enum MasterStackSide {
    Left,
    Right,
    Top,
    Bottom,
}

impl Default for MasterStackSide {
    fn default() -> (r: Self)
        ensures
            r == MasterStackSide::Left,
    {
        MasterStackSide::Left
    }
}

/// Alignment of the focused column in the scrolling layout.
#[derive(Clone, Copy, Debug, PartialEq, Eq, Structural)]
pub enum ScrollingAlignment {
    Left,
    Center,
    Right,
}

impl Default for ScrollingAlignment {
    fn default() -> (r: Self)
        ensures
            r == ScrollingAlignment::Center,
    {
        ScrollingAlignment::Center
    }
}

/// Horizontal focus navigation in the scrolling layout.
#[derive(Clone, Copy, Debug, PartialEq, Eq, Structural)]
pub enum ScrollingFocusNavigationStyle {
    Niri,
    Anchored,
}

impl Default for ScrollingFocusNavigationStyle {
    fn default() -> (r: Self)
        ensures
            r == ScrollingFocusNavigationStyle::Niri,
    {
        ScrollingFocusNavigationStyle::Niri
    }
}

/// Where new windows go when the master area is full.
#[derive(Clone, Copy, Debug, PartialEq, Eq, Structural)]
pub enum MasterStackNewWindowPlacement {
    Master,
    Stack,
    Focused,
}

/// Orientation chosen when stacking windows.
#[derive(Clone, Copy, Debug, PartialEq, Eq, Structural)]
pub enum StackDefaultOrientation {
    Perpendicular,
    Same,
    Horizontal,
    Vertical,
}

/// Haptic feedback pattern played when a swipe commits.
#[derive(Clone, Copy, Debug, PartialEq, Eq, Structural)]
pub enum HapticPattern {
    Generic,
    Alignment,
    LevelChange,
}

impl Default for HapticPattern {
    fn default() -> (r: Self)
        ensures
            r == HapticPattern::LevelChange,
    {
        HapticPattern::LevelChange
    }
}

/// Orientation of a layout container.
#[derive(Clone, Copy, Debug, PartialEq, Eq, Structural)]
pub enum Orientation {
    Horizontal,
    Vertical,
}

/// A floating-point value with the given bit pattern and display text.
pub open spec fn float_is(f: ConfigFloat, bits: u64, text: Seq<char>) -> bool {
    f.bits == bits && f.text@ == text
}

/// `[settings]`
#[derive(Clone, Debug)]
pub struct Settings {
    pub animate: bool,
    pub animation_duration: ConfigFloat,
    pub animation_fps: ConfigFloat,
    pub animation_easing: AnimationEasing,
    pub default_disable: bool,
    pub mouse_follows_focus: bool,
    pub mouse_hides_on_focus: bool,
    pub focus_follows_mouse: bool,
    /// Hotkey (or modifier-only spec) that disables focus-follows-mouse while
    /// held, as written.
    pub focus_follows_mouse_disable_hotkey: Option<String>,
    /// Bundle identifiers whose activation never switches workspaces.
    pub auto_focus_blacklist: Vec<String>,
    pub layout: LayoutSettings,
    pub ui: UiSettings,
    /// Trackpad gesture settings
    pub gestures: GestureSettings,
    pub window_snapping: WindowSnappingSettings,
    /// Commands to run on startup
    pub run_on_start: Vec<String>,
    /// Hot-reload the config file when it changes
    pub hot_reload: bool,
}

/// `[settings.ui]`
#[derive(Clone, Debug)]
pub struct UiSettings {
    pub menu_bar: MenuBarSettings,
    pub stack_line: StackLineSettings,
    pub mission_control: MissionControlSettings,
    pub hints_bar: HintsBarSettings,
}

/// `[settings.gestures]`
#[derive(Clone, Debug)]
pub struct GestureSettings {
    /// Horizontal swipes switch virtual workspaces
    pub enabled: bool,
    /// Consume the swipes rift handles so macOS does not also act on them
    pub consume_dock_swipe: bool,
    /// Swap next/prev
    pub invert_horizontal_swipe: bool,
    /// Largest vertical delta that still counts as a horizontal swipe
    pub swipe_vertical_tolerance: ConfigFloat,
    /// Skip empty workspaces on swipe
    pub skip_empty: bool,
    /// Fingers required for a swipe
    pub fingers: usize,
    /// Normalized horizontal distance that fires a swipe
    pub distance_pct: ConfigFloat,
    /// Haptic feedback when a swipe commits
    pub haptics_enabled: bool,
    pub haptic_pattern: HapticPattern,
}

/// `[settings.window_snapping]`
#[derive(Clone, Debug)]
pub struct WindowSnappingSettings {
    pub drag_swap_fraction: ConfigFloat,
}

/// `[settings.ui.menu_bar]`
#[derive(Clone, Debug)]
pub struct MenuBarSettings {
    pub enabled: bool,
    pub show_empty: bool,
    pub mode: MenuBarDisplayMode,
    pub active_label: ActiveWorkspaceLabel,
    pub display_style: WorkspaceDisplayStyle,
    /// Folder of saved layouts; a leading `~` stands for the home directory.
    pub layout_folder: String,
}

/// `[settings.ui.stack_line]`
#[derive(Clone, Debug)]
pub struct StackLineSettings {
    pub enabled: bool,
    pub hover: StackLineHoverMode,
    pub thickness: ConfigFloat,
    /// Outline thickness of the indicator; 0 disables the outline.
    pub border_width: ConfigFloat,
    pub horiz_placement: HorizontalPlacement,
    pub vert_placement: VerticalPlacement,
    /// Distance between the window edge and the stack line
    pub spacing: ConfigFloat,
    /// Draw window titles as tab labels
    pub show_titles: bool,
    pub active_color: Option<String>,
    pub inactive_color: Option<String>,
    pub active_title_color: Option<String>,
    pub inactive_title_color: Option<String>,
    pub font_size: Option<ConfigFloat>,
}

/// `[settings.ui.mission_control]`
#[derive(Clone, Debug)]
pub struct MissionControlSettings {
    pub enabled: bool,
    pub fade_enabled: bool,
    pub fade_duration_ms: ConfigFloat,
}

/// The focused-column detail of the hint bar.
#[derive(Clone, Debug)]
pub struct HintsBarDetailSettings {
    pub style: HintsBarDetailStyle,
    /// `bar` only: the edge it docks to
    pub position: HintsBarPosition,
    /// `bar` only: where it sits along its edge
    pub align: HintsBarAlign,
    /// `bar` only: per-side padding from the display edges
    pub pad: HintsBarPad,
}

/// Per-side padding in px from each display edge.
#[derive(Clone, Debug)]
pub struct HintsBarPad {
    pub top: ConfigFloat,
    pub bottom: ConfigFloat,
    pub left: ConfigFloat,
    pub right: ConfigFloat,
}

/// `[settings.ui.hints_bar]`: the scrolling-strip hint bar.
#[derive(Clone, Debug)]
pub struct HintsBarSettings {
    pub enabled: bool,
    pub position: HintsBarPosition,
    pub placement: HintsBarPlacement,
    pub visibility: HintsBarVisibility,
    pub density: HintsBarDensity,
    /// Bar height in points.
    pub height: ConfigFloat,
    /// Auto-hide delay (ms) after the strip last changed, for `visibility = auto`.
    pub auto_hide_ms: u64,
    /// Keys dealt across the strip left to right.
    pub keys: String,
    pub background: Option<String>,
    pub focused_color: Option<String>,
    pub viewport_color: Option<String>,
    pub label_color: Option<String>,
    pub hint_color: Option<String>,
    pub font_size: Option<ConfigFloat>,
    /// Background blur radius; 0 disables.
    pub blur: u32,
    pub show_titles: bool,
    pub show_workspace: bool,
    pub pad: HintsBarPad,
    pub align: HintsBarAlign,
    pub notch: HintsBarNotch,
    /// Fraction of the display width the chip row may fill before overflowing.
    pub max_width_ratio: ConfigFloat,
    pub overflow: HintsBarOverflow,
    pub detail: HintsBarDetailSettings,
}

/// Options understood by every layout system.
#[derive(Clone, Copy, Debug, PartialEq, Eq, Structural)]
pub struct BaseLayoutSettings {
    /// Where newly managed windows are inserted.
    pub window_insertion_point: Option<WindowInsertionPoint>,
}

/// `[settings.layout.traditional]`
#[derive(Clone, Copy, Debug, PartialEq, Eq, Structural)]
pub struct TraditionalLayoutSettings {
    pub base: BaseLayoutSettings,
    /// Give a new node the average sibling weight (Sway-style).
    pub equalize_nodes: bool,
}

/// `[settings.layout.bsp]`
#[derive(Clone, Copy, Debug, PartialEq, Eq, Structural)]
pub struct BspLayoutSettings {
    pub base: BaseLayoutSettings,
}

/// `[settings.layout]`
#[derive(Clone, Debug)]
pub struct LayoutSettings {
    /// Inherited by every layout type unless its own table overrides it.
    pub base: BaseLayoutSettings,
    pub mode: LayoutMode,
    pub traditional: TraditionalLayoutSettings,
    pub bsp: BspLayoutSettings,
    pub stack: StackSettings,
    pub master_stack: MasterStackSettings,
    pub gaps: GapSettings,
    pub scrolling: ScrollingLayoutSettings,
    /// Space reserved at the top of the tiling area for an external bar.
    pub external_bar_top: ConfigFloat,
    /// Space reserved at the bottom of the tiling area for an external bar.
    pub external_bar_bottom: ConfigFloat,
    /// Bring the focused window's application to the foreground on focus moves.
    pub activate_on_focus: bool,
}

/// `[settings.layout.scrolling]`: niri-style columns.
#[derive(Clone, Debug)]
pub struct ScrollingLayoutSettings {
    pub base: BaseLayoutSettings,
    pub animate: Option<bool>,
    /// Default width of the active column, as a fraction of the screen width.
    pub column_width_ratio: ConfigFloat,
    pub min_column_width_ratio: ConfigFloat,
    pub max_column_width_ratio: ConfigFloat,
    /// Column width ratios cycled by `cycle_column_width`.
    pub width_presets: Vec<ConfigFloat>,
    pub alignment: ScrollingAlignment,
    pub focus_navigation_style: ScrollingFocusNavigationStyle,
    pub gestures: ScrollingGestureSettings,
}

/// `[settings.layout.master_stack]`
#[derive(Clone, Debug)]
pub struct MasterStackSettings {
    pub base: BaseLayoutSettings,
    /// Fraction of space reserved for the master area (0.05..=0.95)
    pub master_ratio: ConfigFloat,
    /// Number of windows kept in the master area (>= 1)
    pub master_count: usize,
    pub master_side: MasterStackSide,
    pub new_window_placement: MasterStackNewWindowPlacement,
    pub master_arrangement: Option<Orientation>,
    pub stack_arrangement: Option<Orientation>,
}

/// `[settings.layout.scrolling.gestures]`
#[derive(Clone, Debug)]
pub struct ScrollingGestureSettings {
    pub enabled: bool,
    pub invert_horizontal: bool,
    pub vertical_tolerance: ConfigFloat,
    pub fingers: usize,
    pub distance_pct: ConfigFloat,
    /// Speed multiplier of the strip under a scroll gesture.
    pub scroll_speed: ConfigFloat,
    /// Overscrolling the strip's end switches workspaces.
    pub propagate_to_workspace_swipe: bool,
    /// Overscroll (in steps) that switches workspaces.
    pub workspace_switch_threshold: ConfigFloat,
}

/// `[settings.layout.stack]`
#[derive(Clone, Debug)]
pub struct StackSettings {
    pub base: BaseLayoutSettings,
    /// How far each stacked window is offset, in pixels.
    pub stack_offset: ConfigFloat,
    pub default_orientation: StackDefaultOrientation,
}

/// `[settings.layout.gaps]`
#[derive(Clone, Debug)]
pub struct GapSettings {
    /// Space between windows and screen edges
    pub outer: OuterGaps,
    /// Space between windows
    pub inner: InnerGaps,
    /// Overrides by display UUID, in the order the configuration lists them;
    /// a map, so no UUID appears twice.
    pub per_display: Vec<(String, GapOverride)>,
}

/// Space between windows and screen edges.
#[derive(Debug)]
pub struct OuterGaps {
    pub top: ConfigFloat,
    pub left: ConfigFloat,
    pub bottom: ConfigFloat,
    pub right: ConfigFloat,
}

/// Space between windows.
#[derive(Debug)]
pub struct InnerGaps {
    pub horizontal: ConfigFloat,
    pub vertical: ConfigFloat,
}

/// Gap overrides for one display.
#[derive(Clone, Debug)]
pub struct GapOverride {
    pub outer: Option<OuterGaps>,
    pub inner: Option<InnerGaps>,
}

impl Clone for OuterGaps {
    fn clone(&self) -> (r: Self)
        ensures
            r == *self,
    {
        OuterGaps { top: self.top.clone(), left: self.left.clone(), bottom: self.bottom.clone(), right: self.right.clone() }
    }
}

impl Clone for InnerGaps {
    fn clone(&self) -> (r: Self)
        ensures
            r == *self,
    {
        InnerGaps { horizontal: self.horizontal.clone(), vertical: self.vertical.clone() }
    }
}

/// The parts of a configuration that validation reads.
#[derive(Clone, Debug)]
pub struct Config {
    pub settings: Settings,
    pub virtual_workspaces: VirtualWorkspaceSettings,
}

impl HintsBarPosition {
    /// True for the left/right edges, where the bar stacks columns vertically.
    pub fn is_vertical(&self) -> (b: bool)
        ensures
            b == (*self == HintsBarPosition::Left || *self == HintsBarPosition::Right),
    {
        match self {
            HintsBarPosition::Left | HintsBarPosition::Right => true,
            _ => false,
        }
    }
}

impl StackLineSettings {
    /// The thickness the stack line takes up: its thickness when enabled,
    /// else zero.
    pub fn thickness(&self) -> (t: ConfigFloat)
        ensures
            self.enabled ==> t == self.thickness,
            !self.enabled ==> float_is(t, 0, "0"@),
    {
        if self.enabled { self.thickness.clone() } else { ConfigFloat::from_parts(0, "0") }
    }
}

impl HintsBarSettings {
    /// Vertical space the bar takes from the scrolling tiling area: its
    /// height (at least zero) when it is enabled, reserves its own strip and
    /// sits on a horizontal edge; else zero. A height that is NaN or not
    /// above zero gives zero.
    pub fn reserved_thickness(&self) -> (t: ConfigFloat)
        ensures
            self.enabled && self.placement == HintsBarPlacement::Reserve
                && !(self.position == HintsBarPosition::Left || self.position == HintsBarPosition::Right)
                && crate::number::lt_bits(0, self.height.bits) ==> t == self.height,
            !(self.enabled && self.placement == HintsBarPlacement::Reserve
                && !(self.position == HintsBarPosition::Left || self.position == HintsBarPosition::Right)
                && crate::number::lt_bits(0, self.height.bits)) ==> float_is(t, 0, "0"@),
    {
        if self.enabled && self.placement == HintsBarPlacement::Reserve && !self.position.is_vertical()
            && crate::number::lt(0, self.height.bits) {
            self.height.clone()
        } else {
            ConfigFloat::from_parts(0, "0")
        }
    }
}

} // verus!
