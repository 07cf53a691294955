//! Validation of the `[settings]` tables and resolution of per-layout and
//! per-display settings.
use vstd::prelude::*;
use vstd::string::*;
use crate::issues::{append_issues, flag, push_issue, views};
use crate::number::{le, le_bits, lt, lt_bits, within, within_bits, ConfigFloat, ONE_BITS, ZERO_BITS};
use crate::settings::{
    BaseLayoutSettings, Config, GapOverride, GapSettings, InnerGaps, LayoutMode, LayoutSettings,
    MasterStackSettings, OuterGaps, ScrollingLayoutSettings, Settings, StackSettings,
    WindowInsertionPoint,
};
use crate::workspace_rules::{regex_outcome, workspace_settings_issues};
use crate::text::distinct_keys;
use crate::issues::lemma_contains_in_concat;
use crate::settings::AppWorkspaceRule;

verus! {

/// `0.05`
pub const MIN_MASTER_RATIO_BITS: u64 = 0x3fa9_9999_9999_999a;

/// `0.95`
pub const MAX_MASTER_RATIO_BITS: u64 = 0x3fee_6666_6666_6666;

/// `prefix` followed by the display text of `f`.
pub open spec fn got(prefix: Seq<char>, f: ConfigFloat) -> Seq<char> {
    prefix + f.text@
}

/// A message for `f` being negative.
pub open spec fn negative_issue(prefix: Seq<char>, f: ConfigFloat) -> Seq<Seq<char>> {
    flag(lt_bits(f.bits, ZERO_BITS), got(prefix, f))
}

fn got_message(prefix: &str, f: &ConfigFloat) -> (m: String)
    ensures
        m@ == got(prefix@, *f),
{
    let mut m = String::from_str(prefix);
    m.append(f.text.as_str());
    m
}

fn push_if(issues: &mut Vec<String>, c: bool, m: String)
    ensures
        views(final(issues)@) == views(old(issues)@) + flag(c, m@),
{
    if c {
        push_issue(issues, m);
    } else {
        assert(views(old(issues)@) + flag(c, m@) =~= views(old(issues)@));
    }
}

fn push_negative(issues: &mut Vec<String>, prefix: &str, f: &ConfigFloat)
    ensures
        views(final(issues)@) == views(old(issues)@) + negative_issue(prefix@, *f),
{
    push_if(issues, lt(f.bits, ZERO_BITS), got_message(prefix, f));
}

/// The issues with outer gaps: each negative side.
pub open spec fn outer_gap_issues(g: OuterGaps) -> Seq<Seq<char>> {
    negative_issue("outer.top gap must be non-negative, got "@, g.top)
        + negative_issue("outer.left gap must be non-negative, got "@, g.left)
        + negative_issue("outer.bottom gap must be non-negative, got "@, g.bottom)
        + negative_issue("outer.right gap must be non-negative, got "@, g.right)
}

/// The issues with inner gaps: each negative direction.
pub open spec fn inner_gap_issues(g: InnerGaps) -> Seq<Seq<char>> {
    negative_issue("inner.horizontal gap must be non-negative, got "@, g.horizontal)
        + negative_issue("inner.vertical gap must be non-negative, got "@, g.vertical)
}

/// Each issue prefixed by the display it belongs to.
pub open spec fn display_issues(uuid: Seq<char>, issues: Seq<Seq<char>>) -> Seq<Seq<char>> {
    issues.map_values(|i: Seq<char>| "per_display["@ + uuid + "] "@ + i)
}

/// The issues of one display override.
pub open spec fn override_issues(uuid: Seq<char>, o: GapOverride) -> Seq<Seq<char>> {
    (match o.outer {
        Some(g) => display_issues(uuid, outer_gap_issues(g)),
        None => seq![],
    }) + (match o.inner {
        Some(g) => display_issues(uuid, inner_gap_issues(g)),
        None => seq![],
    })
}

/// The issues of the first `n` display overrides.
pub open spec fn overrides_issues(per_display: Seq<(String, GapOverride)>, n: nat) -> Seq<Seq<char>>
    decreases n,
{
    if n == 0 {
        seq![]
    } else {
        overrides_issues(per_display, (n - 1) as nat) + override_issues(per_display[n - 1].0@, per_display[n - 1].1)
    }
}

/// The issues with gap settings: the outer and inner gaps, then each display
/// override's, in the order the overrides are listed.
pub open spec fn gap_issues(g: GapSettings) -> Seq<Seq<char>> {
    outer_gap_issues(g.outer) + inner_gap_issues(g.inner) + overrides_issues(g.per_display@, g.per_display@.len())
}

/// The issues with stack settings.
pub open spec fn stack_issues(s: StackSettings) -> Seq<Seq<char>> {
    negative_issue("stack_offset must be non-negative, got "@, s.stack_offset)
}

/// The issues with master/stack settings.
pub open spec fn master_stack_issues(s: MasterStackSettings) -> Seq<Seq<char>> {
    flag(!within_bits(s.master_ratio.bits, MIN_MASTER_RATIO_BITS, MAX_MASTER_RATIO_BITS),
        got("master_stack.master_ratio must be between 0.05 and 0.95, got "@, s.master_ratio))
        + flag(s.master_count == 0, "master_stack.master_count must be at least 1"@)
}

/// The issues of the first `n` width presets.
pub open spec fn presets_issues(presets: Seq<ConfigFloat>, n: nat) -> Seq<Seq<char>>
    decreases n,
{
    if n == 0 {
        seq![]
    } else {
        presets_issues(presets, (n - 1) as nat) + flag(
            !within_bits(presets[n - 1].bits, ZERO_BITS, ONE_BITS),
            got("layout.scrolling.width_presets entries must be between 0.0 and 1.0, got "@, presets[n - 1]),
        )
    }
}

/// The issues with scrolling-layout settings.
pub open spec fn scrolling_issues(s: ScrollingLayoutSettings) -> Seq<Seq<char>> {
    let cw = s.column_width_ratio;
    let lo = s.min_column_width_ratio;
    let hi = s.max_column_width_ratio;
    flag(!within_bits(cw.bits, ZERO_BITS, ONE_BITS),
        got("layout.scrolling.column_width_ratio must be between 0.0 and 1.0, got "@, cw))
        + flag(!within_bits(lo.bits, ZERO_BITS, ONE_BITS),
        got("layout.scrolling.min_column_width_ratio must be between 0.0 and 1.0, got "@, lo))
        + flag(!within_bits(hi.bits, ZERO_BITS, ONE_BITS),
        got("layout.scrolling.max_column_width_ratio must be between 0.0 and 1.0, got "@, hi))
        + flag(lt_bits(hi.bits, lo.bits),
        "layout.scrolling.min_column_width_ratio ("@ + lo.text@ + ") must be <= max_column_width_ratio ("@
            + hi.text@ + ")"@)
        + flag(!within_bits(cw.bits, lo.bits, hi.bits),
        "layout.scrolling.column_width_ratio ("@ + cw.text@ + ") must be within min/max bounds"@)
        + presets_issues(s.width_presets@, s.width_presets@.len())
        + negative_issue("layout.scrolling.gestures.vertical_tolerance must be non-negative, got "@,
        s.gestures.vertical_tolerance)
}

/// The issues with layout settings: stack, master/stack, gaps, scrolling.
pub open spec fn layout_issues(l: LayoutSettings) -> Seq<Seq<char>> {
    stack_issues(l.stack) + master_stack_issues(l.master_stack) + gap_issues(l.gaps) + scrolling_issues(l.scrolling)
}

/// The issues with `[settings]`.
pub open spec fn settings_issues(s: Settings) -> Seq<Seq<char>> {
    negative_issue("animation_duration must be non-negative, got "@, s.animation_duration)
        + flag(le_bits(s.animation_fps.bits, ZERO_BITS), got("animation_fps must be positive, got "@, s.animation_fps))
        + layout_issues(s.layout)
        + negative_issue("gestures.swipe_vertical_tolerance must be non-negative, got "@,
        s.gestures.swipe_vertical_tolerance)
}

fn prefix_display(uuid: &String, issues: Vec<String>) -> (r: Vec<String>)
    ensures
        views(r@) == display_issues(uuid@, views(issues@)),
{
    let n = issues.len();
    let mut r: Vec<String> = Vec::new();
    for k in 0..n
        invariant
            n == issues@.len(),
            views(r@) == display_issues(uuid@, views(issues@)).take(k as int),
    {
        let mut m = String::from_str("per_display[");
        m.append(uuid.as_str());
        m.append("] ");
        m.append(issues[k].as_str());
        let ghost before = views(r@);
        push_issue(&mut r, m);
        assert(views(r@) =~= display_issues(uuid@, views(issues@)).take(k + 1));
    }
    assert(display_issues(uuid@, views(issues@)).take(n as int) =~= display_issues(uuid@, views(issues@)));
    r
}

impl OuterGaps {
    /// Validates outer gap values and returns the issues found.
    pub fn validate(&self) -> (issues: Vec<String>)
        ensures
            views(issues@) == outer_gap_issues(*self),
    {
        let mut issues: Vec<String> = Vec::new();
        push_negative(&mut issues, "outer.top gap must be non-negative, got ", &self.top);
        push_negative(&mut issues, "outer.left gap must be non-negative, got ", &self.left);
        push_negative(&mut issues, "outer.bottom gap must be non-negative, got ", &self.bottom);
        push_negative(&mut issues, "outer.right gap must be non-negative, got ", &self.right);
        assert(views(issues@) =~= outer_gap_issues(*self));
        issues
    }
}

impl InnerGaps {
    /// Validates inner gap values and returns the issues found.
    pub fn validate(&self) -> (issues: Vec<String>)
        ensures
            views(issues@) == inner_gap_issues(*self),
    {
        let mut issues: Vec<String> = Vec::new();
        push_negative(&mut issues, "inner.horizontal gap must be non-negative, got ", &self.horizontal);
        push_negative(&mut issues, "inner.vertical gap must be non-negative, got ", &self.vertical);
        assert(views(issues@) =~= inner_gap_issues(*self));
        issues
    }
}

/// The gaps in effect on a display: the global gaps, with the outer and
/// inner gaps replaced by the first override listed for that display.
pub open spec fn effective_gaps(g: GapSettings, uuid: Option<Seq<char>>) -> (OuterGaps, InnerGaps) {
    match uuid {
        Some(u) => match display_override(g.per_display@, u) {
            Some(o) => (
                match o.outer { Some(x) => x, None => g.outer },
                match o.inner { Some(x) => x, None => g.inner },
            ),
            None => (g.outer, g.inner),
        },
        None => (g.outer, g.inner),
    }
}

/// The first override listed for display `uuid`.
pub open spec fn display_override(per_display: Seq<(String, GapOverride)>, uuid: Seq<char>) -> Option<GapOverride>
    decreases per_display.len(),
{
    if per_display.len() == 0 {
        None
    } else if per_display[0].0@ == uuid {
        Some(per_display[0].1)
    } else {
        display_override(per_display.drop_first(), uuid)
    }
}

impl GapSettings {
    /// Validates the gaps and every display override; an override's issues
    /// are prefixed with `per_display[<uuid>]`.
    pub fn validate(&self) -> (issues: Vec<String>)
        ensures
            views(issues@) == gap_issues(*self),
    {
        let mut issues = self.outer.validate();
        append_issues(&mut issues, self.inner.validate());
        let n = self.per_display.len();
        for k in 0..n
            invariant
                n == self.per_display@.len(),
                views(issues@) == outer_gap_issues(self.outer) + inner_gap_issues(self.inner)
                    + overrides_issues(self.per_display@, k as nat),
        {
            let (uuid, o) = &self.per_display[k];
            let ghost before = views(issues@);
            match &o.outer {
                Some(g) => append_issues(&mut issues, prefix_display(uuid, g.validate())),
                None => {},
            }
            match &o.inner {
                Some(g) => append_issues(&mut issues, prefix_display(uuid, g.validate())),
                None => {},
            }
            assert(views(issues@) =~= before + override_issues(uuid@, *o));
        }
        issues
    }

    /// The gaps in effect on the display with UUID `display_uuid` (the
    /// global gaps when it is `None` or has no override); the result has no
    /// per-display overrides of its own.
    pub fn effective_for_display(&self, display_uuid: Option<&str>) -> (r: GapSettings)
        requires
            distinct_keys(self.per_display@),
        ensures
            (r.outer, r.inner) == effective_gaps(*self, match display_uuid { Some(u) => Some(u@), None => None }),
            r.per_display@.len() == 0,
    {
        let mut resolved = GapSettings {
            outer: self.outer.clone(),
            inner: self.inner.clone(),
            per_display: Vec::new(),
        };
        match display_uuid {
            Some(uuid) => {
                let n = self.per_display.len();
                let ghost all = self.per_display@;
                assert(all.skip(0) =~= all);
                for k in 0..n
                    invariant
                        n == all.len(),
                        all == self.per_display@,
                        display_uuid == Some(uuid),
                        display_override(all, uuid@) == display_override(all.skip(k as int), uuid@),
                        resolved.outer == self.outer,
                        resolved.inner == self.inner,
                        resolved.per_display@.len() == 0,
                {
                    let ghost rest = all.skip(k as int);
                    assert(rest[0] == all[k as int]);
                    let (u, o) = &self.per_display[k];
                    if crate::text::chars_eq(&crate::text::chars_of(u.as_str()), &crate::text::chars_of(uuid)) {
                        assert(rest.len() > 0);
                        assert(rest[0].0@ == uuid@);
                        assert(display_override(rest, uuid@) == Some(rest[0].1));
                        assert(display_override(all, uuid@) == Some(*o));
                        match &o.outer {
                            Some(g) => resolved.outer = g.clone(),
                            None => {},
                        }
                        match &o.inner {
                            Some(g) => resolved.inner = g.clone(),
                            None => {},
                        }
                        assert(resolved.outer == match o.outer { Some(x) => x, None => self.outer });
                        assert(resolved.inner == match o.inner { Some(x) => x, None => self.inner });
                        return resolved;
                    }
                    assert(rest.drop_first() =~= all.skip(k + 1));
                }
                assert(all.skip(n as int).len() == 0);
            },
            None => {},
        }
        resolved
    }
}

impl StackSettings {
    /// Validates the stack settings.
    pub fn validate(&self) -> (issues: Vec<String>)
        ensures
            views(issues@) == stack_issues(*self),
    {
        let mut issues: Vec<String> = Vec::new();
        push_negative(&mut issues, "stack_offset must be non-negative, got ", &self.stack_offset);
        assert(views(issues@) =~= stack_issues(*self));
        issues
    }
}

impl MasterStackSettings {
    /// Validates the master/stack settings.
    pub fn validate(&self) -> (issues: Vec<String>)
        ensures
            views(issues@) == master_stack_issues(*self),
    {
        let mut issues: Vec<String> = Vec::new();
        push_if(&mut issues, !within(self.master_ratio.bits, MIN_MASTER_RATIO_BITS, MAX_MASTER_RATIO_BITS),
            got_message("master_stack.master_ratio must be between 0.05 and 0.95, got ", &self.master_ratio));
        push_if(&mut issues, self.master_count == 0, String::from_str("master_stack.master_count must be at least 1"));
        assert(views(issues@) =~= master_stack_issues(*self));
        issues
    }
}

impl ScrollingLayoutSettings {
    /// Validates the scrolling-layout settings.
    pub fn validate(&self) -> (issues: Vec<String>)
        ensures
            views(issues@) == scrolling_issues(*self),
    {
        let cw = &self.column_width_ratio;
        let lo = &self.min_column_width_ratio;
        let hi = &self.max_column_width_ratio;
        let mut issues: Vec<String> = Vec::new();
        push_if(&mut issues, !within(cw.bits, ZERO_BITS, ONE_BITS),
            got_message("layout.scrolling.column_width_ratio must be between 0.0 and 1.0, got ", cw));
        push_if(&mut issues, !within(lo.bits, ZERO_BITS, ONE_BITS),
            got_message("layout.scrolling.min_column_width_ratio must be between 0.0 and 1.0, got ", lo));
        push_if(&mut issues, !within(hi.bits, ZERO_BITS, ONE_BITS),
            got_message("layout.scrolling.max_column_width_ratio must be between 0.0 and 1.0, got ", hi));
        let mut m = String::from_str("layout.scrolling.min_column_width_ratio (");
        m.append(lo.text.as_str());
        m.append(") must be <= max_column_width_ratio (");
        m.append(hi.text.as_str());
        m.append(")");
        push_if(&mut issues, lt(hi.bits, lo.bits), m);
        let mut m2 = String::from_str("layout.scrolling.column_width_ratio (");
        m2.append(cw.text.as_str());
        m2.append(") must be within min/max bounds");
        push_if(&mut issues, !within(cw.bits, lo.bits, hi.bits), m2);
        let ghost head = views(issues@);
        let n = self.width_presets.len();
        for k in 0..n
            invariant
                n == self.width_presets@.len(),
                views(issues@) == head + presets_issues(self.width_presets@, k as nat),
        {
            let p = &self.width_presets[k];
            let ghost before = views(issues@);
            push_if(&mut issues, !within(p.bits, ZERO_BITS, ONE_BITS),
                got_message("layout.scrolling.width_presets entries must be between 0.0 and 1.0, got ", p));
            assert(views(issues@) =~= head + presets_issues(self.width_presets@, (k + 1) as nat));
        }
        push_negative(&mut issues, "layout.scrolling.gestures.vertical_tolerance must be non-negative, got ",
            &self.gestures.vertical_tolerance);
        assert(views(issues@) =~= scrolling_issues(*self));
        issues
    }
}

/// The per-layout base settings of `mode`.
pub open spec fn mode_base(l: LayoutSettings, mode: LayoutMode) -> BaseLayoutSettings {
    match mode {
        LayoutMode::Traditional => l.traditional.base,
        LayoutMode::Bsp => l.bsp.base,
        LayoutMode::Stack => l.stack.base,
        LayoutMode::MasterStack => l.master_stack.base,
        LayoutMode::Scrolling => l.scrolling.base,
    }
}

/// The insertion point in effect for `mode`: the layout's own setting, else
/// the layout-wide one, else `NextToSelection`.
pub open spec fn insertion_point(l: LayoutSettings, mode: LayoutMode) -> WindowInsertionPoint {
    match mode_base(l, mode).window_insertion_point {
        Some(p) => p,
        None => match l.base.window_insertion_point {
            Some(p) => p,
            None => WindowInsertionPoint::NextToSelection,
        },
    }
}

impl LayoutSettings {
    /// The base settings that the table of `mode` sets.
    pub fn base_for(&self, mode: LayoutMode) -> (r: &BaseLayoutSettings)
        ensures
            *r == mode_base(*self, mode),
    {
        match mode {
            LayoutMode::Traditional => &self.traditional.base,
            LayoutMode::Bsp => &self.bsp.base,
            LayoutMode::Stack => &self.stack.base,
            LayoutMode::MasterStack => &self.master_stack.base,
            LayoutMode::Scrolling => &self.scrolling.base,
        }
    }

    /// Where new windows are inserted under `mode`: a per-layout value
    /// overrides the layout-wide one, which overrides the default.
    pub fn window_insertion_point_for(&self, mode: LayoutMode) -> (r: WindowInsertionPoint)
        ensures
            r == insertion_point(*self, mode),
    {
        match self.base_for(mode).window_insertion_point {
            Some(p) => p,
            None => match self.base.window_insertion_point {
                Some(p) => p,
                None => WindowInsertionPoint::NextToSelection,
            },
        }
    }

    /// The base settings in effect for `mode`, every option resolved.
    pub fn resolved_base_for(&self, mode: LayoutMode) -> (r: BaseLayoutSettings)
        ensures
            r.window_insertion_point == Some(insertion_point(*self, mode)),
    {
        BaseLayoutSettings { window_insertion_point: Some(self.window_insertion_point_for(mode)) }
    }

    /// Validates the stack, master/stack, gap and scrolling settings, in
    /// that order.
    pub fn validate(&self) -> (issues: Vec<String>)
        ensures
            views(issues@) == layout_issues(*self),
    {
        let mut issues = self.stack.validate();
        append_issues(&mut issues, self.master_stack.validate());
        append_issues(&mut issues, self.gaps.validate());
        append_issues(&mut issues, self.scrolling.validate());
        issues
    }
}

impl Settings {
    /// Validates `[settings]`.
    pub fn validate(&self) -> (issues: Vec<String>)
        ensures
            views(issues@) == settings_issues(*self),
    {
        let mut issues: Vec<String> = Vec::new();
        push_negative(&mut issues, "animation_duration must be non-negative, got ", &self.animation_duration);
        push_if(&mut issues, le(self.animation_fps.bits, ZERO_BITS),
            got_message("animation_fps must be positive, got ", &self.animation_fps));
        append_issues(&mut issues, self.layout.validate());
        push_negative(&mut issues, "gestures.swipe_vertical_tolerance must be non-negative, got ",
            &self.gestures.swipe_vertical_tolerance);
        assert(views(issues@) =~= settings_issues(*self));
        issues
    }
}

/// Every issue of a configuration: its settings', then its virtual
/// workspaces'.
pub open spec fn config_issues(c: Config) -> Seq<Seq<char>> {
    settings_issues(c.settings) + workspace_settings_issues(
        c.virtual_workspaces,
        c.virtual_workspaces.app_rules@.map_values(|r: AppWorkspaceRule| regex_outcome(r)),
    )
}

impl Config {
    /// Validates the entire configuration and returns the issues found.
    pub fn validate(&self) -> (issues: Vec<String>)
        ensures
            views(issues@) == config_issues(*self),
    {
        let mut issues = self.settings.validate();
        append_issues(&mut issues, self.virtual_workspaces.validate());
        issues
    }
}

/// A column width outside the minimum and maximum widths (below the
/// minimum, above the maximum, or not comparable at all) is reported, with
/// the width as written.
pub proof fn law_column_width_outside_bounds_reported(s: ScrollingLayoutSettings)
    requires
        !(le_bits(s.min_column_width_ratio.bits, s.column_width_ratio.bits)
            && le_bits(s.column_width_ratio.bits, s.max_column_width_ratio.bits)),
    ensures
        scrolling_issues(s).contains(
            "layout.scrolling.column_width_ratio ("@ + s.column_width_ratio.text@ + ") must be within min/max bounds"@,
        ),
{
    let m = "layout.scrolling.column_width_ratio ("@ + s.column_width_ratio.text@ + ") must be within min/max bounds"@;
    let cw = s.column_width_ratio;
    let lo = s.min_column_width_ratio;
    let hi = s.max_column_width_ratio;
    let a = flag(!within_bits(cw.bits, ZERO_BITS, ONE_BITS),
        got("layout.scrolling.column_width_ratio must be between 0.0 and 1.0, got "@, cw))
        + flag(!within_bits(lo.bits, ZERO_BITS, ONE_BITS),
        got("layout.scrolling.min_column_width_ratio must be between 0.0 and 1.0, got "@, lo))
        + flag(!within_bits(hi.bits, ZERO_BITS, ONE_BITS),
        got("layout.scrolling.max_column_width_ratio must be between 0.0 and 1.0, got "@, hi))
        + flag(lt_bits(hi.bits, lo.bits),
        "layout.scrolling.min_column_width_ratio ("@ + lo.text@ + ") must be <= max_column_width_ratio ("@
            + hi.text@ + ")"@);
    let b = flag(!within_bits(cw.bits, lo.bits, hi.bits), m);
    let c = presets_issues(s.width_presets@, s.width_presets@.len())
        + negative_issue("layout.scrolling.gestures.vertical_tolerance must be non-negative, got "@,
        s.gestures.vertical_tolerance);
    assert(b[0] == m);
    lemma_contains_in_concat(a, b, c, m);
    assert(scrolling_issues(s) =~= a + b + c);
}

/// The list index of display `uuid` when it has an override.
proof fn lemma_display_override_at(per_display: Seq<(String, GapOverride)>, uuid: Seq<char>, i: int)
    requires
        0 <= i < per_display.len(),
        per_display[i].0@ == uuid,
        forall|a: int, b: int| 0 <= a < b < per_display.len() ==> per_display[a].0@ != per_display[b].0@,
    ensures
        display_override(per_display, uuid) == Some(per_display[i].1),
    decreases per_display.len(),
{
    if i > 0 {
        assert(per_display[0].0@ != uuid);
        lemma_display_override_at(per_display.drop_first(), uuid, i - 1);
    }
}

proof fn lemma_display_override_none(per_display: Seq<(String, GapOverride)>, uuid: Seq<char>)
    requires
        forall|i: int| 0 <= i < per_display.len() ==> per_display[i].0@ != uuid,
    ensures
        display_override(per_display, uuid) is None,
    decreases per_display.len(),
{
    if per_display.len() > 0 {
        lemma_display_override_none(per_display.drop_first(), uuid);
    }
}

/// On a display with an override, the override's outer and inner gaps, each
/// where it gives them, replace the global ones; a display without an
/// override, or no display, gets the global gaps.
pub proof fn law_display_override_applies(g: GapSettings, uuid: Seq<char>, i: int)
    requires
        distinct_keys(g.per_display@),
        0 <= i < g.per_display@.len(),
        g.per_display@[i].0@ == uuid,
    ensures
        effective_gaps(g, Some(uuid)).0 == match g.per_display@[i].1.outer { Some(x) => x, None => g.outer },
        effective_gaps(g, Some(uuid)).1 == match g.per_display@[i].1.inner { Some(x) => x, None => g.inner },
{
    lemma_display_override_at(g.per_display@, uuid, i);
}

/// See [`law_display_override_applies`].
pub proof fn law_no_override_gives_global_gaps(g: GapSettings, uuid: Option<Seq<char>>)
    requires
        uuid matches Some(u) ==> forall|i: int| 0 <= i < g.per_display@.len() ==> g.per_display@[i].0@ != u,
    ensures
        effective_gaps(g, uuid) == (g.outer, g.inner),
{
    if let Some(u) = uuid {
        lemma_display_override_none(g.per_display@, u);
    }
}

/// Each scrolling ratio outside `[0, 1]` is reported with its value, and a
/// minimum width above the maximum width is reported with both.
pub proof fn law_scrolling_ratios_checked(s: ScrollingLayoutSettings)
    ensures
        !(le_bits(ZERO_BITS, s.column_width_ratio.bits) && le_bits(s.column_width_ratio.bits, ONE_BITS))
            ==> scrolling_issues(s).contains(
            "layout.scrolling.column_width_ratio must be between 0.0 and 1.0, got "@ + s.column_width_ratio.text@),
        !(le_bits(ZERO_BITS, s.min_column_width_ratio.bits) && le_bits(s.min_column_width_ratio.bits, ONE_BITS))
            ==> scrolling_issues(s).contains(
            "layout.scrolling.min_column_width_ratio must be between 0.0 and 1.0, got "@ + s.min_column_width_ratio.text@),
        !(le_bits(ZERO_BITS, s.max_column_width_ratio.bits) && le_bits(s.max_column_width_ratio.bits, ONE_BITS))
            ==> scrolling_issues(s).contains(
            "layout.scrolling.max_column_width_ratio must be between 0.0 and 1.0, got "@ + s.max_column_width_ratio.text@),
        lt_bits(s.max_column_width_ratio.bits, s.min_column_width_ratio.bits) ==> scrolling_issues(s).contains(
            "layout.scrolling.min_column_width_ratio ("@ + s.min_column_width_ratio.text@
                + ") must be <= max_column_width_ratio ("@ + s.max_column_width_ratio.text@ + ")"@),
{
    let cw = s.column_width_ratio;
    let lo = s.min_column_width_ratio;
    let hi = s.max_column_width_ratio;
    let m1 = "layout.scrolling.column_width_ratio must be between 0.0 and 1.0, got "@ + cw.text@;
    let m2 = "layout.scrolling.min_column_width_ratio must be between 0.0 and 1.0, got "@ + lo.text@;
    let m3 = "layout.scrolling.max_column_width_ratio must be between 0.0 and 1.0, got "@ + hi.text@;
    let m4 = "layout.scrolling.min_column_width_ratio ("@ + lo.text@ + ") must be <= max_column_width_ratio ("@
        + hi.text@ + ")"@;
    let f1 = flag(!within_bits(cw.bits, ZERO_BITS, ONE_BITS), m1);
    let f2 = flag(!within_bits(lo.bits, ZERO_BITS, ONE_BITS), m2);
    let f3 = flag(!within_bits(hi.bits, ZERO_BITS, ONE_BITS), m3);
    let f4 = flag(lt_bits(hi.bits, lo.bits), m4);
    let f5 = flag(!within_bits(cw.bits, lo.bits, hi.bits),
        "layout.scrolling.column_width_ratio ("@ + cw.text@ + ") must be within min/max bounds"@);
    let f6 = presets_issues(s.width_presets@, s.width_presets@.len());
    let f7 = negative_issue("layout.scrolling.gestures.vertical_tolerance must be non-negative, got "@,
        s.gestures.vertical_tolerance);
    let p4 = f1 + f2 + f3 + f4;
    assert(scrolling_issues(s) == p4 + f5 + f6 + f7);
    assert forall|m: Seq<char>| p4.contains(m) implies scrolling_issues(s).contains(m) by {
        lemma_contains_in_concat(seq![], p4, f5, m);
        lemma_contains_in_concat(seq![], p4 + f5, f6, m);
        lemma_contains_in_concat(seq![], p4 + f5 + f6, f7, m);
    }
    if f1.len() > 0 {
        assert(f1[0] == m1);
        lemma_contains_in_concat(seq![], f1, f2, m1);
        lemma_contains_in_concat(seq![], f1 + f2, f3, m1);
        lemma_contains_in_concat(seq![], f1 + f2 + f3, f4, m1);
    }
    if f2.len() > 0 {
        assert(f2[0] == m2);
        lemma_contains_in_concat(f1, f2, f3, m2);
        lemma_contains_in_concat(seq![], f1 + f2 + f3, f4, m2);
    }
    if f3.len() > 0 {
        assert(f3[0] == m3);
        lemma_contains_in_concat(f1 + f2, f3, f4, m3);
    }
    if f4.len() > 0 {
        assert(f4[0] == m4);
        lemma_contains_in_concat(f1 + f2 + f3, f4, seq![], m4);
    }
}

} // verus!
