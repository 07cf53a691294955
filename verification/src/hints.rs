//! The scrolling-strip hint bar's model: windows, columns and their cells.
use vstd::prelude::*;
use vstd::string::*;

verus! {

/// A window: its owning process and its index within that process.
#[derive(Clone, Copy, Debug, PartialEq, Eq, Structural)]
pub struct WindowId {
    pub pid: i32,
    pub idx: u32,
}

impl WindowId {
    /// The window `idx` of process `pid`.
    pub fn new(pid: i32, idx: u32) -> (w: WindowId)
        ensures
            w.pid == pid,
            w.idx == idx,
    {
        WindowId { pid, idx }
    }
}

/// One window inside a scrolling column.
#[derive(Clone, Debug)]
pub struct WindowMember {
    pub window_id: WindowId,
    /// App (localized) name.
    pub label: String,
    /// Window title.
    pub title: String,
}

/// One column of the scrolling strip as it appears on the bar.
#[derive(Clone, Debug)]
pub struct ColumnCell {
    /// Hint letter (empty when the keys run out).
    pub hint: String,
    /// Windows in this column, in stack/tab order.
    pub members: Vec<WindowMember>,
    /// Index of the active window within `members`.
    pub active: usize,
    /// A tabbed column (overlapping tabs); false for a vertical stack.
    pub tabbed: bool,
    /// The focused column of the workspace.
    pub focused: bool,
    /// The column is on screen.
    pub visible: bool,
}

/// The active member of a cell, if `active` indexes one.
pub open spec fn active_member_of(c: ColumnCell) -> Option<WindowMember> {
    if c.active < c.members@.len() { Some(c.members@[c.active as int]) } else { None }
}

/// The active member's app name, empty without one.
pub open spec fn label_of(c: ColumnCell) -> Seq<char> {
    match active_member_of(c) {
        Some(m) => m.label@,
        None => Seq::empty(),
    }
}

/// The active member's title, empty without one.
pub open spec fn title_of(c: ColumnCell) -> Seq<char> {
    match active_member_of(c) {
        Some(m) => m.title@,
        None => Seq::empty(),
    }
}

/// The chip text: the title when titles are shown and it is non-empty,
/// otherwise the app name.
pub open spec fn primary_of(c: ColumnCell, show_titles: bool) -> Seq<char> {
    if show_titles && title_of(c).len() > 0 { title_of(c) } else { label_of(c) }
}

impl ColumnCell {
    /// The member at `active`, if any.
    pub fn active_member(&self) -> (r: Option<&WindowMember>)
        ensures
            match r {
                Some(m) => active_member_of(*self) == Some(*m),
                None => active_member_of(*self) is None,
            },
    {
        if self.active < self.members.len() { Some(&self.members[self.active]) } else { None }
    }

    /// The active window.
    pub fn window_id(&self) -> (r: Option<WindowId>)
        ensures
            r == match active_member_of(*self) {
                Some(m) => Some(m.window_id),
                None => None,
            },
    {
        match self.active_member() {
            Some(m) => Some(m.window_id),
            None => None,
        }
    }

    /// The active window's app name ("" without an active window).
    pub fn label(&self) -> (r: &str)
        ensures
            r@ == label_of(*self),
    {
        match self.active_member() {
            Some(m) => m.label.as_str(),
            None => {
                proof { reveal_strlit(""); }
                ""
            },
        }
    }

    /// The active window's title ("" without an active window).
    pub fn title(&self) -> (r: &str)
        ensures
            r@ == title_of(*self),
    {
        match self.active_member() {
            Some(m) => m.title.as_str(),
            None => {
                proof { reveal_strlit(""); }
                ""
            },
        }
    }

    /// Text for the chip label: the window title when `show_titles` (and it
    /// is non-empty), else the app name.
    pub fn primary(&self, show_titles: bool) -> (r: &str)
        ensures
            r@ == primary_of(*self, show_titles),
    {
        if show_titles {
            let t = self.title();
            if !t.is_empty() {
                return t;
            }
        }
        self.label()
    }
}

/// One column of the scrolling strip: the rounded x-origin its windows
/// share, and the positions (in the laid-out list) of those windows.
#[derive(Clone, Debug)]
pub struct StripColumn {
    pub x: i64,
    pub members: Vec<usize>,
}

/// Entry `i` of the laid-out windows belongs on the strip: its window is in
/// the active workspace and is not floating.
pub open spec fn on_strip(layout: Seq<(WindowId, i64)>, active: Seq<WindowId>, floating: Seq<WindowId>, i: int) -> bool {
    active.contains(layout[i].0) && !floating.contains(layout[i].0)
}

/// The positions among the first `n` entries that belong on the strip with
/// rounded x-origin `x`, in order.
pub open spec fn column_at(
    layout: Seq<(WindowId, i64)>,
    active: Seq<WindowId>,
    floating: Seq<WindowId>,
    x: i64,
    n: nat,
) -> Seq<usize>
    decreases n,
{
    if n == 0 {
        seq![]
    } else if on_strip(layout, active, floating, n - 1) && layout[n - 1].1 == x {
        column_at(layout, active, floating, x, (n - 1) as nat).push((n - 1) as usize)
    } else {
        column_at(layout, active, floating, x, (n - 1) as nat)
    }
}

/// `cols` are the strip columns of the first `n` entries: ordered left to
/// right by x-origin, one per x-origin that a strip window has, each listing
/// exactly the strip windows at that x-origin.
pub open spec fn strip_columns_of(
    layout: Seq<(WindowId, i64)>,
    active: Seq<WindowId>,
    floating: Seq<WindowId>,
    n: nat,
    cols: Seq<StripColumn>,
) -> bool {
    &&& forall|a: int, b: int| 0 <= a < b < cols.len() ==> cols[a].x < cols[b].x
    &&& forall|c: int| 0 <= c < cols.len() ==> #[trigger] cols[c].members@ == column_at(layout, active, floating, cols[c].x, n)
    &&& forall|c: int| 0 <= c < cols.len() ==> #[trigger] cols[c].members@.len() > 0
    &&& forall|i: int| 0 <= i < n && on_strip(layout, active, floating, i) ==> exists|c: int| 0 <= c < cols.len() && #[trigger] cols[c].x == layout[i].1
}

proof fn lemma_column_at_witness(layout: Seq<(WindowId, i64)>, active: Seq<WindowId>, floating: Seq<WindowId>, x: i64, n: nat)
    requires
        n <= layout.len(),
        column_at(layout, active, floating, x, n).len() > 0,
    ensures
        exists|i: int| 0 <= i < n && on_strip(layout, active, floating, i) && layout[i].1 == x,
    decreases n,
{
    if on_strip(layout, active, floating, n - 1) && layout[n - 1].1 == x {
    } else {
        lemma_column_at_witness(layout, active, floating, x, (n - 1) as nat);
    }
}

fn contains_window(ws: &Vec<WindowId>, w: WindowId) -> (b: bool)
    ensures
        b == ws@.contains(w),
{
    let n = ws.len();
    for k in 0..n
        invariant
            n == ws@.len(),
            forall|m: int| 0 <= m < k ==> ws@[m] != w,
    {
        if ws[k] == w {
            assert(ws@[k as int] == w);
            return true;
        }
    }
    false
}

/// Groups the laid-out windows into the scrolling strip's columns. `layout`
/// gives each window with its rounded x-origin; windows outside the active
/// workspace, and floating windows, are left out. Columns come ordered left
/// to right by x-origin, each listing the positions of its windows in
/// `layout`, in order.
pub fn scrolling_strip_columns(layout: &Vec<(WindowId, i64)>, active_workspace_windows: &Vec<WindowId>, floating: &Vec<WindowId>) -> (cols: Vec<StripColumn>)
    ensures
        strip_columns_of(layout@, active_workspace_windows@, floating@, layout@.len(), cols@),
{
    let ghost lay = layout@;
    let ghost act = active_workspace_windows@;
    let ghost flo = floating@;
    let n = layout.len();
    let mut cols: Vec<StripColumn> = Vec::new();
    for i in 0..n
        invariant
            n == lay.len(),
            lay == layout@,
            act == active_workspace_windows@,
            flo == floating@,
            strip_columns_of(lay, act, flo, i as nat, cols@),
    {
        let (w, x) = layout[i];
        let eligible = contains_window(active_workspace_windows, w) && !contains_window(floating, w);
        assert(eligible == on_strip(lay, act, flo, i as int));
        if eligible {
            let mut p: usize = 0;
            while p < cols.len() && cols[p].x < x
                invariant
                    p <= cols@.len(),
                    forall|c: int| 0 <= c < p ==> #[trigger] cols@[c].x < x,
                decreases cols@.len() - p,
            {
                p = p + 1;
            }
            let ghost old_cols = cols@;
            if p < cols.len() && cols[p].x == x {
                let mut col = cols.remove(p);
                col.members.push(i);
                cols.insert(p, col);
                assert forall|c: int| 0 <= c < cols@.len() implies #[trigger] cols@[c].members@ == column_at(lay, act, flo, cols@[c].x, (i + 1) as nat) by {
                    if c != p {
                        assert(cols@[c] == old_cols[c]);
                        assert(old_cols[c].x != x) by {
                            if c < p {
                            } else {
                                assert(old_cols[p as int].x < old_cols[c].x);
                            }
                        }
                    }
                }
                assert forall|c: int| 0 <= c < cols@.len() implies #[trigger] cols@[c].members@.len() > 0 by {
                    if c != p {
                        assert(cols@[c] == old_cols[c]);
                    }
                }
                assert forall|j: int| 0 <= j < i + 1 && on_strip(lay, act, flo, j) implies exists|c: int| 0 <= c < cols@.len() && #[trigger] cols@[c].x == lay[j].1 by {
                    if j == i {
                        assert(cols@[p as int].x == lay[j].1);
                    } else {
                        let c = choose|c: int| 0 <= c < old_cols.len() && #[trigger] old_cols[c].x == lay[j].1;
                        assert(cols@[c].x == lay[j].1);
                    }
                }
            } else {
                proof {
                    if column_at(lay, act, flo, x, i as nat).len() > 0 {
                        lemma_column_at_witness(lay, act, flo, x, i as nat);
                        let j = choose|j: int| 0 <= j < i && on_strip(lay, act, flo, j) && lay[j].1 == x;
                        let c = choose|c: int| 0 <= c < old_cols.len() && #[trigger] old_cols[c].x == lay[j].1;
                        if c < p {
                        } else if c == p {
                        } else {
                            assert(old_cols[p as int].x < old_cols[c].x);
                        }
                        assert(false);
                    }
                    assert(column_at(lay, act, flo, x, i as nat) =~= Seq::<usize>::empty());
                }
                let mut members: Vec<usize> = Vec::new();
                members.push(i);
                cols.insert(p, StripColumn { x, members });
                assert forall|a: int, b: int| 0 <= a < b < cols@.len() implies cols@[a].x < cols@[b].x by {
                    if b < p {
                        assert(cols@[a] == old_cols[a] && cols@[b] == old_cols[b]);
                    } else if b == p {
                        assert(cols@[a] == old_cols[a]);
                    } else if a < p {
                        assert(cols@[a] == old_cols[a] && cols@[b] == old_cols[b - 1]);
                        assert(old_cols[p as int].x > x);
                    } else if a == p {
                        assert(cols@[b] == old_cols[b - 1]);
                        assert(old_cols[p as int].x > x);
                    } else {
                        assert(cols@[a] == old_cols[a - 1] && cols@[b] == old_cols[b - 1]);
                    }
                }
                assert forall|c: int| 0 <= c < cols@.len() implies #[trigger] cols@[c].members@ == column_at(lay, act, flo, cols@[c].x, (i + 1) as nat) by {
                    if c < p {
                        assert(cols@[c] == old_cols[c]);
                    } else if c > p {
                        assert(cols@[c] == old_cols[c - 1]);
                        assert(old_cols[p as int].x > x);
                    } else {
                        assert(cols@[c].members@ =~= seq![i]);
                    }
                }
                assert forall|c: int| 0 <= c < cols@.len() implies #[trigger] cols@[c].members@.len() > 0 by {
                    if c < p {
                        assert(cols@[c] == old_cols[c]);
                    } else if c > p {
                        assert(cols@[c] == old_cols[c - 1]);
                    }
                }
                assert forall|j: int| 0 <= j < i + 1 && on_strip(lay, act, flo, j) implies exists|c: int| 0 <= c < cols@.len() && #[trigger] cols@[c].x == lay[j].1 by {
                    if j == i {
                        assert(cols@[p as int].x == lay[j].1);
                    } else {
                        let c = choose|c: int| 0 <= c < old_cols.len() && #[trigger] old_cols[c].x == lay[j].1;
                        if c < p {
                            assert(cols@[c].x == lay[j].1);
                        } else {
                            assert(cols@[c + 1].x == lay[j].1);
                        }
                    }
                }
            }
        } else {
            assert forall|c: int| 0 <= c < cols@.len() implies #[trigger] cols@[c].members@ == column_at(lay, act, flo, cols@[c].x, (i + 1) as nat) by {}
        }
    }
    cols
}

/// A tabbed column as the layout engine reports it: its windows in tab order
/// and the selected tab.
#[derive(Clone, Debug)]
pub struct TabGroup {
    pub window_ids: Vec<WindowId>,
    pub selected_index: usize,
}

/// A member as (window, app name, title).
pub open spec fn member_view(m: WindowMember) -> (WindowId, Seq<char>, Seq<char>) {
    (m.window_id, m.label@, m.title@)
}

/// A cell as (hint, members, active, tabbed, focused, visible).
pub open spec fn cell_view(c: ColumnCell) -> (Seq<char>, Seq<(WindowId, Seq<char>, Seq<char>)>, usize, bool, bool, bool) {
    (c.hint@, c.members@.map_values(|m: WindowMember| member_view(m)), c.active, c.tabbed, c.focused, c.visible)
}

/// The first position of `w` in `ws`.
pub open spec fn position_of(ws: Seq<WindowId>, w: WindowId) -> Option<int>
    decreases ws.len(),
{
    if ws.len() == 0 {
        None
    } else if ws[0] == w {
        Some(0)
    } else {
        match position_of(ws.drop_first(), w) {
            Some(k) => Some(k + 1),
            None => None,
        }
    }
}

/// The first group that shares a window with `wins`.
pub open spec fn group_of(groups: Seq<TabGroup>, wins: Seq<WindowId>) -> Option<TabGroup>
    decreases groups.len(),
{
    if groups.len() == 0 {
        None
    } else if exists|k: int| 0 <= k < groups[0].window_ids@.len() && wins.contains(#[trigger] groups[0].window_ids@[k]) {
        Some(groups[0])
    } else {
        group_of(groups.drop_first(), wins)
    }
}

/// A window's (app name, title) as `names` records them; empty texts for a
/// window it does not list.
pub open spec fn resolved_names(names: Seq<WindowMember>, w: WindowId) -> (Seq<char>, Seq<char>)
    decreases names.len(),
{
    if names.len() == 0 {
        (Seq::empty(), Seq::empty())
    } else if names[0].window_id == w {
        (names[0].label@, names[0].title@)
    } else {
        resolved_names(names.drop_first(), w)
    }
}

/// The windows of a strip column.
pub open spec fn column_windows(layout: Seq<(WindowId, i64)>, col: StripColumn) -> Seq<WindowId> {
    col.members@.map_values(|k: usize| layout[k as int].0)
}

/// The smaller of two indices.
pub open spec fn min_index(a: int, b: int) -> int {
    if a <= b { a } else { b }
}

/// The cell for strip column `i`, or `None` when it has no members to show.
/// A column that shares a window with a tabbed group shows the group's tabs
/// (the focused one active when focus is in the column, else the selected
/// tab); otherwise it shows its own windows (the focused one active, else
/// the first). The hint is the `i`-th key.
pub open spec fn column_cell(
    layout: Seq<(WindowId, i64)>,
    cols: Seq<StripColumn>,
    visible: Seq<bool>,
    focused: Option<WindowId>,
    groups: Seq<TabGroup>,
    names: Seq<WindowMember>,
    keys: Seq<char>,
    i: int,
) -> Option<(Seq<char>, Seq<(WindowId, Seq<char>, Seq<char>)>, usize, bool, bool, bool)> {
    let wins = column_windows(layout, cols[i]);
    let focused_here = match focused {
        Some(f) => wins.contains(f),
        None => false,
    };
    let (ids, first_active, tabbed) = match group_of(groups, wins) {
        Some(g) => {
            let count = if g.window_ids@.len() > 1 { g.window_ids@.len() as int } else { 1 };
            let a = if focused_here {
                match position_of(g.window_ids@, focused->0) {
                    Some(k) => k,
                    None => g.selected_index as int,
                }
            } else {
                g.selected_index as int
            };
            (g.window_ids@, min_index(a, count - 1), true)
        },
        None => {
            let a = if focused_here {
                match position_of(wins, focused->0) {
                    Some(k) => k,
                    None => 0,
                }
            } else {
                0
            };
            (wins, a, false)
        },
    };
    let members = ids.map_values(|w: WindowId| (w, resolved_names(names, w).0, resolved_names(names, w).1));
    if members.len() == 0 {
        None
    } else {
        let hint = if i < keys.len() { seq![keys[i]] } else { Seq::empty() };
        Some((hint, members, min_index(first_active, members.len() - 1) as usize, tabbed, focused_here, visible[i]))
    }
}

proof fn lemma_position_of(ws: Seq<WindowId>, w: WindowId)
    ensures
        position_of(ws, w) matches Some(k) ==> 0 <= k < ws.len() && ws[k] == w,
        ws.contains(w) ==> position_of(ws, w) is Some,
    decreases ws.len(),
{
    if ws.len() > 0 {
        lemma_position_of(ws.drop_first(), w);
        if ws.contains(w) && ws[0] != w {
            let j = choose|j: int| 0 <= j < ws.len() && ws[j] == w;
            assert(ws.drop_first()[j - 1] == w);
        }
    }
}

proof fn lemma_group_of(groups: Seq<TabGroup>, wins: Seq<WindowId>)
    ensures
        group_of(groups, wins) matches Some(g) ==> g.window_ids@.len() > 0,
    decreases groups.len(),
{
    if groups.len() > 0 {
        lemma_group_of(groups.drop_first(), wins);
    }
}

/// The focused window, when it is in a column, is the active window of that
/// column's cell whenever the cell lists it: in a plain column (a stack)
/// always, in a tabbed column when the tab group holds it. The cell exists,
/// and its active index is within its members.
pub proof fn law_focused_window_is_active(
    layout: Seq<(WindowId, i64)>,
    cols: Seq<StripColumn>,
    visible: Seq<bool>,
    f: WindowId,
    groups: Seq<TabGroup>,
    names: Seq<WindowMember>,
    keys: Seq<char>,
    i: int,
)
    requires
        0 <= i < cols.len(),
        column_windows(layout, cols[i]).contains(f),
    ensures
        column_cell(layout, cols, visible, Some(f), groups, names, keys, i) matches Some(c)
            && c.2 < c.1.len()
            && ((exists|k: int| 0 <= k < c.1.len() && (#[trigger] c.1[k]).0 == f) ==> c.1[c.2 as int].0 == f),
        group_of(groups, column_windows(layout, cols[i])) is None ==> (column_cell(layout, cols, visible, Some(f),
            groups, names, keys, i) matches Some(c) && c.1.len() == cols[i].members@.len() && !c.3
            && c.1[c.2 as int].0 == f),
{
    let wins = column_windows(layout, cols[i]);
    lemma_group_of(groups, wins);
    let hint = if i < keys.len() { seq![keys[i]] } else { Seq::<char>::empty() };
    let (ids, first_active, tabbed) = match group_of(groups, wins) {
        Some(g) => {
            let count = if g.window_ids@.len() > 1 { g.window_ids@.len() as int } else { 1 };
            let a = match position_of(g.window_ids@, f) {
                Some(k) => k,
                None => g.selected_index as int,
            };
            (g.window_ids@, min_index(a, count - 1), true)
        },
        None => {
            let a = match position_of(wins, f) {
                Some(k) => k,
                None => 0,
            };
            (wins, a, false)
        },
    };
    lemma_position_of(ids, f);
    let members = ids.map_values(|w: WindowId| (w, resolved_names(names, w).0, resolved_names(names, w).1));
    assert(members.len() == ids.len());
    assert(ids.len() > 0) by {
        let m = choose|m: int| 0 <= m < wins.len() && wins[m] == f;
        assert(wins.len() > 0);
    }
    let act = min_index(first_active, members.len() - 1);
    assert(0 <= act < members.len());
    assert(ids.len() <= usize::MAX) by {
        match group_of(groups, wins) {
            Some(g) => assert(g.window_ids@.len() == g.window_ids.len()),
            None => assert(cols[i].members@.len() == cols[i].members.len()),
        }
    }
    assert(act as usize == act);
    assert(column_cell(layout, cols, visible, Some(f), groups, names, keys, i)
        == Some((hint, members, act as usize, tabbed, true, visible[i])));
    if exists|k: int| 0 <= k < members.len() && (#[trigger] members[k]).0 == f {
        let k = choose|k: int| 0 <= k < members.len() && (#[trigger] members[k]).0 == f;
        assert(ids[k] == f);
        assert(ids.contains(f));
        let p = position_of(ids, f)->0;
        assert(members[p].0 == ids[p]);
    }
    if group_of(groups, wins) is None {
        assert(wins.contains(f));
        assert(members[act].0 == ids[act]);
    }
}

/// The cells of the first `n` strip columns, skipping columns without members.
pub open spec fn column_cells(
    layout: Seq<(WindowId, i64)>,
    cols: Seq<StripColumn>,
    visible: Seq<bool>,
    focused: Option<WindowId>,
    groups: Seq<TabGroup>,
    names: Seq<WindowMember>,
    keys: Seq<char>,
    n: nat,
) -> Seq<(Seq<char>, Seq<(WindowId, Seq<char>, Seq<char>)>, usize, bool, bool, bool)>
    decreases n,
{
    if n == 0 {
        seq![]
    } else {
        let prev = column_cells(layout, cols, visible, focused, groups, names, keys, (n - 1) as nat);
        match column_cell(layout, cols, visible, focused, groups, names, keys, n - 1) {
            Some(c) => prev.push(c),
            None => prev,
        }
    }
}

fn position_in(ws: &Vec<WindowId>, w: WindowId) -> (r: Option<usize>)
    ensures
        match r {
            Some(k) => position_of(ws@, w) == Some(k as int),
            None => position_of(ws@, w) is None,
        },
{
    let n = ws.len();
    assert(ws@.skip(0) =~= ws@);
    for k in 0..n
        invariant
            n == ws@.len(),
            position_of(ws@, w) == (match position_of(ws@.skip(k as int), w) {
                Some(j) => Some(j + k),
                None => None,
            }),
    {
        let ghost rest = ws@.skip(k as int);
        assert(rest[0] == ws@[k as int]);
        assert(rest.drop_first() =~= ws@.skip(k + 1));
        if ws[k] == w {
            return Some(k);
        }
    }
    assert(ws@.skip(n as int).len() == 0);
    None
}

fn shares_window(g: &TabGroup, wins: &Vec<WindowId>) -> (b: bool)
    ensures
        b == exists|k: int| 0 <= k < g.window_ids@.len() && wins@.contains(#[trigger] g.window_ids@[k]),
{
    let n = g.window_ids.len();
    for k in 0..n
        invariant
            n == g.window_ids@.len(),
            forall|m: int| 0 <= m < k ==> !wins@.contains(#[trigger] g.window_ids@[m]),
    {
        if contains_window(wins, g.window_ids[k]) {
            return true;
        }
    }
    false
}

fn find_group<'a>(groups: &'a Vec<TabGroup>, wins: &Vec<WindowId>) -> (r: Option<&'a TabGroup>)
    ensures
        match r {
            Some(g) => group_of(groups@, wins@) == Some(*g),
            None => group_of(groups@, wins@) is None,
        },
{
    let n = groups.len();
    assert(groups@.skip(0) =~= groups@);
    for k in 0..n
        invariant
            n == groups@.len(),
            group_of(groups@, wins@) == group_of(groups@.skip(k as int), wins@),
    {
        let ghost rest = groups@.skip(k as int);
        assert(rest[0] == groups@[k as int]);
        assert(rest.drop_first() =~= groups@.skip(k + 1));
        if shares_window(&groups[k], wins) {
            return Some(&groups[k]);
        }
    }
    assert(groups@.skip(n as int).len() == 0);
    None
}

fn resolve_names(names: &Vec<WindowMember>, w: WindowId) -> (r: WindowMember)
    ensures
        r.window_id == w,
        (r.label@, r.title@) == resolved_names(names@, w),
{
    let n = names.len();
    assert(names@.skip(0) =~= names@);
    for k in 0..n
        invariant
            n == names@.len(),
            resolved_names(names@, w) == resolved_names(names@.skip(k as int), w),
    {
        let ghost rest = names@.skip(k as int);
        assert(rest[0] == names@[k as int]);
        assert(rest.drop_first() =~= names@.skip(k + 1));
        if names[k].window_id == w {
            return WindowMember { window_id: w, label: names[k].label.clone(), title: names[k].title.clone() };
        }
    }
    assert(names@.skip(n as int).len() == 0);
    WindowMember { window_id: w, label: String::new(), title: String::new() }
}

fn members_of(ids: &Vec<WindowId>, names: &Vec<WindowMember>) -> (r: Vec<WindowMember>)
    ensures
        r@.map_values(|m: WindowMember| member_view(m))
            == ids@.map_values(|w: WindowId| (w, resolved_names(names@, w).0, resolved_names(names@, w).1)),
{
    let n = ids.len();
    let mut r: Vec<WindowMember> = Vec::new();
    for k in 0..n
        invariant
            n == ids@.len(),
            r@.len() == k,
            forall|m: int| 0 <= m < k ==> #[trigger] member_view(r@[m])
                == (ids@[m], resolved_names(names@, ids@[m]).0, resolved_names(names@, ids@[m]).1),
    {
        r.push(resolve_names(names, ids[k]));
    }
    assert(r@.map_values(|m: WindowMember| member_view(m))
        =~= ids@.map_values(|w: WindowId| (w, resolved_names(names@, w).0, resolved_names(names@, w).1)));
    r
}

fn copy_windows(ws: &Vec<WindowId>) -> (r: Vec<WindowId>)
    ensures
        r@ == ws@,
{
    let n = ws.len();
    let mut r: Vec<WindowId> = Vec::new();
    for k in 0..n
        invariant
            n == ws@.len(),
            r@ == ws@.take(k as int),
    {
        r.push(ws[k]);
        assert(ws@.take(k + 1) =~= ws@.take(k as int).push(ws@[k as int]));
    }
    assert(ws@.take(n as int) =~= ws@);
    r
}

fn windows_of_column(layout: &Vec<(WindowId, i64)>, col: &StripColumn) -> (r: Vec<WindowId>)
    requires
        forall|k: int| 0 <= k < col.members@.len() ==> #[trigger] col.members@[k] < layout@.len(),
    ensures
        r@ == column_windows(layout@, *col),
{
    let n = col.members.len();
    let mut r: Vec<WindowId> = Vec::new();
    for k in 0..n
        invariant
            n == col.members@.len(),
            forall|k: int| 0 <= k < col.members@.len() ==> #[trigger] col.members@[k] < layout@.len(),
            r@ == column_windows(layout@, *col).take(k as int),
    {
        let idx = col.members[k];
        r.push(layout[idx].0);
        assert(column_windows(layout@, *col).take(k + 1) =~= column_windows(layout@, *col).take(k as int).push(layout@[idx as int].0));
    }
    assert(column_windows(layout@, *col).take(n as int) =~= column_windows(layout@, *col));
    r
}

fn cell_of_column(
    layout: &Vec<(WindowId, i64)>,
    cols: &Vec<StripColumn>,
    visible: &Vec<bool>,
    focused: Option<WindowId>,
    groups: &Vec<TabGroup>,
    names: &Vec<WindowMember>,
    keys: &Vec<char>,
    i: usize,
) -> (r: Option<ColumnCell>)
    requires
        i < cols@.len(),
        visible@.len() == cols@.len(),
        forall|k: int| 0 <= k < cols@[i as int].members@.len() ==> #[trigger] cols@[i as int].members@[k] < layout@.len(),
    ensures
        match r {
            Some(c) => column_cell(layout@, cols@, visible@, focused, groups@, names@, keys@, i as int) == Some(cell_view(c)),
            None => column_cell(layout@, cols@, visible@, focused, groups@, names@, keys@, i as int) is None,
        },
{
    let wins = windows_of_column(layout, &cols[i]);
    let focused_here = match focused {
        Some(f) => contains_window(&wins, f),
        None => false,
    };
    let (ids, first_active, tabbed) = match find_group(groups, &wins) {
        Some(g) => {
            let count = if g.window_ids.len() > 1 { g.window_ids.len() } else { 1 };
            let a = if focused_here {
                match position_in(&g.window_ids, focused.unwrap()) {
                    Some(k) => k,
                    None => g.selected_index,
                }
            } else {
                g.selected_index
            };
            (copy_windows(&g.window_ids), if a <= count - 1 { a } else { count - 1 }, true)
        },
        None => {
            let a = if focused_here {
                match position_in(&wins, focused.unwrap()) {
                    Some(k) => k,
                    None => 0,
                }
            } else {
                0
            };
            (copy_windows(&wins), a, false)
        },
    };
    let members = members_of(&ids, names);
    if members.len() == 0 {
        return None;
    }
    let active = if first_active <= members.len() - 1 { first_active } else { members.len() - 1 };
    let mut hint = String::new();
    if i < keys.len() {
        crate::text::push_char(&mut hint, keys[i]);
    }
    let cell = ColumnCell { hint, members, active, tabbed, focused: focused_here, visible: visible[i] };
    proof {
        let ms = cell.members@.map_values(|m: WindowMember| member_view(m));
        assert(ms.len() == cell.members@.len());
        if i < keys@.len() {
            assert(cell.hint@ =~= seq![keys@[i as int]]);
        } else {
            assert(cell.hint@ =~= Seq::<char>::empty());
        }
    }
    Some(cell)
}

/// The hint-bar cells of the strip columns `cols` (as
/// `scrolling_strip_columns` groups `layout`): `visible[i]` tells whether
/// column `i` is on screen, `focused` is the focused window, `groups` the
/// tabbed groups, `names` the app name and title of each window, and the
/// `i`-th character of `keys` is column `i`'s hint.
pub fn build_hints_bar_cells(
    layout: &Vec<(WindowId, i64)>,
    cols: &Vec<StripColumn>,
    visible: &Vec<bool>,
    focused: Option<WindowId>,
    groups: &Vec<TabGroup>,
    names: &Vec<WindowMember>,
    keys: &str,
) -> (cells: Vec<ColumnCell>)
    requires
        visible@.len() == cols@.len(),
        forall|c: int, k: int| 0 <= c < cols@.len() && 0 <= k < cols@[c].members@.len() ==> #[trigger] cols@[c].members@[k] < layout@.len(),
    ensures
        cells@.map_values(|c: ColumnCell| cell_view(c))
            == column_cells(layout@, cols@, visible@, focused, groups@, names@, keys@, cols@.len()),
{
    let key_chars = crate::text::chars_of(keys);
    let n = cols.len();
    let mut cells: Vec<ColumnCell> = Vec::new();
    for i in 0..n
        invariant
            n == cols@.len(),
            visible@.len() == cols@.len(),
            key_chars@ == keys@,
            forall|c: int, k: int| 0 <= c < cols@.len() && 0 <= k < cols@[c].members@.len() ==> #[trigger] cols@[c].members@[k] < layout@.len(),
            cells@.map_values(|c: ColumnCell| cell_view(c))
                == column_cells(layout@, cols@, visible@, focused, groups@, names@, keys@, i as nat),
    {
        let ghost before = cells@;
        match cell_of_column(layout, cols, visible, focused, groups, names, &key_chars, i) {
            Some(c) => {
                cells.push(c);
                assert(cells@.map_values(|c: ColumnCell| cell_view(c)) =~= before.map_values(|c: ColumnCell| cell_view(c)).push(cell_view(c)));
            },
            None => {},
        }
    }
    cells
}

} // verus!
