//! What the reactor decides about the hint bar's placement before anything
//! is measured: which workspaces get a pill, whether the chip row may
//! overflow, and which screen edges an overflowing bar reserves.
use vstd::prelude::*;
use crate::hints_bar::WorkspaceCell;
use crate::hints::ColumnCell;
use crate::number::{lt, lt_bits, ONE_BITS};
use crate::settings::{HintsBarOverflow, HintsBarPlacement, HintsBarPosition, HintsBarSettings};
use crate::text::{decimal, push_decimal};

verus! {

/// The overview rail: one pill per workspace that has windows, labelled with
/// its one-based number, in the order given. Each summary is a workspace's
/// index, whether it is active, and the processes of its windows.
pub open spec fn workspace_pills(s: Seq<(usize, bool, Seq<i32>)>) -> Seq<(Seq<char>, usize, bool, Seq<i32>)>
    decreases s.len(),
{
    if s.len() == 0 {
        Seq::empty()
    } else {
        let t = s.last();
        let rest = workspace_pills(s.drop_last());
        if t.2.len() > 0 {
            rest.push((decimal((t.0 + 1) as nat), t.0, t.1, t.2))
        } else {
            rest
        }
    }
}

pub open spec fn pill_view(w: WorkspaceCell) -> (Seq<char>, usize, bool, Seq<i32>) {
    (w.label@, w.index, w.active, w.pids@)
}

pub open spec fn summary_view(t: (usize, bool, Vec<i32>)) -> (usize, bool, Seq<i32>) {
    (t.0, t.1, t.2@)
}

fn copy_pids(v: &Vec<i32>) -> (r: Vec<i32>)
    ensures
        r@ == v@,
{
    let mut r: Vec<i32> = Vec::new();
    for k in 0..v.len()
        invariant
            r@ == v@.take(k as int),
    {
        r.push(v[k]);
        assert(v@.take(k + 1) == v@.take(k as int).push(v@[k as int]));
    }
    assert(v@.take(v@.len() as int) == v@);
    r
}

/// The workspace pills for the bar's overview rail.
pub fn workspace_cells(summaries: &Vec<(usize, bool, Vec<i32>)>) -> (cells: Vec<WorkspaceCell>)
    requires
        forall|i: int| 0 <= i < summaries@.len() ==> (#[trigger] summaries@[i]).0 < usize::MAX,
    ensures
        cells@.map_values(|w: WorkspaceCell| pill_view(w))
            == workspace_pills(summaries@.map_values(|t: (usize, bool, Vec<i32>)| summary_view(t))),
{
    let ghost sv = summaries@.map_values(|t: (usize, bool, Vec<i32>)| summary_view(t));
    let mut cells: Vec<WorkspaceCell> = Vec::new();
    for k in 0..summaries.len()
        invariant
            sv == summaries@.map_values(|t: (usize, bool, Vec<i32>)| summary_view(t)),
            forall|i: int| 0 <= i < summaries@.len() ==> (#[trigger] summaries@[i]).0 < usize::MAX,
            cells@.map_values(|w: WorkspaceCell| pill_view(w)) == workspace_pills(sv.take(k as int)),
    {
        assert(sv.take(k + 1).drop_last() == sv.take(k as int));
        let (idx, active, pids) = &summaries[k];
        if pids.len() > 0 {
            let mut label = String::new();
            push_decimal(&mut label, *idx + 1);
            let cell = WorkspaceCell { label, index: *idx, active: *active, pids: copy_pids(pids) };
            let ghost before = cells@;
            cells.push(cell);
            assert(cells@.map_values(|w: WorkspaceCell| pill_view(w))
                == before.map_values(|w: WorkspaceCell| pill_view(w)).push(pill_view(cell)));
        }
    }
    assert(sv.take(summaries@.len() as int) == sv);
    cells
}

/// Whether the chip row is measured against its width budget at all: there
/// are columns, the budget is under the full width, the mode is not
/// `scale`, and the bar lies along a horizontal edge.
pub open spec fn overflow_applies_to(hb: HintsBarSettings, columns: nat) -> bool {
    columns > 0 && lt_bits(hb.max_width_ratio.bits, ONE_BITS) && hb.overflow != HintsBarOverflow::Scale
        && hb.position != HintsBarPosition::Left && hb.position != HintsBarPosition::Right
}

/// See [`overflow_applies_to`].
pub fn overflow_applies(hb: &HintsBarSettings, columns: usize) -> (r: bool)
    ensures
        r == overflow_applies_to(*hb, columns as nat),
{
    columns > 0 && lt(hb.max_width_ratio.bits, ONE_BITS) && hb.overflow != HintsBarOverflow::Scale
        && !hb.position.is_vertical()
}

/// The edges (top, bottom) that get an extra strip of one bar height while
/// the bar overflows under `reserve` placement: `row` grows the bar itself
/// (on its own edge), `bar` adds a second bar on the opposite edge.
pub open spec fn reserve_edges_of(hb: HintsBarSettings, overflowing: bool) -> (bool, bool) {
    let reserving = hb.placement == HintsBarPlacement::Reserve
        && hb.position != HintsBarPosition::Left && hb.position != HintsBarPosition::Right;
    if reserving && overflowing {
        match hb.overflow {
            HintsBarOverflow::Row => if hb.position == HintsBarPosition::Top { (true, false) } else { (false, true) },
            HintsBarOverflow::Bar => if hb.position == HintsBarPosition::Top { (false, true) } else { (true, false) },
            HintsBarOverflow::Scale => (false, false),
        }
    } else {
        (false, false)
    }
}

/// See [`reserve_edges_of`].
pub fn reserve_edges(hb: &HintsBarSettings, overflowing: bool) -> (r: (bool, bool))
    ensures
        r == reserve_edges_of(*hb, overflowing),
{
    let reserving = hb.placement == HintsBarPlacement::Reserve && !hb.position.is_vertical();
    if reserving && overflowing {
        let top = hb.position == HintsBarPosition::Top;
        match hb.overflow {
            HintsBarOverflow::Row => (top, !top),
            HintsBarOverflow::Bar => (!top, top),
            HintsBarOverflow::Scale => (false, false),
        }
    } else {
        (false, false)
    }
}

/// The first and last visible columns: the run the bar's viewport backing
/// brackets (`None` when no column is visible).
pub fn visible_run(visible: &Vec<bool>) -> (r: Option<(usize, usize)>)
    ensures
        match r {
            Some((first, last)) => {
                &&& first <= last < visible@.len()
                &&& visible@[first as int] && visible@[last as int]
                &&& forall|j: int| 0 <= j < first ==> !visible@[j]
                &&& forall|j: int| last < j < visible@.len() ==> !visible@[j]
            },
            None => forall|j: int| 0 <= j < visible@.len() ==> !visible@[j],
        },
{
    let n = visible.len();
    let mut first: usize = 0;
    while first < n && !visible[first]
        invariant
            n == visible@.len(),
            first <= n,
            forall|j: int| 0 <= j < first ==> !visible@[j],
        decreases n - first,
    {
        first = first + 1;
    }
    if first == n {
        return None;
    }
    let mut last: usize = n - 1;
    while last > first && !visible[last]
        invariant
            n == visible@.len(),
            first < n,
            visible@[first as int],
            first <= last < n,
            forall|j: int| last < j < n ==> !visible@[j],
        decreases last,
    {
        last = last - 1;
    }
    Some((first, last))
}

/// A column whose detail overlay may show: focused, with several windows.
pub open spec fn detail_worthy(c: ColumnCell) -> bool {
    c.focused && c.members@.len() > 1
}

/// The column whose detail overlay is shown: the first focused column with
/// more than one window.
pub fn detail_column(cells: &Vec<ColumnCell>) -> (r: Option<usize>)
    ensures
        match r {
            Some(i) => i < cells@.len() && detail_worthy(cells@[i as int])
                && forall|j: int| 0 <= j < i ==> !detail_worthy(#[trigger] cells@[j]),
            None => forall|j: int| 0 <= j < cells@.len() ==> !detail_worthy(#[trigger] cells@[j]),
        },
{
    for k in 0..cells.len()
        invariant
            forall|j: int| 0 <= j < k ==> !detail_worthy(#[trigger] cells@[j]),
    {
        if cells[k].focused && cells[k].members.len() > 1 {
            return Some(k);
        }
    }
    None
}

} // verus!
