//! The dashboard's state: the latest snapshots, the rows shown for them, the
//! selected row and the scrollbar that follows it.
use vstd::prelude::*;
use crate::rates::{cpu_centi, derive_row, mem_mb, DerivedRow};
use crate::text::{dec_str, decimal_string, mb_str, mb_string, percent_str, percent_string};
use crate::vms::VmMetrics;

verus! {

/// Height of one table row in terminal lines.
pub const ITEM_HEIGHT: usize = 4;

/// The most rows whose scroll positions fit in a `usize`.
pub const MAX_ROWS: usize = usize::MAX / ITEM_HEIGHT;

/// The cells of one table row, as text.
pub struct TableData {
    pub id: String,
    pub name: String,
    pub cpu_usage: String,
    pub mem_usage: String,
    pub status: String,
}

/// The label of a VM's run state.
pub open spec fn status_str(running: bool) -> Seq<char> {
    if running {
        "on"@
    } else {
        "off"@
    }
}

/// `t` shows the row `r`.
pub open spec fn shows_row(r: DerivedRow, t: TableData) -> bool {
    &&& t.id@ == dec_str(r.id as nat)
    &&& t.name@ == r.name@
    &&& t.cpu_usage@ == percent_str(r.cpu_centi as nat)
    &&& t.mem_usage@ == mb_str(r.mem_mb as nat)
    &&& t.status@ == status_str(r.running)
}

/// `t` shows the snapshot `cur`, measured against the snapshot `prev` of the
/// tick before, if there was one.
pub open spec fn shows(prev: Option<VmMetrics>, cur: VmMetrics, t: TableData) -> bool {
    &&& t.id@ == dec_str(cur.id as nat)
    &&& t.name@ == cur.name@
    &&& t.cpu_usage@ == percent_str(cpu_centi(prev, cur))
    &&& t.mem_usage@ == mb_str(mem_mb(cur))
    &&& t.status@ == status_str(cur.status)
}

impl TableData {
    /// Formats a derived row for the table.
    pub fn from_row(r: &DerivedRow) -> (t: TableData)
        ensures
            shows_row(*r, t),
    {
        let status = if r.running {
            String::from_str("on")
        } else {
            String::from_str("off")
        };
        TableData {
            id: decimal_string(r.id as u128),
            name: r.name.clone(),
            cpu_usage: percent_string(r.cpu_centi),
            mem_usage: mb_string(r.mem_mb),
            status,
        }
    }

    /// The cells in column order.
    pub fn ref_array(&self) -> (r: [&String; 5])
        ensures
            r@[0]@ == self.id@,
            r@[1]@ == self.name@,
            r@[2]@ == self.cpu_usage@,
            r@[3]@ == self.mem_usage@,
            r@[4]@ == self.status@,
    {
        [&self.id, &self.name, &self.cpu_usage, &self.mem_usage, &self.status]
    }

    pub fn id(&self) -> (r: &str)
        ensures
            r@ == self.id@,
    {
        self.id.as_str()
    }

    pub fn name(&self) -> (r: &str)
        ensures
            r@ == self.name@,
    {
        self.name.as_str()
    }

    pub fn cpu_usage(&self) -> (r: &str)
        ensures
            r@ == self.cpu_usage@,
    {
        self.cpu_usage.as_str()
    }

    pub fn mem_usage(&self) -> (r: &str)
        ensures
            r@ == self.mem_usage@,
    {
        self.mem_usage.as_str()
    }

    pub fn status(&self) -> (r: &str)
        ensures
            r@ == self.status@,
    {
        self.status.as_str()
    }
}

/// The number of terminal columns that a text takes.
pub uninterp spec fn display_width(s: Seq<char>) -> usize;

/// Relies on `unicode_width::UnicodeWidthStr::width` for the columns a text
/// takes; they depend on its characters alone, and an empty text takes none.
#[verifier::external_body]
fn text_width(s: &str) -> (r: usize)
    ensures
        r == display_width(s@),
        s@.len() == 0 ==> r == 0,
{
    unicode_width::UnicodeWidthStr::width(s)
}

/// The largest of `ws`, or zero when there is none.
pub open spec fn max_of(ws: Seq<usize>) -> usize
    decreases ws.len(),
{
    if ws.len() == 0 {
        0
    } else {
        let m = max_of(ws.drop_last());
        if ws.last() > m {
            ws.last()
        } else {
            m
        }
    }
}

/// The largest of `ws`, or zero when there is none, cut to 16 bits.
pub fn widest(ws: &Vec<usize>) -> (r: u16)
    ensures
        r == max_of(ws@) as u16,
{
    let mut m: usize = 0;
    let mut i: usize = 0;
    while i < ws.len()
        invariant
            0 <= i <= ws.len(),
            m == max_of(ws@.subrange(0, i as int)),
        decreases ws.len() - i,
    {
        proof {
            assert(ws@.subrange(0, i as int + 1).drop_last() =~= ws@.subrange(0, i as int));
        }
        if ws[i] > m {
            m = ws[i];
        }
        i = i + 1;
    }
    proof {
        assert(ws@.subrange(0, ws@.len() as int) =~= ws@);
    }
    #[verifier::truncate]
    (m as u16)
}

/// The width of each column: the widest of its cells, cut to 16 bits.
pub open spec fn column_lens(items: Seq<TableData>) -> (u16, u16, u16, u16, u16) {
    (
        max_of(items.map_values(|t: TableData| display_width(t.id@))) as u16,
        max_of(items.map_values(|t: TableData| display_width(t.name@))) as u16,
        max_of(items.map_values(|t: TableData| display_width(t.cpu_usage@))) as u16,
        max_of(items.map_values(|t: TableData| display_width(t.mem_usage@))) as u16,
        max_of(items.map_values(|t: TableData| display_width(t.status@))) as u16,
    )
}

/// Measures each column of the table.
pub fn constraint_len_calculator(items: &[TableData]) -> (r: (u16, u16, u16, u16, u16))
    ensures
        r == column_lens(items@),
{
    let mut ids: Vec<usize> = Vec::new();
    let mut names: Vec<usize> = Vec::new();
    let mut cpus: Vec<usize> = Vec::new();
    let mut mems: Vec<usize> = Vec::new();
    let mut states: Vec<usize> = Vec::new();
    let mut i: usize = 0;
    while i < items.len()
        invariant
            0 <= i <= items@.len(),
            ids@ =~= items@.subrange(0, i as int).map_values(|t: TableData| display_width(t.id@)),
            names@ =~= items@.subrange(0, i as int).map_values(|t: TableData| display_width(t.name@)),
            cpus@ =~= items@.subrange(0, i as int).map_values(
                |t: TableData| display_width(t.cpu_usage@),
            ),
            mems@ =~= items@.subrange(0, i as int).map_values(
                |t: TableData| display_width(t.mem_usage@),
            ),
            states@ =~= items@.subrange(0, i as int).map_values(
                |t: TableData| display_width(t.status@),
            ),
        decreases items@.len() - i,
    {
        let t = &items[i];
        ids.push(text_width(t.id.as_str()));
        names.push(text_width(t.name.as_str()));
        cpus.push(text_width(t.cpu_usage.as_str()));
        mems.push(text_width(t.mem_usage.as_str()));
        states.push(text_width(t.status.as_str()));
        i = i + 1;
    }
    proof {
        assert(items@.subrange(0, items@.len() as int) =~= items@);
    }
    (widest(&ids), widest(&names), widest(&cpus), widest(&mems), widest(&states))
}


/// The first position of `name` in `names`, if it is there.
pub open spec fn first_index(names: Seq<Seq<char>>, name: Seq<char>) -> Option<int>
    decreases names.len(),
{
    if names.len() == 0 {
        None
    } else if names[0] == name {
        Some(0)
    } else {
        match first_index(names.drop_first(), name) {
            Some(j) => Some(j + 1),
            None => None,
        }
    }
}

proof fn lemma_first_index(names: Seq<Seq<char>>, name: Seq<char>, i: int)
    requires
        0 <= i <= names.len(),
        forall|k: int| 0 <= k < i ==> names[k] != name,
    ensures
        i < names.len() && names[i] == name ==> first_index(names, name) == Some(i),
        i == names.len() ==> first_index(names, name) is None,
    decreases i,
{
    if i > 0 {
        let rest = names.drop_first();
        assert forall|k: int| 0 <= k < i - 1 implies rest[k] != name by {
            assert(rest[k] == names[k + 1]);
        }
        lemma_first_index(rest, name, i - 1);
    }
}

/// The VM names of a list of snapshots.
pub open spec fn metric_names(ms: Seq<VmMetrics>) -> Seq<Seq<char>> {
    ms.map_values(|m: VmMetrics| m.name@)
}

/// The VM names of a list of rows.
pub open spec fn row_names(ts: Seq<TableData>) -> Seq<Seq<char>> {
    ts.map_values(|t: TableData| t.name@)
}

/// The snapshot of the VM named `name` in `ms`, if there is one.
pub open spec fn previous_for(ms: Seq<VmMetrics>, name: Seq<char>) -> Option<VmMetrics> {
    match first_index(metric_names(ms), name) {
        Some(j) => Some(ms[j]),
        None => None,
    }
}

/// The position of the VM named `name` in `ms`, if it is there.
pub fn find_metrics(ms: &Vec<VmMetrics>, name: &String) -> (r: Option<usize>)
    ensures
        r matches Some(j) ==> j < ms@.len() && first_index(metric_names(ms@), name@) == Some(j as int),
        r is None ==> first_index(metric_names(ms@), name@) is None,
{
    let mut i: usize = 0;
    while i < ms.len()
        invariant
            0 <= i <= ms@.len(),
            forall|k: int| 0 <= k < i ==> metric_names(ms@)[k] != name@,
        decreases ms@.len() - i,
    {
        if ms[i].name.eq(name) {
            proof {
                lemma_first_index(metric_names(ms@), name@, i as int);
            }
            return Some(i);
        }
        i = i + 1;
    }
    proof {
        lemma_first_index(metric_names(ms@), name@, i as int);
    }
    None
}

/// The position of the row named `name` in `ts`, if it is there.
pub fn find_row(ts: &Vec<TableData>, name: &String) -> (r: Option<usize>)
    ensures
        r matches Some(j) ==> j < ts@.len() && first_index(row_names(ts@), name@) == Some(j as int),
        r is None ==> first_index(row_names(ts@), name@) is None,
{
    let mut i: usize = 0;
    while i < ts.len()
        invariant
            0 <= i <= ts@.len(),
            forall|k: int| 0 <= k < i ==> row_names(ts@)[k] != name@,
        decreases ts@.len() - i,
    {
        if ts[i].name.eq(name) {
            proof {
                lemma_first_index(row_names(ts@), name@, i as int);
            }
            return Some(i);
        }
        i = i + 1;
    }
    proof {
        lemma_first_index(row_names(ts@), name@, i as int);
    }
    None
}


/// The dashboard: the latest snapshot of each VM, the rows shown for them,
/// the widths of the table's columns, the selected row and the scrollbar.
///
/// `scroll_position` is the scrollbar's position and `scroll_len` its range,
/// both in terminal lines.
pub struct App {
    pub running: bool,
    pub metrics: Vec<VmMetrics>,
    pub table_data: Vec<TableData>,
    pub max_item_lens: (u16, u16, u16, u16, u16),
    pub selected: Option<usize>,
    pub scroll_position: usize,
    pub scroll_len: usize,
}

/// The scrollbar position that follows a selection.
pub open spec fn scroll_position_of(sel: Option<usize>) -> int {
    match sel {
        Some(i) => i * ITEM_HEIGHT,
        None => 0,
    }
}

/// The scrollbar range over `n` rows.
pub open spec fn scroll_len_of(n: int) -> int {
    if n <= 1 {
        0
    } else {
        (n - 1) * ITEM_HEIGHT
    }
}

/// The selection after the rows `old_rows`, of which `old_sel` was selected,
/// are replaced by `new_rows`: the same VM where it is still listed, else the
/// same position where it still exists, else the last row; nothing in an
/// empty list, and the first row where nothing was selected.
pub open spec fn reselect(old_sel: Option<usize>, old_rows: Seq<TableData>, new_rows: Seq<TableData>) -> Option<usize> {
    if new_rows.len() == 0 {
        None
    } else {
        match old_sel {
            Some(i) => if i < old_rows.len() {
                match first_index(row_names(new_rows), old_rows[i as int].name@) {
                    Some(j) => Some(j as usize),
                    None => if i < new_rows.len() {
                        Some(i)
                    } else {
                        Some((new_rows.len() - 1) as usize)
                    },
                }
            } else {
                Some(0)
            },
            None => Some(0),
        }
    }
}

/// The selection one row down, from the last row back to the first.
pub open spec fn next_of(sel: Option<usize>, n: int) -> Option<usize> {
    match sel {
        Some(i) => if i + 1 >= n {
            Some(0)
        } else {
            Some((i + 1) as usize)
        },
        None => None,
    }
}

/// The selection one row up, from the first row round to the last.
pub open spec fn prev_of(sel: Option<usize>, n: int) -> Option<usize> {
    match sel {
        Some(i) => if i == 0 {
            Some((n - 1) as usize)
        } else {
            Some((i - 1) as usize)
        },
        None => None,
    }
}

impl App {
    /// A row is selected exactly when there is one, and the scrollbar
    /// follows the selection.
    pub open spec fn wf(&self) -> bool {
        &&& self.table_data@.len() <= MAX_ROWS
        &&& (self.table_data@.len() == 0 <==> self.selected is None)
        &&& (self.selected matches Some(i) ==> i < self.table_data@.len())
        &&& self.scroll_position == scroll_position_of(self.selected)
        &&& self.scroll_len == scroll_len_of(self.table_data@.len() as int)
    }

    fn select(&mut self, sel: Option<usize>)
        requires
            old(self).table_data@.len() <= MAX_ROWS,
            old(self).scroll_len == scroll_len_of(old(self).table_data@.len() as int),
            old(self).table_data@.len() == 0 <==> sel is None,
            sel matches Some(i) ==> i < old(self).table_data@.len(),
        ensures
            final(self).wf(),
            final(self).selected == sel,
            final(self).running == old(self).running,
            final(self).metrics == old(self).metrics,
            final(self).table_data == old(self).table_data,
            final(self).max_item_lens == old(self).max_item_lens,
    {
        self.selected = sel;
        self.scroll_position = match sel {
            Some(i) => i * ITEM_HEIGHT,
            None => 0,
        };
    }

    /// Replaces the rows, keeping the selection on the same VM where it can.
    pub fn ingest(&mut self, rows: Vec<TableData>)
        requires
            old(self).wf(),
            rows@.len() <= MAX_ROWS,
        ensures
            final(self).wf(),
            final(self).table_data@ == rows@,
            final(self).selected == reselect(old(self).selected, old(self).table_data@, rows@),
            final(self).scroll_position == scroll_position_of(final(self).selected),
            final(self).running == old(self).running,
            final(self).metrics == old(self).metrics,
            final(self).max_item_lens == old(self).max_item_lens,
    {
        let n = rows.len();
        let sel = if n == 0 {
            None
        } else {
            match self.selected {
                Some(i) => match find_row(&rows, &self.table_data[i].name) {
                    Some(j) => Some(j),
                    None => if i < n {
                        Some(i)
                    } else {
                        Some(n - 1)
                    },
                },
                None => Some(0),
            }
        };
        self.table_data = rows;
        self.scroll_len = if n <= 1 {
            0
        } else {
            (n - 1) * ITEM_HEIGHT
        };
        self.select(sel);
    }

    /// Builds the dashboard from the first snapshots; the first row, if
    /// any, is selected.
    pub fn new(metrics: Vec<VmMetrics>) -> (r: App)
        requires
            metrics@.len() <= MAX_ROWS,
        ensures
            r.wf(),
            r.running,
            r.metrics@ == metrics@,
            r.table_data@.len() == metrics@.len(),
            forall|i: int| 0 <= i < metrics@.len() ==> shows(None, metrics@[i], #[trigger] r.table_data@[i]),
            r.selected == (if metrics@.len() == 0 { None } else { Some(0usize) }),
            r.max_item_lens == column_lens(r.table_data@),
    {
        let mut rows: Vec<TableData> = Vec::new();
        let mut i: usize = 0;
        while i < metrics.len()
            invariant
                0 <= i <= metrics@.len(),
                rows@.len() == i,
                forall|k: int| 0 <= k < i ==> shows(None, metrics@[k], #[trigger] rows@[k]),
            decreases metrics@.len() - i,
        {
            let r = derive_row(None, &metrics[i]);
            rows.push(TableData::from_row(&r));
            i = i + 1;
        }
        let mut app = App {
            running: true,
            metrics,
            table_data: Vec::new(),
            max_item_lens: (0, 0, 0, 0, 0),
            selected: None,
            scroll_position: 0,
            scroll_len: 0,
        };
        app.ingest(rows);
        app.max_item_lens = constraint_len_calculator(app.table_data.as_slice());
        app
    }

    /// Takes the snapshots of a new tick: each VM's row measures it against
    /// the snapshot of the same name from the tick before, and the selection
    /// stays on the same VM where it can.
    pub fn tick(&mut self, metrics: Vec<VmMetrics>)
        requires
            old(self).wf(),
            metrics@.len() <= MAX_ROWS,
        ensures
            final(self).wf(),
            final(self).metrics@ == metrics@,
            final(self).table_data@.len() == metrics@.len(),
            forall|i: int|
                0 <= i < metrics@.len() ==> shows(
                    previous_for(old(self).metrics@, metrics@[i].name@),
                    metrics@[i],
                    #[trigger] final(self).table_data@[i],
                ),
            final(self).selected == reselect(old(self).selected, old(self).table_data@, final(self).table_data@),
            final(self).scroll_position == scroll_position_of(final(self).selected),
            final(self).running == old(self).running,
            final(self).max_item_lens == column_lens(final(self).table_data@),
    {
        let mut rows: Vec<TableData> = Vec::new();
        let mut i: usize = 0;
        while i < metrics.len()
            invariant
                0 <= i <= metrics@.len(),
                rows@.len() == i,
                forall|k: int|
                    0 <= k < i ==> shows(
                        previous_for(self.metrics@, metrics@[k].name@),
                        metrics@[k],
                        #[trigger] rows@[k],
                    ),
            decreases metrics@.len() - i,
        {
            let cur = &metrics[i];
            let r = match find_metrics(&self.metrics, &cur.name) {
                Some(j) => derive_row(Some(&self.metrics[j]), cur),
                None => derive_row(None, cur),
            };
            rows.push(TableData::from_row(&r));
            i = i + 1;
        }
        self.ingest(rows);
        self.max_item_lens = constraint_len_calculator(self.table_data.as_slice());
        self.metrics = metrics;
    }

    /// Selects the next row, from the last back to the first.
    pub fn next(&mut self)
        requires
            old(self).wf(),
        ensures
            final(self).wf(),
            final(self).selected == next_of(old(self).selected, old(self).table_data@.len() as int),
            final(self).scroll_position == scroll_position_of(final(self).selected),
            final(self).running == old(self).running,
            final(self).metrics == old(self).metrics,
            final(self).table_data == old(self).table_data,
            final(self).max_item_lens == old(self).max_item_lens,
    {
        let sel = match self.selected {
            Some(i) => if i + 1 >= self.table_data.len() {
                Some(0)
            } else {
                Some(i + 1)
            },
            None => None,
        };
        self.select(sel);
    }

    /// Selects the previous row, from the first round to the last.
    pub fn prev(&mut self)
        requires
            old(self).wf(),
        ensures
            final(self).wf(),
            final(self).selected == prev_of(old(self).selected, old(self).table_data@.len() as int),
            final(self).scroll_position == scroll_position_of(final(self).selected),
            final(self).running == old(self).running,
            final(self).metrics == old(self).metrics,
            final(self).table_data == old(self).table_data,
            final(self).max_item_lens == old(self).max_item_lens,
    {
        let sel = match self.selected {
            Some(i) => if i == 0 {
                Some(self.table_data.len() - 1)
            } else {
                Some(i - 1)
            },
            None => None,
        };
        self.select(sel);
    }

    /// Marks the dashboard as finished.
    pub fn quit(&mut self)
        ensures
            !final(self).running,
            final(self).metrics == old(self).metrics,
            final(self).table_data == old(self).table_data,
            final(self).selected == old(self).selected,
            final(self).scroll_position == old(self).scroll_position,
            final(self).scroll_len == old(self).scroll_len,
            final(self).max_item_lens == old(self).max_item_lens,
    {
        self.running = false;
    }
}

} // verus!
