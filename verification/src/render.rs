//! The per-frame view artifacts: the weekly grid (one row per entry, seven
//! occupancy cells under a dated header) and the detail panel for the
//! selected entry. Both are pure text projections of (entries, selection,
//! today); drawing them to a terminal is the caller's concern.

use vstd::prelude::*;
use crate::decimal::dec_str;
use crate::decimal::int_str;
use crate::decimal::i64_string;
use crate::decimal::usize_string;
use crate::entry::DAY_BOUND;
use crate::entry::Entry;
use crate::occupancy::occ_row;
use crate::occupancy::occupancy_row;

verus! {

/// The header text for a day number (days from 1970-01-01): what chrono
/// writes for that date with the `"%a %e"` format.
pub uninterp spec fn day_label(day: int) -> Seq<char>;

/// Relies on chrono's `NaiveDate`: `NaiveDate::default()` is 1970-01-01,
/// `checked_add_signed` moves it by whole days, and formatting a date with
/// `"%a %e"` writes its abbreviated weekday name and space-padded day of
/// month. The text depends on the day number alone.
#[verifier::external_body]
fn format_day(day: i64) -> (r: String)
    requires
        -DAY_BOUND - 7 <= day <= DAY_BOUND + 7,
    ensures
        r@ == day_label(day as int),
{
    match chrono::NaiveDate::default().checked_add_signed(chrono::Duration::days(day)) {
        Some(d) => d.format("%a %e").to_string(),
        None => String::new(),
    }
}

/// The text of one occupancy cell: a solid bar when the entry spans the
/// day, blank space otherwise. Both variants are 28 characters wide.
pub open spec fn cell_text(occupied: bool) -> Seq<char> {
    if occupied {
        "■■■■■■■■■■■■■■■■■■■■■■■■■■■■"@
    } else {
        "                            "@
    }
}

/// One grid row: the entry's name and its seven occupancy cells.
pub struct GridRow {
    pub name: String,
    pub cells: Vec<String>,
}

/// The weekly grid: seven dated header labels, one row per entry, and the
/// index of the highlighted row.
pub struct GridView {
    pub header: Vec<String>,
    pub rows: Vec<GridRow>,
    pub selected: usize,
}

/// The detail panel, line by line, top to bottom.
pub struct DetailView {
    pub lines: Vec<String>,
}

/// Everything the grid contract pins down: the header labels for `today`
/// through `today + 6`, for every entry its name and the cell text of its
/// occupancy row, and which row is highlighted.
pub open spec fn grid_matches(g: GridView, entries: Seq<Entry>, selected: int, today: int) -> bool {
    &&& g.header@.len() == 7
    &&& forall|i: int| 0 <= i < 7 ==> (#[trigger] g.header@[i])@ == day_label(today + i)
    &&& g.rows@.len() == entries.len()
    &&& forall|k: int| 0 <= k < entries.len() ==> (#[trigger] g.rows@[k]).name@ == entries[k].name@
    &&& forall|k: int| 0 <= k < entries.len() ==> (#[trigger] g.rows@[k]).cells@.len() == 7
    &&& forall|k: int, i: int|
        0 <= k < entries.len() && 0 <= i < 7 ==> (#[trigger] g.rows@[k].cells@[i])@ == cell_text(
            occ_row(entries[k], today)[i],
        )
    &&& g.selected == selected
}

/// Everything the detail contract pins down: 21 lines — for each of the
/// seven shown fields a blank spacer, the label, and the value, with
/// elapsed days computed from `today` and the entry's begin day.
pub open spec fn detail_matches(d: DetailView, e: Entry, today: int) -> bool {
    &&& d.lines@.len() == 21
    &&& d.lines@[0]@ == Seq::<char>::empty()
    &&& d.lines@[1]@ == "Name"@
    &&& d.lines@[2]@ == e.name@
    &&& d.lines@[3]@ == Seq::<char>::empty()
    &&& d.lines@[4]@ == "Category"@
    &&& d.lines@[5]@ == e.category@
    &&& d.lines@[6]@ == Seq::<char>::empty()
    &&& d.lines@[7]@ == "Priority"@
    &&& d.lines@[8]@ == dec_str(e.priority as nat)
    &&& d.lines@[9]@ == Seq::<char>::empty()
    &&& d.lines@[10]@ == "Description"@
    &&& d.lines@[11]@ == e.description@
    &&& d.lines@[12]@ == Seq::<char>::empty()
    &&& d.lines@[13]@ == "Begin"@
    &&& d.lines@[14]@ == e.begin_text@
    &&& d.lines@[15]@ == Seq::<char>::empty()
    &&& d.lines@[16]@ == "End"@
    &&& d.lines@[17]@ == e.end_text@
    &&& d.lines@[18]@ == Seq::<char>::empty()
    &&& d.lines@[19]@ == "Elapsed days"@
    &&& d.lines@[20]@ == int_str(today - e.begin_day)
}

/// Days elapsed since the entry began: `today - begin_day`, negative when
/// the entry has not yet begun; never clamped.
pub fn elapsed_days(e: &Entry, today: i64) -> (r: i64)
    requires
        e.wf(),
        -DAY_BOUND <= today <= DAY_BOUND,
    ensures
        r as int == today - e.begin_day,
{
    today - e.begin_day
}

/// Produce the weekly grid for one frame: header dates anchored at `today`,
/// one row per entry with its name and occupancy cells, and the selected
/// row highlighted. Selection into an empty collection is a caller error,
/// excluded by precondition.
pub fn render_grid(entries: &Vec<Entry>, selected: usize, today: i64) -> (g: GridView)
    requires
        selected < entries.len(),
        -DAY_BOUND <= today <= DAY_BOUND,
    ensures
        grid_matches(g, entries@, selected as int, today as int),
{
    let mut header: Vec<String> = Vec::new();
    let mut i: usize = 0;
    while i < 7
        invariant
            i <= 7,
            -DAY_BOUND <= today <= DAY_BOUND,
            header@.len() == i,
            forall|j: int| 0 <= j < i ==> (#[trigger] header@[j])@ == day_label(today + j),
        decreases 7 - i,
    {
        header.push(format_day(today + (i as i64)));
        i = i + 1;
    }
    let mut rows: Vec<GridRow> = Vec::new();
    let mut k: usize = 0;
    while k < entries.len()
        invariant
            k <= entries.len(),
            -DAY_BOUND <= today <= DAY_BOUND,
            rows@.len() == k,
            forall|j: int| 0 <= j < k ==> (#[trigger] rows@[j]).name@ == entries@[j].name@,
            forall|j: int| 0 <= j < k ==> (#[trigger] rows@[j]).cells@.len() == 7,
            forall|j: int, c: int|
                0 <= j < k && 0 <= c < 7 ==> (#[trigger] rows@[j].cells@[c])@ == cell_text(
                    occ_row(entries@[j], today as int)[c],
                ),
        decreases entries.len() - k,
    {
        let e = &entries[k];
        let occ = occupancy_row(e, today);
        let mut cells: Vec<String> = Vec::new();
        let mut c: usize = 0;
        while c < 7
            invariant
                c <= 7,
                occ@ == occ_row(*e, today as int),
                cells@.len() == c,
                forall|j: int| 0 <= j < c ==> (#[trigger] cells@[j])@ == cell_text(occ@[j]),
            decreases 7 - c,
        {
            if occ[c] {
                cells.push("■■■■■■■■■■■■■■■■■■■■■■■■■■■■".to_owned());
            } else {
                cells.push("                            ".to_owned());
            }
            c = c + 1;
        }
        rows.push(GridRow { name: e.name.clone(), cells });
        k = k + 1;
    }
    GridView { header, rows, selected }
}

/// Produce the detail panel for the selected entry: label/value lines for
/// name, category, priority, description, both timestamps, and the elapsed
/// days since the entry began.
pub fn render_detail(e: &Entry, today: i64) -> (d: DetailView)
    requires
        e.wf(),
        -DAY_BOUND <= today <= DAY_BOUND,
    ensures
        detail_matches(d, *e, today as int),
{
    let mut lines: Vec<String> = Vec::new();
    lines.push(String::new());
    lines.push("Name".to_owned());
    lines.push(e.name.clone());
    lines.push(String::new());
    lines.push("Category".to_owned());
    lines.push(e.category.clone());
    lines.push(String::new());
    lines.push("Priority".to_owned());
    lines.push(usize_string(e.priority));
    lines.push(String::new());
    lines.push("Description".to_owned());
    lines.push(e.description.clone());
    lines.push(String::new());
    lines.push("Begin".to_owned());
    lines.push(e.begin_text.clone());
    lines.push(String::new());
    lines.push("End".to_owned());
    lines.push(e.end_text.clone());
    lines.push(String::new());
    lines.push("Elapsed days".to_owned());
    lines.push(i64_string(elapsed_days(e, today)));
    DetailView { lines }
}

/// Rendering the grid is pure: two artifacts produced from the same
/// entries, selection and day agree in every character.
pub proof fn lemma_grid_render_pure(
    g1: GridView,
    g2: GridView,
    entries: Seq<Entry>,
    selected: int,
    today: int,
)
    requires
        grid_matches(g1, entries, selected, today),
        grid_matches(g2, entries, selected, today),
    ensures
        g1.header@.len() == g2.header@.len(),
        forall|i: int|
            0 <= i < g1.header@.len() ==> (#[trigger] g1.header@[i])@ == g2.header@[i]@,
        g1.rows@.len() == g2.rows@.len(),
        forall|k: int| 0 <= k < g1.rows@.len() ==> (#[trigger] g1.rows@[k]).name@ == g2.rows@[k].name@,
        forall|k: int| 0 <= k < g1.rows@.len() ==> (#[trigger] g1.rows@[k]).cells@.len() == g2.rows@[k].cells@.len(),
        forall|k: int, i: int|
            0 <= k < g1.rows@.len() && 0 <= i < 7 ==> (#[trigger] g1.rows@[k].cells@[i])@
                == g2.rows@[k].cells@[i]@,
        g1.selected == g2.selected,
{
}

/// Rendering the detail panel is pure: two artifacts produced from the same
/// entry and day agree in every character.
pub proof fn lemma_detail_render_pure(d1: DetailView, d2: DetailView, e: Entry, today: int)
    requires
        detail_matches(d1, e, today),
        detail_matches(d2, e, today),
    ensures
        d1.lines@.len() == d2.lines@.len(),
        forall|i: int| 0 <= i < d1.lines@.len() ==> (#[trigger] d1.lines@[i])@ == d2.lines@[i]@,
{
}

} // verus!
