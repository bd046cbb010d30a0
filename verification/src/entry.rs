//! One schedulable item, as the core reads it: plain day numbers for the
//! validity window, text for everything shown verbatim.

use vstd::prelude::*;

verus! {

/// Largest day-number magnitude the core accepts. Calendar dates are counted
/// in whole days from 1970-01-01; every date the calendar library can
/// represent lies well within this bound, and it keeps all per-frame day
/// arithmetic (week offsets, elapsed-day differences) inside `i64`.
pub const DAY_BOUND: i64 = 100_000_000;

/// One schedulable item. `begin_day` and `end_day` are the calendar days of
/// the validity window, counted in whole days from 1970-01-01; `begin_text`
/// and `end_text` carry the full timestamps as loaded, shown verbatim in the
/// detail panel. The window is expected to satisfy `begin <= end`, but the
/// core does not rely on it: an inverted window simply spans no day.
pub struct Entry {
    pub priority: usize,
    pub name: String,
    pub category: String,
    pub description: String,
    pub begin_day: i64,
    pub end_day: i64,
    pub begin_text: String,
    pub end_text: String,
}

impl Entry {
    /// Both day numbers stay within `DAY_BOUND`.
    pub open spec fn wf(self) -> bool {
        &&& -DAY_BOUND <= self.begin_day <= DAY_BOUND
        &&& -DAY_BOUND <= self.end_day <= DAY_BOUND
    }
}

impl Clone for Entry {
    /// A clone is the same value, field for field.
    fn clone(&self) -> (r: Self)
        ensures
            r == *self,
    {
        Entry {
            priority: self.priority,
            name: self.name.clone(),
            category: self.category.clone(),
            description: self.description.clone(),
            begin_day: self.begin_day,
            end_day: self.end_day,
            begin_text: self.begin_text.clone(),
            end_text: self.end_text.clone(),
        }
    }
}

/// Does the entry's validity window contain the given day?
pub open spec fn spans_day(e: Entry, day: int) -> bool {
    e.begin_day <= day && day <= e.end_day
}

} // verus!
