//! The 7-day occupancy projection: for one entry and the current day, which
//! of the next seven calendar days the entry spans.

use vstd::prelude::*;
use crate::entry::Entry;
use crate::entry::spans_day;

verus! {

/// The occupancy row of an entry for the seven-day window starting at
/// `today`: flag `i` says whether the entry spans day `today + i`.
pub open spec fn occ_row(e: Entry, today: int) -> Seq<bool> {
    Seq::new(7, |i: int| spans_day(e, today + i))
}

/// Compute the occupancy row of one entry. The projection assumes nothing
/// about the entry: one lying entirely outside the window yields an
/// all-false row.
pub fn occupancy_row(e: &Entry, today: i64) -> (r: Vec<bool>)
    requires
        today <= i64::MAX - 7,
    ensures
        r@ == occ_row(*e, today as int),
{
    let mut r: Vec<bool> = Vec::new();
    let mut i: usize = 0;
    while i < 7
        invariant
            i <= 7,
            today <= i64::MAX - 7,
            r@.len() == i,
            forall|j: int| 0 <= j < i ==> r@[j] == spans_day(*e, today + j),
        decreases 7 - i,
    {
        let day: i64 = today + (i as i64);
        r.push(e.begin_day <= day && day <= e.end_day);
        i = i + 1;
    }
    proof {
        assert(r@ =~= occ_row(*e, today as int));
    }
    r
}

/// An entry entirely in the past spans no day of the window: when its end
/// lies before `today`, every flag of its occupancy row is false.
pub proof fn lemma_past_entry_unoccupied(e: Entry, today: int)
    requires
        e.end_day < today,
    ensures
        forall|i: int| 0 <= i < 7 ==> !occ_row(e, today)[i],
{
}

} // verus!
