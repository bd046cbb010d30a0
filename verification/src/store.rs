//! Load-time filtering of the persisted schedule: only entries relevant to
//! the visible window survive loading.

use vstd::prelude::*;
use crate::entry::Entry;

verus! {

/// Does an entry survive loading? Dropped are entries that begin more than
/// 7 days after `today` and entries that ended strictly before `today`.
pub open spec fn keeps(e: Entry, today: int) -> bool {
    e.begin_day <= today + 7 && today <= e.end_day
}

/// The entries that survive load-time filtering, in their original order.
pub open spec fn kept_entries(s: Seq<Entry>, today: int) -> Seq<Entry> {
    s.filter(|e: Entry| keeps(e, today))
}

/// Keep exactly the entries relevant to the visible window — those that
/// begin within the next 7 days and have not ended before `today` — in
/// their original order.
pub fn filter_entries(entries: &Vec<Entry>, today: i64) -> (r: Vec<Entry>)
    requires
        today <= i64::MAX - 7,
    ensures
        r@ == kept_entries(entries@, today as int),
{
    let mut out: Vec<Entry> = Vec::new();
    let mut idx: usize = 0;
    while idx < entries.len()
        invariant
            idx <= entries.len(),
            today <= i64::MAX - 7,
            out@ == kept_entries(entries@.take(idx as int), today as int),
        decreases entries.len() - idx,
    {
        let e = &entries[idx];
        if e.begin_day <= today + 7 && today <= e.end_day {
            out.push(e.clone());
        }
        proof {
            reveal(Seq::filter);
            let t = today as int;
            let pre = entries@.take(idx as int);
            let cur = entries@.take(idx as int + 1);
            assert(cur.drop_last() =~= pre);
            assert(cur.last() == entries@[idx as int]);
            if keeps(entries@[idx as int], t) {
                assert(kept_entries(cur, t) == kept_entries(pre, t).push(entries@[idx as int]));
            } else {
                assert(kept_entries(cur, t) == kept_entries(pre, t));
            }
        }
        idx = idx + 1;
    }
    proof {
        assert(entries@.take(entries@.len() as int) =~= entries@);
    }
    out
}

} // verus!
