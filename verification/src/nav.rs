//! Navigation over the loaded entry collection: a single selection index that
//! moves with wraparound on `Up`/`Down`, is untouched by every other key and
//! by timer ticks, and leaves the loop on the quit key.

use vstd::prelude::*;

verus! {

/// A key press, as the run loop sees it: the two selection moves, the quit
/// key, the legacy view-switch key, and everything else (ignored).
#[derive(Clone, Copy, PartialEq, Eq, Structural, Debug)]
pub enum Key {
    Down,
    Up,
    Quit,
    SwitchView,
    Other,
}

/// One item of the multiplexed event stream: a key press, or the periodic
/// tick that forces a redraw.
#[derive(Clone, Copy, PartialEq, Eq, Structural, Debug)]
pub enum Event {
    Input(Key),
    Tick,
}

/// The views the dashboard can show. Only the entry view exists; the enum is
/// kept because the view-switch key still targets it.
#[derive(Clone, Copy, PartialEq, Eq, Structural, Debug)]
pub enum MenuItem {
    Entries,
}

impl From<MenuItem> for usize {
    /// The tab position a view occupies in the menu row.
    fn from(input: MenuItem) -> (r: usize)
        ensures
            r == 1,
    {
        match input {
            MenuItem::Entries => 1,
        }
    }
}

impl vstd::std_specs::convert::FromSpecImpl<MenuItem> for usize {
    open spec fn obeys_from_spec() -> bool {
        true
    }

    open spec fn from_spec(t: MenuItem) -> usize {
        1
    }
}

/// The selection index after one `Down` press: wraps from the last entry to
/// the first.
pub open spec fn down_index(i: int, n: int) -> int {
    if i + 1 == n {
        0
    } else {
        i + 1
    }
}

/// The selection index after one `Up` press: wraps from the first entry to
/// the last.
pub open spec fn up_index(i: int, n: int) -> int {
    if i == 0 {
        n - 1
    } else {
        i - 1
    }
}

/// The selection index after `k` successive `Down` presses from `i`.
pub open spec fn downs(i: int, n: int, k: nat) -> int
    decreases k,
{
    if k == 0 {
        i
    } else {
        down_index(downs(i, n, (k - 1) as nat), n)
    }
}

/// Navigation state: which of the `count` loaded entries is selected, and
/// which view is active. There is exactly one selection value; both rendered
/// panels read it from here.
pub struct NavState {
    pub index: usize,
    pub count: usize,
    pub menu: MenuItem,
}

impl NavState {
    /// The selection is a valid index into a non-empty collection.
    pub open spec fn wf(self) -> bool {
        0 < self.count && self.index < self.count
    }

    /// Initial navigation state over `count` entries: the first entry is
    /// selected. An empty collection has nothing to select, so it yields no
    /// state at all.
    pub fn new(count: usize) -> (r: Option<NavState>)
        ensures
            count == 0 ==> r is None,
            count > 0 ==> r == Some(
                (NavState { index: 0, count: count, menu: MenuItem::Entries }),
            ),
            r is Some ==> r->Some_0.wf(),
    {
        if count == 0 {
            None
        } else {
            Some(NavState { index: 0, count, menu: MenuItem::Entries })
        }
    }

    /// Move the selection one entry down, wrapping from the last to the
    /// first.
    pub fn down(&mut self)
        requires
            old(self).wf(),
        ensures
            final(self).wf(),
            final(self).count == old(self).count,
            final(self).menu == old(self).menu,
            final(self).index as int == down_index(old(self).index as int, old(self).count as int),
    {
        if self.index >= self.count - 1 {
            self.index = 0;
        } else {
            self.index = self.index + 1;
        }
    }

    /// Move the selection one entry up, wrapping from the first to the last.
    pub fn up(&mut self)
        requires
            old(self).wf(),
        ensures
            final(self).wf(),
            final(self).count == old(self).count,
            final(self).menu == old(self).menu,
            final(self).index as int == up_index(old(self).index as int, old(self).count as int),
    {
        if self.index > 0 {
            self.index = self.index - 1;
        } else {
            self.index = self.count - 1;
        }
    }

    /// Dispatch one multiplexed event: `Down`/`Up` move the selection with
    /// wraparound, the quit key ends the loop, the view-switch key re-selects
    /// the one existing view, and every other key — and the tick — changes
    /// nothing. The result says whether the run loop should stop.
    pub fn step(&mut self, ev: Event) -> (quit: bool)
        requires
            old(self).wf(),
        ensures
            final(self).wf(),
            final(self).count == old(self).count,
            quit <==> ev == Event::Input(Key::Quit),
            ev == Event::Input(Key::Down) ==> final(self).index as int == down_index(
                old(self).index as int,
                old(self).count as int,
            ) && final(self).menu == old(self).menu,
            ev == Event::Input(Key::Up) ==> final(self).index as int == up_index(
                old(self).index as int,
                old(self).count as int,
            ) && final(self).menu == old(self).menu,
            ev == Event::Input(Key::SwitchView) ==> *final(self) == (NavState {
                menu: MenuItem::Entries,
                ..*old(self)
            }),
            ev == Event::Input(Key::Quit) || ev == Event::Input(Key::Other) || ev == Event::Tick
                ==> *final(self) == *old(self),
    {
        match ev {
            Event::Input(Key::Quit) => true,
            Event::Input(Key::Down) => {
                self.down();
                false
            },
            Event::Input(Key::Up) => {
                self.up();
                false
            },
            Event::Input(Key::SwitchView) => {
                self.menu = MenuItem::Entries;
                false
            },
            Event::Input(Key::Other) => false,
            Event::Tick => false,
        }
    }
}

/// Below the wrap point, `Down` presses simply count up: `k` presses from
/// index 0 land on index `k` while `k < n`.
pub proof fn lemma_downs_below_wrap(n: int, k: nat)
    requires
        0 < n,
        k < n,
    ensures
        downs(0, n, k) == k,
    decreases k,
{
    if k > 0 {
        lemma_downs_below_wrap(n, (k - 1) as nat);
    }
}

/// Full wraparound cycle: over a collection of `n` entries, exactly `n`
/// `Down` presses from index 0 return the selection to index 0.
pub proof fn lemma_down_full_cycle(n: int)
    requires
        0 < n,
    ensures
        downs(0, n, n as nat) == 0,
{
    lemma_downs_below_wrap(n, (n - 1) as nat);
    assert(downs(0, n, n as nat) == down_index(downs(0, n, (n - 1) as nat), n));
}

/// Wraparound at the edges: `Up` from the first entry selects the last, and
/// `Down` from the last entry selects the first.
pub proof fn lemma_wrap_edges(n: int)
    requires
        0 < n,
    ensures
        up_index(0, n) == n - 1,
        down_index(n - 1, n) == 0,
{
}

} // verus!
