//! Majority voting over repeated readings of the icons of an inventory
//! page (lock, astral mark, elixir).
use vstd::prelude::*;

verus! {

/// Which icon slots a grid has.
#[derive(Clone, Copy, Debug, PartialEq, Eq, Structural)]
pub enum GridMode {
    /// Artifacts: lock, astral mark, elixir.
    Artifact,
    /// Weapons: refinement badge (ignored) and lock; no astral mark or elixir.
    Weapon,
}

/// What one reading saw on one item.
#[derive(Clone, Copy, Debug, PartialEq, Eq, Structural)]
pub struct GridIconResult {
    pub lock: bool,
    pub astral: bool,
    pub elixir: bool,
}

/// Votes for and against each icon of one item.
#[derive(Clone, Copy, Debug, PartialEq, Eq, Structural)]
pub struct Votes {
    pub lock_yes: u32,
    pub lock_no: u32,
    pub astral_yes: u32,
    pub astral_no: u32,
    pub elixir_yes: u32,
    pub elixir_no: u32,
}

/// No votes.
pub open spec fn no_votes() -> Votes {
    Votes { lock_yes: 0, lock_no: 0, astral_yes: 0, astral_no: 0, elixir_yes: 0, elixir_no: 0 }
}

/// `v` with one more reading `r` counted.
pub open spec fn add_reading(v: Votes, r: GridIconResult) -> Votes {
    Votes {
        lock_yes: if r.lock {
            (v.lock_yes + 1) as u32
        } else {
            v.lock_yes
        },
        lock_no: if r.lock {
            v.lock_no
        } else {
            (v.lock_no + 1) as u32
        },
        astral_yes: if r.astral {
            (v.astral_yes + 1) as u32
        } else {
            v.astral_yes
        },
        astral_no: if r.astral {
            v.astral_no
        } else {
            (v.astral_no + 1) as u32
        },
        elixir_yes: if r.elixir {
            (v.elixir_yes + 1) as u32
        } else {
            v.elixir_yes
        },
        elixir_no: if r.elixir {
            v.elixir_no
        } else {
            (v.elixir_no + 1) as u32
        },
    }
}

/// The majority reading: an icon is there when more readings saw it than
/// did not (a tie counts as absent).
pub open spec fn majority(v: Votes) -> GridIconResult {
    GridIconResult {
        lock: v.lock_yes > v.lock_no,
        astral: v.astral_yes > v.astral_no,
        elixir: v.elixir_yes > v.elixir_no,
    }
}

/// Room for one more reading: no count is at the top of `u32`.
pub open spec fn has_room(v: Votes) -> bool {
    v.lock_yes + v.lock_no < u32::MAX && v.astral_yes + v.astral_no < u32::MAX && v.elixir_yes
        + v.elixir_no < u32::MAX
}

/// The votes of the items of one inventory page.
pub struct GridVotes {
    pub votes: Vec<Votes>,
    /// Absolute index of the first item of the page.
    pub page_start: usize,
    /// Number of items on the page.
    pub page_items: usize,
    pub mode: GridMode,
}

impl GridVotes {
    /// Well formed: one vote record per item, each with sums that fit.
    pub open spec fn wf(&self) -> bool {
        &&& self.votes@.len() == self.page_items
        &&& forall|i: int|
            0 <= i < self.votes@.len() ==> #[trigger] self.votes@[i].lock_yes + self.votes@[i].lock_no
                <= u32::MAX && self.votes@[i].astral_yes + self.votes@[i].astral_no <= u32::MAX
                && self.votes@[i].elixir_yes + self.votes@[i].elixir_no <= u32::MAX
    }

    /// A page of artifacts with no readings yet.
    pub fn new(page_start: usize, page_items: usize) -> (g: Self)
        ensures
            g.wf(),
            g.page_start == page_start,
            g.page_items == page_items,
            g.mode == GridMode::Artifact,
            forall|i: int| 0 <= i < page_items ==> g.votes@[i] == no_votes(),
    {
        Self::with_mode(page_start, page_items, GridMode::Artifact)
    }

    /// A page with no readings yet.
    pub fn with_mode(page_start: usize, page_items: usize, mode: GridMode) -> (g: Self)
        ensures
            g.wf(),
            g.page_start == page_start,
            g.page_items == page_items,
            g.mode == mode,
            forall|i: int| 0 <= i < page_items ==> g.votes@[i] == no_votes(),
    {
        let mut votes: Vec<Votes> = Vec::new();
        let mut i: usize = 0;
        while i < page_items
            invariant
                i <= page_items,
                votes@.len() == i,
                forall|j: int| 0 <= j < i ==> votes@[j] == no_votes(),
            decreases page_items - i,
        {
            votes.push(
                Votes {
                    lock_yes: 0,
                    lock_no: 0,
                    astral_yes: 0,
                    astral_no: 0,
                    elixir_yes: 0,
                    elixir_no: 0,
                },
            );
            i += 1;
        }
        GridVotes { votes, page_start, page_items, mode }
    }

    /// Count one reading of the page: `results[i]` for the `i`-th item.
    pub fn record_pass(&mut self, results: &Vec<GridIconResult>)
        requires
            old(self).wf(),
            results@.len() <= old(self).page_items,
            forall|i: int| 0 <= i < results@.len() ==> has_room(#[trigger] old(self).votes@[i]),
        ensures
            final(self).wf(),
            final(self).page_start == old(self).page_start,
            final(self).page_items == old(self).page_items,
            final(self).mode == old(self).mode,
            forall|i: int|
                0 <= i < final(self).votes@.len() ==> #[trigger] final(self).votes@[i] == if i
                    < results@.len() {
                    add_reading(old(self).votes@[i], results@[i])
                } else {
                    old(self).votes@[i]
                },
    {
        let ghost before = self.votes@;
        let mut i: usize = 0;
        while i < results.len()
            invariant
                i <= results@.len(),
                results@.len() <= self.page_items,
                self.page_items == old(self).page_items,
                self.page_start == old(self).page_start,
                self.mode == old(self).mode,
                self.votes@.len() == self.page_items,
                before.len() == self.page_items,
                forall|j: int| 0 <= j < results@.len() ==> has_room(#[trigger] before[j]),
                forall|j: int|
                    0 <= j < self.votes@.len() ==> #[trigger] self.votes@[j] == if j < i {
                        add_reading(before[j], results@[j])
                    } else {
                        before[j]
                    },
            decreases results@.len() - i,
        {
            let r = results[i];
            let v = self.votes[i];
            assert(v == before[i as int]);
            let nv = Votes {
                lock_yes: if r.lock {
                    v.lock_yes + 1
                } else {
                    v.lock_yes
                },
                lock_no: if r.lock {
                    v.lock_no
                } else {
                    v.lock_no + 1
                },
                astral_yes: if r.astral {
                    v.astral_yes + 1
                } else {
                    v.astral_yes
                },
                astral_no: if r.astral {
                    v.astral_no
                } else {
                    v.astral_no + 1
                },
                elixir_yes: if r.elixir {
                    v.elixir_yes + 1
                } else {
                    v.elixir_yes
                },
                elixir_no: if r.elixir {
                    v.elixir_no
                } else {
                    v.elixir_no + 1
                },
            };
            self.votes.set(i, nv);
            i += 1;
        }
    }

    /// The majority reading of the item at absolute index `abs_index`, or
    /// none when the item is not on this page.
    pub fn get(&self, abs_index: usize) -> (r: Option<GridIconResult>)
        requires
            self.wf(),
        ensures
            if abs_index < self.page_start || abs_index - self.page_start >= self.page_items {
                r is None
            } else {
                r == Some(majority(self.votes@[abs_index - self.page_start]))
            },
    {
        if abs_index < self.page_start || abs_index - self.page_start >= self.page_items {
            return None;
        }
        let v = self.votes[abs_index - self.page_start];
        Some(
            GridIconResult {
                lock: v.lock_yes > v.lock_no,
                astral: v.astral_yes > v.astral_no,
                elixir: v.elixir_yes > v.elixir_no,
            },
        )
    }

    /// Number of readings counted so far (those of the first item; 0 for an
    /// empty page).
    pub fn pass_count(&self) -> (n: u32)
        requires
            self.wf(),
        ensures
            n == if self.page_items == 0 {
                0
            } else {
                self.votes@[0].lock_yes + self.votes@[0].lock_no
            },
    {
        if self.page_items == 0 {
            return 0;
        }
        let v = self.votes[0];
        v.lock_yes + v.lock_no
    }
}

/// Each reading of an item adds exactly one vote on its lock icon: after a
/// reading, the item has one more vote in all.
pub proof fn each_reading_counts_once(v: Votes, r: GridIconResult)
    requires
        has_room(v),
    ensures
        add_reading(v, r).lock_yes + add_reading(v, r).lock_no == v.lock_yes + v.lock_no + 1,
        add_reading(v, r).astral_yes + add_reading(v, r).astral_no == v.astral_yes + v.astral_no
            + 1,
        add_reading(v, r).elixir_yes + add_reading(v, r).elixir_no == v.elixir_yes + v.elixir_no
            + 1,
{
}

/// A single reading of a fresh item is taken as it is.
pub proof fn single_reading_is_majority(r: GridIconResult)
    ensures
        majority(add_reading(no_votes(), r)) == r,
{
}

} // verus!
