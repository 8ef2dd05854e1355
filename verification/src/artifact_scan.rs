//! The decisions of the artifact scan over the inventory grid: which
//! scanned artifacts are kept, rows seen twice, when to stop, and the final
//! filter.
//!
//! The grid walk and the OCR run outside; they hand each item's outcome to
//! `ArtifactCollector::on_item` and do what it answers.
use vstd::prelude::*;
use crate::artifact_text::{artifact_fingerprint, fingerprint};
use crate::mappings::{find_key, lemma_first_key_bounds, lookup};
use crate::models::GoodArtifact;
use crate::text::{push_str, str_eq};

verus! {

/// What scanning one grid item gave.
pub enum ItemOutcome {
    Artifact(GoodArtifact),
    /// An item of too low a rarity: the artifacts are over.
    Stop,
    /// An item that is no artifact to keep (an elixir essence, say).
    Skip,
    /// The scan of the item failed.
    Failed,
}

/// Whether the grid walk goes on.
#[derive(Clone, Copy, Debug, PartialEq, Eq, Structural)]
pub enum GridStep {
    Continue,
    Stop,
}

/// Failures in a row after which the scan stops.
pub const MAX_SCAN_FAILURES: usize = 10;

/// What the collector holds, as values.
pub struct CollectorModel {
    pub artifacts: Seq<GoodArtifact>,
    pub fail: int,
    pub seen: Seq<Seq<char>>,
    pub current: Seq<Seq<char>>,
    pub pending: Seq<GoodArtifact>,
}

/// The marks of a row, separated by `,`.
pub open spec fn row_key(s: Seq<Seq<char>>) -> Seq<char>
    decreases s.len(),
{
    if s.len() == 0 {
        Seq::empty()
    } else if s.len() == 1 {
        s[0]
    } else {
        row_key(s.drop_last()) + ","@ + s.last()
    }
}

/// `m` after an item's outcome: its mark joins the current row, and a kept
/// artifact (one of at least `min_rarity`) waits for the row to close.
pub open spec fn add_item(m: CollectorModel, o: ItemOutcome, min_rarity: i32) -> CollectorModel {
    match o {
        ItemOutcome::Artifact(a) => if a.rarity >= min_rarity {
            CollectorModel {
                current: m.current.push(fingerprint(a)),
                pending: m.pending.push(a),
                fail: 0,
                ..m
            }
        } else {
            CollectorModel { current: m.current.push(fingerprint(a)), ..m }
        },
        ItemOutcome::Skip => CollectorModel { current: m.current.push("skip"@), fail: 0, ..m },
        ItemOutcome::Failed => CollectorModel {
            current: m.current.push("null"@),
            fail: m.fail + 1,
            ..m
        },
        ItemOutcome::Stop => m,
    }
}

/// `m` once a full row closes: a row seen before on this page adds nothing;
/// a new one is remembered and its artifacts are kept.
pub open spec fn close_row(m: CollectorModel, cols: int) -> CollectorModel {
    if m.current.len() >= cols {
        if m.seen.contains(row_key(m.current)) {
            CollectorModel { current: Seq::empty(), pending: Seq::empty(), ..m }
        } else {
            CollectorModel {
                seen: m.seen.push(row_key(m.current)),
                artifacts: m.artifacts + m.pending,
                fail: 0,
                current: Seq::empty(),
                pending: Seq::empty(),
            }
        }
    } else {
        m
    }
}

/// One grid item: the collector after it, and whether the walk goes on. A
/// low-rarity item stops at once; so does a failure without
/// `continue_on_failure`; else the walk stops after ten failures in a row.
pub open spec fn item_step(
    m: CollectorModel,
    o: ItemOutcome,
    min_rarity: i32,
    continue_on_failure: bool,
    cols: int,
) -> (CollectorModel, GridStep) {
    if o is Stop {
        (m, GridStep::Stop)
    } else if o is Failed && !continue_on_failure {
        (CollectorModel { current: m.current.push("null"@), ..m }, GridStep::Stop)
    } else {
        let m2 = close_row(add_item(m, o, min_rarity), cols);
        (m2, if m2.fail >= MAX_SCAN_FAILURES {
            GridStep::Stop
        } else {
            GridStep::Continue
        })
    }
}

/// The end of the walk: a partial last row that was not seen before keeps
/// its artifacts.
pub open spec fn flush_row(m: CollectorModel) -> CollectorModel {
    if m.current.len() > 0 && !m.seen.contains(row_key(m.current)) {
        CollectorModel { artifacts: m.artifacts + m.pending, pending: Seq::empty(), ..m }
    } else {
        m
    }
}

/// Every artifact held (kept or waiting in the row) has at least the
/// minimum rarity.
pub open spec fn all_meet_min(m: CollectorModel, min_rarity: i32) -> bool {
    &&& forall|i: int| 0 <= i < m.artifacts.len() ==> #[trigger] m.artifacts[i].rarity >= min_rarity
    &&& forall|i: int| 0 <= i < m.pending.len() ==> #[trigger] m.pending[i].rarity >= min_rarity
}

/// The collector keeps only artifacts of at least the minimum rarity: each
/// grid item and the end of the walk keep that true.
pub proof fn kept_artifacts_meet_min_rarity(
    m: CollectorModel,
    o: ItemOutcome,
    min_rarity: i32,
    continue_on_failure: bool,
    cols: int,
)
    requires
        all_meet_min(m, min_rarity),
    ensures
        all_meet_min(item_step(m, o, min_rarity, continue_on_failure, cols).0, min_rarity),
        all_meet_min(flush_row(m), min_rarity),
{
    let a1 = add_item(m, o, min_rarity);
    assert(all_meet_min(a1, min_rarity));
    let c1 = close_row(a1, cols);
    if a1.current.len() >= cols && !a1.seen.contains(row_key(a1.current)) {
        assert forall|i: int| 0 <= i < c1.artifacts.len() implies #[trigger] c1.artifacts[i].rarity
            >= min_rarity by {
            if i >= a1.artifacts.len() {
                assert(c1.artifacts[i] == a1.pending[i - a1.artifacts.len()]);
            }
        }
    }
    let f = flush_row(m);
    if m.current.len() > 0 && !m.seen.contains(row_key(m.current)) {
        assert forall|i: int| 0 <= i < f.artifacts.len() implies #[trigger] f.artifacts[i].rarity
            >= min_rarity by {
            if i >= m.artifacts.len() {
                assert(f.artifacts[i] == m.pending[i - m.artifacts.len()]);
            }
        }
    }
}

/// A row already seen on this page (the grid did not move) adds no
/// artifact when it closes.
pub proof fn seen_row_adds_nothing(
    m: CollectorModel,
    o: ItemOutcome,
    min_rarity: i32,
    continue_on_failure: bool,
    cols: int,
)
    requires
        !(o is Stop),
        add_item(m, o, min_rarity).current.len() >= cols,
        m.seen.contains(row_key(add_item(m, o, min_rarity).current)),
    ensures
        item_step(m, o, min_rarity, continue_on_failure, cols).0.artifacts == m.artifacts,
        item_step(m, o, min_rarity, continue_on_failure, cols).0.seen == m.seen,
{
}

/// The walk never goes on with ten failures in a row counted.
pub proof fn walk_stops_at_failure_limit(
    m: CollectorModel,
    o: ItemOutcome,
    min_rarity: i32,
    continue_on_failure: bool,
    cols: int,
)
    ensures
        item_step(m, o, min_rarity, continue_on_failure, cols).1 == GridStep::Continue
            ==> item_step(m, o, min_rarity, continue_on_failure, cols).0.fail
            < MAX_SCAN_FAILURES,
{
}

/// Collects the artifacts of a grid walk.
pub struct ArtifactCollector {
    pub artifacts: Vec<GoodArtifact>,
    /// Failures since the last item that did not fail.
    pub fail_count: usize,
    /// The rows seen on the current page.
    pub seen_rows: Vec<String>,
    /// The marks of the row being read.
    pub current_row: Vec<String>,
    /// The artifacts of the row being read that are to be kept.
    pub pending_row: Vec<GoodArtifact>,
    pub min_rarity: i32,
    pub continue_on_failure: bool,
    /// Items per grid row.
    pub grid_cols: usize,
}

/// The text of each string.
pub open spec fn texts(s: Seq<String>) -> Seq<Seq<char>> {
    s.map_values(|x: String| x@)
}

impl View for ArtifactCollector {
    type V = CollectorModel;

    open spec fn view(&self) -> CollectorModel {
        CollectorModel {
            artifacts: self.artifacts@,
            fail: self.fail_count as int,
            seen: texts(self.seen_rows@),
            current: texts(self.current_row@),
            pending: self.pending_row@,
        }
    }
}

/// The key of the row of `marks`.
fn row_key_of(marks: &Vec<String>) -> (r: String)
    ensures
        r@ == row_key(texts(marks@)),
{
    let mut out = String::new();
    let mut i: usize = 0;
    assert(texts(marks@.take(0)) =~= Seq::<Seq<char>>::empty());
    while i < marks.len()
        invariant
            i <= marks@.len(),
            out@ == row_key(texts(marks@.take(i as int))),
        decreases marks.len() - i,
    {
        assert(texts(marks@.take(i + 1)).drop_last() =~= texts(marks@.take(i as int)));
        assert(texts(marks@.take(i + 1)).last() == marks@[i as int]@);
        if i > 0 {
            push_str(&mut out, ",");
        }
        push_str(&mut out, marks[i].as_str());
        i += 1;
        proof {
            if i == 1 {
                assert(texts(marks@.take(1)) =~= seq![marks@[0]@]);
            }
        }
    }
    assert(marks@.take(marks.len() as int) =~= marks@);
    out
}

/// Does `rows` hold `row`?
fn holds_row(rows: &Vec<String>, row: &String) -> (b: bool)
    ensures
        b == texts(rows@).contains(row@),
{
    let mut i: usize = 0;
    while i < rows.len()
        invariant
            i <= rows@.len(),
            forall|j: int| 0 <= j < i ==> rows@[j]@ != row@,
        decreases rows.len() - i,
    {
        if str_eq(rows[i].as_str(), row.as_str()) {
            assert(texts(rows@)[i as int] == row@);
            return true;
        }
        i += 1;
    }
    assert(!texts(rows@).contains(row@)) by {
        if texts(rows@).contains(row@) {
            let j = choose|j: int| 0 <= j < texts(rows@).len() && texts(rows@)[j] == row@;
            assert(rows@[j]@ == row@);
        }
    }
    false
}

impl ArtifactCollector {
    /// An empty collector for a walk that keeps artifacts of at least
    /// `min_rarity`, over a grid with `grid_cols` items per row.
    pub fn new(min_rarity: i32, continue_on_failure: bool, grid_cols: usize) -> (c: Self)
        ensures
            c@.artifacts.len() == 0 && c@.fail == 0 && c@.seen.len() == 0,
            c@.current.len() == 0 && c@.pending.len() == 0,
            c.min_rarity == min_rarity,
            c.continue_on_failure == continue_on_failure,
            c.grid_cols == grid_cols,
    {
        let c = ArtifactCollector {
            artifacts: Vec::new(),
            fail_count: 0,
            seen_rows: Vec::new(),
            current_row: Vec::new(),
            pending_row: Vec::new(),
            min_rarity,
            continue_on_failure,
            grid_cols,
        };
        assert(c@.seen =~= Seq::<Seq<char>>::empty());
        assert(c@.current =~= Seq::<Seq<char>>::empty());
        c
    }

    /// The grid scrolled to a new page: rows are compared within a page
    /// only, and the row being read starts again.
    pub fn page_scrolled(&mut self)
        ensures
            final(self)@ == (CollectorModel {
                seen: Seq::empty(),
                current: Seq::empty(),
                pending: Seq::empty(),
                ..old(self)@
            }),
            final(self).min_rarity == old(self).min_rarity,
            final(self).continue_on_failure == old(self).continue_on_failure,
            final(self).grid_cols == old(self).grid_cols,
    {
        self.seen_rows = Vec::new();
        self.current_row = Vec::new();
        self.pending_row = Vec::new();
        assert(self@.seen =~= Seq::<Seq<char>>::empty());
        assert(self@.current =~= Seq::<Seq<char>>::empty());
    }

    fn push_mark(&mut self, mark: String)
        ensures
            final(self)@ == (CollectorModel { current: old(self)@.current.push(mark@), ..old(self)@ }),
            final(self).min_rarity == old(self).min_rarity,
            final(self).continue_on_failure == old(self).continue_on_failure,
            final(self).grid_cols == old(self).grid_cols,
    {
        let ghost m = mark@;
        self.current_row.push(mark);
        assert(self@.current =~= old(self)@.current.push(m));
    }

    fn add(&mut self, o: ItemOutcome)
        requires
            !(o is Stop),
            o is Failed ==> old(self).fail_count < usize::MAX,
        ensures
            final(self)@ == add_item(old(self)@, o, old(self).min_rarity),
            final(self).min_rarity == old(self).min_rarity,
            final(self).continue_on_failure == old(self).continue_on_failure,
            final(self).grid_cols == old(self).grid_cols,
    {
        match o {
            ItemOutcome::Artifact(a) => {
                let fp = artifact_fingerprint(&a);
                self.push_mark(fp);
                if a.rarity >= self.min_rarity {
                    self.pending_row.push(a);
                    self.fail_count = 0;
                }
            },
            ItemOutcome::Skip => {
                proof {
                    reveal_strlit("skip");
                }
                self.push_mark(String::from_str("skip"));
                self.fail_count = 0;
            },
            ItemOutcome::Failed => {
                proof {
                    reveal_strlit("null");
                }
                self.push_mark(String::from_str("null"));
                self.fail_count = self.fail_count + 1;
            },
            ItemOutcome::Stop => {},
        }
    }

    fn close_full_row(&mut self)
        ensures
            final(self)@ == close_row(old(self)@, old(self).grid_cols as int),
            final(self).min_rarity == old(self).min_rarity,
            final(self).continue_on_failure == old(self).continue_on_failure,
            final(self).grid_cols == old(self).grid_cols,
    {
        if self.current_row.len() < self.grid_cols {
            return;
        }
        let row = row_key_of(&self.current_row);
        if !holds_row(&self.seen_rows, &row) {
            let ghost r = row@;
            self.seen_rows.push(row);
            assert(texts(self.seen_rows@) =~= texts(old(self).seen_rows@).push(r));
            let mut pending = Vec::new();
            std::mem::swap(&mut pending, &mut self.pending_row);
            self.artifacts.append(&mut pending);
            self.fail_count = 0;
        }
        self.current_row = Vec::new();
        self.pending_row = Vec::new();
        assert(self@.current =~= Seq::<Seq<char>>::empty());
        assert(self@ == close_row(old(self)@, old(self).grid_cols as int));
    }

    /// The outcome of the next grid item; the answer tells whether the walk
    /// goes on.
    pub fn on_item(&mut self, o: ItemOutcome) -> (r: GridStep)
        requires
            old(self).fail_count < usize::MAX,
        ensures
            (final(self)@, r) == item_step(
                old(self)@,
                o,
                old(self).min_rarity,
                old(self).continue_on_failure,
                old(self).grid_cols as int,
            ),
            final(self).min_rarity == old(self).min_rarity,
            final(self).continue_on_failure == old(self).continue_on_failure,
            final(self).grid_cols == old(self).grid_cols,
    {
        match o {
            ItemOutcome::Stop => {
                return GridStep::Stop;
            },
            ItemOutcome::Failed => {
                if !self.continue_on_failure {
                    proof {
                        reveal_strlit("null");
                    }
                    self.push_mark(String::from_str("null"));
                    return GridStep::Stop;
                }
            },
            _ => {},
        }
        self.add(o);
        self.close_full_row();
        if self.fail_count >= MAX_SCAN_FAILURES {
            GridStep::Stop
        } else {
            GridStep::Continue
        }
    }

    /// The walk is over: a partial last row not seen before keeps its
    /// artifacts.
    pub fn finish(&mut self)
        ensures
            final(self)@ == flush_row(old(self)@),
            final(self).min_rarity == old(self).min_rarity,
            final(self).continue_on_failure == old(self).continue_on_failure,
            final(self).grid_cols == old(self).grid_cols,
    {
        if self.current_row.len() == 0 {
            return;
        }
        let row = row_key_of(&self.current_row);
        if !holds_row(&self.seen_rows, &row) {
            let mut pending = Vec::new();
            std::mem::swap(&mut pending, &mut self.pending_row);
            self.artifacts.append(&mut pending);
            assert(self@ == flush_row(old(self)@));
        }
    }
}

/// Dropped by the final filter: an unleveled 4-star artifact of a set that
/// also comes with 5 stars.
pub open spec fn low_value(a: GoodArtifact, set_max_rarity: Seq<(String, i32)>) -> bool {
    a.rarity == 4 && a.level == 0 && (lookup(set_max_rarity, a.set_key@) matches Some(r)
        && r >= 5)
}

/// The artifacts of `s` that the final filter keeps, in order.
pub open spec fn kept(s: Seq<GoodArtifact>, set_max_rarity: Seq<(String, i32)>) -> Seq<GoodArtifact>
    decreases s.len(),
{
    if s.len() == 0 {
        Seq::empty()
    } else if low_value(s.last(), set_max_rarity) {
        kept(s.drop_last(), set_max_rarity)
    } else {
        kept(s.drop_last(), set_max_rarity).push(s.last())
    }
}

/// The final filter leaves no low-value artifact, and keeps every other
/// one.
pub proof fn filter_drops_exactly_low_value(s: Seq<GoodArtifact>, set_max_rarity: Seq<(String, i32)>)
    ensures
        forall|i: int|
            0 <= i < kept(s, set_max_rarity).len() ==> !low_value(
                #[trigger] kept(s, set_max_rarity)[i],
                set_max_rarity,
            ) && s.contains(kept(s, set_max_rarity)[i]),
        forall|i: int|
            0 <= i < s.len() && !low_value(#[trigger] s[i], set_max_rarity) ==> kept(
                s,
                set_max_rarity,
            ).contains(s[i]),
    decreases s.len(),
{
    if s.len() > 0 {
        let p = s.drop_last();
        filter_drops_exactly_low_value(p, set_max_rarity);
        let k = kept(s, set_max_rarity);
        let kp = kept(p, set_max_rarity);
        assert forall|i: int| 0 <= i < k.len() implies !low_value(#[trigger] k[i], set_max_rarity)
            && s.contains(k[i]) by {
            if i < kp.len() {
                assert(k[i] == kp[i]);
                let j = choose|j: int| 0 <= j < p.len() && p[j] == kp[i];
                assert(s[j] == p[j]);
            } else {
                assert(k[i] == s.last());
                assert(s[s.len() - 1] == s.last());
            }
        }
        assert forall|i: int| 0 <= i < s.len() && !low_value(#[trigger] s[i], set_max_rarity)
            implies k.contains(s[i]) by {
            if i < s.len() - 1 {
                assert(p[i] == s[i]);
                let j = choose|j: int| 0 <= j < kp.len() && kp[j] == p[i];
                assert(k[j] == kp[j]);
            } else {
                assert(k[k.len() - 1] == s.last());
            }
        }
    }
}

fn is_low_value(a: &GoodArtifact, set_max_rarity: &Vec<(String, i32)>) -> (b: bool)
    ensures
        b == low_value(*a, set_max_rarity@),
{
    if a.rarity == 4 && a.level == 0 {
        proof {
            lemma_first_key_bounds(set_max_rarity@, a.set_key@);
        }
        match find_key(set_max_rarity, &a.set_key) {
            Some(k) => set_max_rarity[k].1 >= 5,
            None => false,
        }
    } else {
        false
    }
}

/// Drop the unleveled 4-star artifacts of sets that also come with 5 stars.
pub fn drop_low_value(artifacts: Vec<GoodArtifact>, set_max_rarity: &Vec<(String, i32)>) -> (r: Vec<
    GoodArtifact,
>)
    ensures
        r@ == kept(artifacts@, set_max_rarity@),
{
    let ghost orig = artifacts@;
    let n = artifacts.len();
    // Turn the list round, then take the artifacts back one by one in order.
    let mut rest = artifacts;
    let mut rev: Vec<GoodArtifact> = Vec::new();
    while rest.len() > 0
        invariant
            n == orig.len(),
            rest@ == orig.take(rest@.len() as int),
            rev@.len() == n - rest@.len(),
            forall|j: int| 0 <= j < rev@.len() ==> #[trigger] rev@[j] == orig[n - 1 - j],
        decreases rest.len(),
    {
        let ghost k = rest@.len();
        let a = rest.pop().unwrap();
        assert(a == orig[k - 1]);
        rev.push(a);
        assert(rest@ =~= orig.take(k - 1));
    }
    let mut r: Vec<GoodArtifact> = Vec::new();
    let mut i: usize = 0;
    assert(orig.take(0) =~= Seq::<GoodArtifact>::empty());
    while rev.len() > 0
        invariant
            n == orig.len(),
            i + rev@.len() == n,
            forall|j: int| 0 <= j < rev@.len() ==> #[trigger] rev@[j] == orig[n - 1 - j],
            r@ == kept(orig.take(i as int), set_max_rarity@),
        decreases rev.len(),
    {
        let a = rev.pop().unwrap();
        assert(a == orig[i as int]);
        assert(orig.take(i + 1).drop_last() =~= orig.take(i as int));
        if !is_low_value(&a, set_max_rarity) {
            r.push(a);
        }
        i += 1;
    }
    assert(orig.take(n as int) =~= orig);
    r
}

} // verus!
