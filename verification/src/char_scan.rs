//! The decisions of the character scan: walking through the characters,
//! when to stop, which tabs to capture, and which characters to read again.
//!
//! The scan loop itself (key presses, clicks, captures, OCR) runs outside;
//! it tells these functions what happened and does what they answer.
use vstd::prelude::*;
use crate::models::{GoodCharacter, GoodTalent};
use crate::names::{element_key, zh_element_to_good};
use crate::talents::{
    adjust_talents, adjusted_talents, character_suspicious, is_character_suspicious, ConstBonus,
    ScanMeta,
};
use crate::text::str_eq;

verus! {

/// Why the first pass stopped.
#[derive(Clone, Copy, Debug, PartialEq, Eq, Structural)]
pub enum StopReason {
    /// The first character came round again.
    LoopDetected,
    /// As many characters as asked for were scanned.
    MaxCount,
    /// Several characters were viewed and none could be read.
    NoResults,
    /// Too many names in a row could not be read.
    TooManyFailures,
}

/// A tab of the character screen.
#[derive(Clone, Copy, Debug, PartialEq, Eq, Structural)]
pub enum CharTab {
    Attributes,
    Constellation,
    Talents,
}

/// What to do after a name was read.
#[derive(Clone, Copy, Debug, PartialEq, Eq, Structural)]
pub enum NameStep {
    /// The first character again: the pass is over.
    LoopDetected,
    /// Capture this character; the screen shows the talents tab when
    /// `on_talents`, else the attributes tab.
    Capture { on_talents: bool },
}

/// What to do after a name could not be read (even on the retry).
#[derive(Clone, Copy, Debug, PartialEq, Eq, Structural)]
pub enum MissStep {
    /// The scan fails with an error.
    Abort,
    /// Skip the character; first go back to the attributes tab when
    /// `back_to_attributes`.
    Skip { back_to_attributes: bool },
}

/// What to do after a character's captures were handed on.
#[derive(Clone, Copy, Debug, PartialEq, Eq, Structural)]
pub enum AfterSent {
    Continue,
    Stop(StopReason),
    /// Nothing scanned yet after several characters: collect what has
    /// arrived and ask again (`after_recheck`).
    Recheck,
}

/// Consecutive unreadable names after which the pass stops.
pub const MAX_CONSECUTIVE_FAILURES: usize = 5;

/// Characters viewed after which a pass with no result stops.
pub const NO_RESULT_VIEWS: usize = 3;

/// The walk through the characters in the first pass.
pub struct CharacterScanState {
    /// The key of the first character read.
    pub first_name: Option<String>,
    /// Characters viewed (read or skipped).
    pub viewed: usize,
    /// Characters whose captures were handed on.
    pub sent: usize,
    /// Names that could not be read since the last one that could.
    pub consecutive_failures: usize,
    /// The next character starts on the talents tab (the direction of the
    /// tab walk alternates to save a tab switch).
    pub reverse: bool,
}

impl CharacterScanState {
    /// Nothing viewed yet, on the attributes tab.
    pub fn new() -> (s: Self)
        ensures
            s.first_name is None,
            s.viewed == 0 && s.sent == 0 && s.consecutive_failures == 0,
            !s.reverse,
    {
        CharacterScanState {
            first_name: None,
            viewed: 0,
            sent: 0,
            consecutive_failures: 0,
            reverse: false,
        }
    }

    /// The name of the character on screen was read as `name`: the pass
    /// ends when it is the first character's; else the first name is
    /// remembered, the failure count is reset, and the character is to be
    /// captured starting from the tab that is shown.
    pub fn on_name(&mut self, name: &str) -> (r: NameStep)
        ensures
            (old(self).first_name matches Some(f) && f@ == name@) ==> r == NameStep::LoopDetected
                && *final(self) == *old(self),
            !(old(self).first_name matches Some(f) && f@ == name@) ==> {
                &&& r == (NameStep::Capture { on_talents: old(self).reverse })
                &&& final(self).consecutive_failures == 0
                &&& final(self).viewed == old(self).viewed
                &&& final(self).sent == old(self).sent
                &&& final(self).reverse == old(self).reverse
                &&& final(self).first_name matches Some(f) && (f@ == match old(self).first_name {
                    Some(g) => g@,
                    None => name@,
                })
            },
    {
        match &self.first_name {
            Some(f) => {
                if str_eq(f.as_str(), name) {
                    return NameStep::LoopDetected;
                }
            },
            None => {
                self.first_name = Some(String::from_str(name));
            },
        }
        self.consecutive_failures = 0;
        NameStep::Capture { on_talents: self.reverse }
    }

    /// The name could not be read: without `continue_on_failure` the scan
    /// fails; else the character is skipped (going back to the attributes
    /// tab when on the talents tab), it counts as viewed and as a failure,
    /// and the next character starts on the attributes tab.
    pub fn on_name_missing(&mut self, continue_on_failure: bool) -> (r: MissStep)
        requires
            old(self).viewed < usize::MAX,
            old(self).consecutive_failures < usize::MAX,
        ensures
            !continue_on_failure ==> r == MissStep::Abort && *final(self) == *old(self),
            continue_on_failure ==> {
                &&& r == (MissStep::Skip { back_to_attributes: old(self).reverse })
                &&& final(self).viewed == old(self).viewed + 1
                &&& final(self).consecutive_failures == old(self).consecutive_failures + 1
                &&& !final(self).reverse
                &&& final(self).sent == old(self).sent
                &&& final(self).first_name == old(self).first_name
            },
    {
        if !continue_on_failure {
            return MissStep::Abort;
        }
        let back = self.reverse;
        self.consecutive_failures = self.consecutive_failures + 1;
        self.viewed = self.viewed + 1;
        self.reverse = false;
        MissStep::Skip { back_to_attributes: back }
    }

    /// After a skipped character, with `results` characters scanned so far:
    /// stop when more than three were viewed and none scanned, or after five
    /// failures in a row.
    pub fn stop_after_miss(&self, results: usize) -> (r: Option<StopReason>)
        ensures
            r == if self.viewed > NO_RESULT_VIEWS && results == 0 {
                Some(StopReason::NoResults)
            } else if self.consecutive_failures >= MAX_CONSECUTIVE_FAILURES {
                Some(StopReason::TooManyFailures)
            } else {
                None
            },
    {
        if self.viewed > NO_RESULT_VIEWS && results == 0 {
            Some(StopReason::NoResults)
        } else if self.consecutive_failures >= MAX_CONSECUTIVE_FAILURES {
            Some(StopReason::TooManyFailures)
        } else {
            None
        }
    }

    /// The captures of a character were handed on and the screen moved to
    /// the next character, which starts on the other tab.
    pub fn on_sent(&mut self)
        requires
            old(self).viewed < usize::MAX,
            old(self).sent < usize::MAX,
        ensures
            final(self).sent == old(self).sent + 1,
            final(self).viewed == old(self).viewed + 1,
            final(self).reverse == !old(self).reverse,
            final(self).consecutive_failures == old(self).consecutive_failures,
            final(self).first_name == old(self).first_name,
    {
        self.sent = self.sent + 1;
        self.viewed = self.viewed + 1;
        self.reverse = !self.reverse;
    }

    /// After a character was handed on, with `results` characters scanned
    /// so far: stop at `max_count` (0 for no limit); recheck when more than
    /// three were viewed and handed on and none scanned yet; stop after five
    /// failures in a row.
    pub fn after_sent(&self, results: usize, max_count: usize) -> (r: AfterSent)
        ensures
            r == if max_count > 0 && results >= max_count {
                AfterSent::Stop(StopReason::MaxCount)
            } else if self.viewed > NO_RESULT_VIEWS && results == 0 && self.sent > NO_RESULT_VIEWS {
                AfterSent::Recheck
            } else if self.consecutive_failures >= MAX_CONSECUTIVE_FAILURES {
                AfterSent::Stop(StopReason::TooManyFailures)
            } else {
                AfterSent::Continue
            },
    {
        if max_count > 0 && results >= max_count {
            AfterSent::Stop(StopReason::MaxCount)
        } else if self.viewed > NO_RESULT_VIEWS && results == 0 && self.sent > NO_RESULT_VIEWS {
            AfterSent::Recheck
        } else if self.consecutive_failures >= MAX_CONSECUTIVE_FAILURES {
            AfterSent::Stop(StopReason::TooManyFailures)
        } else {
            AfterSent::Continue
        }
    }

    /// After a recheck, with `results` characters scanned: stop when there
    /// are still none, or after five failures in a row.
    pub fn after_recheck(&self, results: usize) -> (r: Option<StopReason>)
        ensures
            r == if results == 0 {
                Some(StopReason::NoResults)
            } else if self.consecutive_failures >= MAX_CONSECUTIVE_FAILURES {
                Some(StopReason::TooManyFailures)
            } else {
                None
            },
    {
        if results == 0 {
            Some(StopReason::NoResults)
        } else if self.consecutive_failures >= MAX_CONSECUTIVE_FAILURES {
            Some(StopReason::TooManyFailures)
        } else {
            None
        }
    }
}

/// The tabs to click and capture after the first capture: the
/// constellation tab (unless the character has none), then the tab at the
/// other end.
pub open spec fn tab_walk(on_talents: bool, skip_constellation: bool) -> Seq<CharTab> {
    let last = if on_talents {
        CharTab::Attributes
    } else {
        CharTab::Talents
    };
    if skip_constellation {
        seq![last]
    } else {
        seq![CharTab::Constellation, last]
    }
}

/// The walk over a character's tabs ends on the tab that the next
/// character starts on (after `on_sent`, which turns the direction round).
pub proof fn tab_walk_ends_where_next_starts(on_talents: bool, skip_constellation: bool)
    ensures
        tab_walk(on_talents, skip_constellation).last() == if !on_talents {
            CharTab::Talents
        } else {
            CharTab::Attributes
        },
        tab_walk(on_talents, skip_constellation).len() == if skip_constellation {
            1int
        } else {
            2int
        },
{
}

/// The tabs to capture after the first capture of a character.
pub fn capture_tabs(on_talents: bool, skip_constellation: bool) -> (r: Vec<CharTab>)
    ensures
        r@ == tab_walk(on_talents, skip_constellation),
{
    let mut r: Vec<CharTab> = Vec::new();
    if !skip_constellation {
        r.push(CharTab::Constellation);
    }
    if on_talents {
        r.push(CharTab::Attributes);
    } else {
        r.push(CharTab::Talents);
    }
    assert(r@ =~= tab_walk(on_talents, skip_constellation));
    r
}

// ---------------------------------------------------------------------------
// Results of the first pass, and the second pass
// ---------------------------------------------------------------------------

/// The characters scanned so far, with the scan notes of every result and
/// the position in the roster at which each character was viewed.
pub struct ScanResults {
    pub characters: Vec<GoodCharacter>,
    /// One per result, read or not.
    pub metas: Vec<ScanMeta>,
    /// One per character.
    pub viewed_indices: Vec<usize>,
}

/// The characters to read again, with where each was viewed: those that
/// the first pass found suspicious (the `i`-th character is judged with the
/// `i`-th scan note, if any), in order.
pub open spec fn suspicious_targets(
    cs: Seq<GoodCharacter>,
    ms: Seq<ScanMeta>,
    vs: Seq<usize>,
    n: int,
) -> Seq<(usize, usize)>
    decreases n,
{
    if n <= 0 {
        Seq::empty()
    } else {
        let prev = suspicious_targets(cs, ms, vs, n - 1);
        let i = n - 1;
        if character_suspicious(
            cs[i],
            if i < ms.len() {
                Some(ms[i])
            } else {
                None
            },
        ) {
            prev.push((i as usize, vs[i]))
        } else {
            prev
        }
    }
}

impl ScanResults {
    /// Well formed: a viewed position for each character.
    pub open spec fn wf(&self) -> bool {
        self.characters@.len() == self.viewed_indices@.len()
    }

    /// Nothing scanned.
    pub fn new() -> (r: Self)
        ensures
            r.wf(),
            r.characters@.len() == 0 && r.metas@.len() == 0,
    {
        ScanResults { characters: Vec::new(), metas: Vec::new(), viewed_indices: Vec::new() }
    }

    /// A result of the first pass for the character viewed at
    /// `viewed_index`: its note is kept, and the character when it was read.
    pub fn record_scanned(
        &mut self,
        viewed_index: usize,
        character: Option<GoodCharacter>,
        meta: ScanMeta,
    )
        requires
            old(self).wf(),
        ensures
            final(self).wf(),
            final(self).metas@ == old(self).metas@.push(meta),
            match character {
                Some(c) => final(self).characters@ == old(self).characters@.push(c)
                    && final(self).viewed_indices@ == old(self).viewed_indices@.push(viewed_index),
                None => final(self).characters == old(self).characters && final(self).viewed_indices
                    == old(self).viewed_indices,
            },
    {
        match character {
            Some(c) => {
                self.characters.push(c);
                self.viewed_indices.push(viewed_index);
            },
            None => {},
        }
        self.metas.push(meta);
    }

    /// A result of the second pass replaces the character it was read for.
    pub fn record_rescanned(&mut self, char_index: usize, character: GoodCharacter)
        requires
            old(self).wf(),
            char_index < old(self).characters@.len(),
        ensures
            final(self).wf(),
            final(self).characters@ == old(self).characters@.update(char_index as int, character),
            final(self).metas == old(self).metas,
            final(self).viewed_indices == old(self).viewed_indices,
    {
        self.characters.set(char_index, character);
    }

    /// The characters to read again in the second pass, each with where it
    /// was viewed.
    pub fn rescan_targets(&self) -> (r: Vec<(usize, usize)>)
        requires
            self.wf(),
        ensures
            r@ == suspicious_targets(
                self.characters@,
                self.metas@,
                self.viewed_indices@,
                self.characters@.len() as int,
            ),
    {
        let mut r: Vec<(usize, usize)> = Vec::new();
        let mut i: usize = 0;
        while i < self.characters.len()
            invariant
                i <= self.characters@.len(),
                self.wf(),
                r@ == suspicious_targets(
                    self.characters@,
                    self.metas@,
                    self.viewed_indices@,
                    i as int,
                ),
            decreases self.characters.len() - i,
        {
            let meta = if i < self.metas.len() {
                Some(&self.metas[i])
            } else {
                None
            };
            if is_character_suspicious(&self.characters[i], meta) {
                r.push((i, self.viewed_indices[i]));
            }
            i += 1;
        }
        r
    }
}

/// Is the `i`-th scanned character suspicious (judged with the `i`-th scan
/// note, if any)?
pub open spec fn suspicious_at(cs: Seq<GoodCharacter>, ms: Seq<ScanMeta>, i: int) -> bool {
    character_suspicious(
        cs[i],
        if i < ms.len() {
            Some(ms[i])
        } else {
            None
        },
    )
}

/// The second pass reads again exactly the suspicious characters: each
/// target is a suspicious character with the position where it was viewed,
/// the targets come in the order of the characters, and every suspicious
/// character is among them.
pub proof fn rescan_targets_are_the_suspicious(
    cs: Seq<GoodCharacter>,
    ms: Seq<ScanMeta>,
    vs: Seq<usize>,
    n: int,
)
    requires
        0 <= n <= cs.len(),
        cs.len() == vs.len(),
        cs.len() <= usize::MAX,
    ensures
        forall|k: int|
            0 <= k < suspicious_targets(cs, ms, vs, n).len() ==> {
                let t = #[trigger] suspicious_targets(cs, ms, vs, n)[k];
                &&& 0 <= t.0 < n
                &&& suspicious_at(cs, ms, t.0 as int)
                &&& t.1 == vs[t.0 as int]
            },
        forall|k: int, l: int|
            0 <= k < l < suspicious_targets(cs, ms, vs, n).len() ==> #[trigger] suspicious_targets(
                cs,
                ms,
                vs,
                n,
            )[k].0 < #[trigger] suspicious_targets(cs, ms, vs, n)[l].0,
        forall|i: int|
            0 <= i < n && #[trigger] suspicious_at(cs, ms, i) ==> exists|k: int|
                0 <= k < suspicious_targets(cs, ms, vs, n).len() && #[trigger] suspicious_targets(
                    cs,
                    ms,
                    vs,
                    n,
                )[k].0 == i,
    decreases n,
{
    if n > 0 {
        rescan_targets_are_the_suspicious(cs, ms, vs, n - 1);
        let prev = suspicious_targets(cs, ms, vs, n - 1);
        let cur = suspicious_targets(cs, ms, vs, n);
        assert forall|i: int| 0 <= i < n && #[trigger] suspicious_at(cs, ms, i) implies exists|
            k: int,
        | 0 <= k < cur.len() && #[trigger] cur[k].0 == i by {
            if i < n - 1 {
                let k = choose|k: int| 0 <= k < prev.len() && #[trigger] prev[k].0 == i;
                assert(cur[k] == prev[k]);
            } else {
                assert(cur[prev.len() as int].0 == i);
            }
        }
    }
}

/// How to reach the character viewed at `target` from the one at
/// `current`: forward steps, or (behind) reopening the screen, which starts
/// at the first character, and stepping from there.
pub fn phase2_move(current: usize, target: usize) -> (r: (bool, usize))
    ensures
        r.0 == (target < current),
        r.1 == if target < current {
            target as int
        } else {
            target - current
        },
{
    if target >= current {
        (false, target - current)
    } else {
        (true, target)
    }
}

/// The rows of the talent list to open for the three talent details: the
/// fourth row holds the burst for characters with an extra talent row.
pub fn talent_rows(special_burst: bool) -> (r: [usize; 3])
    ensures
        r[0] == 0 && r[1] == 1 && r[2] == if special_burst {
            3usize
        } else {
            2usize
        },
{
    if special_burst {
        [0, 1, 3]
    } else {
        [0, 1, 2]
    }
}

/// The wait after opening a detail popup: three quarters of the tab delay
/// for the first, half of it for the others.
pub fn popup_delay(tab_delay: u64, first: bool) -> (d: u64)
    requires
        tab_delay * 3 <= u64::MAX,
    ensures
        d == if first {
            tab_delay * 3 / 4
        } else {
            (tab_delay / 2) as int
        },
{
    if first {
        tab_delay * 3 / 4
    } else {
        tab_delay / 2
    }
}

/// The wait between steps to the next character while jumping ahead: half
/// the delay, at least 100 ms.
pub fn jump_step_delay(next_delay: u64) -> (d: u64)
    ensures
        d == if next_delay / 2 > 100 {
            next_delay / 2
        } else {
            100
        },
{
    if next_delay / 2 > 100 {
        next_delay / 2
    } else {
        100
    }
}


// ---------------------------------------------------------------------------
// From readings to characters
// ---------------------------------------------------------------------------

/// The characters whose element the export records (their element varies).
pub open spec fn element_character(name: Seq<char>) -> bool {
    name == "Traveler"@ || name == "Manekin"@ || name == "Manekina"@
}

fn is_element_character(name: &str) -> (b: bool)
    ensures
        b == element_character(name@),
{
    str_eq(name, "Traveler") || str_eq(name, "Manekin") || str_eq(name, "Manekina")
}

/// A talent level as read, 1 when nothing was read.
pub open spec fn or_one(v: int) -> int {
    if v > 0 {
        v
    } else {
        1
    }
}

/// The level of a talent in the second pass: the detail view when it was
/// read, else the overview, else 1.
pub open spec fn detail_or_overview(detail: int, overview: int) -> int {
    if detail > 0 {
        detail
    } else {
        or_one(overview)
    }
}

/// The talents that a reading adjusts to.
pub open spec fn talents_of(t: crate::talents::TalentReading) -> (int, int, int) {
    (t.auto, t.skill, t.burst)
}

/// The character of a first-pass reading: talents default to 1 and are
/// adjusted for constellation bonuses; the element is kept (in GOOD form)
/// for the characters whose element varies.
pub open spec fn first_pass_character(
    c: GoodCharacter,
    name: Seq<char>,
    element: Option<Seq<char>>,
    level: i32,
    ascension: i32,
    constellation: i32,
    read: (i32, i32, i32),
    bonuses: Seq<(String, ConstBonus)>,
) -> bool {
    let t = adjusted_talents(
        or_one(read.0 as int),
        or_one(read.1 as int),
        or_one(read.2 as int),
        name,
        constellation as int,
        bonuses,
    );
    &&& c.key@ == name
    &&& c.level == level
    &&& c.ascension == ascension
    &&& c.constellation == constellation
    &&& c.talent.auto == t.auto && c.talent.skill == t.skill && c.talent.burst == t.burst
    &&& match c.element {
        Some(e) => element_character(name) && (element matches Some(z) && element_key(z)
            == Some(e@)),
        None => !element_character(name) || element is None || element_key(element->0) is None,
    }
}

/// Build the character of a first-pass reading, with its scan note: the
/// talents as read (1 when nothing was read) and whether the adjustment
/// found them suspicious.
pub fn scanned_character(
    name: String,
    element: Option<String>,
    level: i32,
    ascension: i32,
    constellation: i32,
    read: (i32, i32, i32),
    bonuses: &Vec<(String, ConstBonus)>,
) -> (r: (GoodCharacter, ScanMeta))
    ensures
        first_pass_character(
            r.0,
            name@,
            match element {
                Some(z) => Some(z@),
                None => None,
            },
            level,
            ascension,
            constellation,
            read,
            bonuses@,
        ),
        r.1.raw_skill == or_one(read.1 as int),
        r.1.raw_burst == or_one(read.2 as int),
        r.1.talent_suspicious == adjusted_talents(
            or_one(read.0 as int),
            or_one(read.1 as int),
            or_one(read.2 as int),
            name@,
            constellation as int,
            bonuses@,
        ).suspicious,
{
    let auto = if read.0 > 0 {
        read.0
    } else {
        1
    };
    let skill = if read.1 > 0 {
        read.1
    } else {
        1
    };
    let burst = if read.2 > 0 {
        read.2
    } else {
        1
    };
    let (a, s, b, suspicious) = adjust_talents(auto, skill, burst, name.as_str(), constellation, bonuses);
    let good_element = if is_element_character(name.as_str()) {
        match &element {
            Some(z) => zh_element_to_good(z.as_str()),
            None => None,
        }
    } else {
        None
    };
    let c = GoodCharacter {
        key: name,
        level,
        constellation,
        ascension,
        talent: GoodTalent { auto: a, skill: s, burst: b },
        element: good_element,
    };
    (c, ScanMeta { talent_suspicious: suspicious, raw_skill: skill, raw_burst: burst })
}

/// The number of leading activated constellation nodes.
pub open spec fn leading_active(s: Seq<bool>) -> int
    decreases s.len(),
{
    if s.len() == 0 || !s[0] {
        0
    } else {
        1 + leading_active(s.skip(1))
    }
}

proof fn lemma_leading_active(s: Seq<bool>, i: int)
    requires
        0 <= i <= s.len(),
        forall|j: int| 0 <= j < i ==> s[j],
    ensures
        leading_active(s) == i + leading_active(s.skip(i)),
    decreases i,
{
    if i > 0 {
        lemma_leading_active(s.skip(1), i - 1);
        assert(s.skip(1).skip(i - 1) =~= s.skip(i));
    } else {
        assert(s.skip(0) =~= s);
    }
}

/// The constellation that the opened nodes show: the activated ones before
/// the first locked one.
pub fn constellation_from_nodes(activated: &Vec<bool>) -> (c: i32)
    requires
        activated@.len() <= i32::MAX,
    ensures
        c == leading_active(activated@),
{
    let mut i: usize = 0;
    while i < activated.len() && activated[i]
        invariant
            i <= activated@.len(),
            activated@.len() <= i32::MAX,
            forall|j: int| 0 <= j < i ==> activated@[j],
        decreases activated.len() - i,
    {
        i += 1;
    }
    proof {
        lemma_leading_active(activated@, i as int);
        if i < activated@.len() {
            assert(activated@.skip(i as int)[0] == activated@[i as int]);
        }
    }
    i as i32
}

/// How many of the three talents are at level 1.
pub open spec fn ones(auto: int, skill: int, burst: int) -> int {
    (if auto == 1 {
        1int
    } else {
        0
    }) + (if skill == 1 {
        1int
    } else {
        0
    }) + (if burst == 1 {
        1int
    } else {
        0
    })
}

/// The character after a second-pass reading of `old`: a higher level
/// (with its ascension) replaces the old one; a different constellation
/// replaces the old one; the adjusted talents replace the old ones when
/// fewer of them are at 1, or when the constellation changed; the element
/// stays only for the characters whose element varies.
pub open spec fn merged(
    old: GoodCharacter,
    new_level: i32,
    new_ascension: i32,
    new_constellation: i32,
    talents: (int, int, int),
) -> GoodCharacter {
    let level_up = new_level > old.level;
    let const_changed = new_constellation != old.constellation;
    let better = ones(talents.0, talents.1, talents.2) < ones(
        old.talent.auto as int,
        old.talent.skill as int,
        old.talent.burst as int,
    );
    GoodCharacter {
        key: old.key,
        level: if level_up {
            new_level
        } else {
            old.level
        },
        ascension: if level_up {
            new_ascension
        } else {
            old.ascension
        },
        constellation: new_constellation,
        talent: if better || const_changed {
            GoodTalent {
                auto: talents.0 as i32,
                skill: talents.1 as i32,
                burst: talents.2 as i32,
            }
        } else {
            old.talent
        },
        element: if element_character(old.key@) {
            old.element
        } else {
            None
        },
    }
}

/// Combine a second-pass reading with the character of the first pass.
/// `overview` and `detail` are the talent levels read on the overview and
/// in the detail views (0 where nothing was read).
pub fn rescan_character(
    old: GoodCharacter,
    new_level: i32,
    new_ascension: i32,
    new_constellation: i32,
    overview: (i32, i32, i32),
    detail: (i32, i32, i32),
    bonuses: &Vec<(String, ConstBonus)>,
) -> (c: GoodCharacter)
    ensures
        c == merged(
            old,
            new_level,
            new_ascension,
            new_constellation,
            talents_of(
                adjusted_talents(
                    detail_or_overview(detail.0 as int, overview.0 as int),
                    detail_or_overview(detail.1 as int, overview.1 as int),
                    detail_or_overview(detail.2 as int, overview.2 as int),
                    old.key@,
                    new_constellation as int,
                    bonuses@,
                ),
            ),
        ),
{
    let raw_auto = if detail.0 > 0 {
        detail.0
    } else if overview.0 > 0 {
        overview.0
    } else {
        1
    };
    let raw_skill = if detail.1 > 0 {
        detail.1
    } else if overview.1 > 0 {
        overview.1
    } else {
        1
    };
    let raw_burst = if detail.2 > 0 {
        detail.2
    } else if overview.2 > 0 {
        overview.2
    } else {
        1
    };
    let (a, s, b, _) = adjust_talents(
        raw_auto,
        raw_skill,
        raw_burst,
        old.key.as_str(),
        new_constellation,
        bonuses,
    );
    let level_up = new_level > old.level;
    let const_changed = new_constellation != old.constellation;
    let old_ones = (if old.talent.auto == 1 {
        1u32
    } else {
        0
    }) + (if old.talent.skill == 1 {
        1u32
    } else {
        0
    }) + (if old.talent.burst == 1 {
        1u32
    } else {
        0
    });
    let new_ones = (if a == 1 {
        1u32
    } else {
        0
    }) + (if s == 1 {
        1u32
    } else {
        0
    }) + (if b == 1 {
        1u32
    } else {
        0
    });
    let better = new_ones < old_ones;
    let keep_element = is_element_character(old.key.as_str());
    let GoodCharacter { key, level, constellation: _, ascension, talent, element } = old;
    GoodCharacter {
        key,
        level: if level_up {
            new_level
        } else {
            level
        },
        ascension: if level_up {
            new_ascension
        } else {
            ascension
        },
        constellation: new_constellation,
        talent: if better || const_changed {
            GoodTalent { auto: a, skill: s, burst: b }
        } else {
            talent
        },
        element: if keep_element {
            element
        } else {
            None
        },
    }
}

/// How a reading names the character: the part after the last `/` (or
/// `／`), trimmed.
pub open spec fn after_last_slash(t: Seq<char>) -> Seq<char>
    decreases t.len(),
{
    if t.len() == 0 {
        Seq::empty()
    } else if t.last() == '/' || t.last() == '／' {
        Seq::empty()
    } else {
        after_last_slash(t.drop_last()).push(t.last())
    }
}

/// The position of the first pair of `m` whose key is `key`.
pub open spec fn first_with_key(m: Seq<(String, String)>, key: Seq<char>) -> Option<int>
    decreases m.len(),
{
    if m.len() == 0 {
        None
    } else {
        match first_with_key(m.drop_last(), key) {
            Some(i) => Some(i),
            None => if m.last().1@ == key {
                Some(m.len() - 1)
            } else {
                None
            },
        }
    }
}

/// The Chinese name of the character `key` (the key itself when the map has
/// none).
pub open spec fn chinese_name(m: Seq<(String, String)>, key: Seq<char>) -> Seq<char> {
    match first_with_key(m, key) {
        Some(i) => m[i].0@,
        None => key,
    }
}

/// The readable name to show for a name reading: the Chinese name, unless
/// the reading (after its last slash) already shows exactly it.
pub open spec fn name_to_show(raw: Seq<char>, key: Seq<char>, m: Seq<(String, String)>) -> Option<
    Seq<char>,
> {
    if crate::text::trim_seq(after_last_slash(raw)) == chinese_name(m, key) {
        None
    } else {
        Some(chinese_name(m, key))
    }
}

proof fn lemma_first_with_key_prefix(m: Seq<(String, String)>, key: Seq<char>, k: int)
    requires
        0 <= k <= m.len(),
        first_with_key(m.take(k), key) is Some,
    ensures
        first_with_key(m, key) == first_with_key(m.take(k), key),
    decreases m.len() - k,
{
    if k < m.len() {
        assert(m.take(k + 1).drop_last() =~= m.take(k));
        lemma_first_with_key_prefix(m, key, k + 1);
    } else {
        assert(m.take(k) =~= m);
    }
}

fn find_by_key(m: &Vec<(String, String)>, key: &str) -> (r: Option<usize>)
    ensures
        match r {
            Some(k) => first_with_key(m@, key@) == Some(k as int) && k < m@.len(),
            None => first_with_key(m@, key@) is None,
        },
{
    let mut i: usize = 0;
    while i < m.len()
        invariant
            i <= m@.len(),
            first_with_key(m@.take(i as int), key@) is None,
        decreases m.len() - i,
    {
        assert(m@.take(i + 1).drop_last() =~= m@.take(i as int));
        if str_eq(m[i].1.as_str(), key) {
            proof {
                lemma_first_with_key_prefix(m@, key@, i + 1);
            }
            return Some(i);
        }
        i += 1;
    }
    assert(m@.take(m@.len() as int) =~= m@);
    None
}

/// The readable name to show for the name reading `raw` of the character
/// `key`, if any.
pub fn name_display(raw: &str, key: &str, name_map: &Vec<(String, String)>) -> (r: Option<String>)
    ensures
        match r {
            Some(n) => name_to_show(raw@, key@, name_map@) == Some(n@),
            None => name_to_show(raw@, key@, name_map@) is None,
        },
{
    let found = find_by_key(name_map, key);
    let cn: String = match found {
        Some(k) => name_map[k].0.clone(),
        None => String::from_str(key),
    };
    // The text after the last slash.
    let t = crate::text::to_chars(raw);
    let mut start: usize = t.len();
    assert(t@.take(t@.len() as int) =~= t@);
    assert(t@.skip(t@.len() as int) =~= Seq::<char>::empty());
    while start > 0 && t[start - 1] != '/' && t[start - 1] != '／'
        invariant
            start <= t@.len(),
            after_last_slash(t@) == after_last_slash(t@.take(start as int)) + t@.skip(
                start as int,
            ),
        decreases start,
    {
        assert(t@.take(start as int).drop_last() =~= t@.take(start - 1));
        assert(t@.skip(start - 1) =~= seq![t@[start - 1]] + t@.skip(start as int));
        start -= 1;
    }
    proof {
        if start > 0 {
            assert(t@.take(start as int).last() == t@[start - 1]);
        }
    }
    let tail = crate::text::slice_chars(&t, start, t.len());
    assert(tail@ =~= t@.skip(start as int));
    let shown = crate::text::trim_chars(&tail);
    let cn_chars = crate::text::to_chars(cn.as_str());
    if crate::text::chars_eq(&shown, &cn_chars) {
        None
    } else {
        Some(cn)
    }
}

/// The top ascension phase (phases run from 0 to 6), the phase of a
/// character at level 90 or beyond.
pub const TOP_ASCENSION: i32 = 6;

/// The final clean-up of a scanned character: a level that no character can
/// have is snapped down, 91-94 to 90 and 96-99 to 95, with the ascension of
/// that level (the top phase); any other character is left as it is. The
/// result tells whether the level was snapped.
pub fn snap_impossible_level(c: &mut GoodCharacter) -> (snapped: bool)
    ensures
        snapped == (91 <= old(c).level <= 94 || 96 <= old(c).level <= 99),
        91 <= old(c).level <= 94 ==> *final(c) == (GoodCharacter {
            level: 90,
            ascension: TOP_ASCENSION,
            ..*old(c)
        }),
        96 <= old(c).level <= 99 ==> *final(c) == (GoodCharacter {
            level: 95,
            ascension: TOP_ASCENSION,
            ..*old(c)
        }),
        !snapped ==> *final(c) == *old(c),
{
    if 91 <= c.level && c.level <= 94 {
        c.level = 90;
        c.ascension = TOP_ASCENSION;
        true
    } else if 96 <= c.level && c.level <= 99 {
        c.level = 95;
        c.ascension = TOP_ASCENSION;
        true
    } else {
        false
    }
}

} // verus!
