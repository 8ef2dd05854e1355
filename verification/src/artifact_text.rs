//! Reading an artifact's set from OCR text, and the fingerprint by which
//! two scanned artifacts are told apart.
use vstd::prelude::*;
use crate::fuzzy::{fuzzy_index, fuzzy_match_index, NameMap};
use crate::equip_parser::{contains_chars, contains_seq};
use crate::mappings::MappingManager;
use crate::models::{GoodArtifact, GoodSubStat};
use crate::text::{
    chars_eq, decimal, digit_char, push_char, push_decimal, push_signed, push_str, signed_decimal,
    slice_chars, to_chars, trim_chars, trim_seq,
};

verus! {

// ---------------------------------------------------------------------------
// Set names in OCR text
// ---------------------------------------------------------------------------

/// `s` without any trailing `c` (`str::trim_end_matches` with one char).
pub open spec fn strip_end(s: Seq<char>, c: char) -> Seq<char>
    decreases s.len(),
{
    if s.len() > 0 && s.last() == c {
        strip_end(s.drop_last(), c)
    } else {
        s
    }
}

/// The set-name text without the punctuation that the OCR picks up from the
/// set description after it (`：`, `:`, `；`, `;`) and without white space.
pub open spec fn clean_set_text(t: Seq<char>) -> Seq<char> {
    trim_seq(
        strip_end(strip_end(strip_end(strip_end(trim_seq(t), '：'), ':'), '；'), ';'),
    )
}

/// One line of the text without a trailing colon and white space.
pub open spec fn clean_line(l: Seq<char>) -> Seq<char> {
    trim_seq(strip_end(strip_end(trim_seq(l), '：'), ':'))
}

/// Shorter than two bytes in UTF-8: empty, or one ASCII character.
pub open spec fn too_short(s: Seq<char>) -> bool {
    s.len() == 0 || (s.len() == 1 && (s[0] as u32) < 0x80)
}

/// The lines of `t`, split at each `'\n'` (`str::split('\n')`).
pub open spec fn split_lines(t: Seq<char>) -> Seq<Seq<char>>
    decreases t.len(),
{
    if t.len() == 0 {
        seq![Seq::<char>::empty()]
    } else if t.last() == '\n' {
        split_lines(t.drop_last()).push(Seq::<char>::empty())
    } else {
        let ls = split_lines(t.drop_last());
        ls.update(ls.len() - 1, ls.last().push(t.last()))
    }
}

proof fn lemma_split_lines_nonempty(t: Seq<char>)
    ensures
        split_lines(t).len() > 0,
    decreases t.len(),
{
    if t.len() > 0 {
        lemma_split_lines_nonempty(t.drop_last());
    }
}

/// The set that one line names, if it is long enough to name one.
pub open spec fn line_key(l: Seq<char>, m: Seq<(String, String)>) -> Option<int> {
    if too_short(clean_line(l)) {
        None
    } else {
        fuzzy_index(clean_line(l), m)
    }
}

/// The set named by the first line of `ls` that names one.
pub open spec fn first_line_key(ls: Seq<Seq<char>>, m: Seq<(String, String)>) -> Option<int>
    decreases ls.len(),
{
    if ls.len() == 0 {
        None
    } else {
        match first_line_key(ls.drop_last(), m) {
            Some(i) => Some(i),
            None => line_key(ls.last(), m),
        }
    }
}

/// The position in `m` of the set that the OCR text `t` names: the cleaned
/// text, else the whole trimmed text (when cleaning changed it), else the
/// first line that names a set; none for empty text.
pub open spec fn set_key_index(t: Seq<char>, m: Seq<(String, String)>) -> Option<int> {
    if t.len() == 0 {
        None
    } else {
        let c = clean_set_text(t);
        let whole = trim_seq(t);
        match fuzzy_index(c, m) {
            Some(i) => Some(i),
            None => if c != whole && fuzzy_index(whole, m) is Some {
                fuzzy_index(whole, m)
            } else {
                first_line_key(split_lines(t), m)
            },
        }
    }
}

proof fn lemma_first_line_key_prefix(ls: Seq<Seq<char>>, m: Seq<(String, String)>, k: int)
    requires
        0 <= k <= ls.len(),
        first_line_key(ls.take(k), m) is Some,
    ensures
        first_line_key(ls, m) == first_line_key(ls.take(k), m),
    decreases ls.len() - k,
{
    if k < ls.len() {
        assert(ls.take(k + 1).drop_last() =~= ls.take(k));
        lemma_first_line_key_prefix(ls, m, k + 1);
    } else {
        assert(ls.take(k) =~= ls);
    }
}

fn strip_end_chars(s: &Vec<char>, c: char) -> (r: Vec<char>)
    ensures
        r@ == strip_end(s@, c),
{
    let mut n: usize = s.len();
    assert(s@.take(n as int) =~= s@);
    while n > 0 && s[n - 1] == c
        invariant
            n <= s@.len(),
            strip_end(s@.take(n as int), c) == strip_end(s@, c),
        decreases n,
    {
        assert(s@.take(n as int).drop_last() =~= s@.take(n - 1));
        n -= 1;
    }
    let r = slice_chars(s, 0, n);
    assert(r@ =~= s@.take(n as int));
    r
}

fn clean_set_chars(t: &Vec<char>) -> (r: Vec<char>)
    ensures
        r@ == clean_set_text(t@),
{
    let a = trim_chars(t);
    let b = strip_end_chars(&a, '：');
    let c = strip_end_chars(&b, ':');
    let d = strip_end_chars(&c, '；');
    let e = strip_end_chars(&d, ';');
    trim_chars(&e)
}

fn clean_line_chars(l: &Vec<char>) -> (r: Vec<char>)
    ensures
        r@ == clean_line(l@),
{
    let a = trim_chars(l);
    let b = strip_end_chars(&a, '：');
    let c = strip_end_chars(&b, ':');
    trim_chars(&c)
}

fn line_index(l: &Vec<char>, m: &NameMap) -> (r: Option<usize>)
    ensures
        match r {
            Some(i) => line_key(l@, m@) == Some(i as int) && i < m.len(),
            None => line_key(l@, m@) is None,
        },
{
    let c = clean_line_chars(l);
    if c.len() == 0 || (c.len() == 1 && (c[0] as u32) < 0x80) {
        return None;
    }
    fuzzy_match_index(&c, m)
}

/// The lines of `t`, each as its characters.
fn lines_of(t: &Vec<char>) -> (r: Vec<Vec<char>>)
    ensures
        r@.len() == split_lines(t@).len(),
        forall|k: int| 0 <= k < r@.len() ==> #[trigger] r@[k]@ == split_lines(t@)[k],
{
    let mut done: Vec<Vec<char>> = Vec::new();
    let ghost mut g: Seq<Seq<char>> = Seq::empty();
    let mut cur: Vec<char> = Vec::new();
    let mut i: usize = 0;
    assert(t@.take(0) =~= Seq::<char>::empty());
    while i < t.len()
        invariant
            i <= t@.len(),
            done@.len() == g.len(),
            forall|k: int| 0 <= k < g.len() ==> #[trigger] done@[k]@ == g[k],
            g.push(cur@) == split_lines(t@.take(i as int)),
        decreases t.len() - i,
    {
        assert(t@.take(i + 1).drop_last() =~= t@.take(i as int));
        assert(t@.take(i + 1).last() == t@[i as int]);
        if t[i] == '\n' {
            let finished = cur;
            proof {
                g = g.push(finished@);
            }
            done.push(finished);
            cur = Vec::new();
            assert(g.push(cur@) =~= split_lines(t@.take(i + 1)));
        } else {
            cur.push(t[i]);
            assert(g.push(cur@) =~= split_lines(t@.take(i + 1)));
        }
        i += 1;
    }
    assert(t@.take(t.len() as int) =~= t@);
    let ghost last = cur@;
    done.push(cur);
    proof {
        assert(g.push(last) == split_lines(t@));
        assert forall|k: int| 0 <= k < done@.len() implies #[trigger] done@[k]@ == split_lines(
            t@,
        )[k] by {
            if k < g.len() {
                assert(split_lines(t@)[k] == g.push(last)[k]);
            }
        }
    }
    done
}

fn first_line_index(t: &Vec<char>, m: &NameMap) -> (r: Option<usize>)
    ensures
        match r {
            Some(i) => first_line_key(split_lines(t@), m@) == Some(i as int) && i < m.len(),
            None => first_line_key(split_lines(t@), m@) is None,
        },
{
    let lines = lines_of(t);
    let ghost ls = split_lines(t@);
    let mut j: usize = 0;
    assert(ls.take(0) =~= Seq::<Seq<char>>::empty());
    while j < lines.len()
        invariant
            j <= lines@.len(),
            lines@.len() == ls.len(),
            ls == split_lines(t@),
            forall|k: int| 0 <= k < lines@.len() ==> #[trigger] lines@[k]@ == ls[k],
            first_line_key(ls.take(j as int), m@) is None,
        decreases lines.len() - j,
    {
        assert(ls.take(j + 1).drop_last() =~= ls.take(j as int));
        assert(ls.take(j + 1).last() == lines@[j as int]@);
        match line_index(&lines[j], m) {
            Some(k) => {
                proof {
                    lemma_first_line_key_prefix(ls, m@, j + 1);
                }
                return Some(k);
            },
            None => {},
        }
        j += 1;
    }
    assert(ls.take(lines.len() as int) =~= ls);
    None
}

/// The GOOD key of the artifact set that the OCR text names, with the
/// fallbacks of `set_key_index`.
pub fn find_set_key_in_text(mappings: &MappingManager, text: &str) -> (r: Option<String>)
    ensures
        match r {
            Some(k) => set_key_index(text@, mappings.artifact_set_map@) matches Some(i) && 0 <= i
                < mappings.artifact_set_map@.len() && k == mappings.artifact_set_map@[i].1,
            None => set_key_index(text@, mappings.artifact_set_map@) is None,
        },
{
    let m = &mappings.artifact_set_map;
    let t = to_chars(text);
    if t.len() == 0 {
        return None;
    }
    let cleaned = clean_set_chars(&t);
    match fuzzy_match_index(&cleaned, m) {
        Some(i) => {
            return Some(m[i].1.clone());
        },
        None => {},
    }
    let whole = trim_chars(&t);
    if !chars_eq(&cleaned, &whole) {
        match fuzzy_match_index(&whole, m) {
            Some(i) => {
                return Some(m[i].1.clone());
            },
            None => {},
        }
    }
    match first_line_index(&t, m) {
        Some(i) => Some(m[i].1.clone()),
        None => None,
    }
}

// ---------------------------------------------------------------------------
// Decisions while reading one artifact
// ---------------------------------------------------------------------------

/// What to do once the rarity and the slot of an item are read.
#[derive(Clone, Debug)]
pub enum SlotStep {
    /// An item of 3 stars or fewer: the artifacts worth scanning are over.
    Stop,
    /// Skip this item.
    Skip,
    /// The scan fails.
    Fail,
    /// Go on with this slot key.
    Slot(String),
}

/// The step after reading the rarity and the slot (`None` when the slot
/// text names no slot): 3 stars or fewer stop the scan; a known slot goes
/// on; an unknown slot is skipped for a 4-star item (an elixir essence,
/// say) or when failures are to be skipped, and fails the scan otherwise.
pub fn slot_step(rarity: i32, slot: Option<String>, continue_on_failure: bool) -> (r: SlotStep)
    ensures
        rarity <= 3 ==> r is Stop,
        rarity > 3 ==> match slot {
            Some(k) => r matches SlotStep::Slot(x) && x == k,
            None => if rarity == 4 || continue_on_failure {
                r is Skip
            } else {
                r is Fail
            },
        },
{
    if rarity <= 3 {
        return SlotStep::Stop;
    }
    match slot {
        Some(k) => SlotStep::Slot(k),
        None => if rarity == 4 || continue_on_failure {
            SlotStep::Skip
        } else {
            SlotStep::Fail
        },
    }
}

/// The percent form of a main stat read on a sands, goblet or circlet,
/// where HP, ATK and DEF are always percentages (the read region shows the
/// stat's name but not its `%`): `hp`, `atk` and `def` become `hp_`,
/// `atk_` and `def_`; any other key stays.
pub open spec fn main_stat_fixup(k: Seq<char>) -> Seq<char> {
    if k == "hp"@ || k == "atk"@ || k == "def"@ {
        k.push('_')
    } else {
        k
    }
}

/// The main stat of an artifact: HP on a flower, ATK on a plume; on the
/// other slots the stat read from the panel (`parsed`), in percent form.
pub open spec fn main_stat_of(slot: Seq<char>, parsed: Option<Seq<char>>) -> Option<Seq<char>> {
    if slot == "flower"@ {
        Some("hp"@)
    } else if slot == "plume"@ {
        Some("atk"@)
    } else {
        match parsed {
            Some(k) => Some(main_stat_fixup(k)),
            None => None,
        }
    }
}

/// The main stat of an artifact: a flower's is always flat HP and a
/// plume's flat ATK, whatever was read; on any other slot a read `hp`,
/// `atk` or `def` is the percent stat `hp_`, `atk_` or `def_` (those slots
/// never carry the flat ones), any other read key stays, and nothing read
/// gives nothing.
pub proof fn main_stat_law(slot: Seq<char>, k: Seq<char>)
    ensures
        main_stat_of("flower"@, Some(k)) == Some("hp"@),
        main_stat_of("plume"@, Some(k)) == Some("atk"@),
        slot != "flower"@ && slot != "plume"@ ==> {
            &&& main_stat_of(slot, Some("hp"@)) == Some("hp_"@)
            &&& main_stat_of(slot, Some("atk"@)) == Some("atk_"@)
            &&& main_stat_of(slot, Some("def"@)) == Some("def_"@)
            &&& (k != "hp"@ && k != "atk"@ && k != "def"@ ==> main_stat_of(slot, Some(k)) == Some(k))
            &&& main_stat_of(slot, None) is None
        },
{
    reveal_strlit("flower");
    reveal_strlit("plume");
    reveal_strlit("hp");
    reveal_strlit("atk");
    reveal_strlit("def");
    reveal_strlit("hp_");
    reveal_strlit("atk_");
    reveal_strlit("def_");
    assert("plume"@.len() == 5 && "flower"@.len() == 6);
    assert("plume"@ != "flower"@);
    assert("hp"@.push('_') =~= "hp_"@);
    assert("atk"@.push('_') =~= "atk_"@);
    assert("def"@.push('_') =~= "def_"@);
}

/// The main stat key of an artifact in the slot `slot`, given the key read
/// from its main-stat text (`None` when none was read).
pub fn main_stat_for(slot: &str, parsed: Option<String>) -> (r: Option<String>)
    ensures
        match r {
            Some(k) => main_stat_of(
                slot@,
                match parsed {
                    Some(p) => Some(p@),
                    None => None,
                },
            ) == Some(k@),
            None => main_stat_of(
                slot@,
                match parsed {
                    Some(p) => Some(p@),
                    None => None,
                },
            ) is None,
        },
{
    proof {
        reveal_strlit("flower");
        reveal_strlit("plume");
        reveal_strlit("hp");
        reveal_strlit("atk");
        reveal_strlit("def");
    }
    if crate::text::str_eq(slot, "flower") {
        return Some(String::from_str("hp"));
    }
    if crate::text::str_eq(slot, "plume") {
        return Some(String::from_str("atk"));
    }
    match parsed {
        Some(k) => {
            if crate::text::str_eq(k.as_str(), "hp") || crate::text::str_eq(k.as_str(), "atk")
                || crate::text::str_eq(k.as_str(), "def") {
                let mut out = k;
                push_char(&mut out, '_');
                Some(out)
            } else {
                Some(k)
            }
        },
        None => None,
    }
}

/// The step when no main stat could be read: skip the item when failures
/// are to be skipped, else fail the scan.
pub fn missing_main_stat_step(continue_on_failure: bool) -> (r: SlotStep)
    ensures
        continue_on_failure ==> r is Skip,
        !continue_on_failure ==> r is Fail,
{
    if continue_on_failure {
        SlotStep::Skip
    } else {
        SlotStep::Fail
    }
}

/// What to do with one substat line of the panel.
#[derive(Clone, Copy, Debug, PartialEq, Eq, Structural)]
pub enum LineStep {
    /// Too short to be a substat: go to the next line.
    Ignore,
    /// The set bonus (`2件套`) begins: there are no more substats.
    Stop,
    /// Parse the line as a substat.
    Parse,
}

/// The step for a substat line: after trimming, a line shorter than two
/// bytes is ignored, one holding `2件套` ends the substats, any other is
/// parsed.
pub open spec fn line_step(line: Seq<char>) -> LineStep {
    if too_short(trim_seq(line)) {
        LineStep::Ignore
    } else if contains_seq(trim_seq(line), "2件套"@) {
        LineStep::Stop
    } else {
        LineStep::Parse
    }
}

/// The step for the substat line `line`.
pub fn substat_line_step(line: &str) -> (r: LineStep)
    ensures
        r == line_step(line@),
{
    let t = trim_chars(&to_chars(line));
    if t.len() == 0 || (t.len() == 1 && (t[0] as u32) < 0x80) {
        return LineStep::Ignore;
    }
    let marker = to_chars("2件套");
    if contains_chars(&t, &marker) {
        LineStep::Stop
    } else {
        LineStep::Parse
    }
}

/// Is `c` a CJK unified ideograph (U+4E00 to U+9FFF)?
pub open spec fn is_cjk(c: char) -> bool {
    '\u{4E00}' <= c && c <= '\u{9FFF}'
}

/// The number of CJK ideographs in `s`.
pub open spec fn cjk_count(s: Seq<char>) -> nat
    decreases s.len(),
{
    if s.len() == 0 {
        0
    } else {
        cjk_count(s.drop_last()) + if is_cjk(s.last()) {
            1nat
        } else {
            0
        }
    }
}

fn count_cjk(s: &str) -> (n: usize)
    ensures
        n == cjk_count(s@),
{
    let v = to_chars(s);
    let mut n: usize = 0;
    let mut i: usize = 0;
    assert(v@.take(0) =~= Seq::<char>::empty());
    while i < v.len()
        invariant
            i <= v@.len(),
            n == cjk_count(v@.take(i as int)),
            n <= i,
        decreases v.len() - i,
    {
        assert(v@.take(i + 1).drop_last() =~= v@.take(i as int));
        if '\u{4E00}' <= v[i] && v[i] <= '\u{9FFF}' {
            n += 1;
        }
        i += 1;
    }
    assert(v@.take(v.len() as int) =~= v@);
    n
}

/// Of two readings of the same region where neither could be parsed, the
/// one to keep: the second only when it holds more CJK ideographs than the
/// first.
pub fn prefer_by_cjk(first: String, second: String) -> (r: String)
    ensures
        r == if cjk_count(second@) > cjk_count(first@) {
            second
        } else {
            first
        },
{
    if count_cjk(second.as_str()) > count_cjk(first.as_str()) {
        second
    } else {
        first
    }
}

// ---------------------------------------------------------------------------
// Fingerprints
// ---------------------------------------------------------------------------

/// How a value in tenths prints as a number: `39` is `3.9`, `100` is `10`.
pub open spec fn tenths_text(t: int) -> Seq<char> {
    if t % 10 == 0 {
        signed_decimal(t / 10)
    } else if t < 0 {
        seq!['-'] + decimal(((-t) / 10) as nat) + seq!['.', digit_char((-t) % 10)]
    } else {
        decimal((t / 10) as nat) + seq!['.', digit_char(t % 10)]
    }
}

/// `key:value` of one substat.
pub open spec fn substat_text(s: GoodSubStat) -> Seq<char> {
    s.key@ + ":"@ + tenths_text(s.value_tenths as int)
}

/// The substats as `key:value`, separated by `;`.
pub open spec fn substats_text(s: Seq<GoodSubStat>) -> Seq<char>
    decreases s.len(),
{
    if s.len() == 0 {
        Seq::empty()
    } else if s.len() == 1 {
        substat_text(s[0])
    } else {
        substats_text(s.drop_last()) + ";"@ + substat_text(s.last())
    }
}

/// `set|slot|level|main stat|rarity|substats`.
pub open spec fn fingerprint(a: GoodArtifact) -> Seq<char> {
    a.set_key@ + "|"@ + a.slot_key@ + "|"@ + signed_decimal(a.level as int) + "|"@
        + a.main_stat_key@ + "|"@ + signed_decimal(a.rarity as int) + "|"@ + substats_text(
        a.substats@,
    )
}

fn push_tenths(out: &mut String, t: i64)
    ensures
        final(out)@ == old(out)@ + tenths_text(t as int),
{
    if t % 10 == 0 {
        push_signed(out, t / 10);
        return;
    }
    let a: u64 = if t < 0 {
        push_char(out, '-');
        ((0 - (t + 1)) as u64) + 1
    } else {
        t as u64
    };
    assert(a == if t < 0 {
        -t
    } else {
        t as int
    });
    push_decimal(out, a / 10);
    push_char(out, '.');
    let d = a % 10;
    let c: char = if d == 0 {
        '0'
    } else if d == 1 {
        '1'
    } else if d == 2 {
        '2'
    } else if d == 3 {
        '3'
    } else if d == 4 {
        '4'
    } else if d == 5 {
        '5'
    } else if d == 6 {
        '6'
    } else if d == 7 {
        '7'
    } else if d == 8 {
        '8'
    } else {
        '9'
    };
    assert(c == digit_char(d as int));
    push_char(out, c);
    assert(final(out)@ =~= old(out)@ + tenths_text(t as int));
}

fn push_substat(out: &mut String, s: &GoodSubStat)
    ensures
        final(out)@ == old(out)@ + substat_text(*s),
{
    push_str(out, s.key.as_str());
    push_str(out, ":");
    push_tenths(out, s.value_tenths);
    assert(final(out)@ =~= old(out)@ + substat_text(*s));
}

/// The fingerprint of a scanned artifact, by which repeated rows of the
/// inventory are recognised.
pub fn artifact_fingerprint(artifact: &GoodArtifact) -> (s: String)
    ensures
        s@ == fingerprint(*artifact),
{
    let mut out = String::new();
    push_str(&mut out, artifact.set_key.as_str());
    push_str(&mut out, "|");
    push_str(&mut out, artifact.slot_key.as_str());
    push_str(&mut out, "|");
    push_signed(&mut out, artifact.level as i64);
    push_str(&mut out, "|");
    push_str(&mut out, artifact.main_stat_key.as_str());
    push_str(&mut out, "|");
    push_signed(&mut out, artifact.rarity as i64);
    push_str(&mut out, "|");
    let ghost head = out@;
    let subs = &artifact.substats;
    let mut i: usize = 0;
    while i < subs.len()
        invariant
            i <= subs@.len(),
            out@ == head + substats_text(subs@.take(i as int)),
        decreases subs.len() - i,
    {
        assert(subs@.take(i + 1).drop_last() =~= subs@.take(i as int));
        if i > 0 {
            push_str(&mut out, ";");
        }
        push_substat(&mut out, &subs[i]);
        i += 1;
        proof {
            if i == 1 {
                assert(subs@.take(0) =~= Seq::<GoodSubStat>::empty());
            }
        }
        assert(out@ =~= head + substats_text(subs@.take(i as int)));
    }
    assert(subs@.take(subs.len() as int) =~= subs@);
    assert(out@ =~= fingerprint(*artifact));
    out
}

} // verus!
