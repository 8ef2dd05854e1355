//! Reading the owner of an artifact from the OCR text of its equip label
//! (`"<name>已装备"`, "equipped by <name>").
use vstd::prelude::*;
use crate::fuzzy::{fuzzy_index, fuzzy_match_index, NameMap};
use crate::text::{from_chars, has_prefix, to_chars, trim_chars, trim_seq};

verus! {

// ---------------------------------------------------------------------------
// Text operations
// ---------------------------------------------------------------------------

/// `p` occurs in `s` at position `i`.
pub open spec fn occurs_at(s: Seq<char>, p: Seq<char>, i: int) -> bool {
    0 <= i && i + p.len() <= s.len() && s.subrange(i, i + p.len()) == p
}

/// `p` occurs somewhere in `s`.
pub open spec fn contains_seq(s: Seq<char>, p: Seq<char>) -> bool {
    exists|i: int| occurs_at(s, p, i)
}

/// `s` with every occurrence of `p` removed, scanning from the left
/// (`str::replace(p, "")`).
pub open spec fn remove_all(s: Seq<char>, p: Seq<char>) -> Seq<char>
    decreases s.len(),
{
    if s.len() == 0 {
        s
    } else if p.len() > 0 && has_prefix(s, p) {
        remove_all(s.skip(p.len() as int), p)
    } else {
        seq![s[0]] + remove_all(s.skip(1), p)
    }
}

/// `s` without the characters of `bad`.
pub open spec fn without_chars(s: Seq<char>, bad: Seq<char>) -> Seq<char>
    decreases s.len(),
{
    if s.len() == 0 {
        s
    } else if bad.contains(s.last()) {
        without_chars(s.drop_last(), bad)
    } else {
        without_chars(s.drop_last(), bad).push(s.last())
    }
}

fn occurs_at_exec(v: &Vec<char>, i: usize, p: &Vec<char>) -> (b: bool)
    requires
        i <= v.len(),
    ensures
        b == occurs_at(v@, p@, i as int),
        b == has_prefix(v@.skip(i as int), p@),
{
    if p.len() > v.len() - i {
        return false;
    }
    let mut j: usize = 0;
    while j < p.len()
        invariant
            i <= v.len(),
            p.len() <= v.len() - i,
            j <= p.len(),
            forall|k: int| 0 <= k < j ==> v@[i + k] == p@[k],
        decreases p.len() - j,
    {
        if v[i + j] != p[j] {
            assert(v@.subrange(i as int, i + p.len())[j as int] != p@[j as int]);
            assert(v@.skip(i as int).take(p.len() as int)[j as int] != p@[j as int]);
            return false;
        }
        j += 1;
    }
    assert(v@.subrange(i as int, i + p.len()) =~= p@);
    assert(v@.skip(i as int).take(p.len() as int) =~= p@);
    true
}

/// Does `p` occur in `v`?
pub fn contains_chars(v: &Vec<char>, p: &Vec<char>) -> (b: bool)
    ensures
        b == contains_seq(v@, p@),
{
    if p.len() > v.len() {
        assert forall|i: int| !occurs_at(v@, p@, i) by {}
        return false;
    }
    let last = v.len() - p.len();
    let mut i: usize = 0;
    loop
        invariant
            p.len() <= v.len(),
            last == v.len() - p.len(),
            i <= last,
            forall|k: int| 0 <= k < i ==> !occurs_at(v@, p@, k),
        ensures
            forall|k: int| 0 <= k <= last ==> !occurs_at(v@, p@, k),
        decreases last - i,
    {
        if occurs_at_exec(v, i, p) {
            return true;
        }
        if i == last {
            break;
        }
        i += 1;
    }
    assert forall|k: int| !occurs_at(v@, p@, k) by {
        if occurs_at(v@, p@, k) {
            assert(k <= last);
        }
    }
    false
}

/// `v` with every occurrence of `p` removed, scanning from the left.
pub fn remove_all_chars(v: &Vec<char>, p: &Vec<char>) -> (r: Vec<char>)
    ensures
        r@ == remove_all(v@, p@),
{
    let mut out: Vec<char> = Vec::new();
    let mut i: usize = 0;
    assert(v@.skip(0) =~= v@);
    assert(out@ + remove_all(v@.skip(0), p@) =~= remove_all(v@, p@));
    while i < v.len()
        invariant
            i <= v.len(),
            out@ + remove_all(v@.skip(i as int), p@) == remove_all(v@, p@),
        decreases v.len() - i,
    {
        let ghost rest = v@.skip(i as int);
        if p.len() > 0 && occurs_at_exec(v, i, p) {
            assert(rest.skip(p.len() as int) =~= v@.skip(i + p.len()));
            i += p.len();
        } else {
            assert(rest.skip(1) =~= v@.skip(i + 1));
            assert(rest[0] == v@[i as int]);
            let ghost before = out@;
            out.push(v[i]);
            assert(out@ + remove_all(v@.skip(i + 1), p@) =~= before + (seq![v@[i as int]]
                + remove_all(v@.skip(i + 1), p@)));
            i += 1;
        }
    }
    assert(v@.skip(i as int).len() == 0);
    assert(out@ + remove_all(v@.skip(i as int), p@) =~= out@);
    out
}

fn in_chars(c: char, bad: &Vec<char>) -> (b: bool)
    ensures
        b == bad@.contains(c),
{
    let mut i: usize = 0;
    while i < bad.len()
        invariant
            i <= bad.len(),
            forall|k: int| 0 <= k < i ==> bad@[k] != c,
        decreases bad.len() - i,
    {
        if bad[i] == c {
            assert(bad@[i as int] == c);
            return true;
        }
        i += 1;
    }
    false
}

/// `v` without the characters of `bad`.
pub fn without_chars_exec(v: &Vec<char>, bad: &Vec<char>) -> (r: Vec<char>)
    ensures
        r@ == without_chars(v@, bad@),
{
    let mut out: Vec<char> = Vec::new();
    let mut i: usize = 0;
    while i < v.len()
        invariant
            i <= v.len(),
            out@ == without_chars(v@.take(i as int), bad@),
        decreases v.len() - i,
    {
        assert(v@.take(i + 1).drop_last() =~= v@.take(i as int));
        assert(v@.take(i + 1).last() == v@[i as int]);
        if !in_chars(v[i], bad) {
            out.push(v[i]);
        }
        i += 1;
    }
    assert(v@.take(v.len() as int) =~= v@);
    out
}

// ---------------------------------------------------------------------------
// Noise in front of a name
// ---------------------------------------------------------------------------

/// Name for what `char::is_alphanumeric` returns: whether the character is
/// Unicode alphabetic or numeric.
pub uninterp spec fn unicode_alphanumeric(c: char) -> bool;

/// Is `c` Unicode alphabetic or numeric?
///
/// Calls `char::is_alphanumeric`; the contract names its result and claims
/// nothing more of the Unicode tables.
#[verifier::external_body]
fn is_alphanumeric(c: char) -> (b: bool)
    ensures
        b == unicode_alphanumeric(c),
{
    c.is_alphanumeric()
}

/// Card decorations the OCR reads in front of a name: ASCII characters and
/// anything that is neither a letter nor a digit (emoji and the like).
pub open spec fn is_noise(c: char) -> bool {
    (c as u32) < 128 || !unicode_alphanumeric(c)
}

/// Number of leading noise characters of `s`.
pub open spec fn noise_len(s: Seq<char>) -> nat
    decreases s.len(),
{
    if s.len() > 0 && is_noise(s[0]) {
        1 + noise_len(s.skip(1))
    } else {
        0
    }
}

proof fn lemma_noise_len(s: Seq<char>, k: int)
    requires
        0 <= k <= s.len(),
        forall|j: int| 0 <= j < k ==> is_noise(s[j]),
        k == s.len() || !is_noise(s[k]),
    ensures
        noise_len(s) == k,
    decreases s.len(),
{
    if k > 0 {
        assert forall|j: int| 0 <= j < k - 1 implies is_noise(s.skip(1)[j]) by {
            assert(s.skip(1)[j] == s[j + 1]);
        }
        if k - 1 < s.len() - 1 {
            assert(s.skip(1)[k - 1] == s[k]);
        }
        lemma_noise_len(s.skip(1), k - 1);
    }
}

fn strip_noise(s: &Vec<char>) -> (r: Vec<char>)
    ensures
        r@ == s@.skip(noise_len(s@) as int),
{
    let mut k: usize = 0;
    while k < s.len() && ((s[k] as u32) < 128 || !is_alphanumeric(s[k]))
        invariant
            k <= s.len(),
            forall|j: int| 0 <= j < k ==> is_noise(s@[j]),
        decreases s.len() - k,
    {
        k += 1;
    }
    proof {
        lemma_noise_len(s@, k as int);
    }
    crate::text::slice_chars(s, k, s.len())
}

// ---------------------------------------------------------------------------
// Owner names
// ---------------------------------------------------------------------------

/// The separators and white space dropped from an owner label.
pub open spec fn label_junk() -> Seq<char> {
    seq![':', '：', ' ', '\n', '\r', '\t']
}

/// The key of the character that the owner label `text` names, or empty:
/// colons and white space are dropped, the rest trimmed; the name is looked
/// up without its leading noise first, then as it is.
pub open spec fn owner_key(text: Seq<char>, m: Seq<(String, String)>) -> Seq<char> {
    let name = trim_seq(without_chars(text, label_junk()));
    let cleaned = name.skip(noise_len(name) as int);
    if cleaned.len() > 0 && fuzzy_index(cleaned, m) is Some {
        m[fuzzy_index(cleaned, m)->0].1@
    } else if name.len() > 0 && fuzzy_index(name, m) is Some {
        m[fuzzy_index(name, m)->0].1@
    } else {
        Seq::empty()
    }
}

fn parse_equip_owner_name(text: &Vec<char>, m: &NameMap) -> (r: String)
    ensures
        r@ == owner_key(text@, m@),
{
    let junk: Vec<char> = vec![':', '：', ' ', '\n', '\r', '\t'];
    assert(junk@ =~= label_junk());
    let name = trim_chars(&without_chars_exec(text, &junk));
    let cleaned = strip_noise(&name);
    if cleaned.len() > 0 {
        match fuzzy_match_index(&cleaned, m) {
            Some(i) => return m[i].1.clone(),
            None => {},
        }
    }
    if name.len() > 0 {
        match fuzzy_match_index(&name, m) {
            Some(i) => return m[i].1.clone(),
            None => {},
        }
    }
    String::new()
}

/// The equip marker "已装备" and its clipped form "已装".
pub open spec fn full_marker() -> Seq<char> {
    seq!['已', '装', '备']
}

/// The equip marker clipped by the right edge of the region.
pub open spec fn clipped_marker() -> Seq<char> {
    seq!['已', '装']
}

/// The owner of an artifact from the text of its detail panel: the key of
/// the character named before the equip marker "已装备" (or its clipped form
/// "已装"), with the marker removed; empty when there is no marker.
pub open spec fn equip_location(text: Seq<char>, m: Seq<(String, String)>) -> Seq<char> {
    if contains_seq(text, full_marker()) {
        owner_key(remove_all(text, full_marker()), m)
    } else if contains_seq(text, clipped_marker()) {
        owner_key(remove_all(text, clipped_marker()), m)
    } else {
        Seq::empty()
    }
}

/// The owner of an artifact from the text of its detail panel, or empty.
pub fn parse_equip_location(text: &str, char_map: &NameMap) -> (r: String)
    ensures
        r@ == equip_location(text@, char_map@),
{
    let t = to_chars(text);
    let full: Vec<char> = vec!['已', '装', '备'];
    let clipped: Vec<char> = vec!['已', '装'];
    assert(full@ =~= full_marker());
    assert(clipped@ =~= clipped_marker());
    if contains_chars(&t, &full) {
        parse_equip_owner_name(&remove_all_chars(&t, &full), char_map)
    } else if contains_chars(&t, &clipped) {
        parse_equip_owner_name(&remove_all_chars(&t, &clipped), char_map)
    } else {
        String::new()
    }
}

/// An owner label with every form of the equip marker taken out: "已装备",
/// then "已装", then "装备", then the characters 备 and 已.
pub open spec fn strip_markers(text: Seq<char>) -> Seq<char> {
    without_chars(
        remove_all(
            remove_all(remove_all(text, full_marker()), clipped_marker()),
            seq!['装', '备'],
        ),
        seq!['备', '已'],
    )
}

/// The owner named by a selection-view owner label, which may or may not
/// carry the equip marker; empty when no character matches.
pub fn parse_equip_owner(text: &str, char_map: &NameMap) -> (r: String)
    ensures
        r@ == owner_key(strip_markers(text@), char_map@),
{
    let t = to_chars(text);
    let full: Vec<char> = vec!['已', '装', '备'];
    let clipped: Vec<char> = vec!['已', '装'];
    let tail: Vec<char> = vec!['装', '备'];
    let single: Vec<char> = vec!['备', '已'];
    let a = remove_all_chars(&t, &full);
    let b = remove_all_chars(&a, &clipped);
    let c = remove_all_chars(&b, &tail);
    let d = without_chars_exec(&c, &single);
    assert(full@ =~= full_marker());
    assert(clipped@ =~= clipped_marker());
    assert(tail@ =~= seq!['装', '备']);
    assert(single@ =~= seq!['备', '已']);
    parse_equip_owner_name(&d, char_map)
}

} // verus!
