//! Looking up OCR text in a name map (Chinese name -> GOOD key).
//!
//! A name map is a list of `(name, key)` pairs; where a name occurs twice the
//! first pair wins. OCR text is looked up by its exact name first, and then
//! with characters the OCR confuses mapped to one representative, on both
//! sides.
use vstd::prelude::*;
use crate::text::{chars_eq, to_chars};

verus! {

/// A name map: `(name, key)` pairs.
pub type NameMap = Vec<(String, String)>;

/// The representative of a character among those the OCR confuses with
/// each other (菈/拉, 鸟/乌, and the middle dots ・/•/·).
pub open spec fn confusable(c: char) -> char {
    if c == '菈' {
        '拉'
    } else if c == '鸟' {
        '乌'
    } else if c == '・' || c == '•' {
        '·'
    } else {
        c
    }
}

/// `s` with every character replaced by its representative.
pub open spec fn normalize(s: Seq<char>) -> Seq<char> {
    s.map_values(|c: char| confusable(c))
}

fn confusable_char(c: char) -> (r: char)
    ensures
        r == confusable(c),
{
    if c == '菈' {
        '拉'
    } else if c == '鸟' {
        '乌'
    } else if c == '・' || c == '•' {
        '·'
    } else {
        c
    }
}

/// The characters of `s`, each replaced by its representative.
pub fn normalize_chars(s: &Vec<char>) -> (r: Vec<char>)
    ensures
        r@ == normalize(s@),
{
    let mut r: Vec<char> = Vec::new();
    let mut i: usize = 0;
    while i < s.len()
        invariant
            i <= s.len(),
            r@ == normalize(s@.take(i as int)),
        decreases s.len() - i,
    {
        r.push(confusable_char(s[i]));
        i += 1;
        assert(r@ =~= normalize(s@.take(i as int)));
    }
    assert(s@.take(s.len() as int) =~= s@);
    r
}

/// The position of the first pair of `m` whose name is `t`.
pub open spec fn first_exact(m: Seq<(String, String)>, t: Seq<char>) -> Option<int>
    decreases m.len(),
{
    if m.len() == 0 {
        None
    } else {
        match first_exact(m.drop_last(), t) {
            Some(i) => Some(i),
            None => if m.last().0@ == t {
                Some(m.len() - 1)
            } else {
                None
            },
        }
    }
}

/// The position of the first pair of `m` whose name equals `t` once both
/// are normalized.
pub open spec fn first_normalized(m: Seq<(String, String)>, t: Seq<char>) -> Option<int>
    decreases m.len(),
{
    if m.len() == 0 {
        None
    } else {
        match first_normalized(m.drop_last(), t) {
            Some(i) => Some(i),
            None => if normalize(m.last().0@) == normalize(t) {
                Some(m.len() - 1)
            } else {
                None
            },
        }
    }
}

/// The pair of `m` that the text `t` stands for: the first with exactly that
/// name, else the first whose name matches once normalized.
pub open spec fn fuzzy_index(t: Seq<char>, m: Seq<(String, String)>) -> Option<int> {
    match first_exact(m, t) {
        Some(i) => Some(i),
        None => first_normalized(m, t),
    }
}

proof fn lemma_first_exact_prefix(m: Seq<(String, String)>, t: Seq<char>, k: int)
    requires
        0 <= k <= m.len(),
        first_exact(m.take(k), t) is Some,
    ensures
        first_exact(m, t) == first_exact(m.take(k), t),
    decreases m.len() - k,
{
    if k < m.len() {
        assert(m.take(k + 1).drop_last() =~= m.take(k));
        lemma_first_exact_prefix(m, t, k + 1);
    } else {
        assert(m.take(k) =~= m);
    }
}

proof fn lemma_first_normalized_prefix(m: Seq<(String, String)>, t: Seq<char>, k: int)
    requires
        0 <= k <= m.len(),
        first_normalized(m.take(k), t) is Some,
    ensures
        first_normalized(m, t) == first_normalized(m.take(k), t),
    decreases m.len() - k,
{
    if k < m.len() {
        assert(m.take(k + 1).drop_last() =~= m.take(k));
        lemma_first_normalized_prefix(m, t, k + 1);
    } else {
        assert(m.take(k) =~= m);
    }
}

proof fn lemma_first_bounds(m: Seq<(String, String)>, t: Seq<char>)
    ensures
        first_exact(m, t) matches Some(i) ==> 0 <= i < m.len(),
        first_normalized(m, t) matches Some(i) ==> 0 <= i < m.len(),
    decreases m.len(),
{
    if m.len() > 0 {
        lemma_first_bounds(m.drop_last(), t);
    }
}

fn find_exact(m: &NameMap, t: &Vec<char>) -> (r: Option<usize>)
    ensures
        match r {
            Some(i) => first_exact(m@, t@) == Some(i as int),
            None => first_exact(m@, t@) is None,
        },
{
    let mut i: usize = 0;
    while i < m.len()
        invariant
            i <= m.len(),
            first_exact(m@.take(i as int), t@) is None,
        decreases m.len() - i,
    {
        assert(m@.take(i + 1).drop_last() =~= m@.take(i as int));
        let name = to_chars(m[i].0.as_str());
        if chars_eq(&name, t) {
            proof {
                lemma_first_exact_prefix(m@, t@, i + 1);
            }
            return Some(i);
        }
        i += 1;
    }
    assert(m@.take(m.len() as int) =~= m@);
    None
}

fn find_normalized(m: &NameMap, t: &Vec<char>) -> (r: Option<usize>)
    ensures
        match r {
            Some(i) => first_normalized(m@, t@) == Some(i as int),
            None => first_normalized(m@, t@) is None,
        },
{
    let nt = normalize_chars(t);
    let mut i: usize = 0;
    while i < m.len()
        invariant
            i <= m.len(),
            nt@ == normalize(t@),
            first_normalized(m@.take(i as int), t@) is None,
        decreases m.len() - i,
    {
        assert(m@.take(i + 1).drop_last() =~= m@.take(i as int));
        let name = normalize_chars(&to_chars(m[i].0.as_str()));
        if chars_eq(&name, &nt) {
            proof {
                lemma_first_normalized_prefix(m@, t@, i + 1);
            }
            return Some(i);
        }
        i += 1;
    }
    assert(m@.take(m.len() as int) =~= m@);
    None
}

/// The position of the pair that `text` stands for.
pub fn fuzzy_match_index(text: &Vec<char>, m: &NameMap) -> (r: Option<usize>)
    ensures
        match r {
            Some(i) => fuzzy_index(text@, m@) == Some(i as int) && i < m.len(),
            None => fuzzy_index(text@, m@) is None,
        },
{
    proof {
        lemma_first_bounds(m@, text@);
    }
    match find_exact(m, text) {
        Some(i) => Some(i),
        None => find_normalized(m, text),
    }
}

/// The name and key of the pair that `text` stands for.
pub fn fuzzy_match_map_pair(text: &str, m: &NameMap) -> (r: Option<(String, String)>)
    ensures
        match r {
            Some((n, k)) => fuzzy_index(text@, m@) matches Some(i) && n == m@[i].0 && k
                == m@[i].1,
            None => fuzzy_index(text@, m@) is None,
        },
{
    let t = to_chars(text);
    match fuzzy_match_index(&t, m) {
        Some(i) => Some((m[i].0.clone(), m[i].1.clone())),
        None => None,
    }
}

/// The key of the pair that `text` stands for.
pub fn fuzzy_match_map(text: &str, m: &NameMap) -> (r: Option<String>)
    ensures
        match r {
            Some(k) => fuzzy_index(text@, m@) matches Some(i) && k == m@[i].1,
            None => fuzzy_index(text@, m@) is None,
        },
{
    let t = to_chars(text);
    match fuzzy_match_index(&t, m) {
        Some(i) => Some(m[i].1.clone()),
        None => None,
    }
}


proof fn lemma_first_exact_at(m: Seq<(String, String)>, i: int)
    requires
        0 <= i < m.len(),
        forall|j: int| 0 <= j < i ==> m[j].0@ != m[i].0@,
    ensures
        first_exact(m, m[i].0@) == Some(i),
    decreases m.len(),
{
    if i < m.len() - 1 {
        lemma_first_exact_at(m.drop_last(), i);
    } else {
        let t = m[i].0@;
        assert forall|k: int| 0 <= k <= m.len() - 1 implies first_exact(m.take(k), t) is None by {
            lemma_first_exact_none(m, t, k, i);
        }
        assert(m.take(m.len() - 1) =~= m.drop_last());
    }
}

proof fn lemma_first_exact_none(m: Seq<(String, String)>, t: Seq<char>, k: int, i: int)
    requires
        0 <= k <= i < m.len(),
        forall|j: int| 0 <= j < i ==> m[j].0@ != t,
    ensures
        first_exact(m.take(k), t) is None,
    decreases k,
{
    if k > 0 {
        assert(m.take(k).drop_last() =~= m.take(k - 1));
        lemma_first_exact_none(m, t, k - 1, i);
    }
}

/// In a map whose names are distinct, every name reads as its own pair.
pub proof fn names_read_as_themselves(m: Seq<(String, String)>, i: int)
    requires
        0 <= i < m.len(),
        forall|a: int, b: int| 0 <= a < b < m.len() ==> (#[trigger] m[a]).0@ != (#[trigger] m[b]).0@,
    ensures
        fuzzy_index(m[i].0@, m) == Some(i),
{
    assert forall|j: int| 0 <= j < i implies m[j].0@ != m[i].0@ by {
        assert(m[j].0@ != m[i].0@);
    }
    lemma_first_exact_at(m, i);
}

} // verus!
