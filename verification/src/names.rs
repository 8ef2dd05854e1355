//! Reading names out of OCR text: a character's name and element from the
//! attributes panel, and an artifact's set from its description.
use vstd::prelude::*;
use crate::fuzzy::{fuzzy_index, fuzzy_match_index, NameMap};
use crate::http::{index_from, find_char_from};
use crate::text::{chars_eq, from_chars, slice_chars, to_chars, trim_chars, trim_seq};

verus! {

// ---------------------------------------------------------------------------
// Elements
// ---------------------------------------------------------------------------

/// The GOOD element key of a Chinese element name (after trimming).
pub open spec fn element_key(zh: Seq<char>) -> Option<Seq<char>> {
    let t = trim_seq(zh);
    if t == seq!['火'] {
        Some("Pyro"@)
    } else if t == seq!['水'] {
        Some("Hydro"@)
    } else if t == seq!['雷'] {
        Some("Electro"@)
    } else if t == seq!['冰'] {
        Some("Cryo"@)
    } else if t == seq!['风'] {
        Some("Anemo"@)
    } else if t == seq!['岩'] {
        Some("Geo"@)
    } else if t == seq!['草'] {
        Some("Dendro"@)
    } else {
        None
    }
}

/// The GOOD element key of a Chinese element name.
pub fn zh_element_to_good(zh: &str) -> (r: Option<String>)
    ensures
        match r {
            Some(k) => element_key(zh@) == Some(k@),
            None => element_key(zh@) is None,
        },
{
    let t = trim_chars(&to_chars(zh));
    if t.len() != 1 {
        proof {
            assert(t@.len() != 1);
        }
        return None;
    }
    let c = t[0];
    assert(t@ =~= seq![c]);
    if c == '火' {
        Some(String::from_str("Pyro"))
    } else if c == '水' {
        Some(String::from_str("Hydro"))
    } else if c == '雷' {
        Some(String::from_str("Electro"))
    } else if c == '冰' {
        Some(String::from_str("Cryo"))
    } else if c == '风' {
        Some(String::from_str("Anemo"))
    } else if c == '岩' {
        Some(String::from_str("Geo"))
    } else if c == '草' {
        Some(String::from_str("Dendro"))
    } else {
        None
    }
}

// ---------------------------------------------------------------------------
// Character names
// ---------------------------------------------------------------------------

/// The characters a name keeps: CJK ideographs, the corner brackets 「」,
/// ASCII letters and digits.
pub open spec fn name_char(c: char) -> bool {
    ('\u{4E00}' <= c && c <= '\u{9FFF}') || c == '\u{300C}' || c == '\u{300D}' || ('a' <= c && c
        <= 'z') || ('A' <= c && c <= 'Z') || ('0' <= c && c <= '9')
}

/// `s` with only its name characters.
pub open spec fn name_chars(s: Seq<char>) -> Seq<char>
    decreases s.len(),
{
    if s.len() == 0 {
        s
    } else if name_char(s.last()) {
        name_chars(s.drop_last()).push(s.last())
    } else {
        name_chars(s.drop_last())
    }
}

fn name_chars_exec(v: &Vec<char>) -> (r: Vec<char>)
    ensures
        r@ == name_chars(v@),
{
    let mut out: Vec<char> = Vec::new();
    let mut i: usize = 0;
    while i < v.len()
        invariant
            i <= v.len(),
            out@ == name_chars(v@.take(i as int)),
        decreases v.len() - i,
    {
        assert(v@.take(i + 1).drop_last() =~= v@.take(i as int));
        assert(v@.take(i + 1).last() == v@[i as int]);
        let c = v[i];
        if ('\u{4E00}' <= c && c <= '\u{9FFF}') || c == '\u{300C}' || c == '\u{300D}' || ('a' <= c
            && c <= 'z') || ('A' <= c && c <= 'Z') || ('0' <= c && c <= '9') {
            out.push(c);
        }
        i += 1;
    }
    assert(v@.take(v.len() as int) =~= v@);
    out
}

/// The slash separating element and name: `/`, or else the full-width `／`.
pub open spec fn name_slash(t: Seq<char>) -> Option<char> {
    if index_from(t, 0, '/') < t.len() {
        Some('/')
    } else if index_from(t, 0, '／') < t.len() {
        Some('／')
    } else {
        None
    }
}

/// What the name text `"<element>/<name>"` of the attributes panel reads
/// as: the GOOD key and matched name of the character (none when no name
/// matches), and the trimmed element text when there is a slash. Without a
/// slash the whole text is looked up. Empty text reads as nothing.
pub open spec fn name_and_element(t: Seq<char>, m: Seq<(String, String)>) -> (
    Option<Seq<char>>,
    Option<Seq<char>>,
    Option<Seq<char>>,
) {
    if t.len() == 0 {
        (None, None, None)
    } else {
        match name_slash(t) {
            Some(sl) => {
                let idx = index_from(t, 0, sl);
                let element = trim_seq(t.take(idx));
                let raw = name_chars(t.skip(idx + 1));
                match fuzzy_index(raw, m) {
                    Some(i) => (Some(m[i].1@), Some(element), Some(m[i].0@)),
                    None => (None, Some(element), None),
                }
            },
            None => match fuzzy_index(t, m) {
                Some(i) => (Some(m[i].1@), None, Some(m[i].0@)),
                None => (None, None, None),
            },
        }
    }
}

/// The view of an optional string.
pub open spec fn opt_text(o: Option<String>) -> Option<Seq<char>> {
    match o {
        Some(s) => Some(s@),
        None => None,
    }
}

/// Read the character's GOOD key, element text and matched name from the
/// name text of the attributes panel.
pub fn parse_name_and_element(text: &str, char_map: &NameMap) -> (r: (
    Option<String>,
    Option<String>,
    Option<String>,
))
    ensures
        (opt_text(r.0), opt_text(r.1), opt_text(r.2)) == name_and_element(text@, char_map@),
{
    let t = to_chars(text);
    if t.len() == 0 {
        return (None, None, None);
    }
    let a = find_char_from(&t, 0, '/');
    let b = find_char_from(&t, 0, '／');
    let idx = if a < t.len() {
        a
    } else {
        b
    };
    if idx < t.len() {
        let element = from_chars(&trim_chars(&slice_chars(&t, 0, idx)));
        assert(t@.subrange(0, idx as int) =~= t@.take(idx as int));
        let rest = slice_chars(&t, idx + 1, t.len());
        assert(t@.subrange(idx + 1, t.len() as int) =~= t@.skip(idx + 1));
        let raw = name_chars_exec(&rest);
        match fuzzy_match_index(&raw, char_map) {
            Some(i) => (
                Some(char_map[i].1.clone()),
                Some(element),
                Some(char_map[i].0.clone()),
            ),
            None => (None, Some(element), None),
        }
    } else {
        match fuzzy_match_index(&t, char_map) {
            Some(i) => (Some(char_map[i].1.clone()), None, Some(char_map[i].0.clone())),
            None => (None, None, None),
        }
    }
}

/// The GOOD key of the character that a name reading names (the part after
/// the slash, when there is one).
pub fn parse_char_name(text: &str, char_map: &NameMap) -> (r: Option<String>)
    ensures
        opt_text(r) == name_and_element(text@, char_map@).0,
{
    let (key, _, _) = parse_name_and_element(text, char_map);
    key
}

} // verus!
