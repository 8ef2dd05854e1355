//! Interface language and the selection of one half of a bilingual
//! `"中文 / English"` message.
use vstd::prelude::*;
use crate::text::{from_chars, to_chars};

verus! {

/// Interface language.
#[derive(Clone, Copy, Debug, PartialEq, Eq, Structural)]
pub enum Lang {
    Zh,
    En,
}

impl Lang {
    /// `"en"` selects English; any other setting selects Chinese.
    pub fn from_str(s: &str) -> (l: Lang)
        ensures
            l == (if s@ == "en"@ {
                Lang::En
            } else {
                Lang::Zh
            }),
    {
        let cs = to_chars(s);
        let en = to_chars("en");
        proof {
            reveal_strlit("en");
        }
        if cs.len() == 2 && cs[0] == en[0] && cs[1] == en[1] {
            assert(cs@ =~= en@);
            Lang::En
        } else {
            assert(cs@ != en@);
            Lang::Zh
        }
    }

    /// The setting string of the language.
    pub fn to_str(self) -> (s: &'static str)
        ensures
            s@ == (match self {
                Lang::Zh => "zh"@,
                Lang::En => "en"@,
            }),
    {
        match self {
            Lang::Zh => "zh",
            Lang::En => "en",
        }
    }

    /// The string for this language out of a pair.
    pub fn t<'a>(self, zh: &'a str, en: &'a str) -> (s: &'a str)
        ensures
            s == (match self {
                Lang::Zh => zh,
                Lang::En => en,
            }),
    {
        match self {
            Lang::Zh => zh,
            Lang::En => en,
        }
    }
}

/// `" / "` starts at position `i` of `s`.
pub open spec fn separator_at(s: Seq<char>, i: int) -> bool {
    0 <= i && i + 3 <= s.len() && s[i] == ' ' && s[i + 1] == '/' && s[i + 2] == ' '
}

/// The first position at which `" / "` starts, if any.
pub open spec fn first_separator(s: Seq<char>) -> Option<int> {
    if exists|i: int| separator_at(s, i) {
        Some(choose|i: int| separator_at(s, i) && forall|j: int| 0 <= j < i ==> !separator_at(s, j))
    } else {
        None
    }
}

/// The half of the bilingual message `s` for `lang`: the text before the
/// first `" / "` for Chinese, the text after it for English, and the whole
/// message when it has no separator.
pub open spec fn localized(s: Seq<char>, lang: Lang) -> Seq<char> {
    match first_separator(s) {
        Some(i) => match lang {
            Lang::Zh => s.take(i),
            Lang::En => s.skip(i + 3),
        },
        None => s,
    }
}

/// Pick the half of a bilingual `"中文 / English"` message for `lang`.
pub fn localize(msg: &str, lang: Lang) -> (out: String)
    ensures
        out@ == localized(msg@, lang),
{
    let cs = to_chars(msg);
    let n = cs.len();
    let mut i: usize = 0;
    while n >= 3 && i <= n - 3
        invariant
            i <= n,
            cs@ == msg@,
            n == cs@.len(),
            forall|j: int| 0 <= j < i ==> !separator_at(cs@, j),
        decreases n - i,
    {
        if cs[i] == ' ' && cs[i + 1] == '/' && cs[i + 2] == ' ' {
            assert(separator_at(cs@, i as int));
            let ghost f = first_separator(cs@);
            proof {
                let k = choose|k: int|
                    separator_at(cs@, k) && forall|j: int| 0 <= j < k ==> !separator_at(cs@, j);
                assert(separator_at(cs@, i as int) && forall|j: int|
                    0 <= j < i ==> !separator_at(cs@, j));
                if k < i {
                } else if k > i {
                    assert(!separator_at(cs@, i as int));
                }
                assert(k == i);
            }
            let mut part: Vec<char> = Vec::new();
            match lang {
                Lang::Zh => {
                    let mut p: usize = 0;
                    while p < i
                        invariant
                            p <= i,
                            i <= n,
                            n == cs@.len(),
                            part@ == cs@.take(p as int),
                        decreases i - p,
                    {
                        part.push(cs[p]);
                        p += 1;
                        assert(part@ =~= cs@.take(p as int));
                    }
                },
                Lang::En => {
                    let mut p: usize = i + 3;
                    while p < n
                        invariant
                            i + 3 <= p <= n,
                            n == cs@.len(),
                            part@ == cs@.subrange(i + 3, p as int),
                        decreases n - p,
                    {
                        part.push(cs[p]);
                        p += 1;
                        assert(part@ =~= cs@.subrange(i + 3, p as int));
                    }
                    assert(cs@.subrange(i + 3, n as int) =~= cs@.skip(i + 3));
                },
            }
            return from_chars(&part);
        }
        i += 1;
    }
    proof {
        assert forall|j: int| !separator_at(cs@, j) by {
            if separator_at(cs@, j) {
                assert(0 <= j < i || j + 3 > n);
            }
        }
    }
    from_chars(&cs)
}


/// A bilingual message `"<zh> / <en>"`, whose Chinese half holds no `/`,
/// gives its Chinese half for Chinese and its English half for English.
pub proof fn bilingual_halves(zh: Seq<char>, en: Seq<char>)
    requires
        forall|i: int| 0 <= i < zh.len() ==> zh[i] != '/',
    ensures
        localized(zh + seq![' ', '/', ' '] + en, Lang::Zh) == zh,
        localized(zh + seq![' ', '/', ' '] + en, Lang::En) == en,
{
    let s = zh + seq![' ', '/', ' '] + en;
    let n = zh.len() as int;
    assert(separator_at(s, n));
    assert forall|j: int| 0 <= j < n implies !separator_at(s, j) by {
        if separator_at(s, j) {
            if j + 1 < n {
                assert(s[j + 1] == zh[j + 1]);
            } else {
                assert(s[j + 1] == ' ');
            }
        }
    }
    let k = choose|k: int| separator_at(s, k) && forall|j: int| 0 <= j < k ==> !separator_at(s, j);
    if k < n {
        assert(!separator_at(s, k));
    } else if k > n {
        assert(!separator_at(s, n));
    }
    assert(k == n);
    assert(s.take(n) =~= zh);
    assert(s.skip(n + 3) =~= en);
}

} // verus!
