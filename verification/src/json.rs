//! The small amount of JSON the server writes by hand: string escaping and
//! the `{"error":...}` body.
use vstd::prelude::*;
use crate::text::{push_char, push_str, to_chars};

verus! {

/// Lower-case hexadecimal digit of `d` (`0 <= d < 16`).
pub open spec fn hex_char(d: int) -> char {
    if d < 10 {
        ('0' as int + d) as char
    } else {
        ('a' as int + (d - 10)) as char
    }
}

/// How one character is written inside a JSON string: quotes, backslashes,
/// newlines, carriage returns and tabs get their short escapes, the other
/// control characters below U+0020 are written `\u00XX`, everything else
/// stands for itself.
pub open spec fn escape_char(c: char) -> Seq<char> {
    if c == '"' {
        seq!['\\', '"']
    } else if c == '\\' {
        seq!['\\', '\\']
    } else if c == '\n' {
        seq!['\\', 'n']
    } else if c == '\r' {
        seq!['\\', 'r']
    } else if c == '\t' {
        seq!['\\', 't']
    } else if (c as u32) < 0x20 {
        seq!['\\', 'u', '0', '0', hex_char(((c as u32) / 16) as int), hex_char(((c as u32) % 16) as int)]
    } else {
        seq![c]
    }
}

/// `s` with every character escaped as `escape_char` says.
pub open spec fn escape_seq(s: Seq<char>) -> Seq<char>
    decreases s.len(),
{
    if s.len() == 0 {
        Seq::empty()
    } else {
        escape_seq(s.drop_last()) + escape_char(s.last())
    }
}

fn hex_digit(d: u32) -> (c: char)
    requires
        d < 16,
    ensures
        c == hex_char(d as int),
{
    if d < 10 {
        let b: u8 = 48u8 + (d as u8);
        b as char
    } else {
        let b: u8 = 87u8 + (d as u8);
        b as char
    }
}

/// Escape `s` for embedding in a JSON string literal.
pub fn escape_json_string(s: &str) -> (out: String)
    ensures
        out@ == escape_seq(s@),
{
    let cs = to_chars(s);
    let mut out = String::new();
    let mut i: usize = 0;
    while i < cs.len()
        invariant
            i <= cs.len(),
            cs@ == s@,
            out@ == escape_seq(cs@.take(i as int)),
        decreases cs.len() - i,
    {
        let c = cs[i];
        let ghost before = out@;
        if c == '"' {
            push_char(&mut out, '\\');
            push_char(&mut out, '"');
        } else if c == '\\' {
            push_char(&mut out, '\\');
            push_char(&mut out, '\\');
        } else if c == '\n' {
            push_char(&mut out, '\\');
            push_char(&mut out, 'n');
        } else if c == '\r' {
            push_char(&mut out, '\\');
            push_char(&mut out, 'r');
        } else if c == '\t' {
            push_char(&mut out, '\\');
            push_char(&mut out, 't');
        } else if (c as u32) < 0x20 {
            let v = c as u32;
            push_char(&mut out, '\\');
            push_char(&mut out, 'u');
            push_char(&mut out, '0');
            push_char(&mut out, '0');
            push_char(&mut out, hex_digit(v / 16));
            push_char(&mut out, hex_digit(v % 16));
        } else {
            push_char(&mut out, c);
        }
        assert(out@ =~= before + escape_char(c));
        assert(cs@.take(i + 1).drop_last() =~= cs@.take(i as int));
        i += 1;
    }
    assert(cs@.take(cs.len() as int) =~= cs@);
    out
}

/// `{"error":"<msg>"}`, the body of every error reply (`msg` is not escaped).
pub open spec fn json_error(msg: Seq<char>) -> Seq<char> {
    "{\"error\":\""@ + msg + "\"}"@
}

/// The error body for `msg`.
pub fn error_body(msg: &str) -> (out: String)
    ensures
        out@ == json_error(msg@),
{
    let mut out = String::new();
    push_str(&mut out, "{\"error\":\"");
    push_str(&mut out, msg);
    push_str(&mut out, "\"}");
    assert(out@ =~= json_error(msg@));
    out
}


proof fn lemma_hex_char_printable(d: int)
    requires
        0 <= d < 16,
    ensures
        hex_char(d) as u32 >= 0x20,
{
}

/// Escaped text holds no control character: every character of it is at
/// U+0020 or above.
pub proof fn escaped_has_no_controls(s: Seq<char>)
    ensures
        forall|i: int| 0 <= i < escape_seq(s).len() ==> (#[trigger] escape_seq(s)[i]) as u32 >= 0x20,
    decreases s.len(),
{
    if s.len() > 0 {
        escaped_has_no_controls(s.drop_last());
        let c = s.last();
        let e = escape_char(c);
        if (c as u32) < 0x20 && c != '\n' && c != '\r' && c != '\t' {
            lemma_hex_char_printable(((c as u32) / 16) as int);
            lemma_hex_char_printable(((c as u32) % 16) as int);
        }
        assert forall|i: int| 0 <= i < e.len() implies (#[trigger] e[i]) as u32 >= 0x20 by {}
        let p = escape_seq(s.drop_last());
        assert forall|i: int| 0 <= i < escape_seq(s).len() implies (#[trigger] escape_seq(s)[i]) as u32 >= 0x20 by {
            if i < p.len() {
                assert(escape_seq(s)[i] == p[i]);
            } else {
                assert(escape_seq(s)[i] == e[i - p.len()]);
            }
        }
    }
}

/// The value of a hexadecimal digit.
pub open spec fn hex_value(c: char) -> Option<int> {
    if '0' <= c && c <= '9' {
        Some(c as int - '0' as int)
    } else if 'a' <= c && c <= 'f' {
        Some(c as int - 'a' as int + 10)
    } else if 'A' <= c && c <= 'F' {
        Some(c as int - 'A' as int + 10)
    } else {
        None
    }
}

/// The character of a `\uXXXX` escape with the four digits `t[0..4]`, when
/// they are hexadecimal and name a character (not a surrogate half).
pub open spec fn unicode_escape(t: Seq<char>) -> Option<char> {
    if t.len() < 4 {
        None
    } else {
        match (hex_value(t[0]), hex_value(t[1]), hex_value(t[2]), hex_value(t[3])) {
            (Some(a), Some(b), Some(c), Some(d)) => {
                let v = a * 4096 + b * 256 + c * 16 + d;
                if 0xD800 <= v && v <= 0xDFFF {
                    None
                } else {
                    Some(v as char)
                }
            },
            _ => None,
        }
    }
}

/// What the text `t` between the quotes of a JSON string stands for, as a
/// JSON reader decodes it; none when `t` is no valid string content (an
/// unescaped quote or control character, or a bad escape). Escapes of
/// surrogate pairs, which `escape_seq` never writes, are not decoded here.
pub open spec fn json_unescape(t: Seq<char>) -> Option<Seq<char>>
    decreases t.len(),
{
    if t.len() == 0 {
        Some(Seq::empty())
    } else if t[0] == '"' || (t[0] as u32) < 0x20 {
        None
    } else if t[0] != '\\' {
        match json_unescape(t.skip(1)) {
            Some(r) => Some(seq![t[0]] + r),
            None => None,
        }
    } else if t.len() < 2 {
        None
    } else {
        let (ch, used): (Option<char>, int) = if t[1] == '"' {
            (Some('"'), 2)
        } else if t[1] == '\\' {
            (Some('\\'), 2)
        } else if t[1] == '/' {
            (Some('/'), 2)
        } else if t[1] == 'b' {
            (Some('\u{8}'), 2)
        } else if t[1] == 'f' {
            (Some('\u{c}'), 2)
        } else if t[1] == 'n' {
            (Some('\n'), 2)
        } else if t[1] == 'r' {
            (Some('\r'), 2)
        } else if t[1] == 't' {
            (Some('\t'), 2)
        } else if t[1] == 'u' {
            (unicode_escape(t.skip(2)), 6)
        } else {
            (None, 2)
        };
        match ch {
            Some(c) => match json_unescape(t.skip(used)) {
                Some(r) => Some(seq![c] + r),
                None => None,
            },
            None => None,
        }
    }
}

proof fn lemma_escape_front(s: Seq<char>)
    requires
        s.len() > 0,
    ensures
        escape_seq(s) == escape_char(s[0]) + escape_seq(s.skip(1)),
    decreases s.len(),
{
    if s.len() == 1 {
        assert(s.drop_last() =~= Seq::<char>::empty());
        assert(s.skip(1) =~= Seq::<char>::empty());
        assert(escape_seq(s.drop_last()) =~= Seq::<char>::empty());
        assert(escape_seq(s.skip(1)) =~= Seq::<char>::empty());
        assert(s.last() == s[0]);
        assert(escape_seq(s) =~= escape_char(s[0]) + escape_seq(s.skip(1)));
    } else {
        lemma_escape_front(s.drop_last());
        assert(s.drop_last().skip(1) =~= s.skip(1).drop_last());
        assert(s.skip(1).last() == s.last());
        assert(escape_seq(s) =~= escape_char(s[0]) + escape_seq(s.skip(1)));
    }
}

proof fn lemma_hex_round_trip(d: int)
    requires
        0 <= d < 16,
    ensures
        hex_value(hex_char(d)) == Some(d),
{
}

proof fn lemma_unescape_char(c: char, rest: Seq<char>)
    ensures
        json_unescape(escape_char(c) + rest) == match json_unescape(rest) {
            Some(r) => Some(seq![c] + r),
            None => None::<Seq<char>>,
        },
{
    let t = escape_char(c) + rest;
    let e = escape_char(c);
    assert(t.skip(e.len() as int) =~= rest);
    if c == '"' || c == '\\' || c == '\n' || c == '\r' || c == '\t' {
        assert(t[0] == '\\');
        assert(t[1] == e[1]);
    } else if (c as u32) < 0x20 {
        let v = c as u32;
        lemma_hex_round_trip((v / 16) as int);
        lemma_hex_round_trip((v % 16) as int);
        assert(t[0] == '\\' && t[1] == 'u');
        assert(t.skip(2)[0] == '0' && t.skip(2)[1] == '0');
        assert(t.skip(2)[2] == hex_char((v / 16) as int));
        assert(t.skip(2)[3] == hex_char((v % 16) as int));
        assert((v / 16) * 16 + v % 16 == v);
        assert(unicode_escape(t.skip(2)) == Some(c));
    } else {
        assert(t[0] == c);
        assert(t.skip(1) =~= rest);
    }
}

/// Escaping can be undone: a JSON reader decodes the escaped text of `s`
/// back to `s`.
pub proof fn escape_round_trip(s: Seq<char>)
    ensures
        json_unescape(escape_seq(s)) == Some(s),
    decreases s.len(),
{
    if s.len() > 0 {
        lemma_escape_front(s);
        escape_round_trip(s.skip(1));
        lemma_unescape_char(s[0], escape_seq(s.skip(1)));
        assert(seq![s[0]] + s.skip(1) =~= s);
    } else {
        assert(escape_seq(s) =~= Seq::<char>::empty());
    }
}

/// Text with no quote, backslash or control character decodes to itself.
pub proof fn lemma_plain_unescape(t: Seq<char>)
    requires
        forall|i: int|
            0 <= i < t.len() ==> #[trigger] t[i] != '"' && t[i] != '\\' && (t[i] as u32) >= 0x20,
    ensures
        json_unescape(t) == Some(t),
    decreases t.len(),
{
    if t.len() > 0 {
        assert forall|i: int| 0 <= i < t.skip(1).len() implies #[trigger] t.skip(1)[i] != '"'
            && t.skip(1)[i] != '\\' && (t.skip(1)[i] as u32) >= 0x20 by {
            assert(t.skip(1)[i] == t[i + 1]);
        }
        lemma_plain_unescape(t.skip(1));
        assert(seq![t[0]] + t.skip(1) =~= t);
    }
}

} // verus!
