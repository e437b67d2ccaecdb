//! Deterministic text rendering.
//!
//! String values embedded in renderings are escaped: quote and backslash get
//! a backslash prefix, the usual control characters get their short escapes,
//! and any other control character is written as a four-digit escape. An
//! ordered key/value map renders as `{"key": "value", ...}`.

use vstd::prelude::*;
use vstd::string::StrSliceExecFns;
use vstd::string::StringExecFns;

verus! {

/// The lowercase hexadecimal digit for `d`.
pub open spec fn hex_digit(d: int) -> char
    recommends
        0 <= d < 16,
{
    "0123456789abcdef"@[d]
}

/// How a single character appears inside a quoted rendering.
pub open spec fn escape_char(c: char) -> Seq<char> {
    if c == '"' {
        "\\\""@
    } else if c == '\\' {
        "\\\\"@
    } else if c == '\u{8}' {
        "\\b"@
    } else if c == '\u{c}' {
        "\\f"@
    } else if c == '\n' {
        "\\n"@
    } else if c == '\r' {
        "\\r"@
    } else if c == '\t' {
        "\\t"@
    } else if (c as u32) < 32 {
        "\\u00"@ + seq![
            hex_digit(((c as u32) / 16) as int),
            hex_digit(((c as u32) % 16) as int),
        ]
    } else {
        seq![c]
    }
}

/// How a whole string appears inside a quoted rendering.
pub open spec fn escape_seq(s: Seq<char>) -> Seq<char>
    decreases s.len(),
{
    if s.len() == 0 {
        Seq::empty()
    } else {
        escape_char(s[0]) + escape_seq(s.skip(1))
    }
}

/// Escaping a string extended by one character appends that character's escape.
pub proof fn lemma_escape_push(s: Seq<char>, c: char)
    ensures
        escape_seq(s.push(c)) == escape_seq(s) + escape_char(c),
    decreases s.len(),
{
    if s.len() == 0 {
        assert(s.push(c)[0] == c);
        assert(s.push(c).skip(1) =~= Seq::<char>::empty());
        assert(escape_seq(Seq::<char>::empty()) =~= Seq::<char>::empty());
        assert(escape_seq(s.push(c)) =~= escape_char(c));
        assert(escape_seq(s) + escape_char(c) =~= escape_char(c));
    } else {
        assert(s.push(c).skip(1) =~= s.skip(1).push(c));
        lemma_escape_push(s.skip(1), c);
        assert(escape_seq(s.push(c)) =~= escape_seq(s) + escape_char(c));
    }
}

/// Escapes a string for embedding in a quoted rendering.
pub fn escape_str(s: &str) -> (r: String)
    ensures
        r@ == escape_seq(s@),
{
    let n = s.unicode_len();
    let mut out = String::new();
    let mut i: usize = 0;
    while i < n
        invariant
            n == s@.len(),
            i <= n,
            out@ == escape_seq(s@.take(i as int)),
        decreases n - i,
    {
        let c = s.get_char(i);
        if c == '"' {
            out.append("\\\"");
        } else if c == '\\' {
            out.append("\\\\");
        } else if c == '\u{8}' {
            out.append("\\b");
        } else if c == '\u{c}' {
            out.append("\\f");
        } else if c == '\n' {
            out.append("\\n");
        } else if c == '\r' {
            out.append("\\r");
        } else if c == '\t' {
            out.append("\\t");
        } else if (c as u32) < 32 {
            let hi = ((c as u32) / 16) as usize;
            let lo = ((c as u32) % 16) as usize;
            let digits = "0123456789abcdef";
            proof {
                reveal_strlit("0123456789abcdef");
            }
            out.append("\\u00");
            let hi_digit = digits.substring_char(hi, hi + 1);
            out.append(hi_digit);
            let lo_digit = digits.substring_char(lo, lo + 1);
            out.append(lo_digit);
            proof {
                assert(hi_digit@ =~= seq![hex_digit(hi as int)]);
                assert(lo_digit@ =~= seq![hex_digit(lo as int)]);
                assert(out@ =~= escape_seq(s@.take(i as int)) + escape_char(s@[i as int]));
            }
        } else {
            out.append(s.substring_char(i, i + 1));
            proof {
                assert(s@.subrange(i as int, i as int + 1) =~= seq![s@[i as int]]);
            }
        }
        proof {
            lemma_escape_push(s@.take(i as int), s@[i as int]);
            assert(s@.take(i as int).push(s@[i as int]) =~= s@.take(i as int + 1));
        }
        i = i + 1;
    }
    proof {
        assert(s@.take(n as int) =~= s@);
    }
    out
}

/// The view of a vector of string pairs, as a sequence of character-sequence pairs.
pub open spec fn pairs_view(m: Seq<(String, String)>) -> Seq<(Seq<char>, Seq<char>)> {
    m.map_values(|p: (String, String)| (p.0@, p.1@))
}

/// One rendered `"key": "value"` entry.
pub open spec fn entry_render(k: Seq<char>, v: Seq<char>) -> Seq<char> {
    "\""@ + escape_seq(k) + "\": \""@ + escape_seq(v) + "\""@
}

/// All entries of a map, rendered in order and separated by commas.
pub open spec fn entries_render(m: Seq<(Seq<char>, Seq<char>)>) -> Seq<char>
    decreases m.len(),
{
    if m.len() == 0 {
        Seq::empty()
    } else if m.len() == 1 {
        entry_render(m[0].0, m[0].1)
    } else {
        entry_render(m[0].0, m[0].1) + ", "@ + entries_render(m.skip(1))
    }
}

/// A whole map rendered as an ordered key/value listing.
pub open spec fn map_render(m: Seq<(Seq<char>, Seq<char>)>) -> Seq<char> {
    "{"@ + entries_render(m) + "}"@
}

/// Rendering one more entry appends it, with a separator when one is due.
pub proof fn lemma_entries_push(m: Seq<(Seq<char>, Seq<char>)>, p: (Seq<char>, Seq<char>))
    ensures
        entries_render(m.push(p)) == if m.len() == 0 {
            entry_render(p.0, p.1)
        } else {
            entries_render(m) + ", "@ + entry_render(p.0, p.1)
        },
    decreases m.len(),
{
    if m.len() == 0 {
        assert(m.push(p)[0] == p);
        assert(entries_render(m.push(p)) == entry_render(p.0, p.1));
    } else {
        assert(m.push(p).skip(1) =~= m.skip(1).push(p));
        lemma_entries_push(m.skip(1), p);
        if m.len() == 1 {
            assert(entries_render(m.push(p)) =~= entries_render(m) + ", "@ + entry_render(
                p.0,
                p.1,
            ));
        } else {
            assert(entries_render(m.push(p)) =~= entries_render(m) + ", "@ + entry_render(
                p.0,
                p.1,
            ));
        }
    }
}

/// Renders an ordered key/value map as `{"key": "value", ...}`.
pub fn render_map(pairs: &Vec<(String, String)>) -> (r: String)
    ensures
        r@ == map_render(pairs_view(pairs@)),
{
    let ghost full = pairs_view(pairs@);
    let mut out = "{".to_owned();
    let mut i: usize = 0;
    while i < pairs.len()
        invariant
            i <= pairs.len(),
            full == pairs_view(pairs@),
            full.len() == pairs@.len(),
            out@ == "{"@ + entries_render(full.take(i as int)),
        decreases pairs.len() - i,
    {
        if i > 0 {
            out.append(", ");
        }
        out.append("\"");
        let ek = escape_str(pairs[i].0.as_str());
        out.append(ek.as_str());
        out.append("\": \"");
        let ev = escape_str(pairs[i].1.as_str());
        out.append(ev.as_str());
        out.append("\"");
        proof {
            lemma_entries_push(full.take(i as int), full[i as int]);
            assert(full.take(i as int).push(full[i as int]) =~= full.take(i as int + 1));
            assert(full[i as int] == (pairs@[i as int].0@, pairs@[i as int].1@));
            if i == 0 {
                assert(out@ =~= "{"@ + entries_render(full.take(i as int + 1)));
            } else {
                assert(out@ =~= "{"@ + entries_render(full.take(i as int + 1)));
            }
        }
        i = i + 1;
    }
    proof {
        assert(full.take(pairs@.len() as int) =~= full);
    }
    out.append("}");
    out
}

} // verus!
