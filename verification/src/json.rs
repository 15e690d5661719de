//! The compact JSON text of a list of commands (each a list of strings), as
//! `serde_json::to_string` writes it, and how a JSON reader reads it back.
use vstd::prelude::*;
use crate::js::{hex_char, hex4};

verus! {

/// How `serde_json` writes one character inside a string: `"` and `\` get a backslash,
/// backspace, tab, line feed, form feed and carriage return their short escapes, the
/// other characters below U+0020 `\u00xx` in lower-case hex, everything else itself.
pub open spec fn json_escape_char(c: char) -> Seq<char> {
    if c == '"' {
        seq!['\\', '"']
    } else if c == '\\' {
        seq!['\\', '\\']
    } else if c == '\u{8}' {
        seq!['\\', 'b']
    } else if c == '\t' {
        seq!['\\', 't']
    } else if c == '\n' {
        seq!['\\', 'n']
    } else if c == '\u{c}' {
        seq!['\\', 'f']
    } else if c == '\r' {
        seq!['\\', 'r']
    } else if (c as u32) < 0x20 {
        seq!['\\', 'u', '0', '0', hex_char((c as u32) as nat / 16), hex_char((c as u32) as nat % 16)]
    } else {
        seq![c]
    }
}

/// The escaped body of a JSON string.
pub open spec fn json_escape(s: Seq<char>) -> Seq<char>
    decreases s.len(),
{
    if s.len() == 0 {
        Seq::empty()
    } else {
        json_escape_char(s[0]) + json_escape(s.skip(1))
    }
}

/// A JSON string.
pub open spec fn json_string(s: Seq<char>) -> Seq<char> {
    seq!['"'] + json_escape(s) + seq!['"']
}

/// JSON strings separated by `,`.
pub open spec fn json_strings(v: Seq<Seq<char>>) -> Seq<char>
    decreases v.len(),
{
    if v.len() == 0 {
        Seq::empty()
    } else if v.len() == 1 {
        json_string(v[0])
    } else {
        json_string(v[0]) + seq![','] + json_strings(v.skip(1))
    }
}

/// A JSON array of strings, with no spaces.
pub open spec fn json_string_array(v: Seq<Seq<char>>) -> Seq<char> {
    seq!['['] + json_strings(v) + seq![']']
}

/// JSON arrays of strings separated by `,`.
pub open spec fn json_arrays(cmds: Seq<Seq<Seq<char>>>) -> Seq<char>
    decreases cmds.len(),
{
    if cmds.len() == 0 {
        Seq::empty()
    } else if cmds.len() == 1 {
        json_string_array(cmds[0])
    } else {
        json_string_array(cmds[0]) + seq![','] + json_arrays(cmds.skip(1))
    }
}

/// The compact JSON text that `serde_json::to_string` writes for a list of commands, each
/// a list of strings: an array of arrays of JSON strings, with no spaces.
pub open spec fn json_of_commands(cmds: Seq<Seq<Seq<char>>>) -> Seq<char> {
    seq!['['] + json_arrays(cmds) + seq![']']
}

/// The character a JSON reader takes for the escape `\<e>`.
pub open spec fn json_short_escape(e: char) -> Option<char> {
    if e == '"' {
        Some('"')
    } else if e == '\\' {
        Some('\\')
    } else if e == '/' {
        Some('/')
    } else if e == 'b' {
        Some('\u{8}')
    } else if e == 'f' {
        Some('\u{c}')
    } else if e == 'n' {
        Some('\n')
    } else if e == 'r' {
        Some('\r')
    } else if e == 't' {
        Some('\t')
    } else {
        None
    }
}

/// `c` in front of what was read, if anything was.
pub open spec fn cons_read(c: char, r: Option<(Seq<char>, Seq<char>)>) -> Option<(Seq<char>, Seq<char>)> {
    match r {
        Some((v, rest)) => Some((seq![c] + v, rest)),
        None => None,
    }
}

/// Reads the body of a JSON string up to its closing `"`: the characters it denotes and
/// the text after the quote. `None` for a raw control character, an unknown escape, a
/// `\u` escape of a surrogate, or a missing closing quote.
pub open spec fn read_body(t: Seq<char>) -> Option<(Seq<char>, Seq<char>)>
    decreases t.len(),
{
    if t.len() == 0 {
        None
    } else if t[0] == '"' {
        Some((Seq::empty(), t.skip(1)))
    } else if t[0] == '\\' {
        if t.len() < 2 {
            None
        } else if t[1] == 'u' {
            if t.len() < 6 {
                None
            } else {
                match hex4(t.subrange(2, 6)) {
                    Some(v) => if v < 0xD800 {
                        cons_read(v as char, read_body(t.skip(6)))
                    } else {
                        None
                    },
                    None => None,
                }
            }
        } else {
            match json_short_escape(t[1]) {
                Some(c) => cons_read(c, read_body(t.skip(2))),
                None => None,
            }
        }
    } else if (t[0] as u32) < 0x20 {
        None
    } else {
        cons_read(t[0], read_body(t.skip(1)))
    }
}

/// What is left after a string body is shorter than the body's text.
pub proof fn lemma_read_body_shorter(t: Seq<char>)
    ensures
        read_body(t) matches Some((v, r)) ==> r.len() < t.len(),
    decreases t.len(),
{
    if t.len() > 0 && t[0] != '"' {
        if t[0] == '\\' {
            if t.len() >= 6 && t[1] == 'u' {
                lemma_read_body_shorter(t.skip(6));
            } else if t.len() >= 2 {
                lemma_read_body_shorter(t.skip(2));
            }
        } else {
            lemma_read_body_shorter(t.skip(1));
        }
    }
}

/// Reads a JSON string.
pub open spec fn read_string(t: Seq<char>) -> Option<(Seq<char>, Seq<char>)> {
    if t.len() > 0 && t[0] == '"' {
        read_body(t.skip(1))
    } else {
        None
    }
}

/// What is left after a string is shorter than the text it was read from.
pub proof fn lemma_read_string_shorter(t: Seq<char>)
    ensures
        read_string(t) matches Some((v, r)) ==> r.len() < t.len(),
{
    if t.len() > 0 && t[0] == '"' {
        lemma_read_body_shorter(t.skip(1));
    }
}

/// Reads `s1,s2,...,sn]`: strings separated by `,` up to the closing `]`.
pub open spec fn read_string_items(t: Seq<char>) -> Option<(Seq<Seq<char>>, Seq<char>)>
    decreases t.len(),
{
    match read_string(t) {
        Some((s, r)) => if r.len() > 0 && r[0] == ',' {
            proof {
                lemma_read_string_shorter(t);
            }
            match read_string_items(r.skip(1)) {
                Some((ss, r2)) => Some((seq![s] + ss, r2)),
                None => None,
            }
        } else if r.len() > 0 && r[0] == ']' {
            Some((seq![s], r.skip(1)))
        } else {
            None
        },
        None => None,
    }
}

/// What is left after a list of strings is shorter than the text it was read from.
pub proof fn lemma_read_string_items_shorter(t: Seq<char>)
    ensures
        read_string_items(t) matches Some((v, r)) ==> r.len() < t.len(),
    decreases t.len(),
{
    lemma_read_string_shorter(t);
    if let Some((s, r)) = read_string(t) {
        if r.len() > 0 && r[0] == ',' {
            lemma_read_string_items_shorter(r.skip(1));
        }
    }
}

/// Reads a JSON array of strings.
pub open spec fn read_string_array(t: Seq<char>) -> Option<(Seq<Seq<char>>, Seq<char>)> {
    if t.len() >= 2 && t[0] == '[' && t[1] == ']' {
        Some((Seq::empty(), t.skip(2)))
    } else if t.len() > 0 && t[0] == '[' {
        read_string_items(t.skip(1))
    } else {
        None
    }
}

/// What is left after an array of strings is shorter than the text it was read from.
pub proof fn lemma_read_string_array_shorter(t: Seq<char>)
    ensures
        read_string_array(t) matches Some((v, r)) ==> r.len() < t.len(),
{
    if !(t.len() >= 2 && t[0] == '[' && t[1] == ']') && t.len() > 0 && t[0] == '[' {
        lemma_read_string_items_shorter(t.skip(1));
    }
}

/// Reads arrays of strings separated by `,` up to the closing `]`.
pub open spec fn read_array_items(t: Seq<char>) -> Option<(Seq<Seq<Seq<char>>>, Seq<char>)>
    decreases t.len(),
{
    match read_string_array(t) {
        Some((a, r)) => if r.len() > 0 && r[0] == ',' {
            proof {
                lemma_read_string_array_shorter(t);
            }
            match read_array_items(r.skip(1)) {
                Some((aa, r2)) => Some((seq![a] + aa, r2)),
                None => None,
            }
        } else if r.len() > 0 && r[0] == ']' {
            Some((seq![a], r.skip(1)))
        } else {
            None
        },
        None => None,
    }
}

/// Reads a whole text as a JSON array of arrays of strings; `None` unless the text is
/// exactly one such array.
pub open spec fn read_commands(t: Seq<char>) -> Option<Seq<Seq<Seq<char>>>> {
    let outer = if t.len() >= 2 && t[0] == '[' && t[1] == ']' {
        Some((Seq::<Seq<Seq<char>>>::empty(), t.skip(2)))
    } else if t.len() > 0 && t[0] == '[' {
        read_array_items(t.skip(1))
    } else {
        None
    };
    match outer {
        Some((v, r)) => if r.len() == 0 {
            Some(v)
        } else {
            None
        },
        None => None,
    }
}

proof fn lemma_hex_digit_value(d: nat)
    requires
        d < 16,
    ensures
        crate::js::hex_value(hex_char(d)) == Some(d),
{
}

/// Reading one escaped character in front of more text.
proof fn lemma_read_escaped_char(c: char, rest: Seq<char>)
    ensures
        read_body(json_escape_char(c) + rest) == cons_read(c, read_body(rest)),
{
    let t = json_escape_char(c) + rest;
    if c == '"' || c == '\\' || c == '\u{8}' || c == '\t' || c == '\n' || c == '\u{c}' || c == '\r' {
        assert(t.skip(2) =~= rest);
    } else if (c as u32) < 0x20 {
        let v = c as u32;
        lemma_hex_digit_value(v as nat / 16);
        lemma_hex_digit_value(v as nat % 16);
        assert(t.subrange(2, 6) =~= seq!['0', '0', hex_char(v as nat / 16), hex_char(v as nat % 16)]);
        assert(t.skip(6) =~= rest);
        assert(hex4(t.subrange(2, 6)) == Some(v as nat)) by (nonlinear_arith)
            requires
                hex4(t.subrange(2, 6)) == Some(0nat * 4096 + 0nat * 256 + (v as nat / 16) * 16 + v as nat % 16),
        ;
        assert((v as nat) as char == c);
    } else {
        assert(t[0] == c);
        assert(t.skip(1) =~= rest);
    }
}

/// An escaped body and its closing quote read back as the text, leaving what follows.
proof fn lemma_read_escaped(s: Seq<char>, rest: Seq<char>)
    ensures
        read_body(json_escape(s) + seq!['"'] + rest) == Some((s, rest)),
    decreases s.len(),
{
    if s.len() == 0 {
        let t = json_escape(s) + seq!['"'] + rest;
        assert(t =~= seq!['"'] + rest);
        assert(t.skip(1) =~= rest);
    } else {
        lemma_read_escaped(s.skip(1), rest);
        let tail = json_escape(s.skip(1)) + seq!['"'] + rest;
        assert(json_escape(s) + seq!['"'] + rest =~= json_escape_char(s[0]) + tail);
        lemma_read_escaped_char(s[0], tail);
        assert(seq![s[0]] + s.skip(1) =~= s);
    }
}

proof fn lemma_read_json_string(s: Seq<char>, rest: Seq<char>)
    ensures
        read_string(json_string(s) + rest) == Some((s, rest)),
        (json_string(s) + rest)[0] == '"',
{
    let t = json_string(s) + rest;
    assert(t.skip(1) =~= json_escape(s) + seq!['"'] + rest);
    lemma_read_escaped(s, rest);
}

proof fn lemma_read_json_strings(v: Seq<Seq<char>>, rest: Seq<char>)
    requires
        v.len() >= 1,
    ensures
        read_string_items(json_strings(v) + seq![']'] + rest) == Some((v, rest)),
        (json_strings(v) + seq![']'] + rest)[0] == '"',
    decreases v.len(),
{
    let t = json_strings(v) + seq![']'] + rest;
    if v.len() == 1 {
        let r = seq![']'] + rest;
        assert(t =~= json_string(v[0]) + r);
        lemma_read_json_string(v[0], r);
        assert(r.skip(1) =~= rest);
        assert(seq![v[0]] =~= v);
    } else {
        let tail = json_strings(v.skip(1)) + seq![']'] + rest;
        let r = seq![','] + tail;
        assert(t =~= json_string(v[0]) + r);
        lemma_read_json_string(v[0], r);
        assert(r.skip(1) =~= tail);
        lemma_read_json_strings(v.skip(1), rest);
        assert(seq![v[0]] + v.skip(1) =~= v);
    }
}

proof fn lemma_read_json_string_array(v: Seq<Seq<char>>, rest: Seq<char>)
    ensures
        read_string_array(json_string_array(v) + rest) == Some((v, rest)),
        (json_string_array(v) + rest)[0] == '[',
{
    let t = json_string_array(v) + rest;
    if v.len() == 0 {
        assert(t =~= seq!['[', ']'] + rest);
        assert(t.skip(2) =~= rest);
        assert(v =~= Seq::<Seq<char>>::empty());
    } else {
        lemma_read_json_strings(v, rest);
        assert(t.skip(1) =~= json_strings(v) + seq![']'] + rest);
        assert(t[1] == (json_strings(v) + seq![']'] + rest)[0]);
    }
}

proof fn lemma_read_json_arrays(cmds: Seq<Seq<Seq<char>>>, rest: Seq<char>)
    requires
        cmds.len() >= 1,
    ensures
        read_array_items(json_arrays(cmds) + seq![']'] + rest) == Some((cmds, rest)),
        (json_arrays(cmds) + seq![']'] + rest)[0] == '[',
    decreases cmds.len(),
{
    let t = json_arrays(cmds) + seq![']'] + rest;
    if cmds.len() == 1 {
        let r = seq![']'] + rest;
        assert(t =~= json_string_array(cmds[0]) + r);
        lemma_read_json_string_array(cmds[0], r);
        assert(r.skip(1) =~= rest);
        assert(seq![cmds[0]] =~= cmds);
    } else {
        let tail = json_arrays(cmds.skip(1)) + seq![']'] + rest;
        let r = seq![','] + tail;
        assert(t =~= json_string_array(cmds[0]) + r);
        lemma_read_json_string_array(cmds[0], r);
        assert(r.skip(1) =~= tail);
        lemma_read_json_arrays(cmds.skip(1), rest);
        assert(seq![cmds[0]] + cmds.skip(1) =~= cmds);
    }
}

/// The JSON text of a list of commands reads back, as a JSON array of arrays of
/// strings, as exactly those commands in the same order.
pub proof fn lemma_commands_json_reads_back(cmds: Seq<Seq<Seq<char>>>)
    ensures
        read_commands(json_of_commands(cmds)) == Some(cmds),
{
    let t = json_of_commands(cmds);
    if cmds.len() == 0 {
        assert(t =~= seq!['[', ']']);
        assert(t.skip(2) =~= Seq::<char>::empty());
        assert(cmds =~= Seq::<Seq<Seq<char>>>::empty());
    } else {
        let empty = Seq::<char>::empty();
        lemma_read_json_arrays(cmds, empty);
        assert(t.skip(1) =~= json_arrays(cmds) + seq![']'] + empty);
        assert(t[1] == (json_arrays(cmds) + seq![']'] + empty)[0]);
    }
}

} // verus!
