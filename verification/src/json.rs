//! The configuration's JSON form.
//!
//! The front end bootstraps itself from a JSON document of the
//! configuration, so the document's exact shape is part of the tool's
//! contract: the fields `owner`, `owner_type` and `theme`, in that
//! order, with the owner either `null` or a JSON string and the two
//! enumerations serialized as their lowercase labels.

use vstd::prelude::*;
use crate::types::Config;
use crate::types::owner_type_label;
use crate::types::spec_owner_type_label;
use crate::types::spec_theme_label;
use crate::types::theme_label;
use crate::textfmt::push_char;

verus! {

/// The lowercase hexadecimal digit for a value below 16.
pub open spec fn spec_hex_digit(d: u32) -> char {
    if d == 0 { '0' } else if d == 1 { '1' } else if d == 2 { '2' } else if d == 3 { '3' }
    else if d == 4 { '4' } else if d == 5 { '5' } else if d == 6 { '6' } else if d == 7 { '7' }
    else if d == 8 { '8' } else if d == 9 { '9' } else if d == 10 { 'a' } else if d == 11 { 'b' }
    else if d == 12 { 'c' } else if d == 13 { 'd' } else if d == 14 { 'e' } else { 'f' }
}

/// How one character appears inside a JSON string literal: quotes and
/// backslashes are escaped, the common control characters get their
/// short escapes, the remaining control characters a `\u00..` escape,
/// and every other character stands for itself.
pub open spec fn spec_escape_char(c: char) -> Seq<char> {
    if c == '"' {
        seq!['\\', '"']
    } else if c == '\\' {
        seq!['\\', '\\']
    } else if c == '\n' {
        seq!['\\', 'n']
    } else if c == '\r' {
        seq!['\\', 'r']
    } else if c == '\t' {
        seq!['\\', 't']
    } else if (c as u32) < 0x20 {
        seq!['\\', 'u', '0', '0', spec_hex_digit((c as u32) / 16), spec_hex_digit(
            (c as u32) % 16,
        )]
    } else {
        seq![c]
    }
}

/// A whole character sequence escaped for use inside a JSON string
/// literal.
pub open spec fn spec_json_escaped(s: Seq<char>) -> Seq<char>
    decreases s.len(),
{
    if s.len() == 0 {
        Seq::empty()
    } else {
        spec_json_escaped(s.drop_last()) + spec_escape_char(s.last())
    }
}

/// A JSON string literal holding `s`.
pub open spec fn spec_json_string(s: Seq<char>) -> Seq<char> {
    "\""@ + spec_json_escaped(s) + "\""@
}

/// The JSON document for a configuration: its three fields in
/// declaration order, the owner as `null` or a string, the owner type
/// and theme as their lowercase labels.
pub open spec fn spec_config_json(c: Config) -> Seq<char> {
    "{\"owner\":"@ + (match c.owner {
        Some(o) => spec_json_string(o@),
        None => "null"@,
    }) + ",\"owner_type\":\""@ + spec_owner_type_label(c.owner_type) + "\",\"theme\":\""@
        + spec_theme_label(c.theme) + "\"}"@
}

/// Appends the lowercase hexadecimal digit for `d`.
fn push_hex_digit(out: &mut String, d: u32)
    requires
        d < 16,
    ensures
        final(out)@ == old(out)@ + seq![spec_hex_digit(d)],
{
    let c: char = if d == 0 { '0' } else if d == 1 { '1' } else if d == 2 { '2' }
    else if d == 3 { '3' } else if d == 4 { '4' } else if d == 5 { '5' } else if d == 6 { '6' }
    else if d == 7 { '7' } else if d == 8 { '8' } else if d == 9 { '9' } else if d == 10 { 'a' }
    else if d == 11 { 'b' } else if d == 12 { 'c' } else if d == 13 { 'd' }
    else if d == 14 { 'e' } else { 'f' };
    push_char(out, c);
}

/// Appends the escaped form of one character.
fn push_escaped_char(out: &mut String, c: char)
    ensures
        final(out)@ == old(out)@ + spec_escape_char(c),
{
    let ghost pre = out@;
    if c == '"' {
        proof {
            reveal_strlit("\\\"");
        }
        out.append("\\\"");
        assert(out@ =~= pre + spec_escape_char(c));
    } else if c == '\\' {
        proof {
            reveal_strlit("\\\\");
        }
        out.append("\\\\");
        assert(out@ =~= pre + spec_escape_char(c));
    } else if c == '\n' {
        proof {
            reveal_strlit("\\n");
        }
        out.append("\\n");
        assert(out@ =~= pre + spec_escape_char(c));
    } else if c == '\r' {
        proof {
            reveal_strlit("\\r");
        }
        out.append("\\r");
        assert(out@ =~= pre + spec_escape_char(c));
    } else if c == '\t' {
        proof {
            reveal_strlit("\\t");
        }
        out.append("\\t");
        assert(out@ =~= pre + spec_escape_char(c));
    } else if (c as u32) < 0x20 {
        proof {
            reveal_strlit("\\u00");
        }
        out.append("\\u00");
        push_hex_digit(out, (c as u32) / 16);
        push_hex_digit(out, (c as u32) % 16);
        assert(out@ =~= pre + spec_escape_char(c));
    } else {
        push_char(out, c);
    }
}

/// Appends `s` escaped for the inside of a JSON string literal.
fn push_json_escaped(out: &mut String, s: &str)
    ensures
        final(out)@ == old(out)@ + spec_json_escaped(s@),
{
    let n = s.unicode_len();
    let ghost start = out@;
    for i in 0..n
        invariant
            n == s@.len(),
            out@ == start + spec_json_escaped(s@.subrange(0, i as int)),
    {
        let c = s.get_char(i);
        proof {
            assert(s@.subrange(0, i + 1 as int).drop_last() =~= s@.subrange(0, i as int));
            assert(s@.subrange(0, i + 1 as int).last() == s@[i as int]);
        }
        push_escaped_char(out, c);
        assert(out@ =~= start + spec_json_escaped(s@.subrange(0, i + 1 as int)));
    }
    proof {
        assert(s@.subrange(0, s@.len() as int) =~= s@);
    }
}

/// Renders the configuration as the JSON document the front end reads:
/// `{"owner":...,"owner_type":"...","theme":"..."}` with exactly the
/// startup values.
pub fn config_json(c: &Config) -> (r: String)
    ensures
        r@ == spec_config_json(*c),
{
    let mut out = String::from_str("{\"owner\":");
    match &c.owner {
        Some(o) => {
            out.append("\"");
            push_json_escaped(&mut out, o.as_str());
            out.append("\"");
        },
        None => {
            out.append("null");
        },
    }
    out.append(",\"owner_type\":\"");
    out.append(owner_type_label(&c.owner_type));
    out.append("\",\"theme\":\"");
    out.append(theme_label(&c.theme));
    out.append("\"}");
    assert(out@ =~= spec_config_json(*c));
    out
}

} // verus!
