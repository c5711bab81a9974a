//! Framing of the relay payload: a JSON object with a single field,
//! `command`, whose value is the command text as a JSON string literal.
//!
//! The wire format is the gateway's own, so the payload is built here
//! character by character, and the escaping is proved lossless: decoding
//! the framed payload gives back exactly the text that was framed.

use vstd::prelude::*;
use vstd::string::StrSliceExecFns;
use vstd::string::StringExecFns;
use crate::text::chars_to_string;

verus! {

/// The lowercase hexadecimal digit character for a value below sixteen.
pub open spec fn hex_digit(d: int) -> char {
    if d < 10 {
        ((48 + d) as u8) as char
    } else {
        ((87 + d) as u8) as char
    }
}

/// The value of a lowercase hexadecimal digit character; negative when the
/// character is no such digit.
pub open spec fn hex_val(c: char) -> int {
    if 48 <= (c as u32) && (c as u32) <= 57 {
        (c as u32) - 48
    } else if 97 <= (c as u32) && (c as u32) <= 102 {
        (c as u32) - 87
    } else {
        -1
    }
}

/// A character's encoding inside a JSON string literal: quote, backslash
/// and the named control characters take a two-character escape, the other
/// control characters a `\u00..` escape, and every other character stands
/// as itself.
pub open spec fn esc(c: char) -> Seq<char> {
    if c == '"' {
        seq!['\\', '"']
    } else if c == '\\' {
        seq!['\\', '\\']
    } else if c == '\u{08}' {
        seq!['\\', 'b']
    } else if c == '\t' {
        seq!['\\', 't']
    } else if c == '\n' {
        seq!['\\', 'n']
    } else if c == '\u{0c}' {
        seq!['\\', 'f']
    } else if c == '\r' {
        seq!['\\', 'r']
    } else if (c as u32) < 32 {
        seq!['\\', 'u', '0', '0', hex_digit((c as u32) as int / 16), hex_digit((c as u32) as int % 16)]
    } else {
        seq![c]
    }
}

/// The body of the JSON string literal that carries a text: each
/// character's encoding, in order.
pub open spec fn escape(s: Seq<char>) -> Seq<char>
    decreases s.len(),
{
    if s.len() == 0 {
        Seq::empty()
    } else {
        esc(s[0]) + escape(s.drop_first())
    }
}

/// Prepends a decoded character to a decoded tail, when the tail decoded.
pub open spec fn cons_decoded(c: char, rest: Option<Seq<char>>) -> Option<Seq<char>> {
    match rest {
        Some(r) => Some(seq![c] + r),
        None => None,
    }
}

/// Decodes a JSON string-literal body that uses the escapes `escape`
/// emits; `None` where the body is malformed.
pub open spec fn unescape(s: Seq<char>) -> Option<Seq<char>>
    decreases s.len(),
{
    if s.len() == 0 {
        Some(Seq::empty())
    } else if s[0] == '\\' {
        if s.len() < 2 {
            None
        } else if s[1] == '"' {
            cons_decoded('"', unescape(s.skip(2)))
        } else if s[1] == '\\' {
            cons_decoded('\\', unescape(s.skip(2)))
        } else if s[1] == 'b' {
            cons_decoded('\u{08}', unescape(s.skip(2)))
        } else if s[1] == 't' {
            cons_decoded('\t', unescape(s.skip(2)))
        } else if s[1] == 'n' {
            cons_decoded('\n', unescape(s.skip(2)))
        } else if s[1] == 'f' {
            cons_decoded('\u{0c}', unescape(s.skip(2)))
        } else if s[1] == 'r' {
            cons_decoded('\r', unescape(s.skip(2)))
        } else if s[1] == 'u' {
            if s.len() < 6 {
                None
            } else if s[2] == '0' && s[3] == '0' && hex_val(s[4]) >= 0 && hex_val(s[5]) >= 0 {
                cons_decoded(
                    ((hex_val(s[4]) * 16 + hex_val(s[5])) as u8) as char,
                    unescape(s.skip(6)),
                )
            } else {
                None
            }
        } else {
            None
        }
    } else {
        cons_decoded(s[0], unescape(s.skip(1)))
    }
}

/// The frame around the command text: the object's opening and the field name.
pub open spec fn payload_prefix() -> Seq<char> {
    "{\"command\":\""@
}

/// The frame after the command text: the literal's and the object's closing.
pub open spec fn payload_suffix() -> Seq<char> {
    "\"}"@
}

/// The relay payload for a command text.
pub open spec fn relay_payload_view(command: Seq<char>) -> Seq<char> {
    payload_prefix() + escape(command) + payload_suffix()
}

/// The command text a relay payload carries: the decoded body between the
/// fixed frame, `None` where the frame or the body is malformed.
pub open spec fn payload_command(p: Seq<char>) -> Option<Seq<char>> {
    if p.len() >= payload_prefix().len() + payload_suffix().len()
        && p.subrange(0, payload_prefix().len() as int) == payload_prefix()
        && p.subrange(p.len() - payload_suffix().len(), p.len() as int) == payload_suffix() {
        unescape(p.subrange(payload_prefix().len() as int, p.len() - payload_suffix().len()))
    } else {
        None
    }
}

fn hex_digit_char(d: u8) -> (r: char)
    requires
        d < 16,
    ensures
        r == hex_digit(d as int),
{
    if d < 10 {
        (48 + d) as char
    } else {
        (87 + d) as char
    }
}

fn push_esc(out: &mut Vec<char>, c: char)
    ensures
        final(out)@ == old(out)@ + esc(c),
{
    if c == '"' {
        out.push('\\');
        out.push('"');
    } else if c == '\\' {
        out.push('\\');
        out.push('\\');
    } else if c == '\u{08}' {
        out.push('\\');
        out.push('b');
    } else if c == '\t' {
        out.push('\\');
        out.push('t');
    } else if c == '\n' {
        out.push('\\');
        out.push('n');
    } else if c == '\u{0c}' {
        out.push('\\');
        out.push('f');
    } else if c == '\r' {
        out.push('\\');
        out.push('r');
    } else if (c as u32) < 32 {
        out.push('\\');
        out.push('u');
        out.push('0');
        out.push('0');
        let code: u32 = c as u32;
        out.push(hex_digit_char((code / 16) as u8));
        out.push(hex_digit_char((code % 16) as u8));
    } else {
        out.push(c);
    }
    proof {
        assert(out@ =~= old(out)@ + esc(c));
    }
}

proof fn lemma_escape_snoc(s: Seq<char>, c: char)
    ensures
        escape(s.push(c)) == escape(s) + esc(c),
    decreases s.len(),
{
    if s.len() == 0 {
        assert(s.push(c)[0] == c);
        assert(s.push(c).drop_first() =~= Seq::<char>::empty());
        assert(escape(s.push(c)) == esc(c) + escape(s.push(c).drop_first()));
        assert(escape(s.push(c)) =~= escape(s) + esc(c));
    } else {
        lemma_escape_snoc(s.drop_first(), c);
        assert(s.push(c)[0] == s[0]);
        assert(s.push(c).drop_first() =~= s.drop_first().push(c));
        assert(escape(s.push(c)) == esc(s[0]) + (escape(s.drop_first()) + esc(c)));
        assert(escape(s.push(c)) =~= escape(s) + esc(c));
    }
}

/// Encodes a text as the body of a JSON string literal.
pub fn escape_string(s: &str) -> (r: String)
    ensures
        r@ == escape(s@),
{
    let n = s.unicode_len();
    let mut out: Vec<char> = Vec::new();
    let mut i: usize = 0;
    while i < n
        invariant
            i <= n,
            n == s@.len(),
            out@ == escape(s@.subrange(0, i as int)),
        decreases n - i,
    {
        let c = s.get_char(i);
        push_esc(&mut out, c);
        proof {
            lemma_escape_snoc(s@.subrange(0, i as int), c);
            assert(s@.subrange(0, i as int).push(c) =~= s@.subrange(0, i as int + 1));
        }
        i += 1;
    }
    proof {
        assert(s@.subrange(0, n as int) =~= s@);
    }
    chars_to_string(&out)
}

/// Builds the relay payload `{"command":"<encoded text>"}`.
pub fn relay_payload(command: &str) -> (r: String)
    ensures
        r@ == relay_payload_view(command@),
{
    let mut r = "{\"command\":\"".to_owned();
    let body = escape_string(command);
    r.append(body.as_str());
    r.append("\"}");
    r
}

/// One encoded character decodes to exactly that character, whatever
/// encoded text follows it.
proof fn lemma_unescape_step(c: char, rest: Seq<char>)
    requires
        unescape(escape(rest)) == Some(rest),
    ensures
        unescape(esc(c) + escape(rest)) == Some(seq![c] + rest),
{
    let t = esc(c) + escape(rest);
    if c == '"' || c == '\\' || c == '\u{08}' || c == '\t' || c == '\n' || c == '\u{0c}'
        || c == '\r' {
        assert(t.skip(2) =~= escape(rest));
    } else if (c as u32) < 32 {
        let code: int = (c as u32) as int;
        assert(t[4] == hex_digit(code / 16));
        assert(t[5] == hex_digit(code % 16));
        assert(hex_val(hex_digit(code / 16)) == code / 16);
        assert(hex_val(hex_digit(code % 16)) == code % 16);
        assert(hex_val(t[4]) * 16 + hex_val(t[5]) == code);
        assert(((code as u8) as char) as u32 == code);
        vstd::utf8::char_u32_cast(c, code as u32);
        vstd::utf8::char_u32_cast((code as u8) as char, code as u32);
        assert((code as u8) as char == c);
        assert(t.skip(6) =~= escape(rest));
    } else {
        assert(t[0] == c && c != '\\');
        assert(t.skip(1) =~= escape(rest));
    }
}

/// The encoding is lossless: decoding the encoded text gives back exactly
/// the original, for every text.
pub proof fn lemma_escape_lossless(s: Seq<char>)
    ensures
        unescape(escape(s)) == Some(s),
    decreases s.len(),
{
    if s.len() == 0 {
    } else {
        lemma_escape_lossless(s.drop_first());
        lemma_unescape_step(s[0], s.drop_first());
        assert(seq![s[0]] + s.drop_first() =~= s);
    }
}

/// The payload carries the command exactly: reading the framed payload's
/// command field gives back the text that was framed, for every command.
pub proof fn lemma_payload_roundtrip(command: Seq<char>)
    ensures
        payload_command(relay_payload_view(command)) == Some(command),
{
    reveal_strlit("{\"command\":\"");
    reveal_strlit("\"}");
    let p = relay_payload_view(command);
    let e = escape(command);
    assert(payload_prefix().len() == 12);
    assert(payload_suffix().len() == 2);
    assert(p.len() == 14 + e.len());
    assert(p.subrange(0, 12) =~= payload_prefix());
    assert(p.subrange(p.len() - 2, p.len() as int) =~= payload_suffix());
    assert(p.subrange(12, p.len() - 2) =~= e);
    lemma_escape_lossless(command);
}

/// No two command texts frame to the same payload.
pub proof fn lemma_payload_injective(a: Seq<char>, b: Seq<char>)
    requires
        relay_payload_view(a) == relay_payload_view(b),
    ensures
        a == b,
{
    lemma_payload_roundtrip(a);
    lemma_payload_roundtrip(b);
}

} // verus!
