//! Escaping of titles and artist names for a JSON text.

use vstd::prelude::*;

verus! {

/// The digit `d` of a hexadecimal number, in upper case.
pub open spec fn hex_digit(d: int) -> char {
    if d < 10 {
        (48 + d) as char
    } else {
        (55 + d) as char
    }
}

/// A UTF-16 code unit written as `\u` and four hexadecimal digits.
pub open spec fn unit_escape(unit: int) -> Seq<char> {
    seq![
        '\\',
        'u',
        hex_digit(unit / 4096),
        hex_digit((unit / 256) % 16),
        hex_digit((unit / 16) % 16),
        hex_digit(unit % 16),
    ]
}

/// The UTF-16 code units of a character: itself below `0x10000`, else a high
/// and a low surrogate that share the twenty bits of what is above.
pub open spec fn utf16_units(c: char) -> Seq<int> {
    let code = c as int;
    if code < 0x10000 {
        seq![code]
    } else {
        seq![0xD800 + (code - 0x10000) / 0x400, 0xDC00 + (code - 0x10000) % 0x400]
    }
}

/// A visible ASCII character: from `!` to `~`. The space is not among them.
pub open spec fn is_graphic(c: char) -> bool {
    0x21 <= c as int <= 0x7E
}

/// What one character becomes.
///
/// The double quote and the control characters that JSON names get their
/// two-character escape. A backslash is passed on as it is. Every other
/// visible ASCII character stands for itself. Whatever is left, the space
/// included, is written as its UTF-16 code units.
pub open spec fn escaped_char(c: char) -> Seq<char> {
    if c == '"' {
        seq!['\\', '"']
    } else if c == '\\' {
        seq!['\\']
    } else if c == '\t' {
        seq!['\\', 't']
    } else if c == '\x08' {
        seq!['\\', 'b']
    } else if c == '\x0c' {
        seq!['\\', 'f']
    } else if c == '\n' {
        seq!['\\', 'n']
    } else if c == '\r' {
        seq!['\\', 'r']
    } else if is_graphic(c) {
        seq![c]
    } else if (c as int) < 0x10000 {
        unit_escape(utf16_units(c)[0])
    } else {
        unit_escape(utf16_units(c)[0]) + unit_escape(utf16_units(c)[1])
    }
}

/// What a text becomes: the escapes of its characters, one after another.
pub open spec fn escaped(s: Seq<char>) -> Seq<char>
    decreases s.len(),
{
    if s.len() == 0 {
        Seq::empty()
    } else {
        escaped(s.drop_last()) + escaped_char(s.last())
    }
}

fn hex_char(d: u32) -> (r: char)
    requires
        d < 16,
    ensures
        r == hex_digit(d as int),
{
    let low: u8 = d as u8;
    if low < 10 {
        (48u8 + low) as char
    } else {
        (55u8 + low) as char
    }
}

fn push_unit(out: &mut String, unit: u32)
    requires
        unit <= 0xFFFF,
    ensures
        final(out)@ == old(out)@ + unit_escape(unit as int),
{
    out.push('\\');
    out.push('u');
    out.push(hex_char(unit / 4096));
    out.push(hex_char((unit / 256) % 16));
    out.push(hex_char((unit / 16) % 16));
    out.push(hex_char(unit % 16));
}

fn push_escaped(out: &mut String, c: char)
    ensures
        final(out)@ == old(out)@ + escaped_char(c),
{
    if c == '"' {
        out.push('\\');
        out.push('"');
    } else if c == '\\' {
        out.push('\\');
    } else if c == '\t' {
        out.push('\\');
        out.push('t');
    } else if c == '\x08' {
        out.push('\\');
        out.push('b');
    } else if c == '\x0c' {
        out.push('\\');
        out.push('f');
    } else if c == '\n' {
        out.push('\\');
        out.push('n');
    } else if c == '\r' {
        out.push('\\');
        out.push('r');
    } else {
        let code: u32 = c as u32;
        if 0x21 <= code && code <= 0x7E {
            out.push(c);
        } else if code < 0x10000 {
            push_unit(out, code);
        } else {
            let above: u32 = code - 0x10000;
            push_unit(out, 0xD800 + above / 0x400);
            push_unit(out, 0xDC00 + above % 0x400);
        }
    }
}

/// Returns a copy of the input in which the characters that are special in
/// JSON are escaped, so that they do not affect parsers.
pub fn escape_special_characters(src: &str) -> (r: String)
    ensures
        r@ == escaped(src@),
{
    broadcast use vstd::string::group_string_axioms;

    let mut out = String::new();
    for c in it: src.chars()
        invariant
            it.seq() == src@,
            out@ == escaped(it.seq().take(it.index())),
    {
        let ghost before = it.seq().take(it.index());
        let ghost after = it.seq().take(it.index() + 1);
        push_escaped(&mut out, c);
        assert(after.drop_last() =~= before);
    }
    assert(src@.take(src@.len() as int) =~= src@);
    out
}

} // verus!
