//! JSON wire format of the command bridge: the document model that the
//! request parser is specified against, and the string-literal escaping the
//! response serializer uses.

use vstd::prelude::*;
use vstd::string::StrSliceExecFns;

verus! {

/// Mathematical model of a JSON document. Numbers carry no value because
/// the bridge never reads one. Objects are maps from field name to value.
pub enum JsonModel {
    Null,
    Bool(bool),
    Num,
    Str(Seq<char>),
    Arr(Seq<JsonModel>),
    Obj(Map<Seq<char>, JsonModel>),
}

/// The lowercase hexadecimal digit for `n`.
pub open spec fn hex_digit(n: int) -> char {
    if n == 0 {
        '0'
    } else if n == 1 {
        '1'
    } else if n == 2 {
        '2'
    } else if n == 3 {
        '3'
    } else if n == 4 {
        '4'
    } else if n == 5 {
        '5'
    } else if n == 6 {
        '6'
    } else if n == 7 {
        '7'
    } else if n == 8 {
        '8'
    } else if n == 9 {
        '9'
    } else if n == 10 {
        'a'
    } else if n == 11 {
        'b'
    } else if n == 12 {
        'c'
    } else if n == 13 {
        'd'
    } else if n == 14 {
        'e'
    } else {
        'f'
    }
}

/// How one character is written inside a JSON string literal: quote and
/// backslash get two-character escapes, the named control characters their
/// short forms, any other control character a `\u00..` form with two
/// lowercase hex digits, and every other character stands for itself.
pub open spec fn escape_char(c: char) -> Seq<char> {
    if c == '"' {
        seq!['\\', '"']
    } else if c == '\\' {
        seq!['\\', '\\']
    } else if c == '\u{0008}' {
        seq!['\\', 'b']
    } else if c == '\u{0009}' {
        seq!['\\', 't']
    } else if c == '\u{000A}' {
        seq!['\\', 'n']
    } else if c == '\u{000C}' {
        seq!['\\', 'f']
    } else if c == '\u{000D}' {
        seq!['\\', 'r']
    } else if (c as u32) < 32 {
        seq![
            '\\',
            'u',
            '0',
            '0',
            hex_digit((c as int) / 16),
            hex_digit((c as int) % 16),
        ]
    } else {
        seq![c]
    }
}

/// The escaped form of a whole string: each character's escape in order.
pub open spec fn escape_seq(s: Seq<char>) -> Seq<char>
    decreases s.len(),
{
    if s.len() == 0 {
        Seq::empty()
    } else {
        escape_seq(s.drop_last()) + escape_char(s.last())
    }
}

/// A JSON string literal: the escaped contents between double quotes.
pub open spec fn json_string(s: Seq<char>) -> Seq<char> {
    seq!['"'] + escape_seq(s) + seq!['"']
}

/// Relies on String::push: appends exactly the given character.
#[verifier::external_body]
pub fn push_char(out: &mut String, c: char)
    ensures
        final(out)@ == old(out)@ + seq![c],
{
    out.push(c);
}

/// The lowercase hexadecimal digit character for `n`.
fn hex_digit_char(n: u32) -> (c: char)
    requires
        n < 16,
    ensures
        c == hex_digit(n as int),
{
    match n {
        0 => '0',
        1 => '1',
        2 => '2',
        3 => '3',
        4 => '4',
        5 => '5',
        6 => '6',
        7 => '7',
        8 => '8',
        9 => '9',
        10 => 'a',
        11 => 'b',
        12 => 'c',
        13 => 'd',
        14 => 'e',
        _ => 'f',
    }
}

/// Appends the escape of one character to `out`.
fn push_escaped(out: &mut String, c: char)
    ensures
        final(out)@ == old(out)@ + escape_char(c),
{
    if c == '"' {
        push_char(out, '\\');
        push_char(out, '"');
    } else if c == '\\' {
        push_char(out, '\\');
        push_char(out, '\\');
    } else if c == '\u{0008}' {
        push_char(out, '\\');
        push_char(out, 'b');
    } else if c == '\u{0009}' {
        push_char(out, '\\');
        push_char(out, 't');
    } else if c == '\u{000A}' {
        push_char(out, '\\');
        push_char(out, 'n');
    } else if c == '\u{000C}' {
        push_char(out, '\\');
        push_char(out, 'f');
    } else if c == '\u{000D}' {
        push_char(out, '\\');
        push_char(out, 'r');
    } else {
        let code: u32 = c as u32;
        if code < 32 {
            push_char(out, '\\');
            push_char(out, 'u');
            push_char(out, '0');
            push_char(out, '0');
            push_char(out, hex_digit_char(code / 16));
            push_char(out, hex_digit_char(code % 16));
        } else {
            push_char(out, c);
        }
    }
    proof {
        assert(out@ =~= old(out)@ + escape_char(c));
    }
}

/// Appends the JSON string literal for `s` — escaped contents between
/// double quotes — to `out`.
pub fn append_json_string(out: &mut String, s: &str)
    ensures
        final(out)@ == old(out)@ + json_string(s@),
{
    push_char(out, '"');
    let n: usize = s.unicode_len();
    let mut i: usize = 0;
    while i < n
        invariant
            n == s@.len(),
            i <= n,
            out@ == old(out)@ + seq!['"'] + escape_seq(s@.take(i as int)),
        decreases n - i,
    {
        let c: char = s.get_char(i);
        push_escaped(out, c);
        proof {
            let t1 = s@.take(i + 1 as int);
            assert(t1.drop_last() =~= s@.take(i as int));
            assert(t1.last() == c);
            assert(escape_seq(t1) == escape_seq(s@.take(i as int)) + escape_char(c));
            assert(out@ =~= old(out)@ + seq!['"'] + escape_seq(t1));
        }
        i = i + 1;
    }
    push_char(out, '"');
    proof {
        assert(s@.take(n as int) =~= s@);
        assert(out@ =~= old(out)@ + json_string(s@));
    }
}

} // verus!
