//! Paths between quotation marks, with everything that is not plain text escaped.

use vstd::prelude::*;
use vstd::string::{StrSliceExecFns, StringExecFns};
use vstd::utf8;
use vstd::utf8::{
    decode_first_scalar, length_of_first_scalar, pop_first_scalar, valid_first_scalar,
};

use crate::path::text_lossy;

verus! {

/// A character as it is written where what is not printable is escaped.
pub uninterp spec fn escaped_char(c: char) -> Seq<char>;

/// Calls `char::escape_debug` and collects what it gives. The text is a function
/// of the character alone, named by [`escaped_char`].
#[verifier::external_body]
fn escape_char(c: char) -> (text: String)
    ensures
        text@ == escaped_char(c),
{
    c.escape_debug().to_string()
}

/// One hexadecimal digit, in upper case.
pub open spec fn upper_hex(n: int) -> char {
    if n < 10 {
        (48 + n) as char
    } else {
        (55 + n) as char
    }
}

/// A byte that is part of no text, as its two digits.
pub open spec fn escaped_byte(byte: u8) -> Seq<char> {
    seq!['\\', 'x', upper_hex(byte as int / 16), upper_hex(byte as int % 16)]
}

/// `bytes` with each character escaped, and with each byte that is part of no
/// text as its digits.
pub open spec fn escaped(bytes: Seq<u8>) -> Seq<char>
    decreases bytes.len(),
{
    if bytes.len() == 0 {
        Seq::empty()
    } else if valid_first_scalar(bytes) {
        escaped_char(decode_first_scalar(bytes) as char) + escaped(pop_first_scalar(bytes))
    } else {
        escaped_byte(bytes[0]) + escaped(bytes.skip(1))
    }
}

/// A path between quotation marks.
pub open spec fn quoted_path(bytes: Seq<u8>) -> Seq<char> {
    "\""@ + escaped(bytes) + "\""@
}

fn hex_text(n: u8) -> (text: &'static str)
    requires
        n < 16,
    ensures
        text@ == seq![upper_hex(n as int)],
{
    proof {
        reveal_strlit("0");
        reveal_strlit("1");
        reveal_strlit("2");
        reveal_strlit("3");
        reveal_strlit("4");
        reveal_strlit("5");
        reveal_strlit("6");
        reveal_strlit("7");
        reveal_strlit("8");
        reveal_strlit("9");
        reveal_strlit("A");
        reveal_strlit("B");
        reveal_strlit("C");
        reveal_strlit("D");
        reveal_strlit("E");
        reveal_strlit("F");
    }
    match n {
        0 => "0",
        1 => "1",
        2 => "2",
        3 => "3",
        4 => "4",
        5 => "5",
        6 => "6",
        7 => "7",
        8 => "8",
        9 => "9",
        10 => "A",
        11 => "B",
        12 => "C",
        13 => "D",
        14 => "E",
        _ => "F",
    }
}

/// How many bytes the character at `at` takes, where one stands there.
fn scalar_at(bytes: &[u8], at: usize) -> (len: Option<usize>)
    requires
        at < bytes@.len(),
    ensures
        match len {
            Some(len) => valid_first_scalar(bytes@.skip(at as int)) && len
                == length_of_first_scalar(bytes@.skip(at as int)) && 1 <= len <= bytes@.len() - at,
            None => !valid_first_scalar(bytes@.skip(at as int)),
        },
{
    let ghost rest = bytes@.skip(at as int);
    let left: usize = bytes.len() - at;
    let a: u8 = bytes[at];
    assert(rest[0] == a);
    if a <= 0x7F {
        assert((a & 0x7F) as u32 <= 0x7F) by (bit_vector);
        return Some(1);
    }
    if a < 0xC0 || a > 0xF7 || left < 2 {
        return None;
    }
    let b: u8 = bytes[at + 1];
    assert(rest[1] == b);
    if b < 0x80 || b > 0xBF {
        return None;
    }
    if a <= 0xDF {
        let value: u32 = (((a & 0x1F) as u32) << 6) | ((b & 0x3F) as u32);
        assert(value == utf8::codepoint_width_2(a, b));
        if value < 0x80 {
            return None;
        }
        assert((((a & 0x1F) as u32) << 6) | ((b & 0x3F) as u32) <= 0x7FF) by (bit_vector);
        return Some(2);
    }
    if left < 3 {
        return None;
    }
    let c: u8 = bytes[at + 2];
    assert(rest[2] == c);
    if c < 0x80 || c > 0xBF {
        return None;
    }
    if a <= 0xEF {
        let value: u32 = (((a & 0x0F) as u32) << 12) | (((b & 0x3F) as u32) << 6) | ((c & 0x3F)
            as u32);
        assert(value == utf8::codepoint_width_3(a, b, c));
        if value < 0x800 || (0xD800 <= value && value <= 0xDFFF) {
            return None;
        }
        return Some(3);
    }
    if left < 4 {
        return None;
    }
    let d: u8 = bytes[at + 3];
    assert(rest[3] == d);
    if d < 0x80 || d > 0xBF {
        return None;
    }
    let value: u32 = (((a & 0x07) as u32) << 18) | (((b & 0x3F) as u32) << 12) | (((c & 0x3F) as u32)
        << 6) | ((d & 0x3F) as u32);
    assert(value == utf8::codepoint_width_4(a, b, c, d));
    if value < 0x1_0000 || value > 0x10_FFFF {
        return None;
    }
    Some(4)
}

/// The character that `bytes` encode, escaped.
fn escape_scalar(bytes: &[u8], at: usize, len: usize) -> (text: String)
    requires
        at + len <= bytes@.len(),
        valid_first_scalar(bytes@.skip(at as int)),
        len == length_of_first_scalar(bytes@.skip(at as int)),
    ensures
        text@ == escaped_char(decode_first_scalar(bytes@.skip(at as int)) as char),
{
    let ghost rest = bytes@.skip(at as int);
    let total: usize = bytes.len();
    let mut one: Vec<u8> = Vec::new();
    let mut i: usize = 0;
    assert(one@ =~= rest.take(0));
    while i < len
        invariant
            i <= len,
            at + len <= total == bytes@.len(),
            rest == bytes@.skip(at as int),
            one@ == rest.take(i as int),
        decreases len - i,
    {
        one.push(bytes[at + i]);
        i += 1;
        assert(one@ =~= rest.take(i as int));
    }
    let shown = text_lossy(&one);
    proof {
        assert(one@ == rest.take(len as int));
        assert(valid_first_scalar(one@));
        assert(decode_first_scalar(one@) == decode_first_scalar(rest));
        assert(pop_first_scalar(one@) =~= Seq::<u8>::empty());
        reveal_with_fuel(utf8::valid_utf8, 2);
        reveal_with_fuel(utf8::decode_utf8, 2);
        assert(utf8::valid_utf8(one@));
        assert(shown@ =~= seq![decode_first_scalar(rest) as char]);
    }
    let c = shown.as_str().get_char(0);
    escape_char(c)
}

/// A path between quotation marks.
pub fn quote_path(bytes: &[u8]) -> (text: String)
    ensures
        text@ == quoted_path(bytes@),
{
    let mut text = "\"".to_string();
    let ghost start = text@;
    let mut at: usize = 0;
    assert(bytes@.skip(0) =~= bytes@);
    assert(text@ + escaped(bytes@) =~= start + escaped(bytes@));
    while at < bytes.len()
        invariant
            at <= bytes@.len(),
            text@ + escaped(bytes@.skip(at as int)) == start + escaped(bytes@),
        decreases bytes@.len() - at,
    {
        let ghost rest = bytes@.skip(at as int);
        let ghost before = text@;
        match scalar_at(bytes, at) {
            Some(len) => {
                let shown = escape_scalar(bytes, at, len);
                text.append(shown.as_str());
                proof {
                    assert(pop_first_scalar(rest) =~= bytes@.skip(at + len));
                    assert(text@ + escaped(bytes@.skip(at + len)) =~= before + escaped(rest));
                }
                at += len;
            },
            None => {
                let byte: u8 = bytes[at];
                text.append("\\x");
                text.append(hex_text(byte / 16));
                text.append(hex_text(byte % 16));
                proof {
                    reveal_strlit("\\x");
                    assert(rest.skip(1) =~= bytes@.skip(at + 1));
                    assert(text@ =~= before + escaped_byte(byte));
                    assert(text@ + escaped(bytes@.skip(at + 1)) =~= before + escaped(rest));
                }
                at += 1;
            },
        }
    }
    assert(escaped(bytes@.skip(at as int)) =~= Seq::<char>::empty());
    assert(text@ =~= start + escaped(bytes@));
    text.append("\"");
    text
}

/// A path is shown piece by piece: what is text character by character, and a byte
/// that is part of no text as a backslash, an `x` and its two digits.
pub proof fn law_a_path_is_shown_piece_by_piece(bytes: Seq<u8>)
    requires
        bytes.len() > 0,
    ensures
        valid_first_scalar(bytes) ==> escaped(bytes) == escaped_char(
            decode_first_scalar(bytes) as char,
        ) + escaped(pop_first_scalar(bytes)),
        !valid_first_scalar(bytes) ==> escaped(bytes) == seq![
            '\\',
            'x',
            upper_hex(bytes[0] as int / 16),
            upper_hex(bytes[0] as int % 16),
        ] + escaped(bytes.skip(1)),
        quoted_path(bytes) == seq!['"'] + escaped(bytes) + seq!['"'],
{
    reveal_strlit("\"");
    assert("\""@ =~= seq!['"']);
}

/// A digit stands for its value, in upper case from ten on.
pub proof fn law_a_digit_stands_for_its_value(n: int)
    requires
        0 <= n < 16,
    ensures
        n < 10 ==> upper_hex(n) as u32 == '0' as u32 + n,
        n >= 10 ==> upper_hex(n) as u32 == 'A' as u32 + (n - 10),
{
}

} // verus!
