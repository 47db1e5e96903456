//! Numbers, lists and optional values as text.

use vstd::prelude::*;
use vstd::string::StringExecFns;

verus! {

/// One decimal digit.
pub open spec fn digit(n: nat) -> char {
    (48 + n) as char
}

/// A number in decimal, without leading zeros.
pub open spec fn decimal(n: nat) -> Seq<char>
    decreases n,
{
    if n < 10 {
        seq![digit(n)]
    } else {
        decimal(n / 10).push(digit(n % 10))
    }
}

/// A signed number in decimal.
pub open spec fn signed_decimal(n: int) -> Seq<char> {
    if n < 0 {
        "-"@ + decimal((-n) as nat)
    } else {
        decimal(n as nat)
    }
}

fn digit_text(n: u64) -> (text: &'static str)
    requires
        n < 10,
    ensures
        text@ == seq![digit(n as nat)],
{
    proof {
        reveal_strlit("0");
        reveal_strlit("1");
        reveal_strlit("2");
        reveal_strlit("3");
        reveal_strlit("4");
        reveal_strlit("5");
        reveal_strlit("6");
        reveal_strlit("7");
        reveal_strlit("8");
        reveal_strlit("9");
    }
    match n {
        0 => "0",
        1 => "1",
        2 => "2",
        3 => "3",
        4 => "4",
        5 => "5",
        6 => "6",
        7 => "7",
        8 => "8",
        _ => "9",
    }
}

/// Append `n` in decimal.
pub fn push_decimal(text: &mut String, n: u64)
    ensures
        final(text)@ == old(text)@ + decimal(n as nat),
    decreases n,
{
    if n < 10 {
        text.append(digit_text(n));
    } else {
        push_decimal(text, n / 10);
        text.append(digit_text(n % 10));
        assert(text@ =~= old(text)@ + decimal(n as nat));
    }
}

/// Append `n` in decimal, with a minus sign where it is negative.
pub fn push_signed(text: &mut String, n: i64)
    ensures
        final(text)@ == old(text)@ + signed_decimal(n as int),
{
    if n < 0 {
        text.append("-");
        push_decimal(text, (-(n as i128)) as u64);
        assert(text@ =~= old(text)@ + signed_decimal(n as int));
    } else {
        push_decimal(text, n as u64);
    }
}

/// `count` zeros.
pub open spec fn zeros(count: nat) -> Seq<char> {
    Seq::new(count, |i: int| '0')
}

/// A number in decimal, filled up with zeros in front to six digits.
pub open spec fn six_digits(n: nat) -> Seq<char> {
    let digits = decimal(n);
    if digits.len() < 6 {
        zeros((6 - digits.len()) as nat) + digits
    } else {
        digits
    }
}

/// How many digits a number has in decimal.
fn digit_count(n: u64) -> (count: usize)
    ensures
        count == decimal(n as nat).len(),
        1 <= count,
    decreases n,
{
    if n < 10 {
        1
    } else {
        let count = digit_count(n / 10);
        proof {
            lemma_digit_count(n / 10);
        }
        count + 1
    }
}

/// A number of 64 bits has at most twenty digits.
proof fn lemma_digit_count(n: u64)
    ensures
        decimal(n as nat).len() <= 20,
{
    reveal_with_fuel(decimal, 21);
}

/// Append `n` in decimal, filled up with zeros in front to six digits.
pub fn push_six_digits(text: &mut String, n: u64)
    ensures
        final(text)@ == old(text)@ + six_digits(n as nat),
{
    let count = digit_count(n);
    let mut put: usize = count;
    proof {
        reveal_strlit("0");
        assert(text@ =~= old(text)@ + zeros(0));
    }
    while put < 6
        invariant
            count <= put,
            put > count ==> put <= 6,
            "0"@ =~= seq!['0'],
            text@ == old(text)@ + zeros((put - count) as nat),
        decreases 6 - put,
    {
        text.append("0");
        put += 1;
        assert(text@ =~= old(text)@ + zeros((put - count) as nat));
    }
    push_decimal(text, n);
    assert(text@ =~= old(text)@ + six_digits(n as nat));
}

/// The texts of a list of strings.
pub open spec fn texts(strings: Seq<String>) -> Seq<Seq<char>> {
    strings.map_values(|s: String| s@)
}

/// `pieces` joined by a comma and a space.
pub open spec fn joined(pieces: Seq<Seq<char>>) -> Seq<char>
    decreases pieces.len(),
{
    if pieces.len() == 0 {
        Seq::empty()
    } else if pieces.len() == 1 {
        pieces[0]
    } else {
        joined(pieces.drop_last()) + ", "@ + pieces.last()
    }
}

/// A list between square brackets.
pub open spec fn listed(pieces: Seq<Seq<char>>) -> Seq<char> {
    "["@ + joined(pieces) + "]"@
}

/// A value that may be missing.
pub open spec fn optional(shown: Option<Seq<char>>) -> Seq<char> {
    match shown {
        Some(shown) => "Some("@ + shown + ")"@,
        None => "None"@,
    }
}

/// A truth value as a word.
pub open spec fn word(value: bool) -> Seq<char> {
    if value {
        "true"@
    } else {
        "false"@
    }
}

/// Append a list between square brackets.
pub fn push_list(text: &mut String, pieces: &Vec<String>)
    ensures
        final(text)@ == old(text)@ + listed(texts(pieces@)),
{
    text.append("[");
    let ghost head = text@;
    let mut i: usize = 0;
    proof {
        assert(texts(pieces@).take(0).len() == 0);
        assert(text@ =~= head + joined(texts(pieces@).take(0)));
    }
    while i < pieces.len()
        invariant
            i <= pieces@.len(),
            text@ == head + joined(texts(pieces@).take(i as int)),
        decreases pieces@.len() - i,
    {
        if i > 0 {
            text.append(", ");
        }
        text.append(pieces[i].as_str());
        i += 1;
        proof {
            let taken = texts(pieces@).take(i as int);
            assert(taken.drop_last() =~= texts(pieces@).take(i - 1));
            assert(taken.last() == pieces@[i - 1]@);
            if i == 1 {
                assert(texts(pieces@).take(0).len() == 0);
            }
            assert(text@ =~= head + joined(taken));
        }
    }
    assert(texts(pieces@).take(i as int) =~= texts(pieces@));
    text.append("]");
    assert(text@ =~= old(text)@ + listed(texts(pieces@)));
}

/// Append a value that may be missing.
pub fn push_optional(text: &mut String, shown: Option<String>)
    ensures
        final(text)@ == old(text)@ + optional(
            match shown {
                Some(shown) => Some(shown@),
                None => None,
            },
        ),
{
    match shown {
        Some(shown) => {
            text.append("Some(");
            text.append(shown.as_str());
            text.append(")");
            assert(text@ =~= old(text)@ + ("Some("@ + shown@ + ")"@));
        },
        None => {
            text.append("None");
        },
    }
}

/// Append a truth value as a word.
pub fn push_word(text: &mut String, value: bool)
    ensures
        final(text)@ == old(text)@ + word(value),
{
    if value {
        text.append("true");
    } else {
        text.append("false");
    }
}

/// `n` in decimal.
pub fn decimal_text(n: u64) -> (text: String)
    ensures
        text@ == decimal(n as nat),
{
    let mut text = String::new();
    push_decimal(&mut text, n);
    assert(text@ =~= decimal(n as nat));
    text
}

/// Whether `text` holds `wanted`.
pub fn holds_char(text: &str, wanted: char) -> (found: bool)
    ensures
        found == text@.contains(wanted),
{
    let chars = crate::parse::chars_of(text);
    let mut i: usize = 0;
    while i < chars.len()
        invariant
            i <= chars@.len(),
            chars@ == text@,
            forall|k: int| 0 <= k < i ==> chars@[k] != wanted,
        decreases chars@.len() - i,
    {
        if chars[i] == wanted {
            return true;
        }
        i += 1;
    }
    false
}

} // verus!
