//! Reading words, lines and numbers out of text.

use vstd::prelude::*;
use crate::text;

verus! {

/// The characters with the Unicode property `White_Space`.
pub open spec fn is_white(c: char) -> bool {
    ||| 0x9 <= c as u32 <= 0xD
    ||| c as u32 == 0x20
    ||| c as u32 == 0x85
    ||| c as u32 == 0xA0
    ||| c as u32 == 0x1680
    ||| 0x2000 <= c as u32 <= 0x200A
    ||| c as u32 == 0x2028
    ||| c as u32 == 0x2029
    ||| c as u32 == 0x202F
    ||| c as u32 == 0x205F
    ||| c as u32 == 0x3000
}

/// Whether `c` is white space.
pub fn white(c: char) -> (found: bool)
    ensures
        found == is_white(c),
{
    let n: u32 = c as u32;
    (0x9 <= n && n <= 0xD) || n == 0x20 || n == 0x85 || n == 0xA0 || n == 0x1680 || (0x2000 <= n
        && n <= 0x200A) || n == 0x2028 || n == 0x2029 || n == 0x202F || n == 0x205F || n == 0x3000
}

/// The characters of `s`.
pub fn chars_of(s: &str) -> (chars: Vec<char>)
    ensures
        chars@ == s@,
{
    let mut chars: Vec<char> = Vec::new();
    for c in iter: s.chars()
        invariant
            iter.seq() == s@,
            chars@ == s@.take(iter.index() as int),
    {
        chars.push(c);
        assert(chars@ =~= s@.take(iter.index() + 1));
    }
    assert(chars@ =~= s@);
    chars
}

/// `s` without white space in front.
pub open spec fn without_leading(s: Seq<char>) -> Seq<char>
    decreases s.len(),
{
    if s.len() > 0 && is_white(s.first()) {
        without_leading(s.drop_first())
    } else {
        s
    }
}

/// `s` without white space behind.
pub open spec fn without_trailing(s: Seq<char>) -> Seq<char>
    decreases s.len(),
{
    if s.len() > 0 && is_white(s.last()) {
        without_trailing(s.drop_last())
    } else {
        s
    }
}

/// `s` without white space at either end.
pub open spec fn trimmed(s: Seq<char>) -> Seq<char> {
    without_trailing(without_leading(s))
}

/// The range of `chars[from..to]` that is left when white space is trimmed.
pub fn trim_range(chars: &Vec<char>, from: usize, to: usize) -> (range: (usize, usize))
    requires
        from <= to <= chars@.len(),
    ensures
        from <= range.0 <= range.1 <= to,
        chars@.subrange(range.0 as int, range.1 as int) == trimmed(
            chars@.subrange(from as int, to as int),
        ),
{
    let mut a: usize = from;
    let ghost whole = chars@.subrange(from as int, to as int);
    while a < to && white(chars[a])
        invariant
            from <= a <= to <= chars@.len(),
            whole == chars@.subrange(from as int, to as int),
            without_leading(whole) == without_leading(chars@.subrange(a as int, to as int)),
        decreases to - a,
    {
        proof {
            let here = chars@.subrange(a as int, to as int);
            assert(here.drop_first() =~= chars@.subrange(a + 1, to as int));
        }
        a += 1;
    }
    let ghost led = chars@.subrange(a as int, to as int);
    let mut b: usize = to;
    while b > a && white(chars[b - 1])
        invariant
            a <= b <= to <= chars@.len(),
            without_trailing(led) == without_trailing(chars@.subrange(a as int, b as int)),
        decreases b,
    {
        proof {
            let here = chars@.subrange(a as int, b as int);
            assert(here.drop_last() =~= chars@.subrange(a as int, b - 1));
        }
        b -= 1;
    }
    (a, b)
}

/// The words complete before the end of `s`, and the word that runs into it.
pub open spec fn scan_words(s: Seq<char>) -> (Seq<Seq<char>>, Seq<char>)
    decreases s.len(),
{
    if s.len() == 0 {
        (Seq::empty(), Seq::empty())
    } else {
        let (done, current) = scan_words(s.drop_last());
        if !is_white(s.last()) {
            (done, current.push(s.last()))
        } else if current.len() > 0 {
            (done.push(current), Seq::empty())
        } else {
            (done, current)
        }
    }
}

/// The maximal runs of characters that are not white space.
pub open spec fn words(s: Seq<char>) -> Seq<Seq<char>> {
    let (done, current) = scan_words(s);
    if current.len() > 0 {
        done.push(current)
    } else {
        done
    }
}

/// The word at place `n` of `chars[from..]`.
pub fn nth_word(chars: &Vec<char>, from: usize, n: usize) -> (word: Option<Vec<char>>)
    requires
        from <= chars@.len(),
    ensures
        match word {
            Some(found) => n < words(chars@.skip(from as int)).len() && found@ == words(
                chars@.skip(from as int),
            )[n as int],
            None => words(chars@.skip(from as int)).len() <= n,
        },
{
    let mut found: Option<Vec<char>> = None;
    let mut current: Vec<char> = Vec::new();
    let mut count: usize = 0;
    let mut i: usize = from;
    let ghost whole = chars@.skip(from as int);
    assert(whole.take(0).len() == 0);
    while i < chars.len()
        invariant
            from <= i <= chars@.len(),
            whole == chars@.skip(from as int),
            count <= i - from,
            scan_words(whole.take(i - from)).0.len() == count,
            scan_words(whole.take(i - from)).1 == current@,
            match found {
                Some(word) => n < count && word@ == scan_words(whole.take(i - from)).0[n as int],
                None => count <= n,
            },
        decreases chars.len() - i,
    {
        let c = chars[i];
        proof {
            let taken = whole.take(i + 1 - from);
            assert(taken.drop_last() =~= whole.take(i - from));
            assert(taken.last() == c);
        }
        if !white(c) {
            current.push(c);
        } else if current.len() > 0 {
            if count == n {
                found = Some(current);
            }
            current = Vec::new();
            count += 1;
        }
        i += 1;
    }
    assert(whole.take(i - from) =~= whole);
    if current.len() > 0 && count == n {
        return Some(current);
    }
    found
}

/// Whether `c` is a decimal digit.
pub open spec fn is_digit(c: char) -> bool {
    0x30 <= c as u32 <= 0x39
}

/// Whether every character of `s` is a decimal digit.
pub open spec fn all_digits(s: Seq<char>) -> bool {
    forall|i: int| 0 <= i < s.len() ==> is_digit(#[trigger] s[i])
}

/// The number that a string of digits stands for.
pub open spec fn digits_value(s: Seq<char>) -> nat
    decreases s.len(),
{
    if s.len() == 0 {
        0
    } else {
        digits_value(s.drop_last()) * 10 + (s.last() as u32 - 0x30) as nat
    }
}

/// `s` without one leading plus sign.
pub open spec fn without_plus(s: Seq<char>) -> Seq<char> {
    if s.len() > 0 && s[0] == '+' {
        s.skip(1)
    } else {
        s
    }
}

/// The unsigned number that `s` spells, where it spells one of 64 bits: an
/// optional plus sign, then digits.
pub open spec fn parsed_u64(s: Seq<char>) -> Option<u64> {
    let body = without_plus(s);
    if body.len() > 0 && all_digits(body) && digits_value(body) <= u64::MAX {
        Some(digits_value(body) as u64)
    } else {
        None
    }
}

/// The signed number that `s` spells, where it spells one of 32 bits: an
/// optional sign, then digits.
pub open spec fn parsed_i32(s: Seq<char>) -> Option<i32> {
    if s.len() > 0 && s[0] == '-' {
        let body = s.skip(1);
        if body.len() > 0 && all_digits(body) && digits_value(body) <= 0x8000_0000 {
            Some((-digits_value(body)) as i32)
        } else {
            None
        }
    } else {
        let body = without_plus(s);
        if body.len() > 0 && all_digits(body) && digits_value(body) <= i32::MAX {
            Some(digits_value(body) as i32)
        } else {
            None
        }
    }
}

proof fn lemma_value_grows(s: Seq<char>, i: int)
    requires
        0 <= i <= s.len(),
        all_digits(s),
    ensures
        digits_value(s.take(i)) <= digits_value(s),
    decreases s.len() - i,
{
    if i < s.len() {
        let longer = s.take(i + 1);
        assert(longer.drop_last() =~= s.take(i));
        lemma_value_grows(s, i + 1);
    } else {
        assert(s.take(i) =~= s);
    }
}

/// The number that `chars[from..to]` spells in digits, where it is at most
/// `limit`.
fn bounded_value(chars: &Vec<char>, from: usize, to: usize, limit: u64) -> (value: Option<u64>)
    requires
        from <= to <= chars@.len(),
    ensures
        ({
            let body = chars@.subrange(from as int, to as int);
            value == (if body.len() > 0 && all_digits(body) && digits_value(body) <= limit {
                Some(digits_value(body) as u64)
            } else {
                None::<u64>
            })
        }),
{
    let ghost body = chars@.subrange(from as int, to as int);
    if from == to {
        return None;
    }
    let mut total: u64 = 0;
    let mut i: usize = from;
    assert(body.take(0).len() == 0);
    while i < to
        invariant
            from <= i <= to <= chars@.len(),
            from < to,
            body == chars@.subrange(from as int, to as int),
            all_digits(body.take(i - from)),
            total == digits_value(body.take(i - from)),
            total <= limit,
        decreases to - i,
    {
        let c = chars[i];
        let n: u32 = c as u32;
        assert(body[i - from] == c);
        if n < 0x30 || n > 0x39 {
            assert(!is_digit(body[i - from]));
            return None;
        }
        let d: u64 = (n - 0x30) as u64;
        proof {
            let taken = body.take(i + 1 - from);
            assert(taken.drop_last() =~= body.take(i - from));
            assert(digits_value(taken) == total * 10 + d);
            assert forall|k: int| 0 <= k < taken.len() implies is_digit(#[trigger] taken[k]) by {
                if k < i - from {
                    assert(body.take(i - from)[k] == taken[k]);
                }
            }
        }
        if total as u128 * 10 + d as u128 > limit as u128 {
            proof {
                if all_digits(body) {
                    lemma_value_grows(body, i + 1 - from);
                }
            }
            return None;
        }
        total = total * 10 + d;
        i += 1;
    }
    assert(body.take(i - from) =~= body);
    Some(total)
}

/// Read an unsigned number.
pub fn parse_u64(chars: &Vec<char>) -> (value: Option<u64>)
    ensures
        value == parsed_u64(chars@),
{
    let from: usize = if chars.len() > 0 && chars[0] == '+' {
        1
    } else {
        0
    };
    assert(chars@.subrange(from as int, chars@.len() as int) =~= without_plus(chars@));
    bounded_value(chars, from, chars.len(), u64::MAX)
}

/// Read a signed number out of `chars[from..to]`.
pub fn parse_i32(chars: &Vec<char>, from: usize, to: usize) -> (value: Option<i32>)
    requires
        from <= to <= chars@.len(),
    ensures
        value == parsed_i32(chars@.subrange(from as int, to as int)),
{
    let ghost s = chars@.subrange(from as int, to as int);
    if from < to && chars[from] == '-' {
        assert(s[0] == '-');
        assert(chars@.subrange(from + 1, to as int) =~= s.skip(1));
        match bounded_value(chars, from + 1, to, 0x8000_0000) {
            Some(value) => Some((-(value as i64)) as i32),
            None => None,
        }
    } else {
        let start: usize = if from < to && chars[from] == '+' {
            from + 1
        } else {
            from
        };
        assert(s.len() > 0 ==> s[0] == chars@[from as int]);
        assert(chars@.subrange(start as int, to as int) =~= without_plus(s));
        match bounded_value(chars, start, to, i32::MAX as u64) {
            Some(value) => Some(value as i32),
            None => None,
        }
    }
}

/// The number on one line, where there is one.
pub open spec fn line_entry(line: Seq<char>) -> Seq<i32> {
    match parsed_i32(trimmed(line)) {
        Some(value) => seq![value],
        None => Seq::empty(),
    }
}

/// The numbers on the lines ended within `s`, and the line that runs into its
/// end.
pub open spec fn scan_numbers(s: Seq<char>) -> (Seq<i32>, Seq<char>)
    decreases s.len(),
{
    if s.len() == 0 {
        (Seq::empty(), Seq::empty())
    } else {
        let (done, line) = scan_numbers(s.drop_last());
        if s.last() == '\n' {
            (done + line_entry(line), Seq::empty())
        } else {
            (done, line.push(s.last()))
        }
    }
}

/// The numbers on the lines of `s`, in order; a line that is no number is passed
/// over.
pub open spec fn numbers_on_lines(s: Seq<char>) -> Seq<i32> {
    let (done, line) = scan_numbers(s);
    done + line_entry(line)
}

/// Read the numbers on the lines of a text.
pub fn parse_lines(chars: &Vec<char>) -> (numbers: Vec<i32>)
    ensures
        numbers@ == numbers_on_lines(chars@),
{
    let mut numbers: Vec<i32> = Vec::new();
    let mut start: usize = 0;
    let mut i: usize = 0;
    assert(chars@.take(0).len() == 0);
    assert(chars@.subrange(0, 0) =~= Seq::<char>::empty());
    while i < chars.len()
        invariant
            start <= i <= chars@.len(),
            scan_numbers(chars@.take(i as int)) == (
                numbers@,
                chars@.subrange(start as int, i as int),
            ),
        decreases chars.len() - i,
    {
        proof {
            assert(chars@.take(i + 1).drop_last() =~= chars@.take(i as int));
        }
        if chars[i] == '\n' {
            push_entry(chars, start, i, &mut numbers);
            start = i + 1;
            assert(chars@.subrange(start as int, i + 1) =~= Seq::<char>::empty());
        } else {
            assert(chars@.subrange(start as int, i + 1) =~= chars@.subrange(
                start as int,
                i as int,
            ).push(chars@[i as int]));
        }
        i += 1;
    }
    assert(chars@.take(i as int) =~= chars@);
    push_entry(chars, start, i, &mut numbers);
    numbers
}

fn push_entry(chars: &Vec<char>, from: usize, to: usize, numbers: &mut Vec<i32>)
    requires
        from <= to <= chars@.len(),
    ensures
        final(numbers)@ == old(numbers)@ + line_entry(chars@.subrange(from as int, to as int)),
{
    let (a, b) = trim_range(chars, from, to);
    match parse_i32(chars, a, b) {
        Some(value) => {
            numbers.push(value);
            assert(numbers@ =~= old(numbers)@ + seq![value]);
        },
        None => {
            assert(numbers@ =~= old(numbers)@ + Seq::<i32>::empty());
        },
    }
}

/// A number written in decimal reads back as itself.
pub proof fn law_a_written_number_reads_back(n: u64)
    ensures
        parsed_u64(text::decimal(n as nat)) == Some(n),
{
    lemma_decimal_digits(n as nat);
}

proof fn lemma_decimal_digits(n: nat)
    ensures
        text::decimal(n).len() > 0,
        all_digits(text::decimal(n)),
        digits_value(text::decimal(n)) == n,
        text::decimal(n)[0] != '+',
    decreases n,
{
    let s = text::decimal(n);
    if n < 10 {
        assert(s =~= seq![text::digit(n)]);
        assert(s.drop_last() =~= Seq::<char>::empty());
        assert(digits_value(s.drop_last()) == 0);
    } else {
        lemma_decimal_digits(n / 10);
        let rest = text::decimal(n / 10);
        assert(s.drop_last() =~= rest);
        assert(s.last() == text::digit(n % 10));
        assert forall|i: int| 0 <= i < s.len() implies is_digit(#[trigger] s[i]) by {
            if i < rest.len() {
                assert(s[i] == rest[i]);
            }
        }
        assert(s[0] == rest[0]);
    }
}

/// Beyond ASCII the white ones are the next line, the spaces of other widths and
/// the separators of lines and paragraphs.
pub proof fn law_white_space_beyond_ascii(c: char)
    requires
        c as u32 >= 0x80,
    ensures
        is_white(c) <==> {
            ||| c == '\u{85}' || c == '\u{A0}' || c == '\u{1680}'
            ||| '\u{2000}' as u32 <= c as u32 && c as u32 <= '\u{200A}' as u32
            ||| c == '\u{2028}' || c == '\u{2029}' || c == '\u{202F}' || c == '\u{205F}'
            ||| c == '\u{3000}'
        },
{
}

/// Among the characters of ASCII the white ones are the space and the five that
/// move the cursor.
pub proof fn law_white_space_in_ascii(c: char)
    requires
        (c as u32) < 0x80,
    ensures
        is_white(c) <==> c == ' ' || c == '\t' || c == '\n' || c == '\r' || c as u32 == 0xB || c as u32
            == 0xC,
{
}

/// White space separates: the words of two texts with white space between them
/// are the words of the first and then those of the second.
pub proof fn law_white_space_separates_words(s: Seq<char>, gap: char, t: Seq<char>)
    requires
        is_white(gap),
    ensures
        words(s.push(gap) + t) == words(s) + words(t),
{
    lemma_scan_from(s, gap, t);
    assert(words(s.push(gap) + t) =~= words(s) + words(t));
}

proof fn lemma_scan_from(s: Seq<char>, gap: char, t: Seq<char>)
    requires
        is_white(gap),
    ensures
        scan_words(s.push(gap) + t).0 == words(s) + scan_words(t).0,
        scan_words(s.push(gap) + t).1 == scan_words(t).1,
    decreases t.len(),
{
    let whole = s.push(gap) + t;
    if t.len() == 0 {
        assert(whole =~= s.push(gap));
        assert(whole.drop_last() =~= s);
        assert(scan_words(whole).0 =~= words(s) + scan_words(t).0);
        assert(scan_words(whole).1 =~= scan_words(t).1);
    } else {
        assert(whole.drop_last() =~= s.push(gap) + t.drop_last());
        lemma_scan_from(s, gap, t.drop_last());
        assert(scan_words(whole).0 =~= words(s) + scan_words(t).0);
    }
}

/// A text without white space is one word, or none where it is empty.
pub proof fn law_a_run_is_one_word(s: Seq<char>)
    requires
        forall|i: int| 0 <= i < s.len() ==> !is_white(#[trigger] s[i]),
    ensures
        words(s) == (if s.len() > 0 {
            seq![s]
        } else {
            Seq::empty()
        }),
{
    lemma_scan_run(s);
    assert(words(s) =~= (if s.len() > 0 {
        seq![s]
    } else {
        Seq::empty()
    }));
}

proof fn lemma_scan_run(s: Seq<char>)
    requires
        forall|i: int| 0 <= i < s.len() ==> !is_white(#[trigger] s[i]),
    ensures
        scan_words(s) == (Seq::<Seq<char>>::empty(), s),
    decreases s.len(),
{
    if s.len() > 0 {
        let rest = s.drop_last();
        assert forall|i: int| 0 <= i < rest.len() implies !is_white(#[trigger] rest[i]) by {
            assert(rest[i] == s[i]);
        }
        lemma_scan_run(rest);
        assert(!is_white(s[s.len() - 1]));
        assert(rest.push(s.last()) =~= s);
    } else {
        assert(s =~= Seq::<char>::empty());
    }
}

/// Trimming takes away the white space at both ends and nothing else.
pub proof fn law_trimming_keeps_the_core(before: Seq<char>, core: Seq<char>, after: Seq<char>)
    requires
        forall|i: int| 0 <= i < before.len() ==> is_white(#[trigger] before[i]),
        forall|i: int| 0 <= i < after.len() ==> is_white(#[trigger] after[i]),
        core.len() > 0 ==> !is_white(core.first()) && !is_white(core.last()),
    ensures
        trimmed(before + core + after) == core,
{
    lemma_trim_front(before, core + after);
    assert(before + core + after =~= before + (core + after));
    if core.len() > 0 {
        assert((core + after).first() == core.first());
        assert(without_leading(core + after) == core + after);
        lemma_trim_back(core, after);
    } else {
        assert(core + after =~= after);
        lemma_all_white(after);
        assert(without_leading(after).len() == 0);
        assert(core =~= Seq::<char>::empty());
        assert(trimmed(before + core + after) =~= core);
    }
}

proof fn lemma_trim_front(before: Seq<char>, rest: Seq<char>)
    requires
        forall|i: int| 0 <= i < before.len() ==> is_white(#[trigger] before[i]),
    ensures
        without_leading(before + rest) == without_leading(rest),
    decreases before.len(),
{
    if before.len() > 0 {
        assert((before + rest).first() == before[0]);
        assert((before + rest).drop_first() =~= before.drop_first() + rest);
        assert forall|i: int| 0 <= i < before.drop_first().len() implies is_white(
            #[trigger] before.drop_first()[i],
        ) by {
            assert(before.drop_first()[i] == before[i + 1]);
        }
        lemma_trim_front(before.drop_first(), rest);
    } else {
        assert(before + rest =~= rest);
    }
}

proof fn lemma_trim_back(core: Seq<char>, after: Seq<char>)
    requires
        forall|i: int| 0 <= i < after.len() ==> is_white(#[trigger] after[i]),
        core.len() > 0,
        !is_white(core.last()),
    ensures
        without_trailing(core + after) == core,
    decreases after.len(),
{
    if after.len() > 0 {
        assert((core + after).last() == after[after.len() - 1]);
        assert((core + after).drop_last() =~= core + after.drop_last());
        assert forall|i: int| 0 <= i < after.drop_last().len() implies is_white(
            #[trigger] after.drop_last()[i],
        ) by {
            assert(after.drop_last()[i] == after[i]);
        }
        lemma_trim_back(core, after.drop_last());
    } else {
        assert(core + after =~= core);
    }
}

proof fn lemma_all_white(s: Seq<char>)
    requires
        forall|i: int| 0 <= i < s.len() ==> is_white(#[trigger] s[i]),
    ensures
        without_leading(s).len() == 0,
    decreases s.len(),
{
    if s.len() > 0 {
        assert(is_white(s[0]));
        assert forall|i: int| 0 <= i < s.drop_first().len() implies is_white(
            #[trigger] s.drop_first()[i],
        ) by {
            assert(s.drop_first()[i] == s[i + 1]);
        }
        lemma_all_white(s.drop_first());
    }
}

/// A number is read digit by digit: one more digit counts the others ten times
/// over, and a number that no longer fits is no number.
pub proof fn law_a_digit_more_counts_tenfold(s: Seq<char>, n: u64, d: nat)
    requires
        parsed_u64(s) == Some(n),
        d < 10,
    ensures
        parsed_u64(s.push(text::digit(d))) == (if n * 10 + d <= u64::MAX {
            Some((n * 10 + d) as u64)
        } else {
            None
        }),
{
    let body = without_plus(s);
    let longer = s.push(text::digit(d));
    assert(without_plus(longer) =~= body.push(text::digit(d)));
    assert(body.push(text::digit(d)).drop_last() =~= body);
    assert forall|i: int| 0 <= i < without_plus(longer).len() implies is_digit(
        #[trigger] without_plus(longer)[i],
    ) by {
        if i < body.len() {
            assert(body[i] == without_plus(longer)[i]);
        }
    }
}

/// What is read as a number is digits, after a plus sign where there is one, and
/// each digit stands for itself.
pub proof fn law_only_digits_are_a_number(s: Seq<char>)
    ensures
        parsed_u64(s) is Some ==> s.len() > 0 && forall|i: int|
            0 <= i < s.len() ==> 0x30 <= (#[trigger] s[i]) as u32 <= 0x39 || (i == 0 && s[i] == '+' && s.len()
                > 1),
        s.len() == 1 && 0x30 <= s[0] as u32 <= 0x39 ==> parsed_u64(s) == Some((s[0] as u32 - 48) as u64),
        s.len() > 0 && s[0] == '+' && (s.len() == 1 || s[1] != '+') ==> parsed_u64(s)
            == parsed_u64(s.skip(1)),
{
    let body = without_plus(s);
    if parsed_u64(s) is Some {
        assert forall|i: int| 0 <= i < s.len() implies 0x30 <= (#[trigger] s[i]) as u32 <= 0x39 || (i == 0
            && s[i] == '+' && s.len() > 1) by {
            if s[0] == '+' {
                if i > 0 {
                    assert(is_digit(body[i - 1]));
                }
            } else {
                assert(is_digit(body[i]));
            }
        }
    }
    if s.len() == 1 && 0x30 <= s[0] as u32 <= 0x39 {
        assert(body == s);
        assert(s.drop_last() =~= Seq::<char>::empty());
        assert(digits_value(s.drop_last()) == 0);
    }
    if s.len() > 0 && s[0] == '+' && (s.len() == 1 || s[1] != '+') {
        assert(without_plus(s.skip(1)) =~= s.skip(1));
    }
}

/// A signed number written in decimal reads back as itself.
pub proof fn law_a_written_signed_number_reads_back(n: i32)
    ensures
        parsed_i32(text::signed_decimal(n as int)) == Some(n),
{
    if n < 0 {
        reveal_strlit("-");
        let digits = text::decimal((-(n as int)) as nat);
        lemma_decimal_digits((-(n as int)) as nat);
        assert(text::signed_decimal(n as int).skip(1) =~= digits);
    } else {
        lemma_decimal_digits(n as nat);
        assert(is_digit(text::decimal(n as nat)[0]));
    }
}

/// Each line gives its own number: the numbers on the lines of two texts with a
/// line end between them are those of the first and then those of the second.
pub proof fn law_lines_are_read_one_by_one(s: Seq<char>, t: Seq<char>)
    ensures
        numbers_on_lines(s.push('\n') + t) == numbers_on_lines(s) + numbers_on_lines(t),
{
    lemma_scan_lines_from(s, t);
    assert(numbers_on_lines(s.push('\n') + t) =~= numbers_on_lines(s) + numbers_on_lines(t));
}

proof fn lemma_scan_lines_from(s: Seq<char>, t: Seq<char>)
    ensures
        scan_numbers(s.push('\n') + t).0 == numbers_on_lines(s) + scan_numbers(t).0,
        scan_numbers(s.push('\n') + t).1 == scan_numbers(t).1,
    decreases t.len(),
{
    let whole = s.push('\n') + t;
    if t.len() == 0 {
        assert(whole =~= s.push('\n'));
        assert(whole.drop_last() =~= s);
        assert(scan_numbers(whole).0 =~= numbers_on_lines(s) + scan_numbers(t).0);
    } else {
        assert(whole.drop_last() =~= s.push('\n') + t.drop_last());
        lemma_scan_lines_from(s, t.drop_last());
        assert(scan_numbers(whole).0 =~= numbers_on_lines(s) + scan_numbers(t).0);
    }
}

/// A line that holds a number, with white space around it or none, gives that
/// number; one that holds anything else gives none.
pub proof fn law_a_line_gives_its_number(before: Seq<char>, core: Seq<char>, after: Seq<char>)
    requires
        forall|i: int| 0 <= i < before.len() ==> is_white(#[trigger] before[i]),
        forall|i: int| 0 <= i < after.len() ==> is_white(#[trigger] after[i]),
        core.len() > 0 ==> !is_white(core.first()) && !is_white(core.last()),
        !(before + core + after).contains('\n'),
    ensures
        numbers_on_lines(before + core + after) == (match parsed_i32(core) {
            Some(number) => seq![number],
            None => Seq::empty(),
        }),
{
    let line = before + core + after;
    law_trimming_keeps_the_core(before, core, after);
    lemma_scan_line(line);
    assert(numbers_on_lines(line) =~= line_entry(line));
}

proof fn lemma_scan_line(line: Seq<char>)
    requires
        !line.contains('\n'),
    ensures
        scan_numbers(line) == (Seq::<i32>::empty(), line),
    decreases line.len(),
{
    if line.len() > 0 {
        let rest = line.drop_last();
        assert(!rest.contains('\n')) by {
            if rest.contains('\n') {
                let i = choose|i: int| 0 <= i < rest.len() && rest[i] == '\n';
                assert(line[i] == '\n');
            }
        }
        lemma_scan_line(rest);
        assert(line[line.len() - 1] != '\n');
        assert(rest.push(line.last()) =~= line);
    } else {
        assert(line =~= Seq::<char>::empty());
    }
}

/// A number in decimal has no zero in front, and filled up to six digits it is
/// the same number in six digits or more.
pub proof fn law_decimals_are_what_they_stand_for(n: nat)
    ensures
        all_digits(text::decimal(n)),
        digits_value(text::decimal(n)) == n,
        text::decimal(n)[0] == '0' ==> n == 0 && text::decimal(n).len() == 1,
        all_digits(text::six_digits(n)),
        digits_value(text::six_digits(n)) == n,
        text::six_digits(n).len() >= 6,
        text::six_digits(n).len() > 6 ==> text::six_digits(n) == text::decimal(n),
{
    lemma_decimal_digits(n);
    lemma_no_zero_in_front(n);
    let digits = text::decimal(n);
    if digits.len() < 6 {
        let front = text::zeros((6 - digits.len()) as nat);
        lemma_zeros_add_nothing(front, digits);
        assert forall|i: int| 0 <= i < text::six_digits(n).len() implies is_digit(
            #[trigger] text::six_digits(n)[i],
        ) by {
            if i >= front.len() {
                assert(text::six_digits(n)[i] == digits[i - front.len()]);
            }
        }
    }
}

proof fn lemma_no_zero_in_front(n: nat)
    ensures
        text::decimal(n)[0] == '0' ==> n == 0 && text::decimal(n).len() == 1,
    decreases n,
{
    if n >= 10 {
        lemma_no_zero_in_front(n / 10);
        lemma_decimal_digits(n / 10);
        assert(text::decimal(n)[0] == text::decimal(n / 10)[0]);
    }
}

proof fn lemma_zeros_add_nothing(front: Seq<char>, s: Seq<char>)
    requires
        forall|i: int| 0 <= i < front.len() ==> front[i] == '0',
    ensures
        digits_value(front + s) == digits_value(s),
    decreases s.len(), front.len(),
{
    let whole = front + s;
    if s.len() > 0 {
        assert(whole.drop_last() =~= front + s.drop_last());
        lemma_zeros_add_nothing(front, s.drop_last());
    } else if front.len() > 0 {
        assert(whole =~= front);
        assert(whole.drop_last() =~= front.drop_last() + s);
        lemma_zeros_add_nothing(front.drop_last(), s);
    } else {
        assert(whole =~= s);
    }
}

/// A signed number is a minus sign or a plus sign or none, and then digits; one
/// more digit counts the others ten times over, away from zero.
pub proof fn law_a_signed_number_is_a_sign_and_digits(s: Seq<char>, n: i32, d: nat)
    requires
        parsed_i32(s) == Some(n),
        d < 10,
    ensures
        s.len() > 0,
        forall|i: int|
            0 <= i < s.len() ==> 0x30 <= (#[trigger] s[i]) as u32 <= 0x39 || (i == 0 && s.len() > 1
                && (s[i] == '+' || s[i] == '-')),
        s[0] == '-' ==> n <= 0,
        s[0] != '-' ==> n >= 0,
        ({
            let next = if s[0] == '-' {
                n * 10 - d
            } else {
                n * 10 + d
            };
            parsed_i32(s.push(text::digit(d))) == (if i32::MIN <= next <= i32::MAX {
                Some(next as i32)
            } else {
                None
            })
        }),
{
    let longer = s.push(text::digit(d));
    let body = if s[0] == '-' {
        s.skip(1)
    } else {
        without_plus(s)
    };
    let more = body.push(text::digit(d));
    assert(more.drop_last() =~= body);
    assert forall|i: int| 0 <= i < more.len() implies is_digit(#[trigger] more[i]) by {
        if i < body.len() {
            assert(body[i] == more[i]);
        }
    }
    if s[0] == '-' {
        assert(longer.skip(1) =~= more);
    } else {
        assert(without_plus(longer) =~= more);
    }
    assert forall|i: int| 0 <= i < s.len() implies 0x30 <= (#[trigger] s[i]) as u32 <= 0x39 || (i
        == 0 && s.len() > 1 && (s[i] == '+' || s[i] == '-')) by {
        if s[0] == '-' || s[0] == '+' {
            if i > 0 {
                assert(is_digit(body[i - 1]));
            }
        } else {
            assert(is_digit(body[i]));
        }
    }
}

} // verus!
