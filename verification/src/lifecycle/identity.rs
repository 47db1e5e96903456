//! Process identity that a recycled pid cannot forge.
//!
//! A pid proves nothing on its own: the kernel hands the number out again once
//! the process is reaped. [`ProcessIdentity`] pairs it with the process's start
//! time and the boot the number was issued in. Both are best-effort; where one
//! is missing, [`ProcessIdentity::is_same_process`] answers no.

use vstd::prelude::*;
use vstd::string::{StrSliceExecFns, StringExecFns};
use crate::parse;
use crate::parse::{chars_of, nth_word, parse_u64, trim_range};
use crate::text;
use crate::text::push_six_digits;

verus! {

/// A pid plus the facts that make it non-reusable.
#[derive(Debug, PartialEq, Eq, Hash)]
pub struct ProcessIdentity {
    pid: i32,
    start_time: Option<u64>,
    boot_id: Option<String>,
}

/// What an identity records.
pub struct IdentityView {
    /// The process id as the kernel issued it.
    pub pid: i32,
    /// Platform-opaque start time, comparable for equality only.
    pub start_time: Option<u64>,
    /// Opaque identifier of the boot the pid was issued in.
    pub boot_id: Option<Seq<char>>,
}

/// The text of an optional string.
pub open spec fn text_of(text: Option<String>) -> Option<Seq<char>> {
    match text {
        Some(text) => Some(text@),
        None => None,
    }
}

impl View for ProcessIdentity {
    type V = IdentityView;

    closed spec fn view(&self) -> IdentityView {
        IdentityView {
            pid: self.pid,
            start_time: self.start_time,
            boot_id: text_of(self.boot_id),
        }
    }
}

impl Clone for ProcessIdentity {
    fn clone(&self) -> (copy: Self)
        ensures
            copy == *self,
    {
        let boot_id = match &self.boot_id {
            Some(boot_id) => Some(boot_id.clone()),
            None => None,
        };
        ProcessIdentity { pid: self.pid, start_time: self.start_time, boot_id }
    }
}

/// Where the last closing parenthesis of `s` stands.
pub open spec fn last_paren(s: Seq<char>) -> Option<int>
    decreases s.len(),
{
    if s.len() == 0 {
        None
    } else if s.last() == ')' {
        Some(s.len() - 1)
    } else {
        last_paren(s.drop_last())
    }
}

/// The start time that a Linux process status line names: the twentieth word
/// behind the last closing parenthesis. The line's second field is the program's
/// name in parentheses, which may itself hold spaces and parentheses.
pub open spec fn start_time_in(stat: Seq<char>) -> Option<u64> {
    match last_paren(stat) {
        None => None,
        Some(i) => {
            let fields = parse::words(stat.skip(i + 1));
            if fields.len() > 19 {
                parse::parsed_u64(fields[19])
            } else {
                None
            }
        },
    }
}

/// The boot identifier that a text holds: what is left of it when white space is
/// trimmed, where anything is.
pub open spec fn boot_id_in(raw: Seq<char>) -> Option<Seq<char>> {
    if parse::trimmed(raw).len() > 0 {
        Some(parse::trimmed(raw))
    } else {
        None
    }
}

/// The start time in the text of `/proc/<pid>/stat`.
pub fn process_start_time(stat: &str) -> (start: Option<u64>)
    ensures
        start == start_time_in(stat@),
{
    let chars = chars_of(stat);
    let mut i: usize = chars.len();
    assert(chars@.take(i as int) =~= chars@);
    while i > 0 && chars[i - 1] != ')'
        invariant
            i <= chars@.len(),
            last_paren(chars@) == last_paren(chars@.take(i as int)),
        decreases i,
    {
        assert(chars@.take(i as int).drop_last() =~= chars@.take(i - 1));
        i -= 1;
    }
    if i == 0 {
        return None;
    }
    assert(chars@.take(i as int).last() == ')');
    match nth_word(&chars, i, 19) {
        Some(word) => parse_u64(&word),
        None => None,
    }
}

/// The boot identifier in the text of the kernel's boot id file.
pub fn boot_id(raw: &str) -> (id: Option<String>)
    ensures
        text_of(id) == boot_id_in(raw@),
{
    let chars = chars_of(raw);
    let (a, b) = trim_range(&chars, 0, chars.len());
    assert(chars@.subrange(0, chars@.len() as int) =~= chars@);
    if a == b {
        return None;
    }
    Some(raw.substring_char(a, b).to_string())
}

/// A start time given as seconds and microseconds, in microseconds.
pub fn start_time_of(secs: u64, micros: u64) -> (start: Option<u64>)
    ensures
        start == (if secs * 1_000_000 + micros <= u64::MAX {
            Some((secs * 1_000_000 + micros) as u64)
        } else {
            None::<u64>
        }),
{
    match secs.checked_mul(1_000_000) {
        Some(product) => product.checked_add(micros),
        None => None,
    }
}

/// A boot instant as an identifier: seconds, a point and six digits of
/// microseconds.
pub fn boot_time_id(secs: i64, micros: u32) -> (id: String)
    ensures
        id@ == text::signed_decimal(secs as int) + "."@ + text::six_digits(micros as nat),
{
    let mut id = String::new();
    text::push_signed(&mut id, secs);
    assert(id@ =~= text::signed_decimal(secs as int));
    id.append(".");
    push_six_digits(&mut id, micros as u64);
    id
}

/// Whether the facts read now are those of the recorded process.
pub open spec fn same_process(
    recorded: IdentityView,
    start_time: Option<u64>,
    boot_id: Option<Seq<char>>,
) -> bool {
    &&& recorded.start_time is Some
    &&& recorded.boot_id is Some
    &&& recorded.start_time == start_time
    &&& recorded.boot_id == boot_id
}

impl ProcessIdentity {
    /// Record the identity of `pid` from what the platform says of it now: the
    /// text of its status line and of the boot id file, where they could be read.
    ///
    /// Never fails: a fact the platform withholds is recorded as missing.
    #[must_use]
    pub fn capture(pid: i32, stat: Option<String>, boot: Option<String>) -> (identity: Self)
        ensures
            identity@ == (IdentityView {
                pid,
                start_time: match stat {
                    Some(stat) => start_time_in(stat@),
                    None => None,
                },
                boot_id: match boot {
                    Some(boot) => boot_id_in(boot@),
                    None => None,
                },
            }),
    {
        let start_time = match stat {
            Some(stat) => process_start_time(stat.as_str()),
            None => None,
        };
        let boot_id = match boot {
            Some(boot) => boot_id(boot.as_str()),
            None => None,
        };
        ProcessIdentity { pid, start_time, boot_id }
    }

    /// An identity from its parts.
    pub fn from_parts(pid: i32, start_time: Option<u64>, boot_id: Option<String>) -> (identity:
        Self)
        ensures
            identity@ == (IdentityView { pid, start_time, boot_id: text_of(boot_id) }),
    {
        ProcessIdentity { pid, start_time, boot_id }
    }

    /// The recorded pid.
    #[must_use]
    pub fn pid(&self) -> (pid: i32)
        ensures
            pid == self@.pid,
    {
        self.pid
    }

    /// The recorded start time, if the platform provided one.
    #[must_use]
    pub fn start_time(&self) -> (start: Option<u64>)
        ensures
            start == self@.start_time,
    {
        self.start_time
    }

    /// The recorded boot identifier, if the platform provided one.
    #[must_use]
    pub fn boot_id(&self) -> (id: Option<&str>)
        ensures
            match id {
                Some(id) => self@.boot_id == Some(id@),
                None => self@.boot_id is None,
            },
    {
        match &self.boot_id {
            Some(id) => Some(id.as_str()),
            None => None,
        }
    }

    /// Whether the pid still names the process this identity was captured from,
    /// given what the platform says of the pid now.
    ///
    /// Fail-closed: a start time or a boot id that was not recorded or cannot be
    /// read now answers no, and so does one that changed.
    #[must_use]
    pub fn is_same_process(&self, start_time: Option<u64>, boot_id: &Option<String>) -> (same: bool)
        ensures
            same == same_process(self@, start_time, text_of(*boot_id)),
    {
        match (self.start_time, start_time) {
            (Some(recorded), Some(current)) => if recorded != current {
                false
            } else {
                match (&self.boot_id, boot_id) {
                    (Some(recorded), Some(current)) => recorded.eq(current),
                    _ => false,
                }
            },
            _ => false,
        }
    }
}

/// A pid of which either half is missing, in the record or now, never verifies.
pub proof fn law_a_missing_half_fails_closed(
    recorded: IdentityView,
    start_time: Option<u64>,
    boot_id: Option<Seq<char>>,
)
    requires
        recorded.start_time is None || start_time is None || recorded.boot_id is None || boot_id
            is None,
    ensures
        !same_process(recorded, start_time, boot_id),
{
}

/// A recycled pid is told apart: another start time or another boot is another
/// process.
pub proof fn law_a_recycled_pid_is_not_the_same_process(
    recorded: IdentityView,
    start_time: Option<u64>,
    boot_id: Option<Seq<char>>,
)
    requires
        recorded.start_time != start_time || recorded.boot_id != boot_id,
    ensures
        !same_process(recorded, start_time, boot_id),
{
}

/// A process whose start time and boot are those on record is the one on record.
pub proof fn law_an_unchanged_process_is_recognised(pid: i32, start: u64, boot: Seq<char>)
    ensures
        same_process(
            IdentityView { pid, start_time: Some(start), boot_id: Some(boot) },
            Some(start),
            Some(boot),
        ),
{
}

/// Fields, each with a space in front.
pub open spec fn spaced(fields: Seq<Seq<char>>) -> Seq<char>
    decreases fields.len(),
{
    if fields.len() == 0 {
        Seq::empty()
    } else {
        spaced(fields.drop_last()).push(' ') + fields.last()
    }
}

/// The start time is the twenty-second field of a status line: the first two end
/// with the last closing parenthesis, whatever the program's name holds, and so
/// nineteen more come before it. What follows it changes nothing, and a line that
/// ends before it has none.
pub proof fn law_the_start_time_is_the_twenty_second_field(
    head: Seq<char>,
    fields: Seq<Seq<char>>,
)
    requires
        forall|k: int|
            0 <= k < fields.len() ==> (#[trigger] fields[k]).len() > 0 && !fields[k].contains(')')
                && forall|j: int|
                0 <= j < fields[k].len() ==> !parse::is_white(#[trigger] fields[k][j]),
    ensures
        start_time_in(head.push(')') + spaced(fields)) == (if fields.len() >= 20 {
            parse::parsed_u64(fields[22 - 3])
        } else {
            None
        }),
{
    lemma_spaced(fields);
    law_the_start_time_stands_behind_the_name(head, spaced(fields));
}

/// Nothing in front of the last closing parenthesis counts, and of what stands
/// behind it only the twentieth word does.
pub proof fn law_the_start_time_stands_behind_the_name(head: Seq<char>, tail: Seq<char>)
    requires
        !tail.contains(')'),
    ensures
        start_time_in(head.push(')') + tail) == (if parse::words(tail).len() > 19 {
            parse::parsed_u64(parse::words(tail)[19])
        } else {
            None
        }),
{
    lemma_last_paren(head, tail);
    assert((head.push(')') + tail).skip(head.len() as int + 1) =~= tail);
}

/// A text in which nothing closes a parenthesis has no start time.
pub proof fn law_no_name_no_start_time(stat: Seq<char>)
    requires
        !stat.contains(')'),
    ensures
        start_time_in(stat) is None,
{
    lemma_no_paren(stat);
}

proof fn lemma_no_paren(s: Seq<char>)
    requires
        !s.contains(')'),
    ensures
        last_paren(s) is None,
    decreases s.len(),
{
    if s.len() > 0 {
        assert(s[s.len() - 1] != ')');
        assert(!s.drop_last().contains(')')) by {
            if s.drop_last().contains(')') {
                let i = choose|i: int| 0 <= i < s.drop_last().len() && s.drop_last()[i] == ')';
                assert(s[i] == ')');
            }
        }
        lemma_no_paren(s.drop_last());
    }
}

proof fn lemma_last_paren(head: Seq<char>, tail: Seq<char>)
    requires
        !tail.contains(')'),
    ensures
        last_paren(head.push(')') + tail) == Some(head.len() as int),
    decreases tail.len(),
{
    let whole = head.push(')') + tail;
    if tail.len() > 0 {
        let rest = tail.drop_last();
        assert(whole.drop_last() =~= head.push(')') + rest);
        assert(tail[tail.len() - 1] != ')');
        assert(!rest.contains(')')) by {
            if rest.contains(')') {
                let i = choose|i: int| 0 <= i < rest.len() && rest[i] == ')';
                assert(tail[i] == ')');
            }
        }
        lemma_last_paren(head, rest);
    } else {
        assert(whole =~= head.push(')'));
    }
}

proof fn lemma_spaced(fields: Seq<Seq<char>>)
    requires
        forall|k: int|
            0 <= k < fields.len() ==> (#[trigger] fields[k]).len() > 0 && !fields[k].contains(')')
                && forall|j: int|
                0 <= j < fields[k].len() ==> !parse::is_white(#[trigger] fields[k][j]),
    ensures
        parse::words(spaced(fields)) == fields,
        !spaced(fields).contains(')'),
    decreases fields.len(),
{
    if fields.len() == 0 {
        parse::law_a_run_is_one_word(spaced(fields));
        assert(parse::words(spaced(fields)) =~= fields);
    } else {
        let rest = fields.drop_last();
        let last = fields.last();
        assert(last == fields[fields.len() - 1]);
        assert forall|k: int| 0 <= k < rest.len() implies (#[trigger] rest[k]).len() > 0
            && !rest[k].contains(')') && forall|j: int|
            0 <= j < rest[k].len() ==> !parse::is_white(#[trigger] rest[k][j]) by {
            assert(rest[k] == fields[k]);
        }
        lemma_spaced(rest);
        parse::law_white_space_separates_words(spaced(rest), ' ', last);
        parse::law_a_run_is_one_word(last);
        assert(rest + seq![last] =~= fields);
        let text = spaced(fields);
        if text.contains(')') {
            let i = choose|i: int| 0 <= i < text.len() && text[i] == ')';
            let before = spaced(rest);
            if i < before.len() {
                assert(before[i] == ')');
            } else if i > before.len() {
                assert(last[i - before.len() - 1] == ')');
            }
        }
    }
}

/// A boot identifier is the text of its file without the white space around it,
/// and a file of white space names none.
pub proof fn law_a_boot_id_is_what_is_left(before: Seq<char>, core: Seq<char>, after: Seq<char>)
    requires
        forall|i: int| 0 <= i < before.len() ==> parse::is_white(#[trigger] before[i]),
        forall|i: int| 0 <= i < after.len() ==> parse::is_white(#[trigger] after[i]),
        core.len() > 0 ==> !parse::is_white(core.first()) && !parse::is_white(core.last()),
    ensures
        boot_id_in(before + core + after) == (if core.len() > 0 {
            Some(core)
        } else {
            None
        }),
{
    parse::law_trimming_keeps_the_core(before, core, after);
}

} // verus!
