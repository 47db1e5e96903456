//! A probe as text: the whole request, with its paths escaped and its addresses
//! in the usual short form.

use vstd::prelude::*;
use vstd::string::StringExecFns;
use crate::capability_modes::FsMode;
use crate::escape;
use crate::escape::quote_path;
use crate::path;
use crate::path::quoted;
use crate::text;
use crate::text::push_decimal;
use super::probe::{ProbeAddr, ProbeOp, ProbeRequest, TransportProtocol};
use super::session;

verus! {

/// A number in hexadecimal, without leading zeros.
pub open spec fn hex(n: nat) -> Seq<char>
    decreases n,
{
    if n < 16 {
        seq![session::hex_digit(n as int)]
    } else {
        hex(n / 16).push(session::hex_digit((n % 16) as int))
    }
}

/// Four bytes in decimal, joined by dots.
pub open spec fn dotted(octets: Seq<u8>) -> Seq<char> {
    text::decimal(octets[0] as nat) + "."@ + text::decimal(octets[1] as nat) + "."@ + text::decimal(
        octets[2] as nat,
    ) + "."@ + text::decimal(octets[3] as nat)
}

/// The groups of an address: each two bytes, in network order.
pub open spec fn groups_of(octets: Seq<u8>) -> Seq<u16> {
    Seq::new(8, |i: int| (octets[2 * i] * 256 + octets[2 * i + 1]) as u16)
}

/// Groups in hexadecimal, joined by colons.
pub open spec fn colons(groups: Seq<u16>) -> Seq<char>
    decreases groups.len(),
{
    if groups.len() == 0 {
        Seq::empty()
    } else if groups.len() == 1 {
        hex(groups[0] as nat)
    } else {
        colons(groups.drop_last()) + ":"@ + hex(groups.last() as nat)
    }
}

/// How many groups from `at` on are zero.
pub open spec fn zero_run(groups: Seq<u16>, at: int) -> nat
    decreases groups.len() - at,
{
    if at < 0 || at >= groups.len() || groups[at] != 0 {
        0
    } else {
        1 + zero_run(groups, at + 1)
    }
}

/// Where the longest run of zero groups starts, among the first `count` places;
/// the first of several of one length.
pub open spec fn longest_run(groups: Seq<u16>, count: nat) -> int
    decreases count,
{
    if count <= 1 {
        0
    } else {
        let best = longest_run(groups, (count - 1) as nat);
        if zero_run(groups, count - 1) > zero_run(groups, best) {
            count - 1
        } else {
            best
        }
    }
}

/// Whether an address stands for one of four bytes.
pub open spec fn is_mapped(groups: Seq<u16>) -> bool {
    &&& groups[0] == 0
    &&& groups[1] == 0
    &&& groups[2] == 0
    &&& groups[3] == 0
    &&& groups[4] == 0
    &&& groups[5] == 0xFFFF
}

/// An address of sixteen bytes: its longest run of two or more zero groups is
/// left out, and one that stands for four bytes ends in them.
pub open spec fn coloned(octets: Seq<u8>) -> Seq<char> {
    let groups = groups_of(octets);
    let start = longest_run(groups, 8);
    let run = zero_run(groups, start);
    if is_mapped(groups) {
        "::ffff:"@ + dotted(octets.subrange(12, 16))
    } else if run > 1 {
        colons(groups.take(start)) + "::"@ + colons(groups.skip(start + run))
    } else {
        colons(groups)
    }
}

/// The text of an address and its port.
pub open spec fn addr_text(addr: ProbeAddr) -> Seq<char> {
    match addr {
        ProbeAddr::V4 { octets, port } => dotted(octets@) + ":"@ + text::decimal(port as nat),
        ProbeAddr::V6 { octets, port } => "["@ + coloned(octets@) + "]:"@ + text::decimal(
            port as nat,
        ),
    }
}

/// The name of a mode as one word.
pub open spec fn mode_word(mode: FsMode) -> Seq<char> {
    match mode {
        FsMode::ReadContents => "ReadContents"@,
        FsMode::ReadDir => "ReadDir"@,
        FsMode::ReadMetadata => "ReadMetadata"@,
        FsMode::Write => "Write"@,
        FsMode::Append => "Append"@,
        FsMode::Create => "Create"@,
        FsMode::Truncate => "Truncate"@,
        FsMode::RemoveFile => "RemoveFile"@,
        FsMode::RemoveDir => "RemoveDir"@,
        FsMode::Rename => "Rename"@,
        FsMode::Execute => "Execute"@,
        FsMode::UnixSocketConnect => "UnixSocketConnect"@,
        FsMode::AtomicWrite => "AtomicWrite"@,
    }
}

/// The name of a transport as one word.
pub open spec fn transport_word(protocol: TransportProtocol) -> Seq<char> {
    match protocol {
        TransportProtocol::Tcp => "Tcp"@,
        TransportProtocol::Udp => "Udp"@,
    }
}

/// The text of an operation.
pub open spec fn op_text(op: ProbeOp) -> Seq<char> {
    match op {
        ProbeOp::OpenPath { path, mode } => "OpenPath { path: "@ + escape::quoted_path(path@)
            + ", mode: "@ + mode_word(mode) + " }"@,
        ProbeOp::Execute { program } => "Execute { program: "@ + escape::quoted_path(program@)
            + " }"@,
        ProbeOp::Connect { protocol, addr } => "Connect { protocol: "@ + transport_word(protocol)
            + ", addr: "@ + addr_text(addr) + " }"@,
        ProbeOp::Bind { protocol, addr } => "Bind { protocol: "@ + transport_word(protocol)
            + ", addr: "@ + addr_text(addr) + " }"@,
    }
}

/// The text of a request.
pub open spec fn request_text(request: ProbeRequest) -> Seq<char> {
    "ProbeRequest { id: ProbeId("@ + path::quoted_text(request.id@) + "), op: "@ + op_text(
        request.op,
    ) + " }"@
}

fn hex_digit_text(n: u16) -> (text: &'static str)
    requires
        n < 16,
    ensures
        text@ == seq![session::hex_digit(n as int)],
{
    proof {
        reveal_strlit("0");
        reveal_strlit("1");
        reveal_strlit("2");
        reveal_strlit("3");
        reveal_strlit("4");
        reveal_strlit("5");
        reveal_strlit("6");
        reveal_strlit("7");
        reveal_strlit("8");
        reveal_strlit("9");
        reveal_strlit("a");
        reveal_strlit("b");
        reveal_strlit("c");
        reveal_strlit("d");
        reveal_strlit("e");
        reveal_strlit("f");
    }
    match n {
        0 => "0",
        1 => "1",
        2 => "2",
        3 => "3",
        4 => "4",
        5 => "5",
        6 => "6",
        7 => "7",
        8 => "8",
        9 => "9",
        10 => "a",
        11 => "b",
        12 => "c",
        13 => "d",
        14 => "e",
        _ => "f",
    }
}

/// Append `n` in hexadecimal.
fn push_hex(text: &mut String, n: u16)
    ensures
        final(text)@ == old(text)@ + hex(n as nat),
    decreases n,
{
    if n < 16 {
        text.append(hex_digit_text(n));
    } else {
        push_hex(text, n / 16);
        text.append(hex_digit_text(n % 16));
        assert(text@ =~= old(text)@ + hex(n as nat));
    }
}

/// Append four bytes in decimal, joined by dots.
fn push_dotted(text: &mut String, octets: [u8; 4])
    ensures
        final(text)@ == old(text)@ + dotted(octets@),
{
    push_decimal(text, octets[0] as u64);
    text.append(".");
    push_decimal(text, octets[1] as u64);
    text.append(".");
    push_decimal(text, octets[2] as u64);
    text.append(".");
    push_decimal(text, octets[3] as u64);
    assert(text@ =~= old(text)@ + dotted(octets@));
}

fn read_groups(octets: &[u8; 16]) -> (groups: Vec<u16>)
    ensures
        groups@ == groups_of(octets@),
{
    let mut groups: Vec<u16> = Vec::new();
    let mut i: usize = 0;
    while i < 8
        invariant
            i <= 8,
            groups@ =~= groups_of(octets@).take(i as int),
        decreases 8 - i,
    {
        groups.push(octets[2 * i] as u16 * 256 + octets[2 * i + 1] as u16);
        i += 1;
    }
    groups
}

/// Append the groups from `from` up to `to` in hexadecimal, joined by colons.
fn push_colons(text: &mut String, groups: &Vec<u16>, from: usize, to: usize)
    requires
        from <= to <= groups@.len(),
    ensures
        final(text)@ == old(text)@ + colons(groups@.subrange(from as int, to as int)),
{
    let mut i: usize = from;
    assert(groups@.subrange(from as int, from as int).len() == 0);
    assert(text@ =~= old(text)@ + colons(groups@.subrange(from as int, i as int)));
    while i < to
        invariant
            from <= i <= to <= groups@.len(),
            text@ == old(text)@ + colons(groups@.subrange(from as int, i as int)),
        decreases to - i,
    {
        if i > from {
            text.append(":");
        }
        push_hex(text, groups[i]);
        i += 1;
        proof {
            let shown = groups@.subrange(from as int, i as int);
            assert(shown.drop_last() =~= groups@.subrange(from as int, i - 1));
            assert(shown.last() == groups@[i - 1]);
            assert(text@ =~= old(text)@ + colons(shown));
        }
    }
}

fn count_zeros(groups: &Vec<u16>, at: usize) -> (run: usize)
    requires
        at <= groups@.len(),
    ensures
        run == zero_run(groups@, at as int),
        at + run <= groups@.len(),
    decreases groups@.len() - at,
{
    if at < groups.len() && groups[at] == 0 {
        1 + count_zeros(groups, at + 1)
    } else {
        0
    }
}

/// Where the longest run of zero groups starts, and how long it is.
fn find_run(groups: &Vec<u16>) -> (found: (usize, usize))
    requires
        groups@.len() == 8,
    ensures
        found.0 == longest_run(groups@, 8),
        found.1 == zero_run(groups@, found.0 as int),
        found.0 + found.1 <= 8,
{
    let mut start: usize = 0;
    let mut run: usize = count_zeros(groups, 0);
    let mut i: usize = 1;
    while i < 8
        invariant
            1 <= i <= 8,
            groups@.len() == 8,
            start == longest_run(groups@, i as nat),
            run == zero_run(groups@, start as int),
            start + run <= 8,
        decreases 8 - i,
    {
        let here: usize = count_zeros(groups, i);
        if here > run {
            start = i;
            run = here;
        }
        i += 1;
    }
    (start, run)
}

/// Append an address of sixteen bytes.
fn push_coloned(text: &mut String, octets: &[u8; 16])
    ensures
        final(text)@ == old(text)@ + coloned(octets@),
{
    let groups = read_groups(octets);
    if groups[0] == 0 && groups[1] == 0 && groups[2] == 0 && groups[3] == 0 && groups[4] == 0
        && groups[5] == 0xFFFF {
        text.append("::ffff:");
        let last = [octets[12], octets[13], octets[14], octets[15]];
        assert(last@ =~= octets@.subrange(12, 16));
        push_dotted(text, last);
        assert(text@ =~= old(text)@ + coloned(octets@));
        return ;
    }
    let (start, run) = find_run(&groups);
    if run > 1 {
        push_colons(text, &groups, 0, start);
        text.append("::");
        push_colons(text, &groups, start + run, 8);
        assert(groups@.subrange(0, start as int) =~= groups@.take(start as int));
        assert(groups@.subrange(start + run, 8) =~= groups@.skip(start + run));
        assert(text@ =~= old(text)@ + coloned(octets@));
    } else {
        push_colons(text, &groups, 0, 8);
        assert(groups@.subrange(0, 8) =~= groups@);
    }
}

impl ProbeAddr {
    /// The address and its port as text.
    pub fn to_text(&self) -> (text: String)
        ensures
            text@ == addr_text(*self),
    {
        match self {
            ProbeAddr::V4 { octets, port } => {
                let mut text = String::new();
                push_dotted(&mut text, *octets);
                text.append(":");
                push_decimal(&mut text, *port as u64);
                assert(text@ =~= addr_text(*self));
                text
            },
            ProbeAddr::V6 { octets, port } => {
                let mut text = "[".to_string();
                push_coloned(&mut text, octets);
                text.append("]:");
                push_decimal(&mut text, *port as u64);
                text
            },
        }
    }
}

fn mode_name(mode: FsMode) -> (name: &'static str)
    ensures
        name@ == mode_word(mode),
{
    match mode {
        FsMode::ReadContents => "ReadContents",
        FsMode::ReadDir => "ReadDir",
        FsMode::ReadMetadata => "ReadMetadata",
        FsMode::Write => "Write",
        FsMode::Append => "Append",
        FsMode::Create => "Create",
        FsMode::Truncate => "Truncate",
        FsMode::RemoveFile => "RemoveFile",
        FsMode::RemoveDir => "RemoveDir",
        FsMode::Rename => "Rename",
        FsMode::Execute => "Execute",
        FsMode::UnixSocketConnect => "UnixSocketConnect",
        FsMode::AtomicWrite => "AtomicWrite",
    }
}

fn transport_name(protocol: TransportProtocol) -> (name: &'static str)
    ensures
        name@ == transport_word(protocol),
{
    match protocol {
        TransportProtocol::Tcp => "Tcp",
        TransportProtocol::Udp => "Udp",
    }
}

impl ProbeOp {
    /// The operation as text.
    pub fn to_text(&self) -> (text: String)
        ensures
            text@ == op_text(*self),
    {
        match self {
            ProbeOp::OpenPath { path, mode } => {
                let mut text = "OpenPath { path: ".to_string();
                text.append(quote_path(path.as_bytes()).as_str());
                text.append(", mode: ");
                text.append(mode_name(*mode));
                text.append(" }");
                text
            },
            ProbeOp::Execute { program } => {
                let mut text = "Execute { program: ".to_string();
                text.append(quote_path(program.as_bytes()).as_str());
                text.append(" }");
                text
            },
            ProbeOp::Connect { protocol, addr } => {
                let mut text = "Connect { protocol: ".to_string();
                text.append(transport_name(*protocol));
                text.append(", addr: ");
                text.append(addr.to_text().as_str());
                text.append(" }");
                text
            },
            ProbeOp::Bind { protocol, addr } => {
                let mut text = "Bind { protocol: ".to_string();
                text.append(transport_name(*protocol));
                text.append(", addr: ");
                text.append(addr.to_text().as_str());
                text.append(" }");
                text
            },
        }
    }
}

impl ProbeRequest {
    /// The whole request as text.
    pub fn to_text(&self) -> (text: String)
        ensures
            text@ == request_text(*self),
    {
        let mut text = "ProbeRequest { id: ProbeId(".to_string();
        text.append(quoted(self.id.as_str()).as_str());
        text.append("), op: ");
        text.append(self.op.to_text().as_str());
        text.append(" }");
        text
    }
}

/// A run of zero groups is zero throughout and ends where a group is not, or with
/// the address.
pub proof fn law_a_run_is_zero_throughout(groups: Seq<u16>, at: int)
    requires
        0 <= at <= groups.len(),
    ensures
        at + zero_run(groups, at) <= groups.len(),
        forall|k: int| at <= k < at + zero_run(groups, at) ==> #[trigger] groups[k] == 0,
        at + zero_run(groups, at) < groups.len() ==> groups[at + zero_run(groups, at)] != 0,
    decreases groups.len() - at,
{
    if at < groups.len() && groups[at] == 0 {
        law_a_run_is_zero_throughout(groups, at + 1);
    }
}

/// The run that is left out is the longest, and the first of several.
pub proof fn law_the_longest_run_is_left_out(groups: Seq<u16>, count: nat, i: int)
    requires
        0 <= i < count,
    ensures
        0 <= longest_run(groups, count) < count,
        zero_run(groups, i) <= zero_run(groups, longest_run(groups, count)),
        i < longest_run(groups, count) ==> zero_run(groups, i) < zero_run(
            groups,
            longest_run(groups, count),
        ),
    decreases count,
{
    if count > 1 {
        if i < count - 1 {
            law_the_longest_run_is_left_out(groups, (count - 1) as nat, i);
        } else {
            law_the_longest_run_is_left_out(groups, (count - 1) as nat, 0);
        }
    }
}

/// An address is shown with its port behind it, one of sixteen bytes between
/// brackets: a run of two or more zero groups is left out, one that stands for
/// four bytes ends in them, and every other is shown whole.
pub proof fn law_an_address_is_shown_with_its_port(four: [u8; 4], octets: [u8; 16], port: u16)
    ensures
        addr_text(ProbeAddr::V4 { octets: four, port }) == text::decimal(four@[0] as nat) + "."@
            + text::decimal(four@[1] as nat) + "."@ + text::decimal(four@[2] as nat) + "."@
            + text::decimal(four@[3] as nat) + ":"@ + text::decimal(port as nat),
        addr_text(ProbeAddr::V6 { octets, port }) == "["@ + coloned(octets@) + "]:"@
            + text::decimal(port as nat),
        ({
            let groups = groups_of(octets@);
            let start = longest_run(groups, 8);
            let run = zero_run(groups, start);
            let mapped = groups[0] == 0 && groups[1] == 0 && groups[2] == 0 && groups[3] == 0
                && groups[4] == 0 && groups[5] == 65535;
            &&& mapped ==> coloned(octets@) == "::ffff:"@ + dotted(octets@.subrange(12, 16))
            &&& !mapped && run >= 2 ==> coloned(octets@) == colons(groups.subrange(0, start))
                + "::"@ + colons(groups.subrange(start + run, 8))
            &&& !mapped && run < 2 ==> coloned(octets@) == colons(groups)
        }),
        forall|i: int|
            0 <= i < 8 ==> #[trigger] groups_of(octets@)[i] == octets@[2 * i] * 256 + octets@[2 * i
                + 1],
{
    let groups = groups_of(octets@);
    law_the_longest_run_is_left_out(groups, 8, 0);
    law_a_run_is_zero_throughout(groups, longest_run(groups, 8));
    let start = longest_run(groups, 8);
    let run = zero_run(groups, start);
    assert(groups.take(start) =~= groups.subrange(0, start));
    assert(groups.skip(start + run) =~= groups.subrange(start + run, 8));
}

} // verus!
