//! Containment by cgroup, for runs whose process group is not enough: a process
//! group can be left, a cgroup cannot.
//!
//! [`RunCgroup`] says where a run's cgroup is and what is read and written
//! there. Dropping it kills nothing.

use vstd::arithmetic::{div_mod, power};
use vstd::prelude::*;
use vstd::string::StringExecFns;
use vstd::utf8::encode_utf8;
use crate::parse;
use crate::parse::{chars_of, parse_lines};
use crate::path;
use crate::path::{copy_bytes, quoted, PathBytes};
use crate::text;
use crate::text::push_signed;
use super::session;
use super::session::SessionId;

verus! {

/// Where a cgroup v2 hierarchy is mounted on an ordinary Linux system.
pub const CGROUP2_ROOT: &'static str = "/sys/fs/cgroup";

/// The file every member pid is written into, and read back from.
pub const PROCS: &'static str = "cgroup.procs";

/// The file one write to which kills every member.
pub const KILL: &'static str = "cgroup.kill";

/// Why a cgroup operation could not be carried out.
#[derive(Debug, PartialEq, Eq)]
pub enum CgroupError {
    /// The name was not a single path component.
    Name {
        /// The name that was refused.
        name: String,
    },
    /// The directory could not be created, read, written or removed.
    Io {
        /// The path concerned.
        path: PathBytes,
        /// What the kernel said.
        source: String,
    },
    /// This kernel does not offer a kill file.
    NoKillFile {
        /// The cgroup that lacks it.
        path: PathBytes,
    },
}

impl CgroupError {
    /// The text of an error.
    pub open spec fn text(self) -> Seq<char> {
        match self {
            CgroupError::Name { name } => "cgroup name "@ + path::quoted_text(name@)
                + " must be a single path component"@,
            CgroupError::Io { path, source } => "cgroup "@ + path::lossy_utf8(path@) + ": "@
                + source@,
            CgroupError::NoKillFile { path } => path::lossy_utf8(path@)
                + " has no cgroup.kill; killing a whole cgroup in one write needs kernel 5.14"@,
        }
    }

    /// The error as a sentence.
    pub fn to_text(&self) -> (text: String)
        ensures
            text@ == self.text(),
    {
        match self {
            CgroupError::Name { name } => {
                let mut text = "cgroup name ".to_string();
                text.append(quoted(name.as_str()).as_str());
                text.append(" must be a single path component");
                text
            },
            CgroupError::Io { path, source } => {
                let mut text = "cgroup ".to_string();
                text.append(path.to_text().as_str());
                text.append(": ");
                text.append(source.as_str());
                text
            },
            CgroupError::NoKillFile { path } => {
                let mut text = path.to_text();
                text.append(
                    " has no cgroup.kill; killing a whole cgroup in one write needs kernel 5.14",
                );
                text
            },
        }
    }
}

/// Whether a name is one ordinary path component: neither the directory itself
/// nor the one above it.
pub open spec fn is_component(name: Seq<char>) -> bool {
    name.len() > 0 && !name.contains('/') && name != seq!['.'] && name != seq!['.', '.']
}

/// The entry `name` of the directory `dir`.
pub open spec fn joined(dir: Seq<u8>, name: Seq<char>) -> Seq<u8> {
    if dir.len() == 0 || dir.last() == 0x2Fu8 {
        dir + encode_utf8(name)
    } else {
        dir + seq![0x2Fu8] + encode_utf8(name)
    }
}

/// Whether a name is one path component.
pub fn names_one_component(name: &str) -> (one: bool)
    ensures
        one == is_component(name@),
{
    let chars = chars_of(name);
    if chars.len() == 0 {
        return false;
    }
    if chars[0] == '.' && (chars.len() == 1 || (chars.len() == 2 && chars[1] == '.')) {
        assert(name@ =~= seq!['.'] || name@ =~= seq!['.', '.']);
        return false;
    }
    let mut i: usize = 0;
    while i < chars.len()
        invariant
            i <= chars@.len(),
            chars@ == name@,
            forall|k: int| 0 <= k < i ==> chars@[k] != '/',
        decreases chars@.len() - i,
    {
        if chars[i] == '/' {
            assert(name@[i as int] == '/');
            return false;
        }
        i += 1;
    }
    proof {
        if name@ == seq!['.'] || name@ == seq!['.', '.'] {
            assert(name@[0] == '.');
            assert(name@.len() == 2 ==> name@[1] == '.');
        }
    }
    true
}

/// The entry `name` of the directory `dir`.
fn join(dir: &PathBytes, name: &str) -> (path: PathBytes)
    ensures
        path@ == joined(dir@, name@),
{
    let mut bytes = copy_bytes(dir.as_bytes());
    if bytes.len() > 0 && bytes[bytes.len() - 1] != 0x2F {
        bytes.push(0x2F);
    }
    bytes.extend_from_slice(name.as_bytes());
    assert(bytes@ =~= joined(dir@, name@));
    PathBytes::from_bytes(bytes)
}

/// A cgroup that holds one run.
#[derive(Debug, PartialEq, Eq)]
pub struct RunCgroup {
    path: PathBytes,
}

impl View for RunCgroup {
    type V = Seq<u8>;

    closed spec fn view(&self) -> Seq<u8> {
        self.path@
    }
}

impl RunCgroup {
    /// The cgroup named `name` under `parent`, whose directory is still to be
    /// made. A name that would put it elsewhere is refused rather than
    /// sanitised.
    pub fn create(parent: &PathBytes, name: &str) -> (created: Result<Self, CgroupError>)
        ensures
            match created {
                Ok(cgroup) => is_component(name@) && cgroup@ == joined(parent@, name@),
                Err(CgroupError::Name { name: refused }) => !is_component(name@) && refused@
                    == name@,
                Err(_) => false,
            },
    {
        if !names_one_component(name) {
            return Err(CgroupError::Name { name: name.to_string() });
        }
        Ok(RunCgroup { path: join(parent, name) })
    }

    /// The cgroup of a session's run, whose directory is still to be made: under
    /// the parent the plan names, or else at the root.
    pub fn for_run(parent: Option<&PathBytes>, session: SessionId) -> (cgroup: Self)
        ensures
            cgroup@ == joined(
                match parent {
                    Some(parent) => parent@,
                    None => encode_utf8(CGROUP2_ROOT@),
                },
                name_for(session),
            ),
            is_component(name_for(session)),
    {
        proof {
            law_a_session_names_a_cgroup(session);
        }
        let name = cgroup_name(session);
        let path = match parent {
            Some(parent) => join(parent, name.as_str()),
            None => join(&PathBytes::from_text(CGROUP2_ROOT), name.as_str()),
        };
        RunCgroup { path }
    }

    /// The directory backing this cgroup.
    #[must_use]
    pub fn path(&self) -> (path: &PathBytes)
        ensures
            path@ == self@,
    {
        &self.path
    }

    /// The file that member pids are written into and read back from.
    #[must_use]
    pub fn procs(&self) -> (path: PathBytes)
        ensures
            path@ == joined(self@, PROCS@),
    {
        join(&self.path, PROCS)
    }

    /// The file that kills every member.
    #[must_use]
    pub fn kill_file(&self) -> (path: PathBytes)
        ensures
            path@ == joined(self@, KILL@),
    {
        join(&self.path, KILL)
    }

    /// What to write, and where, to move `pid` into this cgroup.
    #[must_use]
    pub fn place(&self, pid: i32) -> (write: (PathBytes, String))
        ensures
            write.0@ == joined(self@, PROCS@),
            write.1@ == text::signed_decimal(pid as int),
    {
        let mut text = "".to_string();
        proof {
            reveal_strlit("");
        }
        push_signed(&mut text, pid as i64);
        assert(text@ =~= text::signed_decimal(pid as int));
        (self.procs(), text)
    }

    /// What to write, and where, to kill every member in one write.
    /// `supported` is whether the kill file is there.
    pub fn kill_all(&self, supported: bool) -> (write: Result<(PathBytes, &'static str), CgroupError>)
        ensures
            match write {
                Ok((path, text)) => supported && path@ == joined(self@, KILL@) && text@
                    == "1"@,
                Err(CgroupError::NoKillFile { path }) => !supported && path@ == self@,
                Err(_) => false,
            },
    {
        if !supported {
            return Err(CgroupError::NoKillFile { path: self.path.clone() });
        }
        Ok((self.kill_file(), "1"))
    }

    /// The pids in this cgroup. `listing` is what reading the member file gave:
    /// an unreadable membership is not an empty one.
    pub fn members(&self, listing: Result<String, String>) -> (pids: Result<Vec<i32>, CgroupError>)
        ensures
            match listing {
                Ok(listing) => pids matches Ok(pids) && pids@ == parse::numbers_on_lines(listing@),
                Err(why) => pids matches Err(CgroupError::Io { path, source }) && path@ == joined(
                    self@,
                    PROCS@,
                ) && source == why,
            },
    {
        match listing {
            Ok(listing) => {
                let chars = chars_of(listing.as_str());
                Ok(parse_lines(&chars))
            },
            Err(source) => Err(CgroupError::Io { path: self.procs(), source }),
        }
    }

    /// Whether nothing remains in this cgroup.
    pub fn is_empty(&self, listing: Result<String, String>) -> (empty: Result<bool, CgroupError>)
        ensures
            match listing {
                Ok(listing) => empty == Ok::<bool, CgroupError>(
                    parse::numbers_on_lines(listing@).len() == 0,
                ),
                Err(why) => empty matches Err(CgroupError::Io { path, source }) && path@ == joined(
                    self@,
                    PROCS@,
                ) && source == why,
            },
    {
        match self.members(listing) {
            Ok(pids) => Ok(pids.len() == 0),
            Err(err) => Err(err),
        }
    }
}

/// The name of a session's cgroup: no two sessions share one.
pub open spec fn name_for(session: SessionId) -> Seq<char> {
    "nono-"@ + session::simple_text(session.0)
}

/// The name of a session's cgroup.
pub fn cgroup_name(session: SessionId) -> (name: String)
    ensures
        name@ == name_for(session),
{
    let mut name = "nono-".to_string();
    name.append(session.to_simple_text().as_str());
    name
}

/// A session always names a cgroup that can be created.
pub proof fn law_a_session_names_a_cgroup(session: SessionId)
    ensures
        is_component(name_for(session)),
{
    reveal_strlit("nono-");
    let name = name_for(session);
    let digits = session::simple_text(session.0);
    assert forall|i: int| 0 <= i < name.len() implies name[i] != '/' && name[i] != '.' by {
        if i >= 5 {
            let d = (session.0 as int / power::pow(16, (31 - (i - 5)) as nat))
                % 16;
            assert(0 <= d < 16) by (nonlinear_arith)
                requires
                    d == (session.0 as int / power::pow(
                        16,
                        (31 - (i - 5)) as nat,
                    )) % 16,
            ;
            assert(name[i] == digits[i - 5]);
            assert(digits[i - 5] == session::hex_digit(d));
        }
    }
    assert(!name.contains('/'));
    assert(name.len() == 37);
}

/// No two sessions share a cgroup.
pub proof fn law_sessions_do_not_share_a_cgroup(left: SessionId, right: SessionId)
    requires
        name_for(left) == name_for(right),
    ensures
        left == right,
{
    let ours = session::simple_text(left.0);
    let theirs = session::simple_text(right.0);
    assert forall|i: int| 0 <= i < 32 implies ours[i] == theirs[i] by {
        let shift = "nono-"@.len();
        assert(name_for(left)[shift + i] == ours[i]);
        assert(name_for(right)[shift + i] == theirs[i]);
    }
    assert(power::pow(16, 32) == 0x1_0000_0000_0000_0000_0000_0000_0000_0000int) by {
        reveal_with_fuel(power::pow, 9);
        assert(power::pow(16, 8) == 0x1_0000_0000);
        power::lemma_pow_adds(16, 8, 8);
        power::lemma_pow_adds(16, 16, 16);
        assert(0x1_0000_0000int * 0x1_0000_0000int == 0x1_0000_0000_0000_0000int)
            by (nonlinear_arith);
        assert(0x1_0000_0000_0000_0000int * 0x1_0000_0000_0000_0000int
            == 0x1_0000_0000_0000_0000_0000_0000_0000_0000int) by (nonlinear_arith);
    }
    lemma_same_digits(left.0, right.0, 32);
}

/// Numbers whose digits agree, and which agree above the last `n` digits, are
/// the same.
proof fn lemma_same_digits(left: u128, right: u128, n: nat)
    requires
        n <= 32,
        left as int / power::pow(16, n) == right as int / power::pow(16, n),
        forall|i: int|
            0 <= i < 32 ==> #[trigger] session::simple_text(left)[i] == session::simple_text(
                right,
            )[i],
    ensures
        left == right,
    decreases n,
{
    if n == 0 {
        power::lemma_pow0(16);
        assert(left as int / 1 == left as int);
        assert(right as int / 1 == right as int);
    } else {
        let k = (n - 1) as nat;
        let unit = power::pow(16, k);
        power::lemma_pow_positive(16, k);
        power::lemma_pow1(16);
        power::lemma_pow_adds(16, k, 1);
        let ours = left as int / unit;
        let theirs = right as int / unit;
        div_mod::lemma_div_denominator(left as int, unit, 16);
        div_mod::lemma_div_denominator(right as int, unit, 16);
        div_mod::lemma_fundamental_div_mod(ours, 16);
        div_mod::lemma_fundamental_div_mod(theirs, 16);
        assert(session::simple_text(left)[31 - k] == session::hex_digit(ours % 16));
        assert(session::simple_text(right)[31 - k] == session::hex_digit(theirs % 16));
        assert(ours % 16 == theirs % 16);
        lemma_same_digits(left, right, k);
    }
}

} // verus!
