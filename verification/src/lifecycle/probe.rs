//! Probing the installed enforcement: asking a held child to attempt one
//! operation, and reading the kernel's own answer.
//!
//! The answer is never derived from what the plan granted. An operation that has
//! no probe in scope for a held child, or that the mechanism has no check for,
//! is settled before the child is asked.

use vstd::prelude::*;
use vstd::string::StringExecFns;
use crate::capability_modes::FsMode;
use crate::errno;
use crate::errno::{in_progress, name_too_long, EACCES, EINVAL, EPERM};
use crate::path;
use crate::path::{bytes_hold_nul, PathBytes};
use crate::text;
use crate::text::push_signed;
use crate::time::{wall_clock, Timestamp};
use super::state::LifecycleState;

verus! {

/// A caller-supplied tag that comes back on the observation.
#[derive(Debug, PartialEq, Eq, Hash, PartialOrd, Ord)]
pub struct ProbeId(String);

impl View for ProbeId {
    type V = Seq<char>;

    closed spec fn view(&self) -> Seq<char> {
        self.0@
    }
}

impl Clone for ProbeId {
    fn clone(&self) -> (copy: Self)
        ensures
            copy == *self,
    {
        ProbeId(self.0.clone())
    }
}

impl ProbeId {
    /// Tag a probe with a caller-chosen string.
    #[must_use]
    pub fn new(id: &str) -> (tag: Self)
        ensures
            tag@ == id@,
    {
        ProbeId(id.to_string())
    }

    /// The tag, as the caller supplied it.
    #[must_use]
    pub fn as_str(&self) -> (id: &str)
        ensures
            id@ == self@,
    {
        self.0.as_str()
    }
}

/// Which transport a network probe asks about.
#[derive(Debug, Clone, Copy, PartialEq, Eq, Hash, Structural)]
pub enum TransportProtocol {
    /// A stream socket.
    Tcp,
    /// A datagram socket.
    Udp,
}

impl TransportProtocol {
    /// Every value, in a fixed order.
    pub const ALL: [TransportProtocol; 2] = [TransportProtocol::Tcp, TransportProtocol::Udp];

    /// The name of a transport.
    pub open spec fn name(self) -> Seq<char> {
        match self {
            TransportProtocol::Tcp => "tcp"@,
            TransportProtocol::Udp => "udp"@,
        }
    }

    /// The stable snake_case name.
    #[must_use]
    pub fn as_str(self) -> (name: &'static str)
        ensures
            name@ == self.name(),
    {
        match self {
            TransportProtocol::Tcp => "tcp",
            TransportProtocol::Udp => "udp",
        }
    }
}

/// An internet address and port. The octets are in network order.
#[derive(Debug, Clone, Copy, PartialEq, Eq, Hash)]
pub enum ProbeAddr {
    /// An IPv4 address.
    V4 {
        /// The address.
        octets: [u8; 4],
        /// The port.
        port: u16,
    },
    /// An IPv6 address.
    V6 {
        /// The address.
        octets: [u8; 16],
        /// The port.
        port: u16,
    },
}

/// One operation a probe attempts.
#[derive(Debug, PartialEq, Eq)]
pub enum ProbeOp {
    /// Attempt one filesystem operation against a path.
    OpenPath {
        /// The path the operation names.
        path: PathBytes,
        /// Which operation.
        mode: FsMode,
    },
    /// Attempt to execute a program. Has no in-scope probe while the child is
    /// held.
    Execute {
        /// The program the operation names.
        program: PathBytes,
    },
    /// Attempt to connect a socket to an address.
    Connect {
        /// The socket type.
        protocol: TransportProtocol,
        /// The address to reach for.
        addr: ProbeAddr,
    },
    /// Attempt to bind a socket to an address.
    Bind {
        /// The socket type.
        protocol: TransportProtocol,
        /// The address to claim.
        addr: ProbeAddr,
    },
}

/// One probe: what to attempt, and what to call the answer.
#[derive(Debug, PartialEq, Eq)]
pub struct ProbeRequest {
    /// The caller's tag, returned on the observation.
    pub id: ProbeId,
    /// The operation to attempt.
    pub op: ProbeOp,
}

/// Which kernel facility the answer came from.
#[derive(Debug, Clone, Copy, PartialEq, Eq, Hash, Structural)]
pub enum EnforcementMechanism {
    /// The Linux Landlock LSM.
    Landlock,
    /// A static seccomp-bpf filter.
    Seccomp,
    /// A seccomp filter whose decisions are delegated to a listener.
    SeccompUserNotify,
    /// The macOS Seatbelt sandbox.
    Seatbelt,
}

impl EnforcementMechanism {
    /// Every mechanism, in a fixed order.
    pub const ALL: [EnforcementMechanism; 4] = [
        EnforcementMechanism::Landlock,
        EnforcementMechanism::Seccomp,
        EnforcementMechanism::SeccompUserNotify,
        EnforcementMechanism::Seatbelt,
    ];

    /// The name of a mechanism.
    pub open spec fn name(self) -> Seq<char> {
        match self {
            EnforcementMechanism::Landlock => "landlock"@,
            EnforcementMechanism::Seccomp => "seccomp"@,
            EnforcementMechanism::SeccompUserNotify => "seccomp_user_notify"@,
            EnforcementMechanism::Seatbelt => "seatbelt"@,
        }
    }

    /// The stable snake_case name.
    #[must_use]
    pub fn as_str(self) -> (name: &'static str)
        ensures
            name@ == self.name(),
    {
        match self {
            EnforcementMechanism::Landlock => "landlock",
            EnforcementMechanism::Seccomp => "seccomp",
            EnforcementMechanism::SeccompUserNotify => "seccomp_user_notify",
            EnforcementMechanism::Seatbelt => "seatbelt",
        }
    }
}

/// Why a probe established nothing.
#[derive(Debug, Clone, Copy, PartialEq, Eq, Structural)]
pub enum ProbeIndeterminate {
    /// The mechanism has no check for this operation at all.
    MechanismCannotExpress {
        /// The mechanism that cannot express it.
        mechanism: EnforcementMechanism,
    },
    /// The operation failed for a reason that is not a refusal, or could not be
    /// attempted.
    ProbeCouldNotRun {
        /// The kernel's own number.
        errno: i32,
    },
    /// There is no probe for this operation that is in scope for a held child.
    PlatformHasNoInScopeProbe,
}

impl ProbeIndeterminate {
    /// The name of a reason.
    pub open spec fn name(self) -> Seq<char> {
        match self {
            ProbeIndeterminate::MechanismCannotExpress { .. } => "mechanism_cannot_express"@,
            ProbeIndeterminate::ProbeCouldNotRun { .. } => "probe_could_not_run"@,
            ProbeIndeterminate::PlatformHasNoInScopeProbe => "platform_has_no_in_scope_probe"@,
        }
    }

    /// The stable snake_case name.
    #[must_use]
    pub fn as_str(self) -> (name: &'static str)
        ensures
            name@ == self.name(),
    {
        match self {
            ProbeIndeterminate::MechanismCannotExpress { .. } => "mechanism_cannot_express",
            ProbeIndeterminate::ProbeCouldNotRun { .. } => "probe_could_not_run",
            ProbeIndeterminate::PlatformHasNoInScopeProbe => "platform_has_no_in_scope_probe",
        }
    }
}

/// What the kernel said.
#[derive(Debug, Clone, Copy, PartialEq, Eq, Structural)]
pub enum ProbeOutcome {
    /// The operation really happened.
    Permitted,
    /// The kernel refused, with the number it refused with.
    Refused {
        /// The kernel's own number.
        errno: i32,
    },
    /// Nothing about enforcement was established, and why.
    Indeterminate {
        /// Which kind of nothing.
        reason: ProbeIndeterminate,
    },
}

/// Which process the answer is about.
#[derive(Debug, Clone, Copy, PartialEq, Eq, Hash, Structural)]
pub enum ProbeScope {
    /// The probe ran inside the confined child itself.
    InstalledChild,
    /// The probe ran in a fresh process the policy was applied to again.
    RederivedSibling,
}

impl ProbeScope {
    /// Every scope, in a fixed order.
    pub const ALL: [ProbeScope; 2] = [ProbeScope::InstalledChild, ProbeScope::RederivedSibling];

    /// The name of a scope.
    pub open spec fn name(self) -> Seq<char> {
        match self {
            ProbeScope::InstalledChild => "installed_child"@,
            ProbeScope::RederivedSibling => "rederived_sibling"@,
        }
    }

    /// The stable snake_case name.
    #[must_use]
    pub fn as_str(self) -> (name: &'static str)
        ensures
            name@ == self.name(),
    {
        match self {
            ProbeScope::InstalledChild => "installed_child",
            ProbeScope::RederivedSibling => "rederived_sibling",
        }
    }
}

/// What one probe established.
#[derive(Debug, PartialEq, Eq)]
pub struct ProbeObservation {
    /// The caller's tag, returned unchanged.
    pub id: ProbeId,
    /// What the kernel said.
    pub outcome: ProbeOutcome,
    /// Which facility expressed the operation in the installed policy.
    pub mechanism: EnforcementMechanism,
    /// Which process the answer is about.
    pub scope: ProbeScope,
    /// Whether a denial record was captured. A refused call is an error number,
    /// not a denial record, and this library observes none.
    pub denial_observed: bool,
    /// When the answer arrived here.
    pub observed_at: Timestamp,
}

/// Everything a probe can refuse to do.
#[derive(Debug, Clone, Copy, PartialEq, Eq, Structural)]
pub enum ProbeError {
    /// The run is not being held, so there is no confined child to ask.
    NotLegalInState {
        /// Where the run actually is.
        state: LifecycleState,
    },
    /// The child could not be reached, or stopped answering.
    ChildUnreachable {
        /// Platform error number, or 0 where the failure was not one.
        errno: i32,
    },
}

impl ProbeError {
    /// The text of an error.
    pub open spec fn text(self) -> Seq<char> {
        match self {
            ProbeError::NotLegalInState { state } =>
                "a probe is only legal while the child is held at its gate; run is "@
                    + state.name(),
            ProbeError::ChildUnreachable { errno } =>
                "the held child could not be reached: errno "@ + text::signed_decimal(errno as int),
        }
    }

    /// The error as a sentence.
    pub fn to_text(&self) -> (text: String)
        ensures
            text@ == self.text(),
    {
        match self {
            ProbeError::NotLegalInState { state } => {
                let mut text =
                    "a probe is only legal while the child is held at its gate; run is ".to_string();
                text.append(state.as_str());
                text
            },
            ProbeError::ChildUnreachable { errno } => {
                let mut text = "the held child could not be reached: errno ".to_string();
                push_signed(&mut text, *errno as i64);
                text
            },
        }
    }
}

/// Reply tag: the operation was permitted.
pub const TAG_PROBE_PERMITTED: u8 = 0x02;

/// Reply tag: the kernel refused, with its number in the record.
pub const TAG_PROBE_REFUSED: u8 = 0x03;

/// Reply tag: the operation failed for a reason that is not a refusal.
pub const TAG_PROBE_COULD_NOT_RUN: u8 = 0x04;

/// How much room the path region has, with its terminating NUL.
pub const PROBE_PATH_BYTES: usize = 4096;

/// Offset of the operation tag.
pub const OFFSET_OP: usize = 0;

/// Offset of the detail tag: a mode for a path operation, a transport for a
/// socket one.
pub const OFFSET_DETAIL: usize = 1;

/// Offset of the port, little-endian.
pub const OFFSET_PORT: usize = 2;

/// Offset of the address family tag.
pub const OFFSET_FAMILY: usize = 4;

/// Offset of the address bytes, in network order, IPv4 in the first four.
pub const OFFSET_ADDR: usize = 5;

/// How many address bytes there is room for.
pub const ADDR_BYTES: usize = 16;

/// Offset of the NUL-terminated path.
pub const OFFSET_PATH: usize = 21;

/// The whole request record.
pub const PROBE_REQUEST_BYTES: usize = 4117;

/// Request tag: a filesystem operation.
pub const OP_OPEN_PATH: u8 = 0x01;

/// Request tag: `connect(2)`.
pub const OP_CONNECT: u8 = 0x02;

/// Request tag: `bind(2)`.
pub const OP_BIND: u8 = 0x03;

/// Address family tag: IPv4.
pub const FAMILY_V4: u8 = 0x04;

/// Address family tag: IPv6.
pub const FAMILY_V6: u8 = 0x06;

/// Transport tag: stream.
pub const PROTO_TCP: u8 = 0x01;

/// Transport tag: datagram.
pub const PROTO_UDP: u8 = 0x02;

/// The wire tag of a filesystem operation, where it ever reaches the child.
pub open spec fn mode_tag(mode: FsMode) -> Option<u8> {
    match mode {
        FsMode::ReadContents => Some(0x01),
        FsMode::ReadDir => Some(0x02),
        FsMode::ReadMetadata => Some(0x03),
        FsMode::Write => Some(0x04),
        FsMode::Append => Some(0x05),
        FsMode::Create => Some(0x06),
        FsMode::Truncate => Some(0x07),
        FsMode::RemoveFile => Some(0x08),
        FsMode::RemoveDir => Some(0x09),
        FsMode::Rename => Some(0x0A),
        FsMode::UnixSocketConnect => Some(0x0B),
        FsMode::Execute => None,
        FsMode::AtomicWrite => None,
    }
}

/// The wire tag for one filesystem operation.
pub fn fs_mode_tag(mode: FsMode) -> (tag: Option<u8>)
    ensures
        tag == mode_tag(mode),
{
    match mode {
        FsMode::ReadContents => Some(0x01),
        FsMode::ReadDir => Some(0x02),
        FsMode::ReadMetadata => Some(0x03),
        FsMode::Write => Some(0x04),
        FsMode::Append => Some(0x05),
        FsMode::Create => Some(0x06),
        FsMode::Truncate => Some(0x07),
        FsMode::RemoveFile => Some(0x08),
        FsMode::RemoveDir => Some(0x09),
        FsMode::Rename => Some(0x0A),
        FsMode::UnixSocketConnect => Some(0x0B),
        FsMode::Execute | FsMode::AtomicWrite => None,
    }
}

/// The wire tag of a transport.
pub open spec fn transport_tag(protocol: TransportProtocol) -> u8 {
    match protocol {
        TransportProtocol::Tcp => PROTO_TCP,
        TransportProtocol::Udp => PROTO_UDP,
    }
}

fn protocol_tag(protocol: TransportProtocol) -> (tag: u8)
    ensures
        tag == transport_tag(protocol),
{
    match protocol {
        TransportProtocol::Tcp => PROTO_TCP,
        TransportProtocol::Udp => PROTO_UDP,
    }
}

/// The platform a run is enforced on.
#[derive(Debug, Clone, Copy, PartialEq, Eq, Hash, Structural)]
pub enum Platform {
    /// Linux.
    Linux,
    /// macOS.
    MacOs,
    /// Anything else.
    Other,
}

/// The mechanism of a platform, where it has one.
pub open spec fn mechanism_on(platform: Platform) -> Option<EnforcementMechanism> {
    match platform {
        Platform::Linux => Some(EnforcementMechanism::Landlock),
        Platform::MacOs => Some(EnforcementMechanism::Seatbelt),
        Platform::Other => None,
    }
}

/// The mechanism that is installed on a platform, or nothing where none is.
pub fn installed_mechanism(platform: Platform) -> (mechanism: Option<EnforcementMechanism>)
    ensures
        mechanism == mechanism_on(platform),
{
    match platform {
        Platform::Linux => Some(EnforcementMechanism::Landlock),
        Platform::MacOs => Some(EnforcementMechanism::Seatbelt),
        Platform::Other => None,
    }
}

/// The answer that is settled before the child is asked anything.
pub open spec fn settled(op: ProbeOp, platform: Platform) -> Option<ProbeIndeterminate> {
    match op {
        ProbeOp::Execute { .. } => Some(ProbeIndeterminate::PlatformHasNoInScopeProbe),
        ProbeOp::OpenPath { mode, .. } => if mode is Execute || mode is AtomicWrite {
            Some(ProbeIndeterminate::PlatformHasNoInScopeProbe)
        } else if mode is ReadMetadata && platform is Linux {
            Some(
                ProbeIndeterminate::MechanismCannotExpress {
                    mechanism: EnforcementMechanism::Landlock,
                },
            )
        } else {
            None
        },
        _ => None,
    }
}

/// The answer that is settled before the child is asked anything, if there is
/// one. Executing would destroy the process under question; a bundle is four
/// questions; and Landlock has no check for `stat(2)`, so the child would answer
/// "permitted" for every policy.
pub fn settled_before_asking(op: &ProbeOp, platform: Platform) -> (answer: Option<
    ProbeIndeterminate,
>)
    ensures
        answer == settled(*op, platform),
{
    match op {
        ProbeOp::Execute { .. } => Some(ProbeIndeterminate::PlatformHasNoInScopeProbe),
        ProbeOp::OpenPath { mode, .. } => match (mode, platform) {
            (FsMode::Execute, _) | (FsMode::AtomicWrite, _) => Some(
                ProbeIndeterminate::PlatformHasNoInScopeProbe,
            ),
            (FsMode::ReadMetadata, Platform::Linux) => Some(
                ProbeIndeterminate::MechanismCannotExpress {
                    mechanism: EnforcementMechanism::Landlock,
                },
            ),
            _ => None,
        },
        _ => None,
    }
}

/// `count` zero bytes.
pub open spec fn zero_bytes(count: int) -> Seq<u8> {
    Seq::new(count as nat, |i: int| 0u8)
}

/// The request record for a path operation.
pub open spec fn path_wire(tag: u8, path: Seq<u8>) -> Seq<u8> {
    seq![OP_OPEN_PATH, tag] + zero_bytes(19) + path + zero_bytes(PROBE_PATH_BYTES - path.len())
}

/// The address half of a record: port, family and sixteen address bytes.
pub open spec fn addr_wire(addr: ProbeAddr) -> Seq<u8> {
    match addr {
        ProbeAddr::V4 { octets, port } => seq![
            (port % 256) as u8,
            (port / 256) as u8,
            FAMILY_V4,
        ] + octets@ + zero_bytes(12),
        ProbeAddr::V6 { octets, port } => seq![
            (port % 256) as u8,
            (port / 256) as u8,
            FAMILY_V6,
        ] + octets@,
    }
}

/// The request record for a socket operation.
pub open spec fn socket_wire(op: u8, protocol: TransportProtocol, addr: ProbeAddr) -> Seq<u8> {
    seq![op, transport_tag(protocol)] + addr_wire(addr) + zero_bytes(PROBE_PATH_BYTES as int)
}

/// The record that asks the child for an operation, or the error number that
/// attempting it would have produced.
pub open spec fn encoded(op: ProbeOp, platform: Platform) -> Result<Seq<u8>, i32> {
    match op {
        ProbeOp::OpenPath { path, mode } => match mode_tag(mode) {
            None => Err(EINVAL),
            Some(tag) => if path::holds_nul(path@) {
                Err(EINVAL)
            } else if path@.len() >= PROBE_PATH_BYTES {
                Err(errno::name_too_long_on(platform))
            } else {
                Ok(path_wire(tag, path@))
            },
        },
        ProbeOp::Execute { .. } => Err(EINVAL),
        ProbeOp::Connect { protocol, addr } => Ok(socket_wire(OP_CONNECT, protocol, addr)),
        ProbeOp::Bind { protocol, addr } => Ok(socket_wire(OP_BIND, protocol, addr)),
    }
}

fn push_zeros(wire: &mut Vec<u8>, count: usize)
    ensures
        final(wire)@ == old(wire)@ + zero_bytes(count as int),
{
    let mut i: usize = 0;
    assert(wire@ =~= old(wire)@ + zero_bytes(0));
    while i < count
        invariant
            i <= count,
            wire@ == old(wire)@ + zero_bytes(i as int),
        decreases count - i,
    {
        wire.push(0);
        i += 1;
        assert(wire@ =~= old(wire)@ + zero_bytes(i as int));
    }
}

fn push_bytes(wire: &mut Vec<u8>, bytes: &[u8])
    ensures
        final(wire)@ == old(wire)@ + bytes@,
{
    wire.extend_from_slice(bytes);
    assert(wire@ =~= old(wire)@ + bytes@);
}

/// Append a path and the NUL the child relies on.
///
/// An interior NUL would make the child's string another, shorter path. A path
/// has to be shorter than its region, so that the region ends in a zero.
fn encode_path(wire: &mut Vec<u8>, path: &PathBytes, platform: Platform) -> (done: Result<(), i32>)
    ensures
        if path::holds_nul(path@) {
            done == Err::<(), i32>(EINVAL)
        } else if path@.len() >= PROBE_PATH_BYTES {
            done == Err::<(), i32>(errno::name_too_long_on(platform))
        } else {
            done == Ok::<(), i32>(()) && final(wire)@ == old(wire)@ + path@ + zero_bytes(
                PROBE_PATH_BYTES - path@.len(),
            )
        },
{
    let bytes = path.as_bytes();
    if bytes_hold_nul(bytes) {
        return Err(EINVAL);
    }
    if bytes.len() >= PROBE_PATH_BYTES {
        return Err(name_too_long(platform));
    }
    push_bytes(wire, bytes);
    push_zeros(wire, PROBE_PATH_BYTES - bytes.len());
    Ok(())
}

/// Append an address, in network order. An IPv6 flow label and scope are not
/// carried.
fn encode_addr(wire: &mut Vec<u8>, addr: &ProbeAddr)
    ensures
        final(wire)@ == old(wire)@ + addr_wire(*addr),
{
    match addr {
        ProbeAddr::V4 { octets, port } => {
            wire.push((*port % 256) as u8);
            wire.push((*port / 256) as u8);
            wire.push(FAMILY_V4);
            push_bytes(wire, octets.as_slice());
            push_zeros(wire, 12);
        },
        ProbeAddr::V6 { octets, port } => {
            wire.push((*port % 256) as u8);
            wire.push((*port / 256) as u8);
            wire.push(FAMILY_V6);
            push_bytes(wire, octets.as_slice());
        },
    }
    assert(wire@ =~= old(wire)@ + addr_wire(*addr));
}

fn encode_socket(op: u8, protocol: TransportProtocol, addr: &ProbeAddr) -> (wire: Vec<u8>)
    ensures
        wire@ == socket_wire(op, protocol, *addr),
{
    let mut wire: Vec<u8> = Vec::new();
    wire.push(op);
    wire.push(protocol_tag(protocol));
    assert(wire@ =~= seq![op, transport_tag(protocol)]);
    encode_addr(&mut wire, addr);
    push_zeros(&mut wire, PROBE_PATH_BYTES);
    wire
}

/// Turn an operation into the record the child reads.
pub fn encode_request(op: &ProbeOp, platform: Platform) -> (wire: Result<Vec<u8>, i32>)
    ensures
        match wire {
            Ok(wire) => encoded(*op, platform) == Ok::<Seq<u8>, i32>(wire@) && wire@.len()
                == PROBE_REQUEST_BYTES,
            Err(errno) => encoded(*op, platform) == Err::<Seq<u8>, i32>(errno),
        },
{
    match op {
        ProbeOp::OpenPath { path, mode } => {
            let tag = match fs_mode_tag(*mode) {
                Some(tag) => tag,
                None => {
                    return Err(EINVAL);
                },
            };
            let mut wire: Vec<u8> = Vec::new();
            wire.push(OP_OPEN_PATH);
            wire.push(tag);
            assert(wire@ =~= seq![OP_OPEN_PATH, tag]);
            push_zeros(&mut wire, 19);
            match encode_path(&mut wire, path, platform) {
                Ok(()) => Ok(wire),
                Err(errno) => Err(errno),
            }
        },
        ProbeOp::Execute { .. } => Err(EINVAL),
        ProbeOp::Connect { protocol, addr } => Ok(encode_socket(OP_CONNECT, *protocol, addr)),
        ProbeOp::Bind { protocol, addr } => Ok(encode_socket(OP_BIND, *protocol, addr)),
    }
}

/// What a record asks the child to attempt.
#[derive(Debug, Clone, Copy, PartialEq, Eq)]
pub enum ChildProbe {
    /// One filesystem operation against the first `path_len` bytes of the path
    /// region, which a NUL follows.
    OpenPath {
        /// Which operation.
        mode: FsMode,
        /// How long the path is.
        path_len: usize,
    },
    /// Connect a socket.
    Connect {
        /// The socket type.
        protocol: TransportProtocol,
        /// The address to reach for.
        addr: ProbeAddr,
    },
    /// Bind a socket.
    Bind {
        /// The socket type.
        protocol: TransportProtocol,
        /// The address to claim.
        addr: ProbeAddr,
    },
    /// A record the supervisor never writes. Reported rather than acted on.
    Malformed,
}

/// The operation a mode tag names.
pub open spec fn mode_of_tag(tag: u8) -> Option<FsMode> {
    match tag {
        0x01 => Some(FsMode::ReadContents),
        0x02 => Some(FsMode::ReadDir),
        0x03 => Some(FsMode::ReadMetadata),
        0x04 => Some(FsMode::Write),
        0x05 => Some(FsMode::Append),
        0x06 => Some(FsMode::Create),
        0x07 => Some(FsMode::Truncate),
        0x08 => Some(FsMode::RemoveFile),
        0x09 => Some(FsMode::RemoveDir),
        0x0A => Some(FsMode::Rename),
        0x0B => Some(FsMode::UnixSocketConnect),
        _ => None,
    }
}

/// The mode a wire tag names, as the child reads it.
fn mode_of(tag: u8) -> (mode: Option<FsMode>)
    ensures
        mode == mode_of_tag(tag),
{
    match tag {
        0x01 => Some(FsMode::ReadContents),
        0x02 => Some(FsMode::ReadDir),
        0x03 => Some(FsMode::ReadMetadata),
        0x04 => Some(FsMode::Write),
        0x05 => Some(FsMode::Append),
        0x06 => Some(FsMode::Create),
        0x07 => Some(FsMode::Truncate),
        0x08 => Some(FsMode::RemoveFile),
        0x09 => Some(FsMode::RemoveDir),
        0x0A => Some(FsMode::Rename),
        0x0B => Some(FsMode::UnixSocketConnect),
        _ => None,
    }
}

/// Where the first NUL of `bytes` stands, or their length where there is none.
pub open spec fn up_to_nul(bytes: Seq<u8>) -> nat
    decreases bytes.len(),
{
    if bytes.len() == 0 || bytes[0] == 0 {
        0
    } else {
        1 + up_to_nul(bytes.skip(1))
    }
}

/// The address in a record.
pub open spec fn addr_in(wire: Seq<u8>) -> Option<ProbeAddr> {
    let port = (wire[OFFSET_PORT as int] + 256 * wire[OFFSET_PORT + 1]) as u16;
    if wire[OFFSET_FAMILY as int] == FAMILY_V4 {
        Some(
            ProbeAddr::V4 {
                octets: [wire[5], wire[6], wire[7], wire[8]],
                port,
            },
        )
    } else if wire[OFFSET_FAMILY as int] == FAMILY_V6 {
        Some(
            ProbeAddr::V6 {
                octets: [
                    wire[5],
                    wire[6],
                    wire[7],
                    wire[8],
                    wire[9],
                    wire[10],
                    wire[11],
                    wire[12],
                    wire[13],
                    wire[14],
                    wire[15],
                    wire[16],
                    wire[17],
                    wire[18],
                    wire[19],
                    wire[20],
                ],
                port,
            },
        )
    } else {
        None
    }
}

/// What a record asks for.
pub open spec fn decoded(wire: Seq<u8>) -> ChildProbe {
    let op = wire[OFFSET_OP as int];
    let detail = wire[OFFSET_DETAIL as int];
    let protocol = if detail == PROTO_TCP {
        Some(TransportProtocol::Tcp)
    } else if detail == PROTO_UDP {
        Some(TransportProtocol::Udp)
    } else {
        None
    };
    if wire.len() != PROBE_REQUEST_BYTES {
        ChildProbe::Malformed
    } else if op == OP_OPEN_PATH {
        match mode_of_tag(detail) {
            Some(mode) => ChildProbe::OpenPath {
                mode,
                path_len: up_to_nul(wire.skip(OFFSET_PATH as int)) as usize,
            },
            None => ChildProbe::Malformed,
        }
    } else if (op == OP_CONNECT || op == OP_BIND) && protocol is Some && addr_in(wire) is Some {
        if op == OP_CONNECT {
            ChildProbe::Connect { protocol: protocol->0, addr: addr_in(wire)->0 }
        } else {
            ChildProbe::Bind { protocol: protocol->0, addr: addr_in(wire)->0 }
        }
    } else {
        ChildProbe::Malformed
    }
}

/// How long the path in a record is.
fn path_len(wire: &[u8]) -> (len: usize)
    requires
        wire@.len() == PROBE_REQUEST_BYTES,
    ensures
        len == up_to_nul(wire@.skip(OFFSET_PATH as int)),
{
    let mut i: usize = OFFSET_PATH;
    while i < PROBE_REQUEST_BYTES && wire[i] != 0
        invariant
            OFFSET_PATH <= i <= PROBE_REQUEST_BYTES,
            wire@.len() == PROBE_REQUEST_BYTES,
            up_to_nul(wire@.skip(OFFSET_PATH as int)) == (i - OFFSET_PATH) + up_to_nul(
                wire@.skip(i as int),
            ),
        decreases PROBE_REQUEST_BYTES - i,
    {
        assert(wire@.skip(i as int)[0] == wire@[i as int]);
        assert(wire@.skip(i as int).skip(1) =~= wire@.skip(i + 1));
        i += 1;
    }
    proof {
        if i < PROBE_REQUEST_BYTES {
            assert(wire@.skip(i as int)[0] == wire@[i as int]);
        }
        assert(up_to_nul(wire@.skip(i as int)) == 0);
    }
    i - OFFSET_PATH
}

/// The address in a record.
fn addr_of(wire: &[u8]) -> (addr: Option<ProbeAddr>)
    requires
        wire@.len() == PROBE_REQUEST_BYTES,
    ensures
        addr == addr_in(wire@),
{
    let port: u16 = wire[OFFSET_PORT] as u16 + 256 * wire[OFFSET_PORT + 1] as u16;
    if wire[OFFSET_FAMILY] == FAMILY_V4 {
        Some(ProbeAddr::V4 { octets: [wire[5], wire[6], wire[7], wire[8]], port })
    } else if wire[OFFSET_FAMILY] == FAMILY_V6 {
        Some(
            ProbeAddr::V6 {
                octets: [
                    wire[5],
                    wire[6],
                    wire[7],
                    wire[8],
                    wire[9],
                    wire[10],
                    wire[11],
                    wire[12],
                    wire[13],
                    wire[14],
                    wire[15],
                    wire[16],
                    wire[17],
                    wire[18],
                    wire[19],
                    wire[20],
                ],
                port,
            },
        )
    } else {
        None
    }
}

/// Read a request record, as the held child does. Allocates nothing.
pub fn decode_request(wire: &[u8]) -> (probe: ChildProbe)
    ensures
        probe == decoded(wire@),
{
    if wire.len() != PROBE_REQUEST_BYTES {
        return ChildProbe::Malformed;
    }
    let op = wire[OFFSET_OP];
    let detail = wire[OFFSET_DETAIL];
    if op == OP_OPEN_PATH {
        match mode_of(detail) {
            Some(mode) => ChildProbe::OpenPath { mode, path_len: path_len(wire) },
            None => ChildProbe::Malformed,
        }
    } else if op == OP_CONNECT || op == OP_BIND {
        let protocol = if detail == PROTO_TCP {
            TransportProtocol::Tcp
        } else if detail == PROTO_UDP {
            TransportProtocol::Udp
        } else {
            return ChildProbe::Malformed;
        };
        match addr_of(wire) {
            None => ChildProbe::Malformed,
            Some(addr) => if op == OP_CONNECT {
                ChildProbe::Connect { protocol, addr }
            } else {
                ChildProbe::Bind { protocol, addr }
            },
        }
    } else {
        ChildProbe::Malformed
    }
}

/// The reply that an error number stands for: only two numbers refuse.
pub open spec fn reply_for(errno: i32) -> (u8, i32) {
    if errno == EPERM || errno == EACCES {
        (TAG_PROBE_REFUSED, errno)
    } else {
        (TAG_PROBE_COULD_NOT_RUN, errno)
    }
}

/// The one place a number becomes a verdict.
pub fn classify_errno(errno: i32) -> (reply: (u8, i32))
    ensures
        reply == reply_for(errno),
{
    if errno == EPERM || errno == EACCES {
        (TAG_PROBE_REFUSED, errno)
    } else {
        (TAG_PROBE_COULD_NOT_RUN, errno)
    }
}

/// Turn what the attempted call answered into a reply.
pub fn classify(result: Result<(), i32>) -> (reply: (u8, i32))
    ensures
        reply == (match result {
            Ok(()) => (TAG_PROBE_PERMITTED, 0i32),
            Err(errno) => reply_for(errno),
        }),
{
    match result {
        Ok(()) => (TAG_PROBE_PERMITTED, 0),
        Err(errno) => classify_errno(errno),
    }
}

/// Turn what a non-blocking connect answered into a reply. A connection in
/// progress was let through.
pub fn classify_connect(result: Result<(), i32>, platform: Platform) -> (reply: (u8, i32))
    ensures
        reply == (match result {
            Ok(()) => (TAG_PROBE_PERMITTED, 0i32),
            Err(errno) => if errno == errno::in_progress_on(platform) {
                (TAG_PROBE_PERMITTED, 0i32)
            } else {
                reply_for(errno)
            },
        }),
{
    match result {
        Ok(()) => (TAG_PROBE_PERMITTED, 0),
        Err(errno) => if errno == in_progress(platform) {
            (TAG_PROBE_PERMITTED, 0)
        } else {
            classify_errno(errno)
        },
    }
}

/// The one call that attempts what a record asks for.
#[derive(Debug, Clone, Copy, PartialEq, Eq)]
pub enum ProbeCall {
    /// Open the path, and close what that gave.
    Open {
        /// For writing rather than for reading.
        write: bool,
        /// Only if it is a directory.
        directory: bool,
        /// To write at its end.
        append: bool,
        /// And shorten it to nothing.
        truncate: bool,
    },
    /// Create the path as a new file, and close what that gave.
    CreateNew,
    /// Read the path's metadata.
    Stat,
    /// Remove the file.
    Unlink,
    /// Remove the directory.
    Rmdir,
    /// Rename the path onto itself, which moves nothing.
    RenameOntoItself,
    /// Connect a socket to the path.
    UnixConnect,
    /// Connect a socket to an address.
    SocketConnect {
        /// The socket type.
        protocol: TransportProtocol,
        /// The address.
        addr: ProbeAddr,
    },
    /// Bind a socket to an address.
    SocketBind {
        /// The socket type.
        protocol: TransportProtocol,
        /// The address.
        addr: ProbeAddr,
    },
    /// None: this is the reply.
    Reply {
        /// The reply's tag.
        tag: u8,
        /// The reply's error number.
        errno: i32,
    },
}

/// The call that attempts a filesystem operation. `room` is how long a path a
/// socket address can hold, with its NUL.
pub open spec fn path_call(
    mode: FsMode,
    path_len: usize,
    room: usize,
    platform: Platform,
) -> ProbeCall {
    match mode {
        FsMode::ReadContents => ProbeCall::Open {
            write: false,
            directory: false,
            append: false,
            truncate: false,
        },
        FsMode::ReadDir => ProbeCall::Open {
            write: false,
            directory: true,
            append: false,
            truncate: false,
        },
        FsMode::ReadMetadata => ProbeCall::Stat,
        FsMode::Write => ProbeCall::Open {
            write: true,
            directory: false,
            append: false,
            truncate: false,
        },
        FsMode::Append => ProbeCall::Open {
            write: true,
            directory: false,
            append: true,
            truncate: false,
        },
        FsMode::Create => ProbeCall::CreateNew,
        FsMode::Truncate => ProbeCall::Open {
            write: true,
            directory: false,
            append: false,
            truncate: true,
        },
        FsMode::RemoveFile => ProbeCall::Unlink,
        FsMode::RemoveDir => ProbeCall::Rmdir,
        FsMode::Rename => ProbeCall::RenameOntoItself,
        FsMode::UnixSocketConnect => if path_len >= room {
            ProbeCall::Reply { tag: TAG_PROBE_COULD_NOT_RUN, errno: errno::name_too_long_on(platform) }
        } else {
            ProbeCall::UnixConnect
        },
        _ => ProbeCall::Reply { tag: TAG_PROBE_COULD_NOT_RUN, errno: EINVAL },
    }
}

/// The call that attempts what a record asks for.
pub open spec fn call_for(probe: ChildProbe, room: usize, platform: Platform) -> ProbeCall {
    match probe {
        ChildProbe::OpenPath { mode, path_len } => path_call(
            mode,
            path_len,
            room,
            platform,
        ),
        ChildProbe::Connect { protocol, addr } => ProbeCall::SocketConnect { protocol, addr },
        ChildProbe::Bind { protocol, addr } => ProbeCall::SocketBind { protocol, addr },
        ChildProbe::Malformed => ProbeCall::Reply { tag: TAG_PROBE_COULD_NOT_RUN, errno: EINVAL },
    }
}

/// Attempt one filesystem operation: the operation that was named, and not a
/// stand-in for it.
fn path_probe(mode: FsMode, path_len: usize, room: usize, platform: Platform) -> (call: ProbeCall)
    ensures
        call == path_call(mode, path_len, room, platform),
{
    match mode {
        FsMode::ReadContents => open_probe(false, false, false, false),
        FsMode::ReadDir => open_probe(false, true, false, false),
        FsMode::ReadMetadata => ProbeCall::Stat,
        FsMode::Write => open_probe(true, false, false, false),
        FsMode::Append => open_probe(true, false, true, false),
        FsMode::Create => ProbeCall::CreateNew,
        FsMode::Truncate => open_probe(true, false, false, true),
        FsMode::RemoveFile => ProbeCall::Unlink,
        FsMode::RemoveDir => ProbeCall::Rmdir,
        FsMode::Rename => ProbeCall::RenameOntoItself,
        FsMode::UnixSocketConnect => if path_len >= room {
            ProbeCall::Reply { tag: TAG_PROBE_COULD_NOT_RUN, errno: name_too_long(platform) }
        } else {
            ProbeCall::UnixConnect
        },
        FsMode::Execute | FsMode::AtomicWrite => ProbeCall::Reply {
            tag: TAG_PROBE_COULD_NOT_RUN,
            errno: EINVAL,
        },
    }
}

fn open_probe(write: bool, directory: bool, append: bool, truncate: bool) -> (call: ProbeCall)
    ensures
        call == (ProbeCall::Open { write, directory, append, truncate }),
{
    ProbeCall::Open { write, directory, append, truncate }
}

/// Decide the one call that attempts what a request record asks for. A record
/// that names nothing is answered rather than acted on.
pub fn run_probe_in_child(wire: &[u8], room: usize, platform: Platform) -> (call: ProbeCall)
    ensures
        call == call_for(decoded(wire@), room, platform),
{
    match decode_request(wire) {
        ChildProbe::OpenPath { mode, path_len } => path_probe(mode, path_len, room, platform),
        ChildProbe::Connect { protocol, addr } => ProbeCall::SocketConnect { protocol, addr },
        ChildProbe::Bind { protocol, addr } => ProbeCall::SocketBind { protocol, addr },
        ChildProbe::Malformed => ProbeCall::Reply { tag: TAG_PROBE_COULD_NOT_RUN, errno: EINVAL },
    }
}

/// What performing a call came to.
#[derive(Debug, Clone, Copy, PartialEq, Eq)]
pub enum CallOutcome {
    /// What had to come first failed, so the call was not made.
    SetupFailed(i32),
    /// The call was made, and this is what it returned.
    Returned(Result<(), i32>),
}

/// The reply to a call that came to `outcome`. A socket that could not be made
/// is no refusal of the connection that never happened.
pub open spec fn reply_of(call: ProbeCall, outcome: CallOutcome, platform: Platform) -> (u8, i32) {
    match call {
        ProbeCall::Reply { tag, errno } => (tag, errno),
        _ => match outcome {
            CallOutcome::SetupFailed(errno) => (TAG_PROBE_COULD_NOT_RUN, errno),
            CallOutcome::Returned(Ok(())) => (TAG_PROBE_PERMITTED, 0i32),
            CallOutcome::Returned(Err(errno)) => if errno == errno::in_progress_on(
                platform,
            ) && (call is UnixConnect
                || call is SocketConnect) {
                (TAG_PROBE_PERMITTED, 0i32)
            } else {
                reply_for(errno)
            },
        },
    }
}

/// The reply to a call that came to `outcome`.
pub fn call_reply(call: ProbeCall, outcome: CallOutcome, platform: Platform) -> (reply: (u8, i32))
    ensures
        reply == reply_of(call, outcome, platform),
{
    match call {
        ProbeCall::Reply { tag, errno } => (tag, errno),
        ProbeCall::UnixConnect | ProbeCall::SocketConnect { .. } => match outcome {
            CallOutcome::SetupFailed(errno) => (TAG_PROBE_COULD_NOT_RUN, errno),
            CallOutcome::Returned(result) => classify_connect(result, platform),
        },
        _ => match outcome {
            CallOutcome::SetupFailed(errno) => (TAG_PROBE_COULD_NOT_RUN, errno),
            CallOutcome::Returned(result) => classify(result),
        },
    }
}

/// Only the kernel refuses: a reply says "refused" exactly where the call itself
/// was made and failed with a permission number.
pub proof fn law_only_the_kernel_refuses(
    probe: ChildProbe,
    room: usize,
    outcome: CallOutcome,
    platform: Platform,
)
    ensures
        ({
            let call = call_for(probe, room, platform);
            let (tag, errno) = reply_of(call, outcome, platform);
            &&& tag == TAG_PROBE_REFUSED <==> !(call is Reply) && (outcome matches
                CallOutcome::Returned(Err(number)) && (number == EPERM || number == EACCES))
            &&& tag == TAG_PROBE_REFUSED ==> outcome == CallOutcome::Returned(Err(errno))
            &&& reply_meaning(tag, errno) is Some
        }),
{
}

/// What a reply record says, where it is one.
pub open spec fn reply_meaning(tag: u8, errno: i32) -> Option<ProbeOutcome> {
    if tag == TAG_PROBE_PERMITTED {
        Some(ProbeOutcome::Permitted)
    } else if tag == TAG_PROBE_REFUSED {
        Some(ProbeOutcome::Refused { errno })
    } else if tag == TAG_PROBE_COULD_NOT_RUN {
        Some(
            ProbeOutcome::Indeterminate {
                reason: ProbeIndeterminate::ProbeCouldNotRun { errno },
            },
        )
    } else {
        None
    }
}

/// Decode one reply record, or say it was not a reply at all: a record that a
/// dying child wrote is no answer.
pub fn classify_reply(tag: u8, errno: i32) -> (outcome: Option<ProbeOutcome>)
    ensures
        outcome == reply_meaning(tag, errno),
{
    if tag == TAG_PROBE_PERMITTED {
        Some(ProbeOutcome::Permitted)
    } else if tag == TAG_PROBE_REFUSED {
        Some(ProbeOutcome::Refused { errno })
    } else if tag == TAG_PROBE_COULD_NOT_RUN {
        Some(
            ProbeOutcome::Indeterminate {
                reason: ProbeIndeterminate::ProbeCouldNotRun { errno },
            },
        )
    } else {
        None
    }
}

/// What is observed when `outcome` arrives at `now`.
pub open spec fn observed(
    id: ProbeId,
    outcome: ProbeOutcome,
    mechanism: EnforcementMechanism,
    now: Timestamp,
) -> ProbeObservation {
    ProbeObservation {
        id,
        outcome,
        mechanism,
        scope: ProbeScope::InstalledChild,
        denial_observed: false,
        observed_at: now,
    }
}

/// Build the observation around an outcome that arrived at `now`.
pub fn observation_at(
    id: ProbeId,
    outcome: ProbeOutcome,
    mechanism: EnforcementMechanism,
    now: Timestamp,
) -> (seen: ProbeObservation)
    ensures
        seen == observed(id, outcome, mechanism, now),
{
    ProbeObservation {
        id,
        outcome,
        mechanism,
        scope: ProbeScope::InstalledChild,
        denial_observed: false,
        observed_at: now,
    }
}

/// Build the observation around an outcome, stamped with the wall clock.
pub fn observation(id: ProbeId, outcome: ProbeOutcome, mechanism: EnforcementMechanism) -> (seen:
    ProbeObservation)
    ensures
        seen == observed(id, outcome, mechanism, seen.observed_at),
{
    observation_at(id, outcome, mechanism, wall_clock())
}

/// No two operations share a wire tag, and the child reads back the operation
/// that was meant.
pub proof fn law_mode_tags_round_trip(mode: FsMode)
    ensures
        mode_tag(mode) is Some ==> mode_of_tag(mode_tag(mode)->0) == Some(mode),
        mode_tag(mode) is None ==> mode is Execute || mode is AtomicWrite,
{
}

/// An operation that has no wire tag is always settled before it is sent.
pub proof fn law_what_has_no_tag_is_never_sent(op: ProbeOp, platform: Platform)
    requires
        op is Execute || (op matches ProbeOp::OpenPath { mode, .. } && mode_tag(mode) is None),
    ensures
        settled(op, platform) is Some,
        encoded(op, platform) == Err::<Seq<u8>, i32>(EINVAL),
{
}

proof fn lemma_up_to_nul(path: Seq<u8>, rest: Seq<u8>)
    requires
        !path::holds_nul(path),
        rest.len() > 0,
        rest[0] == 0,
    ensures
        up_to_nul(path + rest) == path.len(),
    decreases path.len(),
{
    let whole = path + rest;
    if path.len() > 0 {
        assert(path[0] != 0);
        assert forall|i: int| 0 <= i < path.skip(1).len() implies path.skip(1)[i] != 0u8 by {
            assert(path[i + 1] != 0);
        }
        lemma_up_to_nul(path.skip(1), rest);
        assert(whole.skip(1) =~= path.skip(1) + rest);
        assert(whole[0] == path[0]);
    } else {
        assert(whole[0] == rest[0]);
    }
}

/// A path request reaches the child as it was meant: the same operation, and the
/// path region holds the path and then a NUL.
pub proof fn law_a_path_request_round_trips(path: PathBytes, mode: FsMode, platform: Platform)
    requires
        encoded(ProbeOp::OpenPath { path, mode }, platform) is Ok,
    ensures
        ({
            let wire = encoded(ProbeOp::OpenPath { path, mode }, platform)->Ok_0;
            &&& decoded(wire) == (ChildProbe::OpenPath { mode, path_len: path@.len() as usize })
            &&& wire.subrange(OFFSET_PATH as int, OFFSET_PATH + path@.len()) == path@
            &&& wire[OFFSET_PATH + path@.len()] == 0
            &&& wire.len() == PROBE_REQUEST_BYTES
        }),
{
    let wire = encoded(ProbeOp::OpenPath { path, mode }, platform)->Ok_0;
    let rest = zero_bytes(PROBE_PATH_BYTES - path@.len());
    assert(wire.skip(OFFSET_PATH as int) =~= path@ + rest);
    lemma_up_to_nul(path@, rest);
    assert(wire.subrange(OFFSET_PATH as int, OFFSET_PATH + path@.len()) =~= path@);
    assert(wire[1] == mode_tag(mode)->0);
}

/// A socket request reaches the child as it was meant.
pub proof fn law_a_socket_request_round_trips(
    protocol: TransportProtocol,
    addr: ProbeAddr,
    platform: Platform,
)
    ensures
        decoded(encoded(ProbeOp::Connect { protocol, addr }, platform)->Ok_0) == (ChildProbe::Connect {
            protocol,
            addr,
        }),
        decoded(encoded(ProbeOp::Bind { protocol, addr }, platform)->Ok_0) == (ChildProbe::Bind {
            protocol,
            addr,
        }),
{
    lemma_addr_round_trips(OP_CONNECT, protocol, addr);
    lemma_addr_round_trips(OP_BIND, protocol, addr);
}

proof fn lemma_addr_round_trips(op: u8, protocol: TransportProtocol, addr: ProbeAddr)
    ensures
        ({
            let wire = socket_wire(op, protocol, addr);
            &&& wire.len() == PROBE_REQUEST_BYTES
            &&& wire[0] == op
            &&& wire[1] == transport_tag(protocol)
            &&& addr_in(wire) == Some(addr)
        }),
{
    let wire = socket_wire(op, protocol, addr);
    match addr {
        ProbeAddr::V4 { octets, port } => {
            assert(wire[5] == octets@[0]);
            assert(wire[6] == octets@[1]);
            assert(wire[7] == octets@[2]);
            assert(wire[8] == octets@[3]);
            let back: [u8; 4] = [wire[5], wire[6], wire[7], wire[8]];
            assert(back@ =~= octets@);
            assert(back == octets);
        },
        ProbeAddr::V6 { octets, port } => {
            assert forall|i: int| 0 <= i < 16 implies wire[5 + i] == octets@[i] by {}
            let back: [u8; 16] = [
                wire[5],
                wire[6],
                wire[7],
                wire[8],
                wire[9],
                wire[10],
                wire[11],
                wire[12],
                wire[13],
                wire[14],
                wire[15],
                wire[16],
                wire[17],
                wire[18],
                wire[19],
                wire[20],
            ];
            assert forall|i: int| 0 <= i < 16 implies back@[i] == octets@[i] by {
                assert(wire[5 + i] == octets@[i]);
            }
            assert(back@ =~= octets@);
            assert(back == octets);
        },
    }
}

/// A reply carries the child's verdict unchanged, and only a permission number
/// becomes a refusal.
pub proof fn law_replies_carry_the_verdict(errno: i32)
    ensures
        ({
            let (tag, number) = reply_for(errno);
            if errno == EPERM || errno == EACCES {
                reply_meaning(tag, number) == Some(ProbeOutcome::Refused { errno })
            } else {
                reply_meaning(tag, number) == Some(
                    ProbeOutcome::Indeterminate {
                        reason: ProbeIndeterminate::ProbeCouldNotRun { errno },
                    },
                )
            }
        }),
{
}

} // verus!
