//! The sandbox plan and its pre-launch validation.
//!
//! A [`SandboxPlan`] describes a run completely before anything is created.
//! [`SandboxPlan::validate`] turns it into a [`ValidatedPlan`], which nothing
//! else can construct. Nothing is inherited: a variable reaches the program only
//! because a caller named it. Every rule is a property of the plan's own bytes;
//! validation touches no filesystem.

use std::sync::Arc;
use vstd::prelude::*;
use vstd::string::StringExecFns;
use crate::capability;
use crate::capability::{CapabilitySet, CapabilityView, NetworkMode, NetworkView};
use crate::escape;
use crate::escape::quote_path;
use crate::path;
use crate::path::{quoted, PathBytes};
use crate::text;
use crate::text::{
    decimal_text, holds_char, push_decimal, push_list, push_optional, push_word,
};
use crate::time::Nanos;
use super::events::EventSink;

verus! {

/// Maximum size of a plan's metadata, in bytes.
pub const MAX_PLAN_METADATA_BYTES: usize = 4096;

/// The generation a plan carries when the caller does not choose one.
pub const FIRST_GENERATION: u64 = 1;

/// Whether the run gets an interactive session.
#[derive(Debug, Clone, Copy, PartialEq, Eq, Hash, Structural)]
pub enum SessionMode {
    /// The child leads a session with a terminal.
    Interactive,
    /// No controlling terminal. The default: a terminal is granted on request.
    Headless,
}

impl Default for SessionMode {
    fn default() -> (mode: Self)
        ensures
            mode is Headless,
    {
        SessionMode::Headless
    }
}

/// Activation gate settings.
#[derive(Debug, Clone, Copy, PartialEq, Eq, Structural)]
pub struct GateConfig {
    /// How long a prepared child may sit at the activation gate before activation is
    /// refused. Without one the activation gate stays open until it is used.
    pub activation_expiry: Option<Nanos>,
}

impl Default for GateConfig {
    fn default() -> (config: Self)
        ensures
            config.activation_expiry is None,
    {
        GateConfig { activation_expiry: None }
    }
}

/// A ceiling of 64 bits. A ceiling of zero cannot be expressed.
#[derive(Debug, Clone, Copy, PartialEq, Eq, Hash, Structural)]
pub struct Ceiling64(u64);

/// A ceiling of 32 bits. A ceiling of zero cannot be expressed.
#[derive(Debug, Clone, Copy, PartialEq, Eq, Hash, Structural)]
pub struct Ceiling32(u32);

impl Ceiling64 {
    #[verifier::type_invariant]
    spec fn not_zero(self) -> bool {
        self.0 != 0
    }

    /// The number a ceiling stands for.
    pub closed spec fn value(self) -> u64 {
        self.0
    }

    /// A ceiling, unless it is zero.
    pub fn new(value: u64) -> (ceiling: Option<Self>)
        ensures
            match ceiling {
                Some(ceiling) => value != 0 && ceiling.value() == value,
                None => value == 0,
            },
    {
        if value == 0 {
            None
        } else {
            Some(Ceiling64(value))
        }
    }

    /// The number this ceiling stands for.
    pub fn get(self) -> (value: u64)
        ensures
            value == self.value(),
            value != 0,
    {
        proof {
            use_type_invariant(&self);
        }
        self.0
    }
}

impl Ceiling32 {
    #[verifier::type_invariant]
    spec fn not_zero(self) -> bool {
        self.0 != 0
    }

    /// The number a ceiling stands for.
    pub closed spec fn value(self) -> u32 {
        self.0
    }

    /// A ceiling, unless it is zero.
    pub fn new(value: u32) -> (ceiling: Option<Self>)
        ensures
            match ceiling {
                Some(ceiling) => value != 0 && ceiling.value() == value,
                None => value == 0,
            },
    {
        if value == 0 {
            None
        } else {
            Some(Ceiling32(value))
        }
    }

    /// The number this ceiling stands for.
    pub fn get(self) -> (value: u32)
        ensures
            value == self.value(),
            value != 0,
    {
        proof {
            use_type_invariant(&self);
        }
        self.0
    }
}

/// Resource ceilings for the sandboxed process tree. None is unlimited.
#[derive(Debug, Clone, Copy, PartialEq, Eq, Hash, Structural)]
pub struct ResourceLimits {
    /// Maximum resident memory, in bytes.
    pub max_memory_bytes: Option<Ceiling64>,
    /// Maximum number of processes and threads.
    pub max_pids: Option<Ceiling32>,
    /// Maximum accumulated CPU time, in seconds.
    pub cpu_time_secs: Option<Ceiling64>,
}

impl ResourceLimits {
    /// Whether no ceiling is set.
    pub open spec fn unlimited(self) -> bool {
        self.max_memory_bytes is None && self.max_pids is None && self.cpu_time_secs is None
    }
}

impl Default for ResourceLimits {
    fn default() -> (limits: Self)
        ensures
            limits.unlimited(),
    {
        ResourceLimits { max_memory_bytes: None, max_pids: None, cpu_time_secs: None }
    }
}

/// Everything a plan can be rejected for. Messages name the offending field by
/// position or key, never by value.
#[derive(Debug, PartialEq, Eq)]
pub enum PlanError {
    /// The program is empty.
    EmptyProgram,
    /// The program contains a NUL.
    ProgramNul,
    /// An argument contains a NUL.
    ArgNul {
        /// Position in the argument list.
        index: usize,
    },
    /// The working directory is relative.
    RelativeWorkingDir {
        /// The directory as supplied.
        path: PathBytes,
    },
    /// The cgroup parent is relative.
    RelativeCgroupParent {
        /// The directory as supplied.
        path: PathBytes,
    },
    /// An environment key is empty.
    EmptyEnvKey {
        /// Position in the environment list.
        index: usize,
    },
    /// An environment key contains a NUL.
    EnvKeyNul {
        /// Position in the environment list.
        index: usize,
    },
    /// An environment key contains an equals sign.
    EnvKeyEquals {
        /// Position in the environment list.
        index: usize,
    },
    /// An environment value contains a NUL.
    EnvValueNul {
        /// The key whose value was rejected.
        key: String,
    },
    /// Two environment entries share a key.
    DuplicateEnvKey {
        /// The repeated key.
        key: String,
    },
    /// The metadata exceeds its bound.
    MetadataTooLarge {
        /// Size supplied.
        size: usize,
        /// The bound.
        max: usize,
    },
    /// The activation expiry is zero.
    ZeroActivationExpiry,
}

/// A rule that a plan breaks.
pub enum Fault {
    /// The program is empty.
    EmptyProgram,
    /// The program contains a NUL.
    ProgramNul,
    /// An argument contains a NUL.
    ArgNul(int),
    /// The working directory is relative.
    RelativeWorkingDir(Seq<u8>),
    /// The cgroup parent is relative.
    RelativeCgroupParent(Seq<u8>),
    /// An environment key is empty.
    EmptyEnvKey(int),
    /// An environment key contains a NUL.
    EnvKeyNul(int),
    /// An environment key contains an equals sign.
    EnvKeyEquals(int),
    /// The value of this key contains a NUL.
    EnvValueNul(Seq<char>),
    /// This key is set more than once.
    DuplicateEnvKey(Seq<char>),
    /// The metadata exceeds its bound.
    MetadataTooLarge(int, int),
    /// The activation expiry is zero.
    ZeroActivationExpiry,
}

impl View for PlanError {
    type V = Fault;

    open spec fn view(&self) -> Fault {
        match self {
            PlanError::EmptyProgram => Fault::EmptyProgram,
            PlanError::ProgramNul => Fault::ProgramNul,
            PlanError::ArgNul { index } => Fault::ArgNul(*index as int),
            PlanError::RelativeWorkingDir { path } => Fault::RelativeWorkingDir(path@),
            PlanError::RelativeCgroupParent { path } => Fault::RelativeCgroupParent(path@),
            PlanError::EmptyEnvKey { index } => Fault::EmptyEnvKey(*index as int),
            PlanError::EnvKeyNul { index } => Fault::EnvKeyNul(*index as int),
            PlanError::EnvKeyEquals { index } => Fault::EnvKeyEquals(*index as int),
            PlanError::EnvValueNul { key } => Fault::EnvValueNul(key@),
            PlanError::DuplicateEnvKey { key } => Fault::DuplicateEnvKey(key@),
            PlanError::MetadataTooLarge { size, max } => Fault::MetadataTooLarge(
                *size as int,
                *max as int,
            ),
            PlanError::ZeroActivationExpiry => Fault::ZeroActivationExpiry,
        }
    }
}

impl Clone for PlanError {
    fn clone(&self) -> (copy: Self)
        ensures
            copy@ == self@,
    {
        match self {
            PlanError::EmptyProgram => PlanError::EmptyProgram,
            PlanError::ProgramNul => PlanError::ProgramNul,
            PlanError::ArgNul { index } => PlanError::ArgNul { index: *index },
            PlanError::RelativeWorkingDir { path } => PlanError::RelativeWorkingDir {
                path: path.clone(),
            },
            PlanError::RelativeCgroupParent { path } => PlanError::RelativeCgroupParent {
                path: path.clone(),
            },
            PlanError::EmptyEnvKey { index } => PlanError::EmptyEnvKey { index: *index },
            PlanError::EnvKeyNul { index } => PlanError::EnvKeyNul { index: *index },
            PlanError::EnvKeyEquals { index } => PlanError::EnvKeyEquals { index: *index },
            PlanError::EnvValueNul { key } => PlanError::EnvValueNul { key: key.clone() },
            PlanError::DuplicateEnvKey { key } => PlanError::DuplicateEnvKey { key: key.clone() },
            PlanError::MetadataTooLarge { size, max } => PlanError::MetadataTooLarge {
                size: *size,
                max: *max,
            },
            PlanError::ZeroActivationExpiry => PlanError::ZeroActivationExpiry,
        }
    }
}

impl Fault {
    /// The text of a fault.
    pub open spec fn text(self) -> Seq<char> {
        match self {
            Fault::EmptyProgram => "plan program is empty"@,
            Fault::ProgramNul => "plan program contains an interior NUL byte"@,
            Fault::ArgNul(index) => "plan argument at index "@ + text::decimal(index as nat)
                + " contains an interior NUL byte"@,
            Fault::RelativeWorkingDir(path) => "plan working directory must be absolute: "@
                + path::lossy_utf8(path),
            Fault::RelativeCgroupParent(path) => "cgroup parent must be absolute, got "@
                + escape::quoted_path(path),
            Fault::EmptyEnvKey(index) => "plan environment key at index "@ + text::decimal(
                index as nat,
            ) + " is empty"@,
            Fault::EnvKeyNul(index) => "plan environment key at index "@ + text::decimal(
                index as nat,
            ) + " contains an interior NUL byte"@,
            Fault::EnvKeyEquals(index) => "plan environment key at index "@ + text::decimal(
                index as nat,
            ) + " contains '='"@,
            Fault::EnvValueNul(key) => "plan environment value for '"@ + key
                + "' contains an interior NUL byte"@,
            Fault::DuplicateEnvKey(key) => "plan environment sets '"@ + key
                + "' more than once"@,
            Fault::MetadataTooLarge(size, max) => "plan metadata is "@ + text::decimal(size as nat)
                + " bytes (max: "@ + text::decimal(max as nat) + " bytes)"@,
            Fault::ZeroActivationExpiry => "plan activation expiry must be greater than zero"@,
        }
    }
}

/// `before`, then `index` in decimal, then `after`.
fn with_index(before: &str, index: usize, after: &str) -> (text: String)
    ensures
        text@ == before@ + text::decimal(index as nat) + after@,
{
    let mut text = before.to_string();
    push_decimal(&mut text, index as u64);
    text.append(after);
    text
}

impl PlanError {
    /// The error as a sentence.
    pub fn to_text(&self) -> (text: String)
        ensures
            text@ == self@.text(),
    {
        match self {
            PlanError::EmptyProgram => "plan program is empty".to_string(),
            PlanError::ProgramNul => "plan program contains an interior NUL byte".to_string(),
            PlanError::ArgNul { index } => with_index(
                "plan argument at index ",
                *index,
                " contains an interior NUL byte",
            ),
            PlanError::RelativeWorkingDir { path } => {
                let mut text = "plan working directory must be absolute: ".to_string();
                text.append(path.to_text().as_str());
                text
            },
            PlanError::RelativeCgroupParent { path } => {
                let mut text = "cgroup parent must be absolute, got ".to_string();
                text.append(quote_path(path.as_bytes()).as_str());
                text
            },
            PlanError::EmptyEnvKey { index } => with_index(
                "plan environment key at index ",
                *index,
                " is empty",
            ),
            PlanError::EnvKeyNul { index } => with_index(
                "plan environment key at index ",
                *index,
                " contains an interior NUL byte",
            ),
            PlanError::EnvKeyEquals { index } => with_index(
                "plan environment key at index ",
                *index,
                " contains '='",
            ),
            PlanError::EnvValueNul { key } => {
                let mut text = "plan environment value for '".to_string();
                text.append(key.as_str());
                text.append("' contains an interior NUL byte");
                text
            },
            PlanError::DuplicateEnvKey { key } => {
                let mut text = "plan environment sets '".to_string();
                text.append(key.as_str());
                text.append("' more than once");
                text
            },
            PlanError::MetadataTooLarge { size, max } => {
                let mut text = with_index("plan metadata is ", *size, " bytes (max: ");
                push_decimal(&mut text, *max as u64);
                text.append(" bytes)");
                text
            },
            PlanError::ZeroActivationExpiry =>
                "plan activation expiry must be greater than zero".to_string(),
        }
    }
}

/// A complete description of a sandboxed run, before anything is created.
pub struct SandboxPlan {
    program: String,
    args: Vec<String>,
    working_dir: Option<PathBytes>,
    env: Vec<(String, String)>,
    capabilities: CapabilitySet,
    resource_limits: ResourceLimits,
    cgroup_parent: Option<PathBytes>,
    workload_uid: Option<u32>,
    session_mode: SessionMode,
    generation: u64,
    detached: bool,
    gate: GateConfig,
    metadata: Vec<u8>,
    event_sink: Option<Arc<dyn EventSink>>,
}

/// What a plan describes.
pub struct PlanView {
    /// The exec target.
    pub program: Seq<char>,
    /// Arguments, without the program itself.
    pub args: Seq<Seq<char>>,
    /// The working directory.
    pub working_dir: Option<Seq<u8>>,
    /// The permitted environment, in insertion order.
    pub env: Seq<(Seq<char>, Seq<char>)>,
    /// What the child is granted.
    pub capabilities: CapabilityView,
    /// The resource ceilings.
    pub resource_limits: ResourceLimits,
    /// The directory the run's cgroup is created under.
    pub cgroup_parent: Option<Seq<u8>>,
    /// The identity the child drops to.
    pub workload_uid: Option<u32>,
    /// The session mode.
    pub session_mode: SessionMode,
    /// The policy generation.
    pub generation: u64,
    /// Whether the run outlives the caller.
    pub detached: bool,
    /// The activation gate's settings.
    pub gate: GateConfig,
    /// Opaque caller metadata.
    pub metadata: Seq<u8>,
    /// Who receives the run's events.
    pub event_sink: Option<Arc<dyn EventSink>>,
}

/// The texts of an environment.
pub open spec fn entries(env: Seq<(String, String)>) -> Seq<(Seq<char>, Seq<char>)> {
    env.map_values(|entry: (String, String)| (entry.0@, entry.1@))
}

/// The bytes of an optional path.
pub open spec fn path_of(path: Option<PathBytes>) -> Option<Seq<u8>> {
    match path {
        Some(path) => Some(path@),
        None => None,
    }
}

impl View for SandboxPlan {
    type V = PlanView;

    closed spec fn view(&self) -> PlanView {
        PlanView {
            program: self.program@,
            args: text::texts(self.args@),
            working_dir: path_of(self.working_dir),
            env: entries(self.env@),
            capabilities: self.capabilities@,
            resource_limits: self.resource_limits,
            cgroup_parent: path_of(self.cgroup_parent),
            workload_uid: self.workload_uid,
            session_mode: self.session_mode,
            generation: self.generation,
            detached: self.detached,
            gate: self.gate,
            metadata: self.metadata@,
            event_sink: self.event_sink,
        }
    }
}

/// What the argument at `i` breaks.
pub open spec fn arg_fault(args: Seq<Seq<char>>, i: int) -> Option<Fault> {
    if args[i].contains('\0') {
        Some(Fault::ArgNul(i))
    } else {
        None
    }
}

/// What the environment entry at `i` breaks.
pub open spec fn env_fault(env: Seq<(Seq<char>, Seq<char>)>, i: int) -> Option<Fault> {
    let (key, value) = env[i];
    if key.len() == 0 {
        Some(Fault::EmptyEnvKey(i))
    } else if key.contains('\0') {
        Some(Fault::EnvKeyNul(i))
    } else if key.contains('=') {
        Some(Fault::EnvKeyEquals(i))
    } else if exists|k: int| 0 <= k < i && (#[trigger] env[k]).0 == key {
        Some(Fault::DuplicateEnvKey(key))
    } else if value.contains('\0') {
        Some(Fault::EnvValueNul(key))
    } else {
        None
    }
}

/// The fault at the first of the places before `n` that has one.
pub open spec fn first_fault(at: spec_fn(int) -> Option<Fault>, n: nat) -> Option<Fault>
    decreases n,
{
    if n == 0 {
        None
    } else {
        match first_fault(at, (n - 1) as nat) {
            Some(fault) => Some(fault),
            None => at(n - 1),
        }
    }
}

/// The first rule that a plan breaks, in the order in which the rules are
/// checked: the program, the arguments, the working directory, the cgroup
/// parent, the environment entry by entry, the metadata, the expiry.
pub open spec fn fault(plan: PlanView) -> Option<Fault> {
    let in_args = first_fault(|i: int| arg_fault(plan.args, i), plan.args.len());
    let in_env = first_fault(|i: int| env_fault(plan.env, i), plan.env.len());
    if plan.program.len() == 0 {
        Some(Fault::EmptyProgram)
    } else if plan.program.contains('\0') {
        Some(Fault::ProgramNul)
    } else if in_args is Some {
        in_args
    } else if plan.working_dir is Some && !path::is_rooted(plan.working_dir->0) {
        Some(Fault::RelativeWorkingDir(plan.working_dir->0))
    } else if plan.cgroup_parent is Some && !path::is_rooted(plan.cgroup_parent->0) {
        Some(Fault::RelativeCgroupParent(plan.cgroup_parent->0))
    } else if in_env is Some {
        in_env
    } else if plan.metadata.len() > MAX_PLAN_METADATA_BYTES {
        Some(
            Fault::MetadataTooLarge(plan.metadata.len() as int, MAX_PLAN_METADATA_BYTES as int),
        )
    } else if plan.gate.activation_expiry == Some(Nanos(0)) {
        Some(Fault::ZeroActivationExpiry)
    } else {
        None
    }
}

fn contains_nul(value: &str) -> (found: bool)
    ensures
        found == value@.contains('\0'),
{
    holds_char(value, '\0')
}

impl SandboxPlan {
    /// Start a plan for `program`, used verbatim as the exec target.
    #[must_use]
    pub fn new(program: &str) -> (plan: Self)
        ensures
            plan@ == (PlanView {
                program: program@,
                args: Seq::empty(),
                working_dir: None,
                env: Seq::empty(),
                capabilities: CapabilityView {
                    fs_modes: Seq::empty(),
                    network: NetworkView::AllowAll,
                    tcp_connect_ports: Seq::empty(),
                    localhost_port_ranges: Seq::empty(),
                },
                resource_limits: ResourceLimits {
                    max_memory_bytes: None,
                    max_pids: None,
                    cpu_time_secs: None,
                },
                cgroup_parent: None,
                workload_uid: None,
                session_mode: SessionMode::Headless,
                generation: FIRST_GENERATION,
                detached: false,
                gate: GateConfig { activation_expiry: None },
                metadata: Seq::empty(),
                event_sink: None,
            }),
    {
        let plan = SandboxPlan {
            program: program.to_string(),
            args: Vec::new(),
            working_dir: None,
            cgroup_parent: None,
            workload_uid: None,
            env: Vec::new(),
            capabilities: CapabilitySet::new(),
            resource_limits: ResourceLimits::default(),
            session_mode: SessionMode::default(),
            generation: FIRST_GENERATION,
            detached: false,
            gate: GateConfig::default(),
            metadata: Vec::new(),
            event_sink: None,
        };
        assert(plan@.args =~= Seq::empty());
        assert(plan@.env =~= Seq::empty());
        plan
    }

    /// Append one argument.
    #[must_use]
    pub fn arg(self, arg: &str) -> (plan: Self)
        ensures
            plan@ == (PlanView { args: self@.args.push(arg@), ..self@ }),
    {
        let mut plan = self;
        plan.args.push(arg.to_string());
        assert(plan@.args =~= self@.args.push(arg@));
        plan
    }

    /// Append several arguments, in order.
    #[must_use]
    pub fn args(self, args: &[&str]) -> (plan: Self)
        ensures
            plan@ == (PlanView {
                args: self@.args + args@.map_values(|arg: &str| arg@),
                ..self@
            }),
    {
        let mut plan = self;
        let mut i: usize = 0;
        assert(plan@.args =~= self@.args + args@.take(0).map_values(|arg: &str| arg@));
        while i < args.len()
            invariant
                i <= args@.len(),
                plan@ == (PlanView {
                    args: self@.args + args@.take(i as int).map_values(|arg: &str| arg@),
                    ..self@
                }),
            decreases args@.len() - i,
        {
            plan = plan.arg(args[i]);
            i += 1;
            assert(plan@.args =~= self@.args + args@.take(i as int).map_values(|arg: &str| arg@));
        }
        assert(args@.take(i as int) =~= args@);
        plan
    }

    /// Set the working directory. Must be absolute.
    #[must_use]
    pub fn working_dir(self, dir: PathBytes) -> (plan: Self)
        ensures
            plan@ == (PlanView { working_dir: Some(dir@), ..self@ }),
    {
        let mut plan = self;
        plan.working_dir = Some(dir);
        plan
    }

    /// Create this run's cgroup under `parent`. Must be absolute.
    #[must_use]
    pub fn cgroup_parent(self, parent: PathBytes) -> (plan: Self)
        ensures
            plan@ == (PlanView { cgroup_parent: Some(parent@), ..self@ }),
    {
        let mut plan = self;
        plan.cgroup_parent = Some(parent);
        plan
    }

    /// Make the child drop to `uid` just before exec.
    #[must_use]
    pub fn workload_uid(self, uid: u32) -> (plan: Self)
        ensures
            plan@ == (PlanView { workload_uid: Some(uid), ..self@ }),
    {
        let mut plan = self;
        plan.workload_uid = Some(uid);
        plan
    }

    /// Permit one environment variable. Entries keep their insertion order.
    #[must_use]
    pub fn env(self, key: &str, value: &str) -> (plan: Self)
        ensures
            plan@ == (PlanView { env: self@.env.push((key@, value@)), ..self@ }),
    {
        let mut plan = self;
        plan.env.push((key.to_string(), value.to_string()));
        assert(plan@.env =~= self@.env.push((key@, value@)));
        plan
    }

    /// Set what the child is granted, replacing what was set before, the network
    /// mode with it.
    #[must_use]
    pub fn capabilities(self, capabilities: CapabilitySet) -> (plan: Self)
        ensures
            plan@ == (PlanView { capabilities: capabilities@, ..self@ }),
    {
        let mut plan = self;
        plan.capabilities = capabilities;
        plan
    }

    /// Set the network mode, which is part of what the child is granted.
    #[must_use]
    pub fn network_mode(self, mode: NetworkMode) -> (plan: Self)
        ensures
            plan@ == (PlanView {
                capabilities: CapabilityView { network: mode@, ..self@.capabilities },
                ..self@
            }),
    {
        let mut plan = self;
        plan.capabilities = plan.capabilities.set_network_mode(mode);
        plan
    }

    /// Set the resource ceilings.
    #[must_use]
    pub fn resource_limits(self, limits: ResourceLimits) -> (plan: Self)
        ensures
            plan@ == (PlanView { resource_limits: limits, ..self@ }),
    {
        let mut plan = self;
        plan.resource_limits = limits;
        plan
    }

    /// Set the session mode.
    #[must_use]
    pub fn session_mode(self, mode: SessionMode) -> (plan: Self)
        ensures
            plan@ == (PlanView { session_mode: mode, ..self@ }),
    {
        let mut plan = self;
        plan.session_mode = mode;
        plan
    }

    /// Whether the run outlives the caller.
    #[must_use]
    pub fn detached(self, detached: bool) -> (plan: Self)
        ensures
            plan@ == (PlanView { detached, ..self@ }),
    {
        let mut plan = self;
        plan.detached = detached;
        plan
    }

    /// Bind this run to a caller-chosen policy generation.
    #[must_use]
    pub fn generation(self, generation: u64) -> (plan: Self)
        ensures
            plan@ == (PlanView { generation, ..self@ }),
    {
        let mut plan = self;
        plan.generation = generation;
        plan
    }

    /// Set the activation gate configuration.
    #[must_use]
    pub fn gate(self, gate: GateConfig) -> (plan: Self)
        ensures
            plan@ == (PlanView { gate, ..self@ }),
    {
        let mut plan = self;
        plan.gate = gate;
        plan
    }

    /// Attach opaque caller metadata.
    #[must_use]
    pub fn metadata(self, metadata: Vec<u8>) -> (plan: Self)
        ensures
            plan@ == (PlanView { metadata: metadata@, ..self@ }),
    {
        let mut plan = self;
        plan.metadata = metadata;
        plan
    }

    /// Attach an event sink.
    #[must_use]
    pub fn event_sink(self, sink: Arc<dyn EventSink>) -> (plan: Self)
        ensures
            plan@.event_sink is Some,
            plan@.event_sink->0 == sink,
            plan@ == (PlanView { event_sink: plan@.event_sink, ..self@ }),
    {
        let attached = Some(sink);
        let mut plan = self;
        plan.event_sink = attached;
        plan
    }

    /// The first argument that breaks a rule.
    fn check_args(&self) -> (checked: Result<(), PlanError>)
        ensures
            match checked {
                Ok(()) => first_fault(|i: int| arg_fault(self@.args, i), self@.args.len()) is None,
                Err(err) => first_fault(|i: int| arg_fault(self@.args, i), self@.args.len())
                    == Some(err@),
            },
    {
        let ghost at = |i: int| arg_fault(self@.args, i);
        let mut i: usize = 0;
        while i < self.args.len()
            invariant
                i <= self.args@.len(),
                at == (|i: int| arg_fault(self@.args, i)),
                first_fault(at, i as nat) is None,
            decreases self.args@.len() - i,
        {
            assert(self@.args[i as int] == self.args@[i as int]@);
            if contains_nul(self.args[i].as_str()) {
                proof {
                    assert(at(i as int) == Some(Fault::ArgNul(i as int)));
                    assert(first_fault(at, (i + 1) as nat) == Some(Fault::ArgNul(i as int)));
                    lemma_fault_stays(at, (i + 1) as nat, self@.args.len());
                }
                return Err(PlanError::ArgNul { index: i });
            }
            i += 1;
            assert(first_fault(at, i as nat) is None);
        }
        Ok(())
    }

    /// What the environment entry at `index` breaks.
    fn check_entry(&self, index: usize) -> (checked: Result<(), PlanError>)
        requires
            index < self@.env.len(),
        ensures
            match checked {
                Ok(()) => env_fault(self@.env, index as int) is None,
                Err(err) => env_fault(self@.env, index as int) == Some(err@),
            },
    {
        let (key, value) = &self.env[index];
        let ghost env = self@.env;
        assert(env[index as int] == (key@, value@));
        if key.as_str().is_empty() {
            return Err(PlanError::EmptyEnvKey { index });
        }
        if contains_nul(key.as_str()) {
            return Err(PlanError::EnvKeyNul { index });
        }
        if holds_char(key.as_str(), '=') {
            return Err(PlanError::EnvKeyEquals { index });
        }
        let mut k: usize = 0;
        while k < index
            invariant
                k <= index < self.env@.len(),
                env == self@.env,
                env[index as int] == (key@, value@),
                key@.len() > 0,
                !key@.contains('\0'),
                !key@.contains('='),
                forall|j: int| 0 <= j < k ==> (#[trigger] env[j]).0 != key@,
            decreases index - k,
        {
            assert(env[k as int].0 == self.env@[k as int].0@);
            if self.env[k].0.eq(key) {
                assert(env[k as int].0 == key@);
                return Err(PlanError::DuplicateEnvKey { key: key.clone() });
            }
            k += 1;
        }
        if contains_nul(value.as_str()) {
            return Err(PlanError::EnvValueNul { key: key.clone() });
        }
        Ok(())
    }

    /// The first environment entry that breaks a rule.
    fn check_env(&self) -> (checked: Result<(), PlanError>)
        ensures
            match checked {
                Ok(()) => first_fault(|i: int| env_fault(self@.env, i), self@.env.len()) is None,
                Err(err) => first_fault(|i: int| env_fault(self@.env, i), self@.env.len()) == Some(
                    err@,
                ),
            },
    {
        let ghost at = |i: int| env_fault(self@.env, i);
        let mut i: usize = 0;
        while i < self.env.len()
            invariant
                i <= self.env@.len(),
                at == (|i: int| env_fault(self@.env, i)),
                first_fault(at, i as nat) is None,
            decreases self.env@.len() - i,
        {
            if let Err(err) = self.check_entry(i) {
                proof {
                    assert(at(i as int) == Some(err@));
                    assert(first_fault(at, (i + 1) as nat) == Some(err@));
                    lemma_fault_stays(at, (i + 1) as nat, self@.env.len());
                }
                return Err(err);
            }
            i += 1;
            assert(at(i - 1) is None);
            assert(first_fault(at, i as nat) is None);
        }
        Ok(())
    }

    /// Check the plan and seal it, or name the first rule it breaks.
    #[must_use]
    pub fn validate(self) -> (sealed: Result<ValidatedPlan, PlanError>)
        ensures
            match sealed {
                Ok(validated) => fault(self@) is None && validated@ == self@,
                Err(err) => fault(self@) == Some(err@),
            },
    {
        if self.program.as_str().is_empty() {
            return Err(PlanError::EmptyProgram);
        }
        if contains_nul(self.program.as_str()) {
            return Err(PlanError::ProgramNul);
        }
        if let Err(err) = self.check_args() {
            return Err(err);
        }
        if let Some(dir) = &self.working_dir {
            if !dir.is_absolute() {
                return Err(PlanError::RelativeWorkingDir { path: dir.clone() });
            }
        }
        if let Some(parent) = &self.cgroup_parent {
            if !parent.is_absolute() {
                return Err(PlanError::RelativeCgroupParent { path: parent.clone() });
            }
        }
        if let Err(err) = self.check_env() {
            return Err(err);
        }
        if self.metadata.len() > MAX_PLAN_METADATA_BYTES {
            return Err(
                PlanError::MetadataTooLarge {
                    size: self.metadata.len(),
                    max: MAX_PLAN_METADATA_BYTES,
                },
            );
        }
        if let Some(expiry) = self.gate.activation_expiry {
            if expiry.0 == 0 {
                return Err(PlanError::ZeroActivationExpiry);
            }
        }
        Ok(ValidatedPlan { plan: self })
    }

    /// The plan as text. Argument and environment values and the metadata are
    /// the parts most likely to hold a secret, so they are counted or named, not
    /// shown.
    pub fn to_text(&self) -> (text: String)
        ensures
            text@ == shown(self@),
    {
        let mut text = "SandboxPlan { program: ".to_string();
        text.append(quoted(self.program.as_str()).as_str());
        text.append(", args: ");
        push_decimal(&mut text, self.args.len() as u64);
        text.append(", working_dir: ");
        push_path(&mut text, &self.working_dir);
        text.append(", cgroup_parent: ");
        push_path(&mut text, &self.cgroup_parent);
        text.append(", workload_uid: ");
        push_number(
            &mut text,
            match self.workload_uid {
                Some(uid) => Some(uid as u64),
                None => None,
            },
        );
        text.append(", env_keys: ");
        push_list(&mut text, &self.key_texts());
        text.append(", capabilities: ");
        text.append(self.capabilities.to_text().as_str());
        text.append(", resource_limits: ");
        text.append(self.resource_limits.to_text().as_str());
        text.append(", session_mode: ");
        text.append(self.session_mode.to_text());
        text.append(", detached: ");
        push_word(&mut text, self.detached);
        text.append(", gate: ");
        text.append(self.gate.to_text().as_str());
        text.append(", metadata_bytes: ");
        push_decimal(&mut text, self.metadata.len() as u64);
        text.append(", event_sink: ");
        push_word(&mut text, self.event_sink.is_some());
        text.append(" }");
        text
    }

    /// The keys of the environment between quotation marks.
    fn key_texts(&self) -> (pieces: Vec<String>)
        ensures
            text::texts(pieces@) == shown_keys(self@.env),
    {
        let mut pieces: Vec<String> = Vec::new();
        let mut i: usize = 0;
        while i < self.env.len()
            invariant
                i <= self.env@.len(),
                text::texts(pieces@) =~= shown_keys(self@.env).take(i as int),
            decreases self.env@.len() - i,
        {
            let ghost before = text::texts(pieces@);
            pieces.push(quoted(self.env[i].0.as_str()));
            i += 1;
            assert(text::texts(pieces@) =~= before.push(shown_keys(self@.env)[i - 1]));
        }
        assert(text::texts(pieces@) =~= shown_keys(self@.env));
        pieces
    }
}

fn push_path(text: &mut String, path: &Option<PathBytes>)
    ensures
        final(text)@ == old(text)@ + shown_path(path_of(*path)),
{
    push_optional(
        text,
        match path {
            Some(path) => Some(quote_path(path.as_bytes())),
            None => None,
        },
    );
}

fn push_number(text: &mut String, number: Option<u64>)
    ensures
        final(text)@ == old(text)@ + shown_number(number),
{
    push_optional(
        text,
        match number {
            Some(number) => Some(decimal_text(number)),
            None => None,
        },
    );
}

impl ResourceLimits {
    /// The ceilings as text.
    pub fn to_text(&self) -> (text: String)
        ensures
            text@ == shown_limits(*self),
    {
        let mut text = "ResourceLimits { max_memory_bytes: ".to_string();
        push_number(
            &mut text,
            match self.max_memory_bytes {
                Some(ceiling) => Some(ceiling.get()),
                None => None,
            },
        );
        text.append(", max_pids: ");
        push_number(
            &mut text,
            match self.max_pids {
                Some(ceiling) => Some(ceiling.get() as u64),
                None => None,
            },
        );
        text.append(", cpu_time_secs: ");
        push_number(
            &mut text,
            match self.cpu_time_secs {
                Some(ceiling) => Some(ceiling.get()),
                None => None,
            },
        );
        text.append(" }");
        text
    }
}

impl SessionMode {
    /// The text of a session mode.
    pub open spec fn text(self) -> Seq<char> {
        match self {
            SessionMode::Interactive => "Interactive"@,
            SessionMode::Headless => "Headless"@,
        }
    }

    /// The mode as text.
    pub fn to_text(&self) -> (text: &'static str)
        ensures
            text@ == self.text(),
    {
        match self {
            SessionMode::Interactive => "Interactive",
            SessionMode::Headless => "Headless",
        }
    }
}

impl GateConfig {
    /// The text of the settings.
    pub open spec fn text(self) -> Seq<char> {
        "GateConfig { activation_expiry: "@ + text::optional(
            match self.activation_expiry {
                Some(expiry) => Some(expiry.text()),
                None => None,
            },
        ) + " }"@
    }

    /// The settings as text.
    pub fn to_text(&self) -> (text: String)
        ensures
            text@ == self.text(),
    {
        let mut text = "GateConfig { activation_expiry: ".to_string();
        push_optional(
            &mut text,
            match self.activation_expiry {
                Some(expiry) => Some(expiry.to_text()),
                None => None,
            },
        );
        text.append(" }");
        text
    }
}

/// An optional path between quotation marks.
pub open spec fn shown_path(path: Option<Seq<u8>>) -> Seq<char> {
    text::optional(
        match path {
            Some(path) => Some(escape::quoted_path(path)),
            None => None,
        },
    )
}

/// An optional number.
pub open spec fn shown_number(number: Option<u64>) -> Seq<char> {
    text::optional(
        match number {
            Some(number) => Some(text::decimal(number as nat)),
            None => None,
        },
    )
}

/// The text of resource ceilings.
pub open spec fn shown_limits(limits: ResourceLimits) -> Seq<char> {
    "ResourceLimits { max_memory_bytes: "@ + shown_number(
        match limits.max_memory_bytes {
            Some(ceiling) => Some(ceiling.value()),
            None => None,
        },
    ) + ", max_pids: "@ + shown_number(
        match limits.max_pids {
            Some(ceiling) => Some(ceiling.value() as u64),
            None => None,
        },
    ) + ", cpu_time_secs: "@ + shown_number(
        match limits.cpu_time_secs {
            Some(ceiling) => Some(ceiling.value()),
            None => None,
        },
    ) + " }"@
}

/// The keys of an environment, each between quotation marks.
pub open spec fn shown_keys(env: Seq<(Seq<char>, Seq<char>)>) -> Seq<Seq<char>> {
    env.map_values(|entry: (Seq<char>, Seq<char>)| path::quoted_text(entry.0))
}

/// The text of a plan.
pub open spec fn shown(plan: PlanView) -> Seq<char> {
    "SandboxPlan { program: "@ + path::quoted_text(plan.program) + ", args: "@ + text::decimal(
        plan.args.len(),
    ) + ", working_dir: "@ + shown_path(plan.working_dir) + ", cgroup_parent: "@ + shown_path(
        plan.cgroup_parent,
    ) + ", workload_uid: "@ + shown_number(
        match plan.workload_uid {
            Some(uid) => Some(uid as u64),
            None => None,
        },
    ) + ", env_keys: "@ + text::listed(shown_keys(plan.env)) + ", capabilities: "@
        + capability::shown(plan.capabilities) + ", resource_limits: "@ + shown_limits(
        plan.resource_limits,
    ) + ", session_mode: "@ + plan.session_mode.text() + ", detached: "@ + text::word(plan.detached)
        + ", gate: "@ + plan.gate.text() + ", metadata_bytes: "@ + text::decimal(
        plan.metadata.len(),
    ) + ", event_sink: "@ + text::word(plan.event_sink is Some) + " }"@
}

/// A plan's text says nothing of its arguments, of the values in its environment
/// or of its metadata: plans that differ only there, in their generation or in
/// which sink they name, have the same text.
pub proof fn law_a_plan_hides_its_values(plan: PlanView, other: PlanView)
    requires
        plan.args.len() == other.args.len(),
        plan.env.len() == other.env.len(),
        forall|i: int| 0 <= i < plan.env.len() ==> (#[trigger] plan.env[i]).0 == other.env[i].0,
        plan.metadata.len() == other.metadata.len(),
        plan.event_sink is Some == other.event_sink is Some,
        other == (PlanView {
            args: other.args,
            env: other.env,
            metadata: other.metadata,
            event_sink: other.event_sink,
            generation: other.generation,
            ..plan
        }),
    ensures
        shown(plan) == shown(other),
{
    assert(shown_keys(plan.env) =~= shown_keys(other.env));
}

/// A first fault stays the first when more places are looked at.
proof fn lemma_fault_stays(at: spec_fn(int) -> Option<Fault>, n: nat, more: nat)
    requires
        n <= more,
        first_fault(at, n) is Some,
    ensures
        first_fault(at, more) == first_fault(at, n),
    decreases more,
{
    if n < more {
        lemma_fault_stays(at, n, (more - 1) as nat);
    }
}

/// A plan that has passed [`SandboxPlan::validate`]. Constructible only there,
/// and read-only: the checked bytes and the used bytes are the same bytes.
pub struct ValidatedPlan {
    plan: SandboxPlan,
}

impl View for ValidatedPlan {
    type V = PlanView;

    closed spec fn view(&self) -> PlanView {
        self.plan@
    }
}

impl ValidatedPlan {
    #[verifier::type_invariant]
    spec fn passed(self) -> bool {
        fault(self.plan@) is None
    }

    /// The exec target. Holding a validated plan is proof that the rules hold.
    #[must_use]
    pub fn program(&self) -> (program: &str)
        ensures
            program@ == self@.program,
            fault(self@) is None,
    {
        proof {
            use_type_invariant(self);
        }
        self.plan.program.as_str()
    }

    /// Arguments, in order. Does not hold the program itself.
    #[must_use]
    pub fn args(&self) -> (args: &[String])
        ensures
            text::texts(args@) == self@.args,
    {
        self.plan.args.as_slice()
    }

    /// The working directory, if one was set.
    #[must_use]
    pub fn working_dir(&self) -> (dir: Option<&PathBytes>)
        ensures
            match dir {
                Some(dir) => self@.working_dir == Some(dir@),
                None => self@.working_dir is None,
            },
    {
        match &self.plan.working_dir {
            Some(dir) => Some(dir),
            None => None,
        }
    }

    /// The directory this run's cgroup is created under, if one was set.
    #[must_use]
    pub fn cgroup_parent(&self) -> (parent: Option<&PathBytes>)
        ensures
            match parent {
                Some(parent) => self@.cgroup_parent == Some(parent@),
                None => self@.cgroup_parent is None,
            },
    {
        match &self.plan.cgroup_parent {
            Some(parent) => Some(parent),
            None => None,
        }
    }

    /// The identity the child drops to just before exec, if one was set.
    #[must_use]
    pub fn workload_uid(&self) -> (uid: Option<u32>)
        ensures
            uid == self@.workload_uid,
    {
        self.plan.workload_uid
    }

    /// The permitted environment, in insertion order.
    #[must_use]
    pub fn env(&self) -> (env: &[(String, String)])
        ensures
            entries(env@) == self@.env,
    {
        self.plan.env.as_slice()
    }

    /// What the child is granted, the network mode with it.
    #[must_use]
    pub fn capabilities(&self) -> (capabilities: &CapabilitySet)
        ensures
            capabilities@ == self@.capabilities,
    {
        &self.plan.capabilities
    }

    /// The resource ceilings.
    #[must_use]
    pub fn resource_limits(&self) -> (limits: ResourceLimits)
        ensures
            limits == self@.resource_limits,
    {
        self.plan.resource_limits
    }

    /// The session mode.
    #[must_use]
    pub fn session_mode(&self) -> (mode: SessionMode)
        ensures
            mode == self@.session_mode,
    {
        self.plan.session_mode
    }

    /// Whether the run outlives the caller.
    #[must_use]
    pub fn is_detached(&self) -> (detached: bool)
        ensures
            detached == self@.detached,
    {
        self.plan.detached
    }

    /// The policy generation this run is bound to.
    #[must_use]
    pub fn generation(&self) -> (generation: u64)
        ensures
            generation == self@.generation,
    {
        self.plan.generation
    }

    /// The activation gate configuration.
    #[must_use]
    pub fn gate(&self) -> (gate: GateConfig)
        ensures
            gate == self@.gate,
    {
        self.plan.gate
    }

    /// The opaque caller metadata.
    #[must_use]
    pub fn metadata(&self) -> (metadata: &[u8])
        ensures
            metadata@ == self@.metadata,
    {
        self.plan.metadata.as_slice()
    }

    /// The event sink, if one was attached.
    #[must_use]
    pub fn event_sink(&self) -> (sink: Option<&Arc<dyn EventSink>>)
        ensures
            match sink {
                Some(sink) => self@.event_sink is Some && self@.event_sink->0 == *sink,
                None => self@.event_sink is None,
            },
    {
        match &self.plan.event_sink {
            Some(sink) => Some(sink),
            None => None,
        }
    }

    /// The plan as text, without its values.
    pub fn to_text(&self) -> (text: String)
        ensures
            text@ == "ValidatedPlan("@ + shown(self@) + ")"@,
    {
        let mut text = "ValidatedPlan(".to_string();
        text.append(self.plan.to_text().as_str());
        text.append(")");
        text
    }
}

/// A plan passes exactly when every rule holds of it: every text that reaches
/// the kernel is free of NULs, every key is a single key that is set once, the
/// directories are absolute, the metadata fits, and the activation gate can be used.
pub proof fn law_a_plan_passes_iff_every_rule_holds(plan: PlanView)
    ensures
        fault(plan) is None <==> {
            &&& plan.program.len() > 0
            &&& !plan.program.contains('\0')
            &&& forall|i: int|
                0 <= i < plan.args.len() ==> !(#[trigger] plan.args[i]).contains('\0')
            &&& plan.working_dir is Some ==> path::is_rooted(plan.working_dir->0)
            &&& plan.cgroup_parent is Some ==> path::is_rooted(plan.cgroup_parent->0)
            &&& forall|i: int|
                0 <= i < plan.env.len() ==> {
                    let entry = #[trigger] plan.env[i];
                    &&& entry.0.len() > 0
                    &&& !entry.0.contains('\0')
                    &&& !entry.0.contains('=')
                    &&& !entry.1.contains('\0')
                }
            &&& forall|i: int, k: int|
                0 <= k < i < plan.env.len() ==> (#[trigger] plan.env[k]).0 != (
                #[trigger] plan.env[i]).0
            &&& plan.metadata.len() <= MAX_PLAN_METADATA_BYTES
            &&& plan.gate.activation_expiry != Some(Nanos(0))
        },
{
    let in_args = |i: int| arg_fault(plan.args, i);
    let in_env = |i: int| env_fault(plan.env, i);
    lemma_none_iff_clean(in_args, plan.args.len());
    lemma_none_iff_clean(in_env, plan.env.len());
    if first_fault(in_args, plan.args.len()) is None {
        assert forall|i: int| 0 <= i < plan.args.len() implies !(
        #[trigger] plan.args[i]).contains('\0') by {
            assert(in_args(i) is None);
        }
    }
    if forall|i: int| 0 <= i < plan.args.len() ==> !(#[trigger] plan.args[i]).contains('\0') {
        assert forall|i: int| 0 <= i < plan.args.len() implies (#[trigger] in_args(i)) is None by {
            assert(!plan.args[i].contains('\0'));
        }
    }
    if first_fault(in_env, plan.env.len()) is None {
        assert forall|i: int| 0 <= i < plan.env.len() implies {
            let entry = #[trigger] plan.env[i];
            &&& entry.0.len() > 0
            &&& !entry.0.contains('\0')
            &&& !entry.0.contains('=')
            &&& !entry.1.contains('\0')
        } by {
            assert(in_env(i) is None);
        }
        assert forall|i: int, k: int| 0 <= k < i < plan.env.len() implies (
        #[trigger] plan.env[k]).0 != (#[trigger] plan.env[i]).0 by {
            assert(in_env(i) is None);
        }
    }
}

proof fn lemma_none_iff_clean(at: spec_fn(int) -> Option<Fault>, n: nat)
    ensures
        first_fault(at, n) is None <==> forall|i: int| 0 <= i < n ==> (#[trigger] at(i)) is None,
    decreases n,
{
    if n > 0 {
        lemma_none_iff_clean(at, (n - 1) as nat);
    }
}

} // verus!
