//! What a child hands to `execve`, and which plans can be turned into it.

use vstd::prelude::*;
use vstd::utf8::encode_utf8;
use crate::path;
use crate::path::{bytes_hold_nul, copy_bytes, PathBytes};
use crate::text;
use super::plan;
use super::plan::{PlanView, SessionMode, ValidatedPlan};
use super::prepare_error::PrepareError;
use super::probe::Platform;

verus! {

/// Refuse a plan whose promises this path cannot keep.
///
/// `supervised` says whether a process that outlives the caller holds the run:
/// only such a process can own a detached run or a terminal.
pub fn refuse_unsupported(plan: &ValidatedPlan, supervised: bool) -> (accepted: Result<
    (),
    PrepareError,
>)
    ensures
        match accepted {
            Err(PrepareError::InteractiveNeedsSupervisor) => plan@.session_mode is Interactive
                && !supervised,
            Err(PrepareError::DetachedNeedsSupervisor) => !(plan@.session_mode is Interactive)
                && plan@.detached && !supervised,
            Err(PrepareError::UnsupportedPlanFeature { feature }) => {
                &&& feature@ == "resource limits"@
                &&& supervised || !(plan@.session_mode is Interactive || plan@.detached)
                &&& !plan@.resource_limits.unlimited()
            },
            Err(_) => false,
            Ok(()) => {
                &&& supervised || !(plan@.session_mode is Interactive || plan@.detached)
                &&& plan@.resource_limits.unlimited()
            },
        },
{
    if plan.session_mode() == SessionMode::Interactive && !supervised {
        return Err(PrepareError::InteractiveNeedsSupervisor);
    }
    if plan.is_detached() && !supervised {
        return Err(PrepareError::DetachedNeedsSupervisor);
    }
    let limits = plan.resource_limits();
    if limits.max_memory_bytes.is_some() || limits.max_pids.is_some()
        || limits.cpu_time_secs.is_some() {
        return Err(PrepareError::UnsupportedPlanFeature { feature: "resource limits" });
    }
    Ok(())
}

/// Refuse a plan that asks for a cgroup on a platform that has none: a caller
/// that asks for containment it will not get should hear so.
pub fn refuse_off_platform(plan: &ValidatedPlan, platform: Platform) -> (accepted: Result<
    (),
    PrepareError,
>)
    ensures
        match accepted {
            Err(PrepareError::UnsupportedPlanFeature { feature }) => feature@ == "cgroup parent"@
                && plan@.cgroup_parent is Some && !(platform is Linux),
            Err(_) => false,
            Ok(()) => plan@.cgroup_parent is None || platform is Linux,
        },
{
    match (plan.cgroup_parent(), platform) {
        (None, _) => Ok(()),
        (Some(_), Platform::Linux) => Ok(()),
        (Some(_), _) => Err(PrepareError::UnsupportedPlanFeature { feature: "cgroup parent" }),
    }
}

/// Turn the plan's program into a path that can be executed directly.
///
/// `inspected` is what looking at the path answered: whether it is a regular
/// file, or an error number. A relative program is refused whatever it says.
pub fn resolve_program(program: &str, inspected: Result<bool, i32>) -> (resolved: Result<
    PathBytes,
    PrepareError,
>)
    ensures
        ({
            let bytes = encode_utf8(program@);
            if !path::is_rooted(bytes) {
                resolved matches Err(PrepareError::ProgramNotAbsolute { program: named })
                    && named@ == program@
            } else {
                match inspected {
                    Err(errno) => resolved matches Err(
                        PrepareError::ProgramUnusable { program: named, errno: number },
                    ) && named@ == bytes && number == errno,
                    Ok(is_file) => if is_file {
                        resolved matches Ok(resolved) && resolved@ == bytes
                    } else {
                        resolved matches Err(PrepareError::ProgramNotAFile { program: named })
                            && named@ == bytes
                    },
                }
            }
        }),
{
    let path = PathBytes::from_text(program);
    if !path.is_absolute() {
        return Err(PrepareError::ProgramNotAbsolute { program: program.to_string() });
    }
    match inspected {
        Err(errno) => Err(PrepareError::ProgramUnusable { program: path, errno }),
        Ok(is_file) => if is_file {
            Ok(path)
        } else {
            Err(PrepareError::ProgramNotAFile { program: path })
        },
    }
}

/// The plan's program, arguments, environment and working directory, as the
/// byte strings `execve` and `chdir` are given. None of them holds a NUL.
#[derive(Debug, PartialEq, Eq)]
pub struct ExecImage {
    /// The program.
    pub program: Vec<u8>,
    /// The working directory, where the plan set one.
    pub working_dir: Option<Vec<u8>>,
    /// The arguments, the program first.
    pub argv: Vec<Vec<u8>>,
    /// The environment, as `KEY=VALUE`.
    pub envp: Vec<Vec<u8>>,
}

/// What an [`ExecImage`] holds.
pub struct ImageView {
    /// The program.
    pub program: Seq<u8>,
    /// The working directory.
    pub working_dir: Option<Seq<u8>>,
    /// The arguments.
    pub argv: Seq<Seq<u8>>,
    /// The environment.
    pub envp: Seq<Seq<u8>>,
}

/// The bytes of each entry.
pub open spec fn rows(entries: Seq<Vec<u8>>) -> Seq<Seq<u8>> {
    entries.map_values(|entry: Vec<u8>| entry@)
}

impl View for ExecImage {
    type V = ImageView;

    open spec fn view(&self) -> ImageView {
        ImageView {
            program: self.program@,
            working_dir: match self.working_dir {
                Some(dir) => Some(dir@),
                None => None,
            },
            argv: rows(self.argv@),
            envp: rows(self.envp@),
        }
    }
}

/// The argument vector of a plan: the program, and then the arguments as they
/// are. No shell reads them.
pub open spec fn argv_of(program: Seq<u8>, args: Seq<Seq<char>>) -> Seq<Seq<u8>> {
    seq![program] + args.map_values(|arg: Seq<char>| encode_utf8(arg))
}

/// One environment entry.
pub open spec fn env_entry(entry: (Seq<char>, Seq<char>)) -> Seq<u8> {
    encode_utf8(entry.0) + seq![0x3Du8] + encode_utf8(entry.1)
}

/// The environment of a plan, in insertion order.
pub open spec fn envp_of(env: Seq<(Seq<char>, Seq<char>)>) -> Seq<Seq<u8>> {
    env.map_values(|entry: (Seq<char>, Seq<char>)| env_entry(entry))
}

/// The image of a plan whose program resolved to `program`.
pub open spec fn image_of(program: Seq<u8>, plan: PlanView) -> ImageView {
    ImageView {
        program,
        working_dir: plan.working_dir,
        argv: argv_of(program, plan.args),
        envp: envp_of(plan.env),
    }
}

/// Whether every byte string of an image can be a C string.
pub open spec fn is_clean(image: ImageView) -> bool {
    &&& !path::holds_nul(image.program)
    &&& image.working_dir is Some ==> !path::holds_nul(image.working_dir->0)
    &&& forall|i: int| 0 <= i < image.argv.len() ==> !path::holds_nul(#[trigger] image.argv[i])
    &&& forall|i: int| 0 <= i < image.envp.len() ==> !path::holds_nul(#[trigger] image.envp[i])
}

impl ExecImage {
    /// Build the image of a plan, or refuse the program where one of its byte
    /// strings holds a NUL.
    pub fn build(program: &PathBytes, plan: &ValidatedPlan) -> (built: Result<Self, PrepareError>)
        ensures
            match built {
                Ok(image) => image@ == image_of(program@, plan@) && is_clean(image@),
                Err(PrepareError::ProgramUnusable { program: named, errno }) => named@ == program@
                    && errno == 0 && !is_clean(image_of(program@, plan@)),
                Err(_) => false,
            },
    {
        let ghost whole = image_of(program@, plan@);
        let bytes = program.as_bytes();
        if bytes_hold_nul(bytes) {
            return Err(PrepareError::ProgramUnusable { program: program.clone(), errno: 0 });
        }
        let mut argv: Vec<Vec<u8>> = Vec::new();
        argv.push(copy_bytes(bytes));
        let args = plan.args();
        let mut i: usize = 0;
        assert(rows(argv@) =~= whole.argv.take(1));
        while i < args.len()
            invariant
                i <= args@.len(),
                text::texts(args@) == plan@.args,
                whole == image_of(program@, plan@),
                whole.argv.len() == args@.len() + 1,
                rows(argv@) == whole.argv.take(i + 1),
                forall|k: int| 0 <= k <= i ==> !path::holds_nul(#[trigger] whole.argv[k]),
            decreases args@.len() - i,
        {
            let entry = args[i].as_str().as_bytes();
            assert(text::texts(args@)[i as int] == args@[i as int]@);
            assert(whole.argv[i + 1] == entry@);
            if bytes_hold_nul(entry) {
                return Err(PrepareError::ProgramUnusable { program: program.clone(), errno: 0 });
            }
            let ghost done = rows(argv@);
            argv.push(copy_bytes(entry));
            i += 1;
            assert(rows(argv@) =~= done.push(entry@));
            assert(whole.argv.take(i + 1) =~= whole.argv.take(i as int).push(whole.argv[i as int]));
        }
        assert(rows(argv@) =~= whole.argv);

        let mut envp: Vec<Vec<u8>> = Vec::new();
        let env = plan.env();
        let mut i: usize = 0;
        assert(rows(envp@) =~= whole.envp.take(0));
        while i < env.len()
            invariant
                i <= env@.len(),
                plan::entries(env@) == plan@.env,
                whole == image_of(program@, plan@),
                whole.envp.len() == env@.len(),
                rows(envp@) == whole.envp.take(i as int),
                forall|k: int| 0 <= k < i ==> !path::holds_nul(#[trigger] whole.envp[k]),
            decreases env@.len() - i,
        {
            assert(plan::entries(env@)[i as int] == (env@[i as int].0@, env@[i as int].1@));
            let mut entry: Vec<u8> = copy_bytes(env[i].0.as_str().as_bytes());
            entry.push(0x3D);
            entry.extend_from_slice(env[i].1.as_str().as_bytes());
            assert(entry@ =~= whole.envp[i as int]);
            if bytes_hold_nul(entry.as_slice()) {
                return Err(PrepareError::ProgramUnusable { program: program.clone(), errno: 0 });
            }
            let ghost done = rows(envp@);
            let ghost last = entry@;
            envp.push(entry);
            i += 1;
            assert(rows(envp@) =~= done.push(last));
            assert(whole.envp.take(i as int) =~= whole.envp.take(i - 1).push(whole.envp[i - 1]));
        }
        assert(rows(envp@) =~= whole.envp);

        let working_dir = match plan.working_dir() {
            None => None,
            Some(dir) => {
                if bytes_hold_nul(dir.as_bytes()) {
                    return Err(PrepareError::ProgramUnusable { program: program.clone(), errno: 0 });
                }
                Some(copy_bytes(dir.as_bytes()))
            },
        };
        Ok(ExecImage { program: copy_bytes(bytes), working_dir, argv, envp })
    }
}

/// A text has a NUL exactly where its bytes have one.
proof fn lemma_nul_is_one_byte(text: Seq<char>)
    ensures
        path::holds_nul(encode_utf8(text)) <==> text.contains('\0'),
    decreases text.len(),
{
    if text.len() > 0 {
        let rest = text.drop_first();
        let head = vstd::utf8::encode_scalar(text[0] as u32);
        let tail = encode_utf8(rest);
        lemma_nul_is_one_byte(rest);
        lemma_nul_in_scalar(text[0]);
        assert(encode_utf8(text) == head + tail);
        assert(path::holds_nul(head + tail) <==> path::holds_nul(head) || path::holds_nul(tail))
            by {
            if path::holds_nul(head) {
                let i = choose|i: int| 0 <= i < head.len() && head[i] == 0u8;
                assert((head + tail)[i] == 0u8);
            }
            if path::holds_nul(tail) {
                let i = choose|i: int| 0 <= i < tail.len() && tail[i] == 0u8;
                assert((head + tail)[head.len() + i] == 0u8);
            }
            if path::holds_nul(head + tail) {
                let i = choose|i: int| 0 <= i < (head + tail).len() && (head + tail)[i] == 0u8;
                if i < head.len() {
                    assert(head[i] == 0u8);
                } else {
                    assert(tail[i - head.len()] == 0u8);
                }
            }
        }
        assert(text.contains('\0') <==> text[0] == '\0' || rest.contains('\0')) by {
            if text.contains('\0') {
                let i = choose|i: int| 0 <= i < text.len() && text[i] == '\0';
                if i > 0 {
                    assert(rest[i - 1] == '\0');
                }
            }
            if rest.contains('\0') {
                let i = choose|i: int| 0 <= i < rest.len() && rest[i] == '\0';
                assert(text[i + 1] == '\0');
            }
        }
    }
}

proof fn lemma_nul_in_scalar(c: char)
    ensures
        path::holds_nul(vstd::utf8::encode_scalar(c as u32)) <==> c == '\0',
{
    broadcast use vstd::utf8::char_is_scalar;

    let v = c as u32;
    let bytes = vstd::utf8::encode_scalar(v);
    assert(v <= 0x7F ==> ((v & 0x7F) as u8 == 0u8 <==> v == 0)) by (bit_vector);
    assert(forall|x: u8| #![auto] (0x80u8 | x) != 0u8 && (0xC0u8 | x) != 0u8 && (0xE0u8 | x) != 0u8
        && (0xF0u8 | x) != 0u8) by (bit_vector);
    if v <= 0x7F {
        assert(bytes[0] == 0u8 <==> v == 0);
    }
}

/// A plan that passed validation always has an image, as long as its program
/// and its working directory, which are paths, hold no NUL.
pub proof fn law_a_validated_plan_has_an_image(program: Seq<u8>, plan: PlanView)
    requires
        plan::fault(plan) is None,
        !path::holds_nul(program),
        plan.working_dir is Some ==> !path::holds_nul(plan.working_dir->0),
    ensures
        is_clean(image_of(program, plan)),
{
    plan::law_a_plan_passes_iff_every_rule_holds(plan);
    let image = image_of(program, plan);
    assert forall|i: int| 0 <= i < image.argv.len() implies !path::holds_nul(
        #[trigger] image.argv[i],
    ) by {
        if i > 0 {
            assert(!plan.args[i - 1].contains('\0'));
            lemma_nul_is_one_byte(plan.args[i - 1]);
        }
    }
    assert forall|i: int| 0 <= i < image.envp.len() implies !path::holds_nul(
        #[trigger] image.envp[i],
    ) by {
        let entry = plan.env[i];
        lemma_nul_is_one_byte(entry.0);
        lemma_nul_is_one_byte(entry.1);
        let key = encode_utf8(entry.0);
        let value = encode_utf8(entry.1);
        let whole = key + seq![0x3Du8] + value;
        assert(image.envp[i] == whole);
        if path::holds_nul(whole) {
            let k = choose|k: int| 0 <= k < whole.len() && whole[k] == 0u8;
            if k < key.len() {
                assert(key[k] == 0u8);
            } else if k > key.len() {
                assert(value[k - key.len() - 1] == 0u8);
            }
        }
    }
}

} // verus!
