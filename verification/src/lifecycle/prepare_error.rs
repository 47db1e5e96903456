//! Everything a preparation can refuse to do.

use vstd::prelude::*;
use vstd::string::StringExecFns;
use crate::path;
use crate::path::PathBytes;
use crate::text;
use crate::text::{push_decimal, push_signed};
use crate::time::Nanos;
use super::exit::SandboxExit;
use super::state::TransitionError;

verus! {

/// Everything a preparation can refuse to do.
#[derive(Debug, PartialEq, Eq)]
pub enum PrepareError {
    /// The program is not an absolute path. No search path is ever consulted.
    ProgramNotAbsolute {
        /// The program as the plan named it.
        program: String,
    },
    /// The program could not be inspected.
    ProgramUnusable {
        /// The path that was inspected.
        program: PathBytes,
        /// Platform error number from the inspection.
        errno: i32,
    },
    /// The program path names something that is not a regular file.
    ProgramNotAFile {
        /// The path that was inspected.
        program: PathBytes,
    },
    /// The plan asks for something that is not implemented. Refused rather than
    /// quietly ignored.
    UnsupportedPlanFeature {
        /// The feature that was asked for.
        feature: &'static str,
    },
    /// A detached plan reached a path that cannot supervise one.
    DetachedNeedsSupervisor,
    /// The detaching entry point was given a plan that did not ask for it.
    DetachedNotRequested,
    /// An interactive plan reached a path with nobody to own the terminal.
    InteractiveNeedsSupervisor,
    /// The pseudo-terminal could not be allocated.
    Terminal {
        /// Which step of the allocation failed.
        stage: &'static str,
        /// Platform error number.
        errno: i32,
    },
    /// This process's own executable could not be resolved.
    SupervisorImageUnreadable {
        /// Platform error number from the resolution.
        errno: i32,
    },
    /// The supervisor's control socket could not be created.
    ControlSocket {
        /// The socket path that was refused.
        path: PathBytes,
        /// Platform error number.
        errno: i32,
    },
    /// The store's path leaves no room for a control socket name.
    ControlSocketPathTooLong {
        /// The store directory the socket would live in.
        path: PathBytes,
        /// The length the full socket path would have had, with its NUL.
        needed: usize,
        /// What a socket address can hold.
        limit: usize,
    },
    /// The supervisor never reported that it was ready.
    SupervisorUnresponsive {
        /// The image that was re-executed.
        image: PathBytes,
        /// How long the handshake was waited for.
        waited: Nanos,
    },
    /// The supervisor died, or its handshake could not be read.
    SupervisorHandshake {
        /// Where the handshake stopped.
        stage: &'static str,
        /// Platform error number, or 0 where the failure was not one.
        errno: i32,
    },
    /// The platform policy could not be built.
    SandboxSpec {
        /// Why the policy was refused.
        reason: String,
    },
    /// A gate or status channel could not be created.
    ChannelSetup {
        /// Platform error number.
        errno: i32,
    },
    /// The activation token could not be drawn.
    TokenGeneration,
    /// The fork failed, so no child exists.
    Fork {
        /// Platform error number.
        errno: i32,
    },
    /// The child died before reaching the activation gate.
    ChildFailed {
        /// What was observed about the child's death.
        exit: SandboxExit,
    },
    /// The state machine refused a transition.
    Transition(TransitionError),
}

impl PrepareError {
    /// The text of an error.
    pub open spec fn text(self) -> Seq<char> {
        match self {
            PrepareError::ProgramNotAbsolute { program } =>
                "plan program must be an absolute path: "@ + program@,
            PrepareError::ProgramUnusable { program, errno } => "plan program "@ + path::lossy_utf8(
                program@,
            ) + " is unusable: errno "@ + text::signed_decimal(errno as int),
            PrepareError::ProgramNotAFile { program } => "plan program "@ + path::lossy_utf8(
                program@,
            ) + " is not a regular file"@,
            PrepareError::UnsupportedPlanFeature { feature } =>
                "plan feature not supported by this lifecycle: "@ + feature@,
            PrepareError::DetachedNeedsSupervisor =>
                "a detached run needs a supervisor process; use SessionStore::prepare_detached, and call nono::lifecycle::supervisor_entry() at the top of main()"@,
            PrepareError::DetachedNotRequested =>
                "SessionStore::prepare_detached needs a plan built with .detached(true)"@,
            PrepareError::InteractiveNeedsSupervisor =>
                "an interactive (PTY) run needs a supervisor to own the terminal; build the plan with .detached(true) and use SessionStore::prepare_detached"@,
            PrepareError::Terminal { stage, errno } => "pseudo-terminal setup failed at stage "@
                + stage@ + ": errno "@ + text::signed_decimal(errno as int),
            PrepareError::SupervisorImageUnreadable { errno } =>
                "this executable could not be resolved for re-execution: errno "@
                    + text::signed_decimal(errno as int),
            PrepareError::ControlSocket { path, errno } => "control socket "@ + path::lossy_utf8(
                path@,
            ) + " could not be created: errno "@ + text::signed_decimal(errno as int),
            PrepareError::ControlSocketPathTooLong { path, needed, limit } =>
                "control socket path for the store "@ + path::lossy_utf8(path@) + " needs "@
                    + text::decimal(needed as nat) + " bytes (limit "@ + text::decimal(limit as nat)
                    + ")"@,
            PrepareError::SupervisorUnresponsive { image, waited } =>
                "the re-executed supervisor "@ + path::lossy_utf8(image@)
                    + " did not report readiness within "@ + waited.text()
                    + "; the usual cause is that nono::lifecycle::supervisor_entry() is not called at the top of this binary's main()"@,
            PrepareError::SupervisorHandshake { stage, errno } =>
                "the supervisor handshake failed at stage "@ + stage@ + ": errno "@
                    + text::signed_decimal(errno as int),
            PrepareError::SandboxSpec { reason } => "sandbox policy could not be prepared: "@
                + reason@,
            PrepareError::ChannelSetup { errno } => "lifecycle channel setup failed: errno "@
                + text::signed_decimal(errno as int),
            PrepareError::TokenGeneration => "activation token could not be generated"@,
            PrepareError::Fork { errno } => "fork failed: errno "@ + text::signed_decimal(
                errno as int,
            ),
            PrepareError::ChildFailed { .. } => "child failed before reaching the activation gate"@,
            PrepareError::Transition(err) => err.text(),
        }
    }

    /// The error as a sentence.
    pub fn to_text(&self) -> (text: String)
        ensures
            text@ == self.text(),
    {
        match self {
            PrepareError::ProgramNotAbsolute { program } => {
                let mut text = "plan program must be an absolute path: ".to_string();
                text.append(program.as_str());
                text
            },
            PrepareError::ProgramUnusable { program, errno } => {
                let mut text = "plan program ".to_string();
                text.append(program.to_text().as_str());
                text.append(" is unusable: errno ");
                push_signed(&mut text, *errno as i64);
                text
            },
            PrepareError::ProgramNotAFile { program } => {
                let mut text = "plan program ".to_string();
                text.append(program.to_text().as_str());
                text.append(" is not a regular file");
                text
            },
            PrepareError::UnsupportedPlanFeature { feature } => {
                let mut text = "plan feature not supported by this lifecycle: ".to_string();
                text.append(feature);
                text
            },
            PrepareError::DetachedNeedsSupervisor =>
                "a detached run needs a supervisor process; use SessionStore::prepare_detached, and call nono::lifecycle::supervisor_entry() at the top of main()".to_string(),
            PrepareError::DetachedNotRequested =>
                "SessionStore::prepare_detached needs a plan built with .detached(true)".to_string(),
            PrepareError::InteractiveNeedsSupervisor =>
                "an interactive (PTY) run needs a supervisor to own the terminal; build the plan with .detached(true) and use SessionStore::prepare_detached".to_string(),
            PrepareError::Terminal { stage, errno } => {
                let mut text = "pseudo-terminal setup failed at stage ".to_string();
                text.append(stage);
                text.append(": errno ");
                push_signed(&mut text, *errno as i64);
                text
            },
            PrepareError::SupervisorImageUnreadable { errno } => {
                let mut text =
                    "this executable could not be resolved for re-execution: errno ".to_string();
                push_signed(&mut text, *errno as i64);
                text
            },
            PrepareError::ControlSocket { path, errno } => {
                let mut text = "control socket ".to_string();
                text.append(path.to_text().as_str());
                text.append(" could not be created: errno ");
                push_signed(&mut text, *errno as i64);
                text
            },
            PrepareError::ControlSocketPathTooLong { path, needed, limit } => {
                let mut text = "control socket path for the store ".to_string();
                text.append(path.to_text().as_str());
                text.append(" needs ");
                push_decimal(&mut text, *needed as u64);
                text.append(" bytes (limit ");
                push_decimal(&mut text, *limit as u64);
                text.append(")");
                text
            },
            PrepareError::SupervisorUnresponsive { image, waited } => {
                let mut text = "the re-executed supervisor ".to_string();
                text.append(image.to_text().as_str());
                text.append(" did not report readiness within ");
                text.append(waited.to_text().as_str());
                text.append(
                    "; the usual cause is that nono::lifecycle::supervisor_entry() is not called at the top of this binary's main()",
                );
                text
            },
            PrepareError::SupervisorHandshake { stage, errno } => {
                let mut text = "the supervisor handshake failed at stage ".to_string();
                text.append(stage);
                text.append(": errno ");
                push_signed(&mut text, *errno as i64);
                text
            },
            PrepareError::SandboxSpec { reason } => {
                let mut text = "sandbox policy could not be prepared: ".to_string();
                text.append(reason.as_str());
                text
            },
            PrepareError::ChannelSetup { errno } => {
                let mut text = "lifecycle channel setup failed: errno ".to_string();
                push_signed(&mut text, *errno as i64);
                text
            },
            PrepareError::TokenGeneration => "activation token could not be generated".to_string(),
            PrepareError::Fork { errno } => {
                let mut text = "fork failed: errno ".to_string();
                push_signed(&mut text, *errno as i64);
                text
            },
            PrepareError::ChildFailed { .. } =>
                "child failed before reaching the activation gate".to_string(),
            PrepareError::Transition(err) => err.to_text(),
        }
    }
}

/// The refusal for a channel that could not be set up.
pub fn channel_error(errno: Option<i32>) -> (error: PrepareError)
    ensures
        error == (PrepareError::ChannelSetup {
            errno: match errno {
                Some(errno) => errno,
                None => 0,
            },
        }),
{
    match errno {
        Some(errno) => PrepareError::ChannelSetup { errno },
        None => PrepareError::ChannelSetup { errno: 0 },
    }
}

} // verus!
