//! Whether the platform's own rules stand for a plan's policy, what its network
//! half needs besides them, and in which order a child puts it in force.
//!
//! Landlock knows files and TCP ports. Every other family needs a static filter,
//! and a policy that names one proxy needs a listener somebody answers.

use vstd::prelude::*;
use crate::capability::{
    copy_ports, copy_ranges, CapabilitySet, CapabilityView, NetworkMode, NetworkView,
};
use crate::capability_modes::landlock_map::LandlockRightsAvailable;
use crate::capability_modes::rules;
use crate::capability_modes::rules::landlock_rules;
use super::exit::PreExecStage;
use super::plan::ValidatedPlan;
use super::prepare_error::PrepareError;
use super::probe::Platform;

verus! {

/// The static network filter a policy needs.
#[derive(Debug, Clone, Copy, PartialEq, Eq, Structural)]
pub enum StaticNetworkFilter {
    /// No filter.
    Open,
    /// No internet socket at all.
    BlockAll,
    /// No socket but a TCP one.
    TcpOnly,
}

/// Whether a policy names ports one by one.
pub open spec fn names_ports(caps: CapabilityView) -> bool {
    caps.tcp_connect_ports.len() > 0 || caps.localhost_port_ranges.len() > 0
}

/// The filter that a policy needs: none for an open one, everything for a
/// blocked one without exceptions, and otherwise every family that port rules
/// cannot speak of.
pub open spec fn filter_for(caps: CapabilityView) -> StaticNetworkFilter {
    if caps.network is AllowAll && !names_ports(caps) {
        StaticNetworkFilter::Open
    } else if caps.network is Blocked && !names_ports(caps) {
        StaticNetworkFilter::BlockAll
    } else {
        StaticNetworkFilter::TcpOnly
    }
}

/// Which static filter this policy needs, if any. Decided from what was asked
/// for, never from what a kernel turned out to support.
pub fn required_network_filter(caps: &CapabilitySet) -> (filter: StaticNetworkFilter)
    ensures
        filter == filter_for(caps@),
{
    let open = caps.tcp_connect_ports().len() == 0 && caps.localhost_port_ranges().len() == 0;
    match caps.network_mode() {
        NetworkMode::AllowAll => if open {
            StaticNetworkFilter::Open
        } else {
            StaticNetworkFilter::TcpOnly
        },
        NetworkMode::Blocked => if open {
            StaticNetworkFilter::BlockAll
        } else {
            StaticNetworkFilter::TcpOnly
        },
        NetworkMode::ProxyOnly { .. } => StaticNetworkFilter::TcpOnly,
    }
}

/// The proxy-only rule that a listener is answered from.
#[derive(Debug, PartialEq, Eq)]
pub struct ProxyOnlyPolicy {
    /// The one port that may be connected to.
    pub proxy_port: u16,
    /// Ports that may be bound.
    pub bind_ports: Vec<u16>,
    /// Ranges of ports that may be bound, both ends included.
    pub bind_port_ranges: Vec<(u16, u16)>,
}

/// What a [`ProxyOnlyPolicy`] says.
pub struct ProxyView {
    /// The one port that may be connected to.
    pub proxy_port: u16,
    /// Ports that may be bound.
    pub bind_ports: Seq<u16>,
    /// Ranges of ports that may be bound.
    pub bind_port_ranges: Seq<(u16, u16)>,
}

impl View for ProxyOnlyPolicy {
    type V = ProxyView;

    open spec fn view(&self) -> ProxyView {
        ProxyView {
            proxy_port: self.proxy_port,
            bind_ports: self.bind_ports@,
            bind_port_ranges: self.bind_port_ranges@,
        }
    }
}

impl Clone for ProxyOnlyPolicy {
    fn clone(&self) -> (copy: Self)
        ensures
            copy@ == self@,
    {
        ProxyOnlyPolicy {
            proxy_port: self.proxy_port,
            bind_ports: copy_ports(&self.bind_ports),
            bind_port_ranges: copy_ranges(self.bind_port_ranges.as_slice()),
        }
    }
}

/// The proxy rule in a policy, if it has one.
pub open spec fn proxy_rule(caps: CapabilityView) -> Option<ProxyView> {
    match caps.network {
        NetworkView::ProxyOnly { port, bind_ports } => Some(
            ProxyView {
                proxy_port: port,
                bind_ports,
                bind_port_ranges: caps.localhost_port_ranges,
            },
        ),
        _ => None,
    }
}

/// The view of an optional rule.
pub open spec fn rule_of(policy: Option<ProxyOnlyPolicy>) -> Option<ProxyView> {
    match policy {
        Some(policy) => Some(policy@),
        None => None,
    }
}

/// The proxy-only rule this plan asks for, if any.
pub fn proxy_policy_for(plan: &ValidatedPlan) -> (policy: Option<ProxyOnlyPolicy>)
    ensures
        rule_of(policy) == proxy_rule(plan@.capabilities),
{
    let caps = plan.capabilities();
    match caps.network_mode() {
        NetworkMode::ProxyOnly { port, bind_ports } => Some(
            ProxyOnlyPolicy {
                proxy_port: *port,
                bind_ports: copy_ports(bind_ports),
                bind_port_ranges: copy_ranges(caps.localhost_port_ranges()),
            },
        ),
        _ => None,
    }
}

/// The parts of a platform policy that are put in force one after another.
#[derive(Debug, Clone, Copy, PartialEq, Eq, Structural)]
pub struct PlatformSandbox {
    /// The static filter.
    pub network_filter: StaticNetworkFilter,
    /// Whether there is a listener for proxy-only egress, and if so whether it
    /// also answers for binding.
    pub proxy_notify: Option<bool>,
}

/// The parts that a policy needs on a platform. Only Linux needs any beside its
/// rules: elsewhere the rules themselves speak of addresses and families.
pub open spec fn parts_for(caps: CapabilityView, platform: Platform) -> PlatformSandbox {
    if platform is Linux {
        PlatformSandbox {
            network_filter: filter_for(caps),
            proxy_notify: match caps.network {
                NetworkView::ProxyOnly { bind_ports, .. } => Some(bind_ports.len() > 0),
                _ => None,
            },
        }
    } else {
        PlatformSandbox { network_filter: StaticNetworkFilter::Open, proxy_notify: None }
    }
}

/// Why a platform's rules do not stand for a policy, where they do not: they
/// could not be built, or Landlock refuses a grant.
pub open spec fn spec_fault(
    caps: CapabilityView,
    platform: Platform,
    ruleset: Result<LandlockRightsAvailable, String>,
) -> Option<Seq<char>> {
    match ruleset {
        Err(reason) => Some(reason@),
        Ok(available) => if platform is Linux {
            rules::first_refusal(caps.fs_modes, available.version())
        } else {
            None
        },
    }
}

impl PlatformSandbox {
    /// Decide the parts of a plan's policy on a platform. `ruleset` is which
    /// rights the platform's own rules were built from, or why they could not be
    /// built. A grant that those rights cannot express is refused.
    pub fn build(
        plan: &ValidatedPlan,
        platform: Platform,
        ruleset: Result<LandlockRightsAvailable, String>,
    ) -> (built: Result<Self, PrepareError>)
        ensures
            match built {
                Ok(parts) => spec_fault(plan@.capabilities, platform, ruleset) is None && parts
                    == parts_for(plan@.capabilities, platform),
                Err(PrepareError::SandboxSpec { reason }) => spec_fault(
                    plan@.capabilities,
                    platform,
                    ruleset,
                ) == Some(reason@),
                Err(_) => false,
            },
    {
        let available = match ruleset {
            Ok(available) => available,
            Err(reason) => {
                return Err(PrepareError::SandboxSpec { reason });
            },
        };
        match platform {
            Platform::Linux => {
                if let Err(reason) = landlock_rules(plan.capabilities(), available) {
                    return Err(PrepareError::SandboxSpec { reason });
                }
            },
            _ => {
                return Ok(
                    PlatformSandbox {
                        network_filter: StaticNetworkFilter::Open,
                        proxy_notify: None,
                    },
                );
            },
        }
        let caps = plan.capabilities();
        let proxy_notify = match caps.network_mode() {
            NetworkMode::ProxyOnly { bind_ports, .. } => Some(bind_ports.len() > 0),
            _ => None,
        };
        Ok(PlatformSandbox { network_filter: required_network_filter(caps), proxy_notify })
    }

    /// What to do first.
    pub fn first_part(&self) -> (part: SandboxPart)
        ensures
            part == SandboxPart::Ruleset,
    {
        SandboxPart::Ruleset
    }

    /// What to do once `part` answered. The parts stack: each is in force before
    /// the next one is tried, and a part that fails ends the sequence.
    pub fn after_part(&self, part: SandboxPart, answer: Result<i32, i32>) -> (next: Applying)
        ensures
            next == part_after(*self, part, answer),
    {
        match (part, answer) {
            (SandboxPart::Ruleset, Err(errno)) => Applying::Failed {
                stage: PreExecStage::SandboxApply,
                errno,
            },
            (_, Err(errno)) => Applying::Failed { stage: PreExecStage::NetworkFilter, errno },
            (SandboxPart::Ruleset, Ok(_)) => match self.network_filter {
                StaticNetworkFilter::Open => self.listener_or_done(),
                StaticNetworkFilter::BlockAll => Applying::Next(SandboxPart::BlockAll),
                StaticNetworkFilter::TcpOnly => Applying::Next(SandboxPart::TcpOnly),
            },
            (SandboxPart::BlockAll, Ok(_)) | (SandboxPart::TcpOnly, Ok(_)) =>
                self.listener_or_done(),
            (SandboxPart::Listener, Ok(fd)) => Applying::Done { listener: Some(fd) },
        }
    }

    fn listener_or_done(&self) -> (next: Applying)
        ensures
            next == last_part(*self),
    {
        match self.proxy_notify {
            Some(_) => Applying::Next(SandboxPart::Listener),
            None => Applying::Done { listener: None },
        }
    }
}

/// One part of putting a policy in force.
#[derive(Debug, Clone, Copy, PartialEq, Eq, Structural)]
pub enum SandboxPart {
    /// Restrict the process to the platform's own rules.
    Ruleset,
    /// Install the filter that denies every internet socket.
    BlockAll,
    /// Install the filter that denies every socket but TCP ones.
    TcpOnly,
    /// Install the listener. It answers with its descriptor.
    Listener,
}

/// Where putting a policy in force stands.
#[derive(Debug, Clone, Copy, PartialEq, Eq, Structural)]
pub enum Applying {
    /// Do this next.
    Next(SandboxPart),
    /// The whole policy is in force.
    Done {
        /// The listener's descriptor, where there is one.
        listener: Option<i32>,
    },
    /// A part failed, and the child must not go on.
    Failed {
        /// Which kind of part.
        stage: PreExecStage,
        /// Platform error number.
        errno: i32,
    },
}

/// What is left once the static filter is settled.
pub open spec fn last_part(parts: PlatformSandbox) -> Applying {
    match parts.proxy_notify {
        Some(_) => Applying::Next(SandboxPart::Listener),
        None => Applying::Done { listener: None },
    }
}

/// What follows a part that gave this answer.
pub open spec fn part_after(
    parts: PlatformSandbox,
    part: SandboxPart,
    answer: Result<i32, i32>,
) -> Applying {
    match answer {
        Err(errno) => Applying::Failed {
            stage: if part is Ruleset {
                PreExecStage::SandboxApply
            } else {
                PreExecStage::NetworkFilter
            },
            errno,
        },
        Ok(fd) => match part {
            SandboxPart::Ruleset => match parts.network_filter {
                StaticNetworkFilter::Open => last_part(parts),
                StaticNetworkFilter::BlockAll => Applying::Next(SandboxPart::BlockAll),
                StaticNetworkFilter::TcpOnly => Applying::Next(SandboxPart::TcpOnly),
            },
            SandboxPart::Listener => Applying::Done { listener: Some(fd) },
            _ => last_part(parts),
        },
    }
}

/// Whether `part` is one that a policy asked for.
pub open spec fn asked_for(parts: PlatformSandbox, part: SandboxPart) -> bool {
    match part {
        SandboxPart::Ruleset => true,
        SandboxPart::BlockAll => parts.network_filter is BlockAll,
        SandboxPart::TcpOnly => parts.network_filter is TcpOnly,
        SandboxPart::Listener => parts.proxy_notify is Some,
    }
}

/// The order of the parts.
pub open spec fn rank(part: SandboxPart) -> int {
    match part {
        SandboxPart::Ruleset => 0,
        SandboxPart::BlockAll => 1,
        SandboxPart::TcpOnly => 1,
        SandboxPart::Listener => 2,
    }
}

/// A policy is in force only with every part it asked for: what follows a part
/// is a later part that was asked for with none skipped, and the sequence is
/// done only where no part that was asked for is left. A part that failed ends
/// it.
pub proof fn law_no_part_is_skipped(
    parts: PlatformSandbox,
    part: SandboxPart,
    answer: Result<i32, i32>,
)
    requires
        asked_for(parts, part),
    ensures
        answer is Err <==> part_after(parts, part, answer) is Failed,
        part_after(parts, part, answer) matches Applying::Next(next) ==> asked_for(parts, next)
            && rank(next) > rank(part) && forall|other: SandboxPart| #[trigger]
            rank(part) < #[trigger] rank(other) < rank(next) ==> !asked_for(parts, other),
        part_after(parts, part, answer) is Done ==> forall|other: SandboxPart| #[trigger]
            rank(other) > rank(part) ==> !asked_for(parts, other),
{
}

/// On Linux a restrictive network policy is never left with nothing but port
/// rules, an open one is never filtered, and a listener is there exactly where
/// there is a rule to answer it from. Elsewhere the rules are all there is.
pub proof fn law_restriction_arms_a_filter(caps: CapabilityView, platform: Platform)
    ensures
        platform is Linux ==> (parts_for(caps, platform).network_filter is Open
            <==> caps.network is AllowAll && !names_ports(caps)),
        platform is Linux ==> (parts_for(caps, platform).proxy_notify is Some <==> proxy_rule(
            caps,
        ) is Some),
        !(platform is Linux) ==> part_after(
            parts_for(caps, platform),
            SandboxPart::Ruleset,
            Ok::<i32, i32>(0),
        ) == (Applying::Done { listener: None }),
{
}

} // verus!
