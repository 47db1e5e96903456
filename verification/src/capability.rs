//! What a sandboxed child is granted: coarse access grants, the network policy,
//! and where a grant came from.

use vstd::prelude::*;
use vstd::string::StringExecFns;
use crate::capability_modes::grant;
use crate::capability_modes::grant::{FsModeCapability, GrantView};
use crate::text;
use crate::text::{decimal_text, push_decimal, push_list};

verus! {

/// A coarse path grant: each value is a bundle of operations.
#[derive(Debug, Clone, Copy, PartialEq, Eq, Hash, Structural)]
pub enum AccessMode {
    /// Read files and list directories.
    Read,
    /// Change files and directories.
    Write,
    /// Both of the above.
    ReadWrite,
}

/// Where a grant came from.
#[derive(Debug, Clone, Copy, PartialEq, Eq, Hash, Structural)]
pub enum CapabilitySource {
    /// The caller wrote it.
    User,
}

/// How much of the network a child may reach.
#[derive(Debug, PartialEq, Eq)]
pub enum NetworkMode {
    /// No restriction.
    AllowAll,
    /// No network, apart from the ports allowed one by one.
    Blocked,
    /// Only a local proxy, and the ports it may listen on.
    ProxyOnly {
        /// The proxy's port.
        port: u16,
        /// Ports the child may bind.
        bind_ports: Vec<u16>,
    },
}

/// A copy of a list of ports.
pub fn copy_ports(ports: &Vec<u16>) -> (copy: Vec<u16>)
    ensures
        copy@ == ports@,
{
    let mut copy: Vec<u16> = Vec::new();
    let mut i: usize = 0;
    while i < ports.len()
        invariant
            i <= ports@.len(),
            copy@ == ports@.take(i as int),
        decreases ports@.len() - i,
    {
        copy.push(ports[i]);
        i += 1;
        assert(copy@ =~= ports@.take(i as int));
    }
    assert(copy@ =~= ports@);
    copy
}

/// The mode of a network policy and its ports.
pub enum NetworkView {
    /// No restriction.
    AllowAll,
    /// No network.
    Blocked,
    /// Only a local proxy.
    ProxyOnly {
        /// The proxy's port.
        port: u16,
        /// Ports the child may bind.
        bind_ports: Seq<u16>,
    },
}

impl View for NetworkMode {
    type V = NetworkView;

    open spec fn view(&self) -> NetworkView {
        match self {
            NetworkMode::AllowAll => NetworkView::AllowAll,
            NetworkMode::Blocked => NetworkView::Blocked,
            NetworkMode::ProxyOnly { port, bind_ports } => NetworkView::ProxyOnly {
                port: *port,
                bind_ports: bind_ports@,
            },
        }
    }
}

impl Clone for NetworkMode {
    fn clone(&self) -> (copy: Self)
        ensures
            copy@ == self@,
    {
        match self {
            NetworkMode::AllowAll => NetworkMode::AllowAll,
            NetworkMode::Blocked => NetworkMode::Blocked,
            NetworkMode::ProxyOnly { port, bind_ports } => NetworkMode::ProxyOnly {
                port: *port,
                bind_ports: copy_ports(bind_ports),
            },
        }
    }
}

/// What a child is granted: modes on paths, and the network.
#[derive(Debug, PartialEq, Eq)]
pub struct CapabilitySet {
    fs_modes: Vec<FsModeCapability>,
    network_mode: NetworkMode,
    tcp_connect_ports: Vec<u16>,
    localhost_port_ranges: Vec<(u16, u16)>,
}

/// What a [`CapabilitySet`] grants.
pub struct CapabilityView {
    /// The grants on paths, in the order they were made.
    pub fs_modes: Seq<GrantView>,
    /// The network policy.
    pub network: NetworkView,
    /// TCP ports that may be connected to although the network is restricted.
    pub tcp_connect_ports: Seq<u16>,
    /// Ranges of local ports, both ends included.
    pub localhost_port_ranges: Seq<(u16, u16)>,
}

/// What each grant says.
pub open spec fn grants_of(grants: Seq<FsModeCapability>) -> Seq<GrantView> {
    grants.map_values(|grant: FsModeCapability| grant@)
}

fn copy_grants(grants: &Vec<FsModeCapability>) -> (copy: Vec<FsModeCapability>)
    ensures
        grants_of(copy@) == grants_of(grants@),
{
    let mut copy: Vec<FsModeCapability> = Vec::new();
    let mut i: usize = 0;
    assert(grants_of(copy@) =~= grants_of(grants@).take(0));
    while i < grants.len()
        invariant
            i <= grants@.len(),
            grants_of(copy@) == grants_of(grants@).take(i as int),
        decreases grants@.len() - i,
    {
        let ghost done = grants_of(copy@);
        copy.push(grants[i].clone());
        i += 1;
        assert(grants_of(copy@) =~= done.push(grants_of(grants@)[i - 1]));
        assert(grants_of(grants@).take(i as int) =~= grants_of(grants@).take(i - 1).push(
            grants_of(grants@)[i - 1],
        ));
    }
    assert(grants_of(grants@).take(i as int) =~= grants_of(grants@));
    copy
}

impl View for CapabilitySet {
    type V = CapabilityView;

    closed spec fn view(&self) -> CapabilityView {
        CapabilityView {
            fs_modes: grants_of(self.fs_modes@),
            network: self.network_mode@,
            tcp_connect_ports: self.tcp_connect_ports@,
            localhost_port_ranges: self.localhost_port_ranges@,
        }
    }
}

/// A copy of a list of port ranges.
pub fn copy_ranges(ranges: &[(u16, u16)]) -> (copy: Vec<(u16, u16)>)
    ensures
        copy@ == ranges@,
{
    let mut copy: Vec<(u16, u16)> = Vec::new();
    let mut i: usize = 0;
    while i < ranges.len()
        invariant
            i <= ranges@.len(),
            copy@ == ranges@.take(i as int),
        decreases ranges@.len() - i,
    {
        copy.push(ranges[i]);
        i += 1;
        assert(copy@ =~= ranges@.take(i as int));
    }
    assert(copy@ =~= ranges@);
    copy
}

impl Clone for CapabilitySet {
    fn clone(&self) -> (copy: Self)
        ensures
            copy@ == self@,
    {
        CapabilitySet {
            fs_modes: copy_grants(&self.fs_modes),
            network_mode: self.network_mode.clone(),
            tcp_connect_ports: copy_ports(&self.tcp_connect_ports),
            localhost_port_ranges: copy_ranges(self.localhost_port_ranges.as_slice()),
        }
    }
}

impl CapabilitySet {
    /// No grant on any path, and an unrestricted network.
    pub fn new() -> (set: Self)
        ensures
            set@ == (CapabilityView {
                fs_modes: Seq::empty(),
                network: NetworkView::AllowAll,
                tcp_connect_ports: Seq::empty(),
                localhost_port_ranges: Seq::empty(),
            }),
    {
        let set = CapabilitySet {
            fs_modes: Vec::new(),
            network_mode: NetworkMode::AllowAll,
            tcp_connect_ports: Vec::new(),
            localhost_port_ranges: Vec::new(),
        };
        assert(set@.fs_modes =~= Seq::empty());
        set
    }

    /// This set plus one grant on a path.
    pub fn allow_path_modes(self, grant: FsModeCapability) -> (set: Self)
        ensures
            set@ == (CapabilityView { fs_modes: self@.fs_modes.push(grant@), ..self@ }),
    {
        let ghost before = self@.fs_modes;
        let mut fs_modes = self.fs_modes;
        fs_modes.push(grant);
        assert(grants_of(fs_modes@) =~= before.push(grant@));
        CapabilitySet {
            fs_modes,
            network_mode: self.network_mode,
            tcp_connect_ports: self.tcp_connect_ports,
            localhost_port_ranges: self.localhost_port_ranges,
        }
    }

    /// The grants on paths, in the order they were made.
    pub fn fs_modes(&self) -> (grants: &[FsModeCapability])
        ensures
            grants_of(grants@) == self@.fs_modes,
    {
        self.fs_modes.as_slice()
    }

    /// This set with the network policy replaced.
    pub fn set_network_mode(self, mode: NetworkMode) -> (set: Self)
        ensures
            set@ == (CapabilityView { network: mode@, ..self@ }),
    {
        CapabilitySet {
            fs_modes: self.fs_modes,
            network_mode: mode,
            tcp_connect_ports: self.tcp_connect_ports,
            localhost_port_ranges: self.localhost_port_ranges,
        }
    }

    /// This set with the network blocked.
    pub fn block_network(self) -> (set: Self)
        ensures
            set@ == (CapabilityView { network: NetworkView::Blocked, ..self@ }),
    {
        self.set_network_mode(NetworkMode::Blocked)
    }

    /// This set with the network reduced to a local proxy.
    pub fn proxy_only(self, port: u16) -> (set: Self)
        ensures
            set@ == (CapabilityView {
                network: NetworkView::ProxyOnly { port, bind_ports: Seq::empty() },
                ..self@
            }),
    {
        self.set_network_mode(NetworkMode::ProxyOnly { port, bind_ports: Vec::new() })
    }

    /// This set plus one TCP port that may be connected to.
    pub fn allow_tcp_connect(self, port: u16) -> (set: Self)
        ensures
            set@ == (CapabilityView {
                tcp_connect_ports: self@.tcp_connect_ports.push(port),
                ..self@
            }),
    {
        let mut ports = self.tcp_connect_ports;
        ports.push(port);
        CapabilitySet {
            fs_modes: self.fs_modes,
            network_mode: self.network_mode,
            tcp_connect_ports: ports,
            localhost_port_ranges: self.localhost_port_ranges,
        }
    }

    /// This set plus a range of local ports.
    pub fn allow_localhost_ports(self, first: u16, last: u16) -> (set: Self)
        ensures
            set@ == (CapabilityView {
                localhost_port_ranges: self@.localhost_port_ranges.push((first, last)),
                ..self@
            }),
    {
        let mut ranges = self.localhost_port_ranges;
        ranges.push((first, last));
        CapabilitySet {
            fs_modes: self.fs_modes,
            network_mode: self.network_mode,
            tcp_connect_ports: self.tcp_connect_ports,
            localhost_port_ranges: ranges,
        }
    }

    /// The network policy.
    pub fn network_mode(&self) -> (mode: &NetworkMode)
        ensures
            mode@ == self@.network,
    {
        &self.network_mode
    }

    /// TCP ports that may be connected to.
    pub fn tcp_connect_ports(&self) -> (ports: &[u16])
        ensures
            ports@ == self@.tcp_connect_ports,
    {
        self.tcp_connect_ports.as_slice()
    }

    /// Ranges of local ports.
    pub fn localhost_port_ranges(&self) -> (ranges: &[(u16, u16)])
        ensures
            ranges@ == self@.localhost_port_ranges,
    {
        self.localhost_port_ranges.as_slice()
    }
}

/// A list of ports.
pub open spec fn shown_ports(ports: Seq<u16>) -> Seq<char> {
    text::listed(ports.map_values(|port: u16| text::decimal(port as nat)))
}

/// A range of ports, as a pair.
pub open spec fn shown_range(range: (u16, u16)) -> Seq<char> {
    "("@ + text::decimal(range.0 as nat) + ", "@ + text::decimal(range.1 as nat) + ")"@
}

/// The text of a network policy.
pub open spec fn shown_network(network: NetworkView) -> Seq<char> {
    match network {
        NetworkView::AllowAll => "AllowAll"@,
        NetworkView::Blocked => "Blocked"@,
        NetworkView::ProxyOnly { port, bind_ports } => "ProxyOnly { port: "@ + text::decimal(
            port as nat,
        ) + ", bind_ports: "@ + shown_ports(bind_ports) + " }"@,
    }
}

/// The text of a set.
pub open spec fn shown(set: CapabilityView) -> Seq<char> {
    "CapabilitySet { fs_modes: "@ + text::listed(
        set.fs_modes.map_values(|grant: GrantView| grant::grant_text(grant)),
    ) + ", network_mode: "@ + shown_network(set.network) + ", tcp_connect_ports: "@ + shown_ports(
        set.tcp_connect_ports,
    ) + ", localhost_port_ranges: "@ + text::listed(
        set.localhost_port_ranges.map_values(|range: (u16, u16)| shown_range(range)),
    ) + " }"@
}

/// Append a list of ports.
fn push_ports(text: &mut String, ports: &Vec<u16>)
    ensures
        final(text)@ == old(text)@ + shown_ports(ports@),
{
    let ghost wanted = ports@.map_values(|port: u16| text::decimal(port as nat));
    let mut pieces: Vec<String> = Vec::new();
    let mut i: usize = 0;
    while i < ports.len()
        invariant
            i <= ports@.len(),
            wanted == ports@.map_values(|port: u16| text::decimal(port as nat)),
            text::texts(pieces@) =~= wanted.take(i as int),
        decreases ports@.len() - i,
    {
        let ghost before = text::texts(pieces@);
        pieces.push(decimal_text(ports[i] as u64));
        i += 1;
        assert(text::texts(pieces@) =~= before.push(wanted[i - 1]));
    }
    assert(text::texts(pieces@) =~= wanted);
    push_list(text, &pieces);
}

/// A range of ports, as a pair.
fn range_text(range: (u16, u16)) -> (text: String)
    ensures
        text@ == shown_range(range),
{
    let mut text = "(".to_string();
    push_decimal(&mut text, range.0 as u64);
    text.append(", ");
    push_decimal(&mut text, range.1 as u64);
    text.append(")");
    text
}

impl NetworkMode {
    /// The policy as text.
    pub fn to_text(&self) -> (text: String)
        ensures
            text@ == shown_network(self@),
    {
        match self {
            NetworkMode::AllowAll => "AllowAll".to_string(),
            NetworkMode::Blocked => "Blocked".to_string(),
            NetworkMode::ProxyOnly { port, bind_ports } => {
                let mut text = "ProxyOnly { port: ".to_string();
                push_decimal(&mut text, *port as u64);
                text.append(", bind_ports: ");
                push_ports(&mut text, bind_ports);
                text.append(" }");
                text
            },
        }
    }
}

impl CapabilitySet {
    /// The grants, each as text.
    fn grant_texts(&self) -> (pieces: Vec<String>)
        ensures
            text::texts(pieces@) == self@.fs_modes.map_values(
                |grant: GrantView| grant::grant_text(grant),
            ),
    {
        let ghost wanted = self@.fs_modes.map_values(|grant: GrantView| grant::grant_text(grant));
        let mut pieces: Vec<String> = Vec::new();
        let mut i: usize = 0;
        while i < self.fs_modes.len()
            invariant
                i <= self.fs_modes@.len(),
                wanted == self@.fs_modes.map_values(|grant: GrantView| grant::grant_text(grant)),
                text::texts(pieces@) =~= wanted.take(i as int),
            decreases self.fs_modes@.len() - i,
        {
            let ghost before = text::texts(pieces@);
            pieces.push(self.fs_modes[i].to_text());
            i += 1;
            assert(text::texts(pieces@) =~= before.push(wanted[i - 1]));
        }
        assert(text::texts(pieces@) =~= wanted);
        pieces
    }

    /// The ranges of local ports, each as text.
    fn range_texts(&self) -> (pieces: Vec<String>)
        ensures
            text::texts(pieces@) == self@.localhost_port_ranges.map_values(
                |range: (u16, u16)| shown_range(range),
            ),
    {
        let ghost wanted = self@.localhost_port_ranges.map_values(
            |range: (u16, u16)| shown_range(range),
        );
        let mut pieces: Vec<String> = Vec::new();
        let mut i: usize = 0;
        while i < self.localhost_port_ranges.len()
            invariant
                i <= self.localhost_port_ranges@.len(),
                wanted == self@.localhost_port_ranges.map_values(
                    |range: (u16, u16)| shown_range(range),
                ),
                text::texts(pieces@) =~= wanted.take(i as int),
            decreases self.localhost_port_ranges@.len() - i,
        {
            let ghost before = text::texts(pieces@);
            pieces.push(range_text(self.localhost_port_ranges[i]));
            i += 1;
            assert(text::texts(pieces@) =~= before.push(wanted[i - 1]));
        }
        assert(text::texts(pieces@) =~= wanted);
        pieces
    }

    /// The set as text.
    pub fn to_text(&self) -> (text: String)
        ensures
            text@ == shown(self@),
    {
        let mut text = "CapabilitySet { fs_modes: ".to_string();
        push_list(&mut text, &self.grant_texts());
        text.append(", network_mode: ");
        text.append(self.network_mode.to_text().as_str());
        text.append(", tcp_connect_ports: ");
        push_ports(&mut text, &self.tcp_connect_ports);
        text.append(", localhost_port_ranges: ");
        push_list(&mut text, &self.range_texts());
        text.append(" }");
        text
    }
}

} // verus!
