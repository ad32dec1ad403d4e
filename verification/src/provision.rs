//! Provisioning: defining new services with the operating system and
//! recording them in the registry. Nothing here starts a service.
//!
//! The work outside this library (asking for a port, creating directories,
//! copying the binary, installing, saving the registry) is done by a driver.
//! A session tells the driver what to do next and is told how it went.
use vstd::prelude::*;
use vstd::string::*;
use crate::install::{
    build_daemon_context, daemon_context, faucet_args, parsed_label, plain_label, InstallCtxView,
    InstallFaucetServiceCtxBuilder, InstallNodeServiceCtxBuilder, ServiceInstallCtx,
};
use crate::text::lemma_decimal_digits;
use crate::paths::{file_name, final_component, join_path, joined_path};
use crate::registry::{
    ascending_numbers, contains_text, densely_numbered, env_texts, has_genesis,
    highest_number, lemma_highest_number, node_name,
    node_port_in_use, node_service_name, rpc_in_use, texts, texts_distinct, DaemonService,
    FaucetService, Ipv4Address, NodeService, Registry, ServiceStatus, SocketAddress,
};

verus! {

/// What is asked for when node services are added.
#[derive(Clone, Debug, PartialEq, Eq)]
pub struct AddServiceOptions {
    pub bootstrap_peers: Vec<String>,
    /// How many services to add; one where it is not given.
    pub count: Option<u16>,
    pub env_variables: Option<Vec<(String, String)>>,
    pub genesis: bool,
    pub local: bool,
    /// A custom port for the node to listen on.
    pub node_port: Option<u16>,
    /// The address to bind RPC sockets to; the loopback address where absent.
    pub rpc_address: Option<Ipv4Address>,
    /// Where the fetched node binary was staged.
    pub safenode_bin_path: String,
    pub safenode_dir_path: String,
    pub service_data_dir_path: String,
    pub service_log_dir_path: String,
    pub url: Option<String>,
    pub user: String,
    pub version: String,
}

/// Why an add operation failed.
#[derive(Clone, Debug, PartialEq, Eq)]
pub enum AddError {
    /// More than one genesis node was asked for.
    GenesisMultipleNodes,
    /// The registry already holds a genesis node.
    GenesisAlreadyExists,
    /// A custom port was given for more than one service.
    CustomPortMultipleNodes,
    /// The custom port belongs to a node of the registry.
    CustomPortInUse,
    /// The staged binary's path has no final component.
    MissingFileName,
    /// The faucet is already recorded.
    FaucetAlreadyExists,
    /// The daemon is already recorded.
    DaemonAlreadyExists,
    /// The controller could not hand out a port.
    PortAllocation(String),
    /// The registry could not be saved.
    Save(String),
    /// A directory could not be created, or a binary not copied or removed.
    Filesystem(String),
    /// The controller refused to install the service.
    Install(String),
    /// Some services of the batch could not be added.
    ServicesFailed,
}

impl AddError {
    /// The message of the error, as shown to the operator.
    pub open spec fn message_text(&self) -> Seq<char> {
        match self {
            AddError::GenesisMultipleNodes => "A genesis node can only be added as a single node"@,
            AddError::GenesisAlreadyExists => "A genesis node already exists"@,
            AddError::CustomPortMultipleNodes => "Custom node port can only be used when adding a single service"@,
            AddError::CustomPortInUse => "Custom node port is already used by another service"@,
            AddError::MissingFileName => "Could not get filename from the safenode download path"@,
            AddError::FaucetAlreadyExists => "A faucet service has already been created"@,
            AddError::DaemonAlreadyExists => "A safenodemand service has already been created"@,
            AddError::PortAllocation(e) => e@,
            AddError::Save(e) => e@,
            AddError::Filesystem(e) => e@,
            AddError::Install(e) => e@,
            AddError::ServicesFailed => "Failed to add one or more services"@,
        }
    }

    /// The message of the error, as shown to the operator.
    pub fn message(&self) -> (s: String)
        ensures
            s@ == self.message_text(),
    {
        match self {
            AddError::GenesisMultipleNodes => String::from_str(
                "A genesis node can only be added as a single node",
            ),
            AddError::GenesisAlreadyExists => String::from_str("A genesis node already exists"),
            AddError::CustomPortMultipleNodes => String::from_str(
                "Custom node port can only be used when adding a single service",
            ),
            AddError::CustomPortInUse => String::from_str(
                "Custom node port is already used by another service",
            ),
            AddError::MissingFileName => String::from_str(
                "Could not get filename from the safenode download path",
            ),
            AddError::FaucetAlreadyExists => String::from_str(
                "A faucet service has already been created",
            ),
            AddError::DaemonAlreadyExists => String::from_str(
                "A safenodemand service has already been created",
            ),
            AddError::PortAllocation(e) => e.clone(),
            AddError::Save(e) => e.clone(),
            AddError::Filesystem(e) => e.clone(),
            AddError::Install(e) => e.clone(),
            AddError::ServicesFailed => String::from_str("Failed to add one or more services"),
        }
    }
}

/// How many services `options` asks for.
pub open spec fn requested(options: AddServiceOptions) -> nat {
    match options.count {
        Some(c) => c as nat,
        None => 1,
    }
}

/// The precondition that `options` breaks on a registry with these nodes, if
/// any: the first in the order in which they are checked.
pub open spec fn add_refusal(options: AddServiceOptions, nodes: Seq<NodeService>) -> Option<
    AddError,
> {
    if options.genesis && requested(options) > 1 {
        Some(AddError::GenesisMultipleNodes)
    } else if options.genesis && has_genesis(nodes) {
        Some(AddError::GenesisAlreadyExists)
    } else if options.node_port is Some && requested(options) > 1 {
        Some(AddError::CustomPortMultipleNodes)
    } else if options.node_port is Some && node_port_in_use(nodes, options.node_port->Some_0) {
        Some(AddError::CustomPortInUse)
    } else if final_component(options.safenode_bin_path@) is None {
        Some(AddError::MissingFileName)
    } else {
        None
    }
}

/// `merged` is `before` followed by the texts of `extra` that `before` lacks,
/// each once, in the order of their first appearance.
pub open spec fn merged_peers(before: Seq<Seq<char>>, extra: Seq<Seq<char>>) -> Seq<Seq<char>>
    decreases extra.len(),
{
    if extra.len() == 0 {
        before
    } else {
        let so_far = merged_peers(before, extra.drop_last());
        if so_far.contains(extra.last()) {
            so_far
        } else {
            so_far.push(extra.last())
        }
    }
}

/// A copy of a list of name and value pairs.
pub fn copy_pairs(v: &Vec<(String, String)>) -> (r: Vec<(String, String)>)
    ensures
        r@ == v@,
{
    let mut r: Vec<(String, String)> = Vec::new();
    let mut i: usize = 0;
    while i < v.len()
        invariant
            i <= v.len(),
            r@ == v@.take(i as int),
        decreases v.len() - i,
    {
        let name = v[i].0.clone();
        let value = v[i].1.clone();
        r.push((name, value));
        assert(r@ =~= v@.take(i + 1));
        i = i + 1;
    }
    assert(v@.take(v.len() as int) =~= v@);
    r
}

/// A copy of an optional environment.
pub fn copy_env(e: &Option<Vec<(String, String)>>) -> (r: Option<Vec<(String, String)>>)
    ensures
        env_texts(r) == env_texts(*e),
        r is Some <==> *e is Some,
{
    match e {
        Some(v) => Some(copy_pairs(v)),
        None => None,
    }
}

/// Adds to `peers` the strings of `extra` that it lacks, each once and in
/// order, and says whether anything was added.
pub fn merge_peers(peers: &mut Vec<String>, extra: &Vec<String>) -> (changed: bool)
    ensures
        texts(final(peers)@) == merged_peers(texts(old(peers)@), texts(extra@)),
        changed == (final(peers)@.len() != old(peers)@.len()),
        final(peers)@.len() >= old(peers)@.len(),
        final(peers)@.take(old(peers)@.len() as int) == old(peers)@,
        texts_distinct(old(peers)@) ==> texts_distinct(final(peers)@),
{
    let mut changed = false;
    let mut i: usize = 0;
    assert(texts(extra@).take(0) =~= Seq::<Seq<char>>::empty());
    assert(peers@.take(peers@.len() as int) =~= peers@);
    while i < extra.len()
        invariant
            i <= extra.len(),
            texts(peers@) == merged_peers(texts(old(peers)@), texts(extra@).take(i as int)),
            changed == (peers@.len() != old(peers)@.len()),
            peers@.len() >= old(peers)@.len(),
            peers@.take(old(peers)@.len() as int) == old(peers)@,
            texts_distinct(old(peers)@) ==> texts_distinct(peers@),
        decreases extra.len() - i,
    {
        let ghost before = peers@;
        let ghost done = texts(extra@).take(i as int);
        let ghost next = texts(extra@).take(i + 1);
        proof {
            assert(next.drop_last() =~= done);
            assert(next.last() == extra@[i as int]@);
        }
        let present = contains_text(peers, &extra[i]);
        proof {
            let t = extra@[i as int]@;
            if present {
                let k = choose|k: int| 0 <= k < before.len() && (#[trigger] before[k])@ == t;
                assert(texts(before)[k] == t);
            } else {
                if texts(before).contains(t) {
                    let k = choose|k: int| 0 <= k < texts(before).len() && texts(before)[k] == t;
                    assert(before[k]@ == t);
                }
            }
            assert(present == texts(before).contains(t));
        }
        if !present {
            peers.push(extra[i].clone());
            changed = true;
            proof {
                assert(texts(peers@) =~= texts(before).push(extra@[i as int]@));
                assert(peers@.take(old(peers)@.len() as int) =~= before.take(
                    old(peers)@.len() as int,
                ));
            }
        }
        i = i + 1;
    }
    assert(texts(extra@).take(extra.len() as int) =~= texts(extra@));
    changed
}


/// A service that was added, as reported when the operation ends.
#[derive(Clone, Debug, PartialEq, Eq)]
pub struct AddedService {
    pub number: u16,
    pub service_name: String,
    pub safenode_path: String,
    pub data_dir_path: String,
    pub log_dir_path: String,
    pub rpc_socket_addr: SocketAddress,
}

/// A service that could not be added, with the reason.
#[derive(Clone, Debug, PartialEq, Eq)]
pub struct FailedService {
    pub number: u16,
    pub service_name: String,
    pub error: String,
}

/// The outside work that defines one node service: create both directories
/// for the service user, copy the staged binary, install the service.
#[derive(Clone, Debug, PartialEq, Eq)]
pub struct NodeProvision {
    pub data_dir_path: String,
    pub log_dir_path: String,
    pub user: String,
    pub binary_source: String,
    pub binary_target: String,
    pub install: ServiceInstallCtx,
}

/// What the driver is asked to do next.
#[derive(Clone, Debug, PartialEq, Eq)]
pub enum AddAction {
    /// Persist the registry as it stands.
    SaveRegistry,
    /// Ask the controller for a free port.
    AllocatePort,
    /// Create the directories, copy the binary, install the service.
    Provision(NodeProvision),
    /// Remove the staged binary at this path.
    RemoveStagedBinary(String),
    /// Nothing is left to do.
    Finished,
}

/// How the action that was asked for went.
#[derive(Clone, Debug, PartialEq, Eq)]
pub enum ActionOutcome {
    /// It was carried out.
    Done,
    /// The controller handed out this port.
    Port(u16),
    /// It failed, with this message.
    Failed(String),
}

/// Where a session stands.
#[derive(Clone, Copy, Debug, PartialEq, Eq, Structural)]
pub enum AddPhase {
    /// The merged settings are being saved.
    SavingSettings,
    /// A port for the next node was asked for.
    AllocatingPort,
    /// The next node is being provisioned.
    Provisioning,
    /// The node was recorded and the registry is being saved.
    SavingNode,
    /// The staged binary is being removed.
    Cleaning,
    /// The operation has ended.
    Finished,
}

/// The node in flight.
#[derive(Clone, Debug, PartialEq, Eq)]
pub struct PendingNode {
    pub service_name: String,
    pub rpc_socket_addr: SocketAddress,
    pub safenode_path: String,
    pub data_dir_path: String,
    pub log_dir_path: String,
}

/// One add operation in progress.
#[derive(Clone, Debug, PartialEq, Eq)]
pub struct AddSession {
    pub options: AddServiceOptions,
    /// The final component of the staged binary's path.
    pub file_name: String,
    pub phase: AddPhase,
    /// How many nodes the registry held when the operation began.
    pub base: usize,
    /// The highest number that a node had when the operation began.
    pub numbered: u16,
    /// How many services are neither added nor failed yet.
    pub remaining: u16,
    pub pending: Option<PendingNode>,
    pub added: Vec<AddedService>,
    pub failed: Vec<FailedService>,
    /// Why the operation failed, once it has.
    pub error: Option<AddError>,
}

/// The address of the RPC socket for `port`: on the configured address, or
/// on the loopback address where none is configured.
pub open spec fn rpc_address(options: AddServiceOptions, port: u16) -> SocketAddress {
    match options.rpc_address {
        Some(ip) => SocketAddress { ip, port },
        None => SocketAddress { ip: Ipv4Address { a: 127, b: 0, c: 0, d: 1 }, port },
    }
}

/// The record that is appended for a node that was installed.
pub open spec fn fresh_node(options: AddServiceOptions, pending: PendingNode, number: u16) -> NodeService {
    NodeService {
        service_name: pending.service_name,
        number,
        user: options.user,
        version: options.version,
        genesis: options.genesis,
        local: options.local,
        rpc_socket_addr: pending.rpc_socket_addr,
        node_port: options.node_port,
        listen_addr: None,
        peer_id: None,
        pid: None,
        status: ServiceStatus::Added,
        safenode_path: pending.safenode_path,
        data_dir_path: pending.data_dir_path,
        log_dir_path: pending.log_dir_path,
        connected_peers: None,
        critical_failure: None,
    }
}

/// The report entry of a node that was installed.
pub open spec fn added_entry(pending: PendingNode, number: u16) -> AddedService {
    AddedService {
        number,
        service_name: pending.service_name,
        safenode_path: pending.safenode_path,
        data_dir_path: pending.data_dir_path,
        log_dir_path: pending.log_dir_path,
        rpc_socket_addr: pending.rpc_socket_addr,
    }
}

/// The node in flight is node `number` of this operation with its RPC socket
/// on `port`: named after its number, with its directories under the
/// configured ones and its binary in its data directory.
pub open spec fn pending_for(
    pending: PendingNode,
    options: AddServiceOptions,
    file_name: Seq<char>,
    number: nat,
    port: u16,
) -> bool {
    &&& pending.service_name@ == node_name(number)
    &&& pending.rpc_socket_addr == rpc_address(options, port)
    &&& pending.data_dir_path@ == joined_path(options.service_data_dir_path@, node_name(number))
    &&& pending.log_dir_path@ == joined_path(options.service_log_dir_path@, node_name(number))
    &&& pending.safenode_path@ == joined_path(pending.data_dir_path@, file_name)
}

/// The provisioning that is asked for the node in flight.
pub open spec fn provision_for(p: NodeProvision, pending: PendingNode, options: AddServiceOptions) -> bool {
    &&& p.data_dir_path == pending.data_dir_path
    &&& p.log_dir_path == pending.log_dir_path
    &&& p.user == options.user
    &&& p.binary_source == options.safenode_bin_path
    &&& p.binary_target == pending.safenode_path
    &&& !pending.service_name@.contains('.') ==> p.install.label@ == plain_label(
        pending.service_name@,
    )
    &&& p.install@ == (InstallNodeServiceCtxBuilder {
        bootstrap_peers: options.bootstrap_peers,
        data_dir_path: pending.data_dir_path,
        env_variables: options.env_variables,
        genesis: options.genesis,
        local: options.local,
        log_dir_path: pending.log_dir_path,
        name: pending.service_name,
        node_port: options.node_port,
        rpc_socket_addr: pending.rpc_socket_addr,
        safenode_path: pending.safenode_path,
        service_user: options.user,
    }).context()
}

impl AddSession {
    /// How many services the operation was asked to add.
    pub open spec fn total(&self) -> nat {
        self.added@.len() + self.failed@.len() + self.remaining as nat
    }

    /// The number of the next node to attempt, or of the one in flight.
    pub open spec fn next_number(&self) -> nat {
        self.numbered as nat + self.added@.len() + self.failed@.len() + 1
    }

    /// Some node of this operation failed before node `number` was attempted.
    pub open spec fn failure_before(&self, number: u16) -> bool {
        self.failed@.len() > 0 && self.failed@[0].number <= number
    }

    /// What holds of a session and the registry it works on, from `begin` on
    /// and after every `advance`.
    pub open spec fn inv(&self, registry: &Registry) -> bool {
        let a = self.added@.len();
        let f = self.failed@.len();
        let first = self.numbered as nat + 1;
        &&& registry.nodes@.len() == self.base + a
        &&& self.numbered + self.total() <= u16::MAX
        &&& forall|k: int|
            0 <= k < registry.nodes@.len() ==> (#[trigger] registry.nodes@[k]).number
                <= self.numbered + a + f
        &&& self.total() == requested(self.options)
        &&& final_component(self.options.safenode_bin_path@) == Some(self.file_name@)
        &&& (self.phase is AllocatingPort || self.phase is Provisioning) ==> self.remaining >= 1
        &&& self.phase is Provisioning <==> self.pending is Some
        &&& self.phase is Provisioning ==> {
            &&& exists|port: u16|
                pending_for(
                    self.pending->Some_0,
                    self.options,
                    self.file_name@,
                    self.next_number(),
                    port,
                )
            &&& !rpc_in_use(registry.nodes@, self.pending->Some_0.rpc_socket_addr)
        }
        &&& self.phase is SavingSettings ==> a == 0 && f == 0
        &&& self.phase is SavingNode ==> a >= 1
        &&& self.phase is Cleaning ==> self.remaining == 0
        &&& self.error is Some ==> self.phase is Finished
        &&& self.phase is Finished && self.error is None ==> self.remaining == 0 && f == 0
        &&& forall|i: int|
            0 <= i < a ==> {
                &&& (#[trigger] registry.nodes@[self.base + i]).number == self.added@[i].number
                &&& registry.nodes@[self.base + i].service_name@ == node_name(
                    self.added@[i].number as nat,
                )
                &&& registry.nodes@[self.base + i].service_name == self.added@[i].service_name
                &&& registry.nodes@[self.base + i].status is Added
            }
        &&& forall|i: int|
            0 <= i < a ==> first + i <= (#[trigger] self.added@[i]).number <= self.numbered + a + f
        &&& forall|i: int, j: int|
            0 <= i < j < a ==> (#[trigger] self.added@[i]).number < (#[trigger] self.added@[j]).number
        &&& forall|j: int|
            0 <= j < f ==> first <= (#[trigger] self.failed@[j]).number <= self.numbered + a + f
        &&& forall|j: int, k: int|
            0 <= j < k < f ==> (#[trigger] self.failed@[j]).number < (#[trigger] self.failed@[k]).number
        &&& forall|i: int|
            0 <= i < a && !self.failure_before((#[trigger] self.added@[i]).number)
                ==> self.added@[i].number == first + i
        &&& self.options.node_port is Some ==> self.total() <= 1
        &&& self.options.genesis ==> self.total() <= 1
        &&& self.options.node_port is Some && a == 0 ==> !node_port_in_use(
            registry.nodes@,
            self.options.node_port->Some_0,
        )
        &&& self.options.genesis && a == 0 ==> !has_genesis(registry.nodes@)
    }
}


/// The phase that follows when a node is done, or when the loop begins: a
/// port is asked for while services remain, then the staged binary goes.
pub open spec fn phase_after(remaining: u16) -> AddPhase {
    if remaining > 0 {
        AddPhase::AllocatingPort
    } else {
        AddPhase::Cleaning
    }
}

/// The action that a session in `phase` waits for, but for the provisioning
/// of a node, which `provision_for` describes.
pub open spec fn action_in(phase: AddPhase, options: AddServiceOptions, action: AddAction) -> bool {
    match phase {
        AddPhase::SavingSettings => action == AddAction::SaveRegistry,
        AddPhase::AllocatingPort => action == AddAction::AllocatePort,
        AddPhase::Provisioning => action is Provision,
        AddPhase::SavingNode => action == AddAction::SaveRegistry,
        AddPhase::Cleaning => action == AddAction::RemoveStagedBinary(options.safenode_bin_path),
        AddPhase::Finished => action == AddAction::Finished,
    }
}

/// Whether `outcome` answers the action that a session in `phase` waits for.
pub open spec fn answers(phase: AddPhase, outcome: ActionOutcome) -> bool {
    match phase {
        AddPhase::AllocatingPort => outcome is Port || outcome is Failed,
        AddPhase::Finished => false,
        _ => outcome is Done || outcome is Failed,
    }
}

/// The message recorded for a node whose RPC address is already taken.
pub open spec fn rpc_conflict_text() -> Seq<char> {
    "The RPC port handed out is already used by another service"@
}

/// What one step does: `s0` and `nodes0` are the session and the registry's
/// nodes before `outcome` arrives, `s1` and `nodes1` after it.
pub open spec fn stepped(
    s0: AddSession,
    nodes0: Seq<NodeService>,
    outcome: ActionOutcome,
    s1: AddSession,
    nodes1: Seq<NodeService>,
) -> bool {
    let number = s0.next_number() as u16;
    if !answers(s0.phase, outcome) {
        s1 == s0 && nodes1 == nodes0
    } else {
        match (s0.phase, outcome) {
            (AddPhase::SavingSettings, ActionOutcome::Done) | (
                AddPhase::SavingNode,
                ActionOutcome::Done,
            ) => {
                &&& s1 == (AddSession { phase: phase_after(s0.remaining), ..s0 })
                &&& nodes1 == nodes0
            },
            (AddPhase::SavingSettings, ActionOutcome::Failed(e)) | (
                AddPhase::SavingNode,
                ActionOutcome::Failed(e),
            ) => {
                &&& s1 == (AddSession {
                    phase: AddPhase::Finished,
                    error: Some(AddError::Save(e)),
                    ..s0
                })
                &&& nodes1 == nodes0
            },
            (AddPhase::AllocatingPort, ActionOutcome::Failed(e)) => {
                &&& s1 == (AddSession {
                    phase: AddPhase::Finished,
                    error: Some(AddError::PortAllocation(e)),
                    ..s0
                })
                &&& nodes1 == nodes0
            },
            (AddPhase::AllocatingPort, ActionOutcome::Port(port)) => {
                &&& nodes1 == nodes0
                &&& s1.options == s0.options
                &&& s1.file_name == s0.file_name
                &&& s1.base == s0.base
                &&& s1.numbered == s0.numbered
                &&& s1.added == s0.added
                &&& s1.error == s0.error
                &&& if rpc_in_use(nodes0, rpc_address(s0.options, port)) {
                    &&& s1.remaining == s0.remaining - 1
                    &&& s1.phase == phase_after(s1.remaining)
                    &&& s1.pending is None
                    &&& s1.failed@.len() == s0.failed@.len() + 1
                    &&& s1.failed@.drop_last() == s0.failed@
                    &&& s1.failed@.last().number == number
                    &&& s1.failed@.last().service_name@ == node_name(number as nat)
                    &&& s1.failed@.last().error@ == rpc_conflict_text()
                } else {
                    &&& s1.remaining == s0.remaining
                    &&& s1.phase is Provisioning
                    &&& s1.failed == s0.failed
                    &&& s1.pending is Some
                    &&& pending_for(
                        s1.pending->Some_0,
                        s0.options,
                        s0.file_name@,
                        number as nat,
                        port,
                    )
                }
            },
            (AddPhase::Provisioning, ActionOutcome::Done) => {
                &&& nodes1 == nodes0.push(fresh_node(s0.options, s0.pending->Some_0, number))
                &&& s1.options == s0.options
                &&& s1.file_name == s0.file_name
                &&& s1.base == s0.base
                &&& s1.numbered == s0.numbered
                &&& s1.error == s0.error
                &&& s1.failed == s0.failed
                &&& s1.remaining == s0.remaining - 1
                &&& s1.phase is SavingNode
                &&& s1.pending is None
                &&& s1.added@ == s0.added@.push(added_entry(s0.pending->Some_0, number))
            },
            (AddPhase::Provisioning, ActionOutcome::Failed(e)) => {
                &&& nodes1 == nodes0
                &&& s1.options == s0.options
                &&& s1.file_name == s0.file_name
                &&& s1.base == s0.base
                &&& s1.numbered == s0.numbered
                &&& s1.error == s0.error
                &&& s1.added == s0.added
                &&& s1.remaining == s0.remaining - 1
                &&& s1.phase == phase_after(s1.remaining)
                &&& s1.pending is None
                &&& s1.failed@ == s0.failed@.push(
                    FailedService {
                        number,
                        service_name: s0.pending->Some_0.service_name,
                        error: e,
                    },
                )
            },
            (AddPhase::Cleaning, ActionOutcome::Done) => {
                &&& s1 == (AddSession {
                    phase: AddPhase::Finished,
                    error: if s0.failed@.len() > 0 {
                        Some(AddError::ServicesFailed)
                    } else {
                        None
                    },
                    ..s0
                })
                &&& nodes1 == nodes0
            },
            (AddPhase::Cleaning, ActionOutcome::Failed(e)) => {
                &&& s1 == (AddSession {
                    phase: AddPhase::Finished,
                    error: Some(AddError::Filesystem(e)),
                    ..s0
                })
                &&& nodes1 == nodes0
            },
            _ => s1 == s0 && nodes1 == nodes0,
        }
    }
}

/// The provisioning of the node in flight.
fn make_provision(options: &AddServiceOptions, pending: &PendingNode) -> (p: NodeProvision)
    ensures
        provision_for(p, *pending, *options),
{
    let peers = options.bootstrap_peers.clone();
    assert(texts(peers@) =~= texts(options.bootstrap_peers@));
    let builder = InstallNodeServiceCtxBuilder {
        bootstrap_peers: peers,
        data_dir_path: pending.data_dir_path.clone(),
        env_variables: copy_env(&options.env_variables),
        genesis: options.genesis,
        local: options.local,
        log_dir_path: pending.log_dir_path.clone(),
        name: pending.service_name.clone(),
        node_port: options.node_port,
        rpc_socket_addr: pending.rpc_socket_addr,
        safenode_path: pending.safenode_path.clone(),
        service_user: options.user.clone(),
    };
    let install = builder.build();
    NodeProvision {
        data_dir_path: pending.data_dir_path.clone(),
        log_dir_path: pending.log_dir_path.clone(),
        user: options.user.clone(),
        binary_source: options.safenode_bin_path.clone(),
        binary_target: pending.safenode_path.clone(),
        install,
    }
}

impl AddSession {
    /// The action that the session waits for.
    pub fn current_action(&self) -> (action: AddAction)
        ensures
            (self.phase is Provisioning ==> self.pending is Some) ==> action_in(
                self.phase,
                self.options,
                action,
            ),
            action matches AddAction::Provision(p) ==> provision_for(
                p,
                self.pending->Some_0,
                self.options,
            ),
    {
        match self.phase {
            AddPhase::SavingSettings => AddAction::SaveRegistry,
            AddPhase::AllocatingPort => AddAction::AllocatePort,
            AddPhase::Provisioning => {
                match &self.pending {
                    Some(pending) => AddAction::Provision(make_provision(&self.options, pending)),
                    None => AddAction::Finished,
                }
            },
            AddPhase::SavingNode => AddAction::SaveRegistry,
            AddPhase::Cleaning => AddAction::RemoveStagedBinary(
                self.options.safenode_bin_path.clone(),
            ),
            AddPhase::Finished => AddAction::Finished,
        }
    }
}


/// The settings of the registry after the peers and the environment of
/// `options` were merged into those of `before`.
pub open spec fn settings_merged(before: Registry, options: AddServiceOptions, after: Registry) -> bool {
    &&& after.save_path == before.save_path
    &&& after.nodes == before.nodes
    &&& after.faucet == before.faucet
    &&& after.daemon == before.daemon
    &&& after.nat_status == before.nat_status
    &&& texts(after.bootstrap_peers@) == merged_peers(
        texts(before.bootstrap_peers@),
        texts(options.bootstrap_peers@),
    )
    &&& env_texts(after.environment_variables) == if options.env_variables is Some {
        env_texts(options.env_variables)
    } else {
        env_texts(before.environment_variables)
    }
}

/// Whether merging the settings of `options` changes the registry, so that
/// it has to be saved before any service is added.
pub open spec fn settings_change(before: Registry, options: AddServiceOptions) -> bool {
    ||| merged_peers(texts(before.bootstrap_peers@), texts(options.bootstrap_peers@)).len()
        != before.bootstrap_peers@.len()
    ||| options.env_variables is Some
}

impl AddSession {
    /// Begins an add operation. The new nodes are numbered from the highest
    /// number in use, so that no number is given twice. The preconditions
    /// are checked first and a broken one is returned with the registry
    /// untouched. Otherwise the
    /// bootstrap peers that the registry lacks are appended to it, a supplied
    /// environment replaces the recorded one, and the session is returned with
    /// the first action: save the registry if the settings changed, else ask
    /// for a port, or remove the staged binary when no service was asked for.
    pub fn begin(options: AddServiceOptions, registry: &mut Registry) -> (r: Result<
        (AddSession, AddAction),
        AddError,
    >)
        requires
            highest_number(old(registry).nodes@) + requested(options) <= u16::MAX,
        ensures
            match r {
                Err(e) => {
                    &&& add_refusal(options, old(registry).nodes@) == Some(e)
                    &&& *final(registry) == *old(registry)
                },
                Ok((session, action)) => {
                    &&& add_refusal(options, old(registry).nodes@) is None
                    &&& settings_merged(*old(registry), options, *final(registry))
                    &&& session.options == options
                    &&& session.base == old(registry).nodes@.len()
                    &&& session.numbered == highest_number(old(registry).nodes@)
                    &&& densely_numbered(old(registry).nodes@) ==> session.numbered
                        == session.base
                    &&& session.remaining == requested(options)
                    &&& session.added@.len() == 0
                    &&& session.failed@.len() == 0
                    &&& session.pending is None
                    &&& session.error is None
                    &&& session.phase == if settings_change(*old(registry), options) {
                        AddPhase::SavingSettings
                    } else {
                        phase_after(session.remaining)
                    }
                    &&& action_in(session.phase, session.options, action)
                    &&& session.inv(final(registry))
                    &&& old(registry).wf() ==> final(registry).wf()
                },
            },
    {
        let count: u16 = match options.count {
            Some(c) => c,
            None => 1,
        };
        if options.genesis {
            if count > 1 {
                return Err(AddError::GenesisMultipleNodes);
            }
            if registry.has_genesis_node() {
                return Err(AddError::GenesisAlreadyExists);
            }
        }
        match options.node_port {
            Some(port) => {
                if count > 1 {
                    return Err(AddError::CustomPortMultipleNodes);
                }
                if registry.node_port_taken(port) {
                    return Err(AddError::CustomPortInUse);
                }
            },
            None => {},
        }
        let name = match file_name(&options.safenode_bin_path) {
            Some(name) => name,
            None => {
                return Err(AddError::MissingFileName);
            },
        };
        let numbered = registry.highest_number();
        proof {
            lemma_highest_number(registry.nodes@);
        }
        let mut changed = merge_peers(&mut registry.bootstrap_peers, &options.bootstrap_peers);
        if options.env_variables.is_some() {
            registry.environment_variables = copy_env(&options.env_variables);
            changed = true;
        }
        let phase = if changed {
            AddPhase::SavingSettings
        } else if count > 0 {
            AddPhase::AllocatingPort
        } else {
            AddPhase::Cleaning
        };
        let session = AddSession {
            options,
            file_name: name,
            phase,
            base: registry.nodes.len(),
            numbered,
            remaining: count,
            pending: None,
            added: Vec::new(),
            failed: Vec::new(),
            error: None,
        };
        let action = session.current_action();
        Ok((session, action))
    }

    /// The number of the node in flight, where it fits the numbering.
    fn flight_number(&self) -> (r: Option<u16>)
        ensures
            self.next_number() <= u16::MAX ==> r == Some(self.next_number() as u16),
            self.next_number() > u16::MAX ==> r is None,
    {
        let limit: usize = 65535;
        let numbered: usize = self.numbered as usize;
        if numbered >= limit {
            return None;
        }
        let room: usize = limit - numbered;
        if self.added.len() >= room {
            return None;
        }
        let room2: usize = room - self.added.len();
        if self.failed.len() >= room2 {
            return None;
        }
        let n: usize = numbered + self.added.len() + self.failed.len() + 1;
        Some(n as u16)
    }

    /// Moves on when a node is done: to the next port, or to the clean-up.
    fn move_on(&mut self)
        ensures
            *final(self) == (AddSession { phase: phase_after(old(self).remaining), ..*old(self) }),
    {
        if self.remaining > 0 {
            self.phase = AddPhase::AllocatingPort;
        } else {
            self.phase = AddPhase::Cleaning;
        }
    }

    /// Ends the operation with `error`.
    fn fail(&mut self, error: AddError)
        ensures
            *final(self) == (AddSession {
                phase: AddPhase::Finished,
                error: Some(error),
                ..*old(self)
            }),
    {
        self.phase = AddPhase::Finished;
        self.error = Some(error);
    }
}


impl AddSession {
    /// Takes a port: the node in flight gets its name, its RPC address and
    /// its paths, unless the address belongs to a recorded node already, in
    /// which case the node is counted as failed.
    fn take_port(&mut self, registry: &Registry, number: u16, port: u16)
        requires
            old(self).remaining > 0,
        ensures
            old(self).inv(registry) && old(self).phase is AllocatingPort && number == old(
                self,
            ).next_number() ==> {
                &&& stepped(
                    *old(self),
                    registry.nodes@,
                    ActionOutcome::Port(port),
                    *final(self),
                    registry.nodes@,
                )
                &&& final(self).inv(registry)
            },
    {
        let ip = match self.options.rpc_address {
            Some(ip) => ip,
            None => Ipv4Address::localhost(),
        };
        let addr = SocketAddress::new(ip, port);
        let service_name = node_service_name(number);
        if registry.rpc_address_in_use(addr) {
            self.failed.push(
                FailedService {
                    number,
                    service_name,
                    error: String::from_str(
                        "The RPC port handed out is already used by another service",
                    ),
                },
            );
            self.remaining = self.remaining - 1;
            self.move_on();
            proof {
                if old(self).inv(registry) && old(self).phase is AllocatingPort && number == old(
                    self,
                ).next_number() {
                    let s0 = *old(self);
                    let s1 = *self;
                    let f0 = s0.failed@.len() as int;
                    assert(s1.failed@.drop_last() =~= s0.failed@);
                    assert(s1.failed@.last().number == number);
                    assert forall|j: int| 0 <= j < f0 implies #[trigger] s1.failed@[j]
                        == s0.failed@[j] by {}
                    assert forall|i: int|
                        0 <= i < s1.added@.len() && !s1.failure_before(
                            (#[trigger] s1.added@[i]).number,
                        ) implies s1.added@[i].number == s0.numbered + 1 + i by {
                        if f0 > 0 {
                            assert(s1.failed@[0] == s0.failed@[0]);
                        }
                        assert(!s0.failure_before(s0.added@[i].number));
                    }
                    assert(s1.inv(registry));
                    assert(stepped(
                        s0,
                        registry.nodes@,
                        ActionOutcome::Port(port),
                        s1,
                        registry.nodes@,
                    ));
                }
            }
        } else {
            let data_dir_path = join_path(&self.options.service_data_dir_path, &service_name);
            let log_dir_path = join_path(&self.options.service_log_dir_path, &service_name);
            let safenode_path = join_path(&data_dir_path, &self.file_name);
            let pending = PendingNode {
                service_name,
                rpc_socket_addr: addr,
                safenode_path,
                data_dir_path,
                log_dir_path,
            };
            assert(pending_for(pending, self.options, self.file_name@, number as nat, port));
            self.pending = Some(pending);
            self.phase = AddPhase::Provisioning;
            proof {
                if old(self).inv(registry) && old(self).phase is AllocatingPort && number == old(
                    self,
                ).next_number() {
                    let s0 = *old(self);
                    let s1 = *self;
                    assert(pending_for(
                        s1.pending->Some_0,
                        s1.options,
                        s1.file_name@,
                        s1.next_number(),
                        port,
                    ));
                    assert(s1.inv(registry));
                    assert(stepped(
                        s0,
                        registry.nodes@,
                        ActionOutcome::Port(port),
                        s1,
                        registry.nodes@,
                    ));
                }
            }
        }
    }

    /// Records the node in flight as installed: its record is appended to
    /// the registry with status `Added`.
    fn record_installed(&mut self, registry: &mut Registry, number: u16)
        requires
            old(self).remaining > 0,
            old(self).pending is Some,
        ensures
            old(self).inv(old(registry)) && old(self).phase is Provisioning && number == old(
                self,
            ).next_number() ==> {
                &&& stepped(
                    *old(self),
                    old(registry).nodes@,
                    ActionOutcome::Done,
                    *final(self),
                    final(registry).nodes@,
                )
                &&& final(self).inv(final(registry))
                &&& old(registry).wf() ==> final(registry).wf()
            },
            *final(registry) == (Registry { nodes: final(registry).nodes, ..*old(registry) }),
    {
        let pending = self.pending.take().unwrap();
        let node = NodeService {
            service_name: pending.service_name.clone(),
            number,
            user: self.options.user.clone(),
            version: self.options.version.clone(),
            genesis: self.options.genesis,
            local: self.options.local,
            rpc_socket_addr: pending.rpc_socket_addr,
            node_port: self.options.node_port,
            listen_addr: None,
            peer_id: None,
            pid: None,
            status: ServiceStatus::Added,
            safenode_path: pending.safenode_path.clone(),
            data_dir_path: pending.data_dir_path.clone(),
            log_dir_path: pending.log_dir_path.clone(),
            connected_peers: None,
            critical_failure: None,
        };
        assert(node == fresh_node(self.options, pending, number));
        registry.nodes.push(node);
        self.added.push(
            AddedService {
                number,
                service_name: pending.service_name,
                safenode_path: pending.safenode_path,
                data_dir_path: pending.data_dir_path,
                log_dir_path: pending.log_dir_path,
                rpc_socket_addr: pending.rpc_socket_addr,
            },
        );
        self.remaining = self.remaining - 1;
        self.phase = AddPhase::SavingNode;
        proof {
            if old(self).inv(old(registry)) && old(self).phase is Provisioning && number == old(
                self,
            ).next_number() {
                Self::lemma_installed(*old(self), *old(registry), *self, *registry, number);
            }
        }
    }

    /// Appending the node in flight keeps the session's and the registry's
    /// invariants.
    proof fn lemma_installed(s0: AddSession, r0: Registry, s1: AddSession, r1: Registry, number: u16)
        requires
            s0.inv(&r0),
            s0.phase is Provisioning,
            number == s0.next_number(),
            s0.remaining > 0,
            r1.nodes@ == r0.nodes@.push(fresh_node(s0.options, s0.pending->Some_0, number)),
            r1 == (Registry { nodes: r1.nodes, ..r0 }),
            s1.added@ == s0.added@.push(added_entry(s0.pending->Some_0, number)),
            s1.options == s0.options,
            s1.file_name == s0.file_name,
            s1.base == s0.base,
            s1.numbered == s0.numbered,
            s1.error == s0.error,
            s1.failed == s0.failed,
            s1.remaining == s0.remaining - 1,
            s1.phase is SavingNode,
            s1.pending is None,
        ensures
            s1.inv(&r1),
            r0.wf() ==> r1.wf(),
    {
        let node = fresh_node(s0.options, s0.pending->Some_0, number);
        let nodes0 = r0.nodes@;
        let nodes1 = r1.nodes@;
        let a0 = s0.added@.len() as int;
        assert forall|i: int| 0 <= i < a0 implies #[trigger] nodes1[s1.base + i]
            == nodes0[s1.base + i] && s1.added@[i] == s0.added@[i] by {}
        assert(nodes1[s1.base + a0] == node);
        assert(s1.added@[a0].number == number);
        let port = choose|port: u16|
            pending_for(s0.pending->Some_0, s0.options, s0.file_name@, s0.next_number(), port);
        assert(node.service_name@ == node_name(number as nat));
        assert forall|i: int|
            0 <= i < s1.added@.len() && !s1.failure_before(
                (#[trigger] s1.added@[i]).number,
            ) implies s1.added@[i].number == s0.numbered + 1 + i by {
            if i < a0 {
                assert(!s0.failure_before(s0.added@[i].number));
            } else {
                if s0.failed@.len() > 0 {
                    assert(s0.failed@[0].number <= s0.numbered + a0 + s0.failed@.len());
                }
            }
        }
        assert(s1.inv(&r1));
        if r0.wf() {
            assert(s0.options.genesis ==> a0 == 0);
            assert(s0.options.node_port is Some ==> a0 == 0);
            assert forall|i: int, j: int| 0 <= i < j < nodes1.len() implies !((
            #[trigger] nodes1[i]).genesis && (#[trigger] nodes1[j]).genesis) by {
                if j < nodes0.len() {
                    assert(nodes1[i] == nodes0[i] && nodes1[j] == nodes0[j]);
                } else {
                    assert(nodes1[i] == nodes0[i]);
                }
            }
            assert forall|i: int, j: int| 0 <= i < j < nodes1.len() implies (
            #[trigger] nodes1[i]).rpc_socket_addr != (#[trigger] nodes1[j]).rpc_socket_addr by {
                if j < nodes0.len() {
                    assert(nodes1[i] == nodes0[i] && nodes1[j] == nodes0[j]);
                } else {
                    assert(nodes1[i] == nodes0[i]);
                }
            }
            assert forall|i: int, j: int|
                0 <= i < j < nodes1.len() && (#[trigger] nodes1[i]).node_port is Some implies nodes1[i].node_port
                != (#[trigger] nodes1[j]).node_port by {
                if j < nodes0.len() {
                    assert(nodes1[i] == nodes0[i] && nodes1[j] == nodes0[j]);
                } else {
                    assert(nodes1[i] == nodes0[i]);
                }
            }
            assert forall|i: int| 0 <= i < nodes1.len() implies (
            #[trigger] nodes1[i]).service_name@ == node_name(nodes1[i].number as nat) by {
                if i < nodes0.len() {
                    assert(nodes1[i] == nodes0[i]);
                }
            }
            assert forall|i: int, j: int| 0 <= i < j < nodes1.len() implies (
            #[trigger] nodes1[i]).number < (#[trigger] nodes1[j]).number by {
                if j < nodes0.len() {
                    assert(nodes1[i] == nodes0[i] && nodes1[j] == nodes0[j]);
                } else {
                    assert(nodes1[i] == nodes0[i]);
                }
            }
        }
    }

    /// Records the node in flight as failed with `error`.
    fn record_failed(&mut self, registry: &Registry, number: u16, error: String)
        requires
            old(self).remaining > 0,
            old(self).pending is Some,
        ensures
            old(self).inv(registry) && old(self).phase is Provisioning && number == old(
                self,
            ).next_number() ==> {
                &&& stepped(
                    *old(self),
                    registry.nodes@,
                    ActionOutcome::Failed(error),
                    *final(self),
                    registry.nodes@,
                )
                &&& final(self).inv(registry)
            },
    {
        let pending = self.pending.take().unwrap();
        self.failed.push(FailedService { number, service_name: pending.service_name, error });
        self.remaining = self.remaining - 1;
        self.move_on();
    }

    /// Ends the operation after the staged binary was removed: with an error
    /// if any service failed.
    fn conclude(&mut self)
        ensures
            *final(self) == (AddSession {
                phase: AddPhase::Finished,
                error: if old(self).failed@.len() > 0 {
                    Some(AddError::ServicesFailed)
                } else {
                    None
                },
                ..*old(self)
            }),
    {
        self.phase = AddPhase::Finished;
        if self.failed.len() > 0 {
            self.error = Some(AddError::ServicesFailed);
        } else {
            self.error = None;
        }
    }

    /// Takes the outcome of the action that was asked for and returns the
    /// next action. An outcome that does not answer the pending action is
    /// discarded.
    ///
    /// A failure to allocate a port, to save the registry or to remove the
    /// staged binary ends the operation. A failure to provision a node is
    /// recorded for that node and the operation goes on with the next one.
    pub fn advance(&mut self, registry: &mut Registry, outcome: ActionOutcome) -> (action:
        AddAction)
        ensures
            old(self).inv(old(registry)) ==> {
                &&& stepped(
                    *old(self),
                    old(registry).nodes@,
                    outcome,
                    *final(self),
                    final(registry).nodes@,
                )
                &&& final(self).inv(final(registry))
                &&& action_in(final(self).phase, final(self).options, action)
                &&& action matches AddAction::Provision(p) ==> {
                    &&& provision_for(p, final(self).pending->Some_0, final(self).options)
                    &&& p.install.label@ == plain_label(node_name(final(self).next_number()))
                }
                &&& old(registry).wf() ==> final(registry).wf()
            },
            *final(registry) == (Registry { nodes: final(registry).nodes, ..*old(registry) }),
    {
        match self.phase {
            AddPhase::SavingSettings | AddPhase::SavingNode => {
                match outcome {
                    ActionOutcome::Done => {
                        self.move_on();
                    },
                    ActionOutcome::Failed(e) => {
                        self.fail(AddError::Save(e));
                    },
                    ActionOutcome::Port(_) => {},
                }
            },
            AddPhase::AllocatingPort => {
                match outcome {
                    ActionOutcome::Port(port) => {
                        match self.flight_number() {
                            Some(number) => {
                                if self.remaining > 0 {
                                    self.take_port(registry, number, port);
                                }
                            },
                            None => {},
                        }
                    },
                    ActionOutcome::Failed(e) => {
                        self.fail(AddError::PortAllocation(e));
                    },
                    ActionOutcome::Done => {},
                }
            },
            AddPhase::Provisioning => {
                match self.flight_number() {
                    Some(number) => {
                        if self.remaining > 0 && self.pending.is_some() {
                            match outcome {
                                ActionOutcome::Done => {
                                    self.record_installed(registry, number);
                                },
                                ActionOutcome::Failed(e) => {
                                    self.record_failed(registry, number, e);
                                },
                                ActionOutcome::Port(_) => {},
                            }
                        }
                    },
                    None => {},
                }
            },
            AddPhase::Cleaning => {
                match outcome {
                    ActionOutcome::Done => {
                        self.conclude();
                    },
                    ActionOutcome::Failed(e) => {
                        self.fail(AddError::Filesystem(e));
                    },
                    ActionOutcome::Port(_) => {},
                }
            },
            AddPhase::Finished => {},
        }
        proof {
            lemma_node_name_plain(self.next_number());
        }
        self.current_action()
    }
}


/// A node's name holds no dot, so its label is the name itself.
pub proof fn lemma_node_name_plain(n: nat)
    ensures
        !node_name(n).contains('.'),
{
    reveal_strlit("antnode");
    lemma_decimal_digits(n);
    let name = node_name(n);
    assert forall|i: int| 0 <= i < name.len() implies name[i] != '.' by {
        if i >= 7 {
            assert(name[i] == crate::text::decimal(n)[i - 7]);
            assert(crate::text::is_digit(crate::text::decimal(n)[i - 7]));
        }
    }
}

/// While no service has failed, a step keeps the numbering of the registry
/// without gaps: the nodes stay numbered 1, 2, 3, ... in the order in which
/// they were added, so that no number occurs twice.
pub proof fn lemma_step_keeps_numbering(
    s0: AddSession,
    r0: Registry,
    outcome: ActionOutcome,
    s1: AddSession,
    r1: Registry,
)
    requires
        s0.inv(&r0),
        stepped(s0, r0.nodes@, outcome, s1, r1.nodes@),
        s0.failed@.len() == 0,
        s0.numbered == s0.base,
        densely_numbered(r0.nodes@),
    ensures
        densely_numbered(r1.nodes@),
        ascending_numbers(r1.nodes@),
{
    let n0 = r0.nodes@;
    let n1 = r1.nodes@;
    assert forall|i: int| 0 <= i < n1.len() implies (#[trigger] n1[i]).number == i + 1 by {
        if i < n0.len() {
            assert(n1[i] == n0[i]);
        }
    }
}

/// The count of an add operation: once every service was attempted, the
/// registry has grown by the services that were added, which are all that
/// were asked for if none failed and fewer otherwise. The nodes added before
/// the first failure are named `antnode` and the numbers that follow the
/// highest number in use, one after the other; in a registry that was
/// numbered without gaps these are the numbers that follow its count of
/// nodes.
pub proof fn lemma_add_counts(s: AddSession, r: Registry)
    requires
        s.inv(&r),
        s.remaining == 0,
    ensures
        r.nodes@.len() == s.base + s.added@.len(),
        s.added@.len() + s.failed@.len() == requested(s.options),
        s.failed@.len() == 0 ==> r.nodes@.len() == s.base + requested(s.options),
        s.failed@.len() > 0 ==> r.nodes@.len() < s.base + requested(s.options),
        forall|i: int|
            0 <= i < s.added@.len() && !s.failure_before(s.added@[i].number) ==> (
            #[trigger] r.nodes@[s.base + i]).service_name@ == node_name(
                (s.numbered + 1 + i) as nat,
            ),
        s.failed@.len() == 0 ==> forall|i: int|
            0 <= i < requested(s.options) ==> (#[trigger] r.nodes@[s.base + i]).service_name@
                == node_name((s.numbered + 1 + i) as nat),
{
    assert forall|i: int|
        0 <= i < s.added@.len() && !s.failure_before(s.added@[i].number) implies (
    #[trigger] r.nodes@[s.base + i]).service_name@ == node_name((s.numbered + 1 + i) as nat) by {
        assert(s.added@[i].number == s.numbered + 1 + i);
    }
}

/// What is asked for when the daemon service is added.
#[derive(Clone, Debug, PartialEq, Eq)]
pub struct AddDaemonServiceOptions {
    pub address: Ipv4Address,
    pub port: u16,
    pub daemon_download_bin_path: String,
    pub daemon_install_bin_path: String,
    pub version: String,
}

/// What is asked for when the faucet service is added.
#[derive(Clone, Debug, PartialEq, Eq)]
pub struct AddFaucetServiceOptions {
    pub bootstrap_peers: Vec<String>,
    pub env_variables: Option<Vec<(String, String)>>,
    pub faucet_download_bin_path: String,
    pub faucet_install_bin_path: String,
    pub local: bool,
    pub service_data_dir_path: String,
    pub service_log_dir_path: String,
    pub url: Option<String>,
    pub user: String,
    pub version: String,
}

/// The outside work that defines a single service: create a directory for
/// the service user where one is named, copy the binary, install.
#[derive(Clone, Debug, PartialEq, Eq)]
pub struct ServicePlan {
    pub create_dir: Option<(String, String)>,
    pub copy_from: String,
    pub copy_to: String,
    pub install: ServiceInstallCtx,
}

/// What is left to do once a single service is recorded.
#[derive(Clone, Debug, PartialEq, Eq)]
pub enum FollowUp {
    SaveRegistry,
    RemoveFile(String),
}

/// The name of the daemon service.
pub open spec fn daemon_name() -> Seq<char> {
    "safenodemand"@
}

/// The name of the faucet service.
pub open spec fn faucet_name() -> Seq<char> {
    "faucet"@
}

/// Plans the daemon service: refused if a daemon is recorded already,
/// otherwise the downloaded binary is to be copied to its install path and
/// the service installed to listen on the given address and port.
pub fn plan_daemon(options: &AddDaemonServiceOptions, registry: &Registry) -> (r: Result<
    ServicePlan,
    AddError,
>)
    ensures
        registry.daemon is Some <==> r is Err,
        r is Err ==> r->Err_0 == AddError::DaemonAlreadyExists,
        r matches Ok(plan) ==> {
            &&& plan.create_dir is None
            &&& plan.copy_from == options.daemon_download_bin_path
            &&& plan.copy_to == options.daemon_install_bin_path
            &&& plan.install@ == daemon_context(
                daemon_name(),
                options.daemon_install_bin_path@,
                options.address,
                options.port,
            )
            &&& plan.install.label@ == plain_label(daemon_name())
        },
{
    if registry.daemon.is_some() {
        return Err(AddError::DaemonAlreadyExists);
    }
    let name = String::from_str("safenodemand");
    proof {
        reveal_strlit("safenodemand");
        assert forall|i: int| 0 <= i < name@.len() implies name@[i] != '.' by {}
    }
    let install = build_daemon_context(
        &name,
        options.daemon_install_bin_path.clone(),
        options.address,
        options.port,
    );
    Ok(
        ServicePlan {
            create_dir: None,
            copy_from: options.daemon_download_bin_path.clone(),
            copy_to: options.daemon_install_bin_path.clone(),
            install,
        },
    )
}

/// The record of a daemon that was installed with `options`.
pub open spec fn daemon_record(options: AddDaemonServiceOptions, d: DaemonService) -> bool {
    &&& d.daemon_path == options.daemon_install_bin_path
    &&& d.endpoint == Some(SocketAddress { ip: options.address, port: options.port })
    &&& d.pid is None
    &&& d.service_name@ == daemon_name()
    &&& d.status is Added
    &&& d.version == options.version
}

/// Records how the installation of the daemon went. If it succeeded the
/// daemon is recorded with status `Added`, and the registry is to be saved
/// and the downloaded binary removed, in that order. If it failed the
/// registry stays as it is and the controller's error is returned.
pub fn record_daemon(
    options: AddDaemonServiceOptions,
    registry: &mut Registry,
    installed: Result<(), String>,
) -> (r: Result<Vec<FollowUp>, AddError>)
    ensures
        match installed {
            Ok(_) => {
                &&& r is Ok
                &&& r->Ok_0@ == seq![
                    FollowUp::SaveRegistry,
                    FollowUp::RemoveFile(options.daemon_download_bin_path),
                ]
                &&& final(registry).daemon is Some
                &&& daemon_record(options, final(registry).daemon->Some_0)
                &&& *final(registry) == (Registry {
                    daemon: final(registry).daemon,
                    ..*old(registry)
                })
                &&& old(registry).wf() ==> final(registry).wf()
            },
            Err(e) => r == Err::<Vec<FollowUp>, AddError>(AddError::Install(e)) && *final(registry)
                == *old(registry),
        },
{
    match installed {
        Ok(_) => {
            registry.daemon = Some(
                DaemonService {
                    daemon_path: options.daemon_install_bin_path,
                    endpoint: Some(SocketAddress::new(options.address, options.port)),
                    pid: None,
                    service_name: String::from_str("safenodemand"),
                    status: ServiceStatus::Added,
                    version: options.version,
                },
            );
            let mut next: Vec<FollowUp> = Vec::new();
            next.push(FollowUp::SaveRegistry);
            next.push(FollowUp::RemoveFile(options.daemon_download_bin_path));
            assert(next@ =~= seq![
                FollowUp::SaveRegistry,
                FollowUp::RemoveFile(options.daemon_download_bin_path),
            ]);
            Ok(next)
        },
        Err(e) => Err(AddError::Install(e)),
    }
}

/// The install context of the faucet for `options`.
pub open spec fn faucet_context(options: AddFaucetServiceOptions) -> InstallCtxView {
    InstallCtxView {
        label: parsed_label(faucet_name()),
        program: options.faucet_install_bin_path@,
        args: faucet_args(options.service_log_dir_path@, texts(options.bootstrap_peers@)),
        contents: None,
        username: Some(options.user@),
        working_directory: None,
        environment: env_texts(options.env_variables),
    }
}

/// Plans the faucet service: refused if a faucet is recorded already,
/// otherwise its log directory is to be created for the service user, the
/// downloaded binary copied to its install path and the service installed.
pub fn plan_faucet(options: &AddFaucetServiceOptions, registry: &Registry) -> (r: Result<
    ServicePlan,
    AddError,
>)
    ensures
        registry.faucet is Some <==> r is Err,
        r is Err ==> r->Err_0 == AddError::FaucetAlreadyExists,
        r matches Ok(plan) ==> {
            &&& plan.create_dir == Some((options.service_log_dir_path, options.user))
            &&& plan.copy_from == options.faucet_download_bin_path
            &&& plan.copy_to == options.faucet_install_bin_path
            &&& plan.install@ == faucet_context(*options)
            &&& plan.install.label@ == plain_label(faucet_name())
        },
{
    if registry.faucet.is_some() {
        return Err(AddError::FaucetAlreadyExists);
    }
    let name = String::from_str("faucet");
    proof {
        reveal_strlit("faucet");
        assert forall|i: int| 0 <= i < name@.len() implies name@[i] != '.' by {}
    }
    let peers = options.bootstrap_peers.clone();
    assert(texts(peers@) =~= texts(options.bootstrap_peers@));
    let builder = InstallFaucetServiceCtxBuilder {
        bootstrap_peers: peers,
        env_variables: copy_env(&options.env_variables),
        faucet_path: options.faucet_install_bin_path.clone(),
        local: options.local,
        log_dir_path: options.service_log_dir_path.clone(),
        name,
        service_user: options.user.clone(),
    };
    let install = builder.build();
    Ok(
        ServicePlan {
            create_dir: Some((options.service_log_dir_path.clone(), options.user.clone())),
            copy_from: options.faucet_download_bin_path.clone(),
            copy_to: options.faucet_install_bin_path.clone(),
            install,
        },
    )
}

/// The record of a faucet that was installed with `options`.
pub open spec fn faucet_record(options: AddFaucetServiceOptions, f: FaucetService) -> bool {
    &&& f.faucet_path == options.faucet_install_bin_path
    &&& !f.local
    &&& f.log_dir_path == options.service_log_dir_path
    &&& f.pid is None
    &&& f.service_name@ == faucet_name()
    &&& f.status is Added
    &&& f.user == options.user
    &&& f.version == options.version
}

/// Records how the installation of the faucet went. If it succeeded the
/// faucet is recorded with status `Added`, and the registry is to be saved
/// and the downloaded binary removed, in that order, so that nothing that
/// was recorded is lost if the removal fails. If it failed the registry
/// stays as it is and the controller's error is returned.
pub fn record_faucet(
    options: AddFaucetServiceOptions,
    registry: &mut Registry,
    installed: Result<(), String>,
) -> (r: Result<Vec<FollowUp>, AddError>)
    ensures
        match installed {
            Ok(_) => {
                &&& r is Ok
                &&& r->Ok_0@ == seq![
                    FollowUp::SaveRegistry,
                    FollowUp::RemoveFile(options.faucet_download_bin_path),
                ]
                &&& final(registry).faucet is Some
                &&& faucet_record(options, final(registry).faucet->Some_0)
                &&& *final(registry) == (Registry {
                    faucet: final(registry).faucet,
                    ..*old(registry)
                })
                &&& old(registry).wf() ==> final(registry).wf()
            },
            Err(e) => r == Err::<Vec<FollowUp>, AddError>(AddError::Install(e)) && *final(registry)
                == *old(registry),
        },
{
    match installed {
        Ok(_) => {
            registry.faucet = Some(
                FaucetService {
                    faucet_path: options.faucet_install_bin_path,
                    local: false,
                    log_dir_path: options.service_log_dir_path,
                    pid: None,
                    service_name: String::from_str("faucet"),
                    status: ServiceStatus::Added,
                    user: options.user,
                    version: options.version,
                },
            );
            let mut next: Vec<FollowUp> = Vec::new();
            next.push(FollowUp::SaveRegistry);
            next.push(FollowUp::RemoveFile(options.faucet_download_bin_path));
            assert(next@ =~= seq![
                FollowUp::SaveRegistry,
                FollowUp::RemoveFile(options.faucet_download_bin_path),
            ]);
            Ok(next)
        },
        Err(e) => Err(AddError::Install(e)),
    }
}

} // verus!
