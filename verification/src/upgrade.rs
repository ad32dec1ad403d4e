//! Rolling upgrades: the services of a batch are upgraded one after the
//! other. Each is stopped, its binary replaced, its definition reinstalled
//! if the environment changed, and started again; its peer id must be the
//! same after the restart. A service that fails does not halt the batch.
//!
//! A session tells the driver what to do next and is told how it went.
use vstd::prelude::*;
use vstd::string::*;
use crate::install::{InstallNodeServiceCtxBuilder, ServiceInstallCtx};
use crate::lifecycle::{started, stopped, with_node, StartReport};
use crate::provision::copy_env;
use crate::registry::{
    env_texts, first_named, lemma_first_named_exists, none_named, pair_texts, texts, NodeService,
    Registry, ServiceStatus,
};

verus! {

/// What is asked for when services are upgraded.
#[derive(Clone, Debug, PartialEq, Eq)]
pub struct UpgradeOptions {
    /// The services to upgrade, in this order.
    pub service_names: Vec<String>,
    /// The peer id that each service must have after its restart.
    pub peer_ids: Vec<String>,
    /// The version of the binary that was fetched.
    pub target_version: String,
    /// Upgrade even where the version is the same.
    pub force: bool,
    /// Leave the services stopped.
    pub do_not_start: bool,
    /// Milliseconds to wait between two services.
    pub fixed_interval: Option<u64>,
    /// Seconds to wait for a service to shut down.
    pub connection_timeout_s: u64,
    /// The environment to install the services with, if it is to change.
    pub provided_env_variables: Option<Vec<(String, String)>>,
}

/// Why the upgrade of one service failed.
#[derive(Clone, Debug, PartialEq, Eq)]
pub enum UpgradeFailure {
    /// No service of that name is recorded.
    NotFound,
    /// The service could not be stopped.
    Stop(String),
    /// The binary could not be replaced.
    Replace(String),
    /// The service could not be reinstalled.
    Reinstall(String),
    /// The service could not be started, or did not report in time.
    Start(String),
    /// The service came back with another peer id.
    PeerIdMismatch { expected: String, found: String },
}

/// How the upgrade of one service ended.
#[derive(Clone, Debug, PartialEq, Eq)]
pub enum UpgradeOutcome {
    /// The service has the target version already.
    NotRequired,
    /// The service runs the new binary under the peer id given here.
    Upgraded { peer_id: String },
    /// The binary was replaced and the service left stopped.
    UpgradedButNotStarted,
    /// The upgrade failed.
    Failed(UpgradeFailure),
}

/// What the driver is asked to do next.
#[derive(Clone, Debug, PartialEq, Eq)]
pub enum UpgradeAction {
    /// Nothing; go on.
    Proceed,
    /// Stop the service and wait for it to shut down.
    Stop { service_name: String, timeout_s: u64 },
    /// Put the fetched binary in the place of the service's binary.
    ReplaceBinary { service_name: String, path: String },
    /// Install the service anew with this context.
    Reinstall(ServiceInstallCtx),
    /// Start the service and wait for it to report its peer id.
    Start { service_name: String, timeout_s: u64 },
    /// Wait for this many milliseconds.
    Sleep(u64),
    /// The batch is done.
    Finished,
}

/// How the action that was asked for went.
#[derive(Clone, Debug, PartialEq, Eq)]
pub enum UpgradeEvent {
    /// It was carried out.
    Done,
    /// The service has started and reported.
    Started(StartReport),
    /// It failed, with this message.
    Failed(String),
}

/// Where a session stands.
#[derive(Clone, Copy, Debug, PartialEq, Eq, Structural)]
pub enum UpgradeStage {
    /// Between two services.
    Idle,
    Stopping,
    Replacing,
    Reinstalling,
    Starting,
    Sleeping,
    Finished,
}

/// One batch of upgrades in progress.
#[derive(Clone, Debug, PartialEq, Eq)]
pub struct UpgradeSession {
    pub options: UpgradeOptions,
    /// Whether the services are to be reinstalled: the environment provided
    /// differs from the one that was recorded when the batch began.
    pub reinstall: bool,
    pub stage: UpgradeStage,
    /// The position in the registry of the service at hand.
    pub node: usize,
    /// The outcomes of the services that are done, in order.
    pub results: Vec<UpgradeOutcome>,
}

/// What is decided for a service before anything is done to it.
pub enum Decision {
    /// No service is left.
    Finish,
    /// The name is unknown.
    NotFound,
    /// The version is the target version and no upgrade is forced.
    NotRequired,
    /// The service at this position runs and has to be stopped first.
    Stop(int),
    /// The service at this position does not run; its binary is replaced.
    Replace(int),
}

/// The decision for the service at `position` of the batch.
pub open spec fn decision(options: UpgradeOptions, nodes: Seq<NodeService>, position: int) -> Decision {
    if position >= options.service_names@.len() {
        Decision::Finish
    } else if none_named(nodes, options.service_names@[position]@) {
        Decision::NotFound
    } else {
        let j = choose|j: int| first_named(nodes, options.service_names@[position]@, j);
        if nodes[j].version@ == options.target_version@ && !options.force {
            Decision::NotRequired
        } else if nodes[j].status is Running {
            Decision::Stop(j)
        } else {
            Decision::Replace(j)
        }
    }
}

/// The peer id that the service at `position` of the batch must report: the
/// one given for it, or the one recorded for it where none is given.
pub open spec fn expected_peer_id(options: UpgradeOptions, node: NodeService, position: int) -> Option<
    Seq<char>,
> {
    if 0 <= position < options.peer_ids@.len() {
        Some(options.peer_ids@[position]@)
    } else {
        match node.peer_id {
            Some(p) => Some(p@),
            None => None,
        }
    }
}

/// Whether two environments are the same text.
pub fn same_env(a: &Option<Vec<(String, String)>>, b: &Option<Vec<(String, String)>>) -> (r: bool)
    ensures
        r == (env_texts(*a) == env_texts(*b)),
{
    match a {
        None => b.is_none(),
        Some(x) => match b {
            None => false,
            Some(y) => {
                if x.len() != y.len() {
                    assert(pair_texts(x@).len() != pair_texts(y@).len());
                    return false;
                }
                let mut i: usize = 0;
                while i < x.len()
                    invariant
                        i <= x@.len(),
                        x@.len() == y@.len(),
                        env_texts(*a) == Some(pair_texts(x@)),
                        env_texts(*b) == Some(pair_texts(y@)),
                        forall|k: int| 0 <= k < i ==> pair_texts(x@)[k] == pair_texts(y@)[k],
                    decreases x@.len() - i,
                {
                    if !(x[i].0 == y[i].0 && x[i].1 == y[i].1) {
                        assert(pair_texts(x@)[i as int] == (x@[i as int].0@, x@[i as int].1@));
                        assert(pair_texts(y@)[i as int] == (y@[i as int].0@, y@[i as int].1@));
                        assert(pair_texts(x@) != pair_texts(y@));
                        return false;
                    }
                    i = i + 1;
                }
                assert(pair_texts(x@) =~= pair_texts(y@));
                true
            },
        },
    }
}

/// The node with the version of the binary that replaced its own.
pub open spec fn with_version(node: NodeService, version: String) -> NodeService {
    NodeService { version, ..node }
}

/// The node after a restart that could not be verified: it runs, under the
/// process that was reported; what the registry says of its identity stays.
pub open spec fn started_unverified(node: NodeService, pid: u32) -> NodeService {
    NodeService { status: ServiceStatus::Running, pid: Some(pid), ..node }
}

/// The context with which the node is installed anew.
pub open spec fn reinstall_context(node: NodeService, registry: Registry) -> crate::install::InstallCtxView {
    (InstallNodeServiceCtxBuilder {
        bootstrap_peers: registry.bootstrap_peers,
        data_dir_path: node.data_dir_path,
        env_variables: registry.environment_variables,
        genesis: node.genesis,
        local: node.local,
        log_dir_path: node.log_dir_path,
        name: node.service_name,
        node_port: node.node_port,
        rpc_socket_addr: node.rpc_socket_addr,
        safenode_path: node.safenode_path,
        service_user: node.user,
    }).context()
}

impl UpgradeSession {
    /// The position in the batch of the service at hand.
    pub open spec fn position(&self) -> int {
        self.results@.len() as int
    }

    /// What holds of a session from `begin` on and after every `advance`:
    /// while a service is at hand it is the node that the batch names, and
    /// every service that was upgraded and started came back under the peer
    /// id that was expected of it.
    pub open spec fn inv(&self, registry: &Registry) -> bool {
        &&& self.results@.len() <= self.options.service_names@.len()
        &&& self.stage is Finished ==> self.results@.len() == self.options.service_names@.len()
        &&& (self.stage is Stopping || self.stage is Replacing || self.stage is Reinstalling
            || self.stage is Starting) ==> {
            &&& self.position() < self.options.service_names@.len()
            &&& first_named(
                registry.nodes@,
                self.options.service_names@[self.position()]@,
                self.node as int,
            )
        }
        &&& forall|i: int|
            0 <= i < self.results@.len() ==> match #[trigger] self.results@[i] {
                UpgradeOutcome::Upgraded { peer_id } => i < self.options.peer_ids@.len()
                    ==> peer_id@ == self.options.peer_ids@[i]@,
                _ => true,
            }
    }
}


/// The stage that follows when the service at hand is done: a pause if it
/// is asked for and a service is left, else the next service.
pub open spec fn stage_after_service(options: UpgradeOptions, position: int) -> UpgradeStage {
    if options.fixed_interval is Some && position + 1 < options.service_names@.len() {
        UpgradeStage::Sleeping
    } else {
        UpgradeStage::Idle
    }
}

/// The session after the service at hand ended with `outcome`.
pub open spec fn service_done(s0: UpgradeSession, outcome: UpgradeOutcome, s1: UpgradeSession) -> bool {
    &&& s1.options == s0.options
    &&& s1.reinstall == s0.reinstall
    &&& s1.node == s0.node
    &&& s1.results@ == s0.results@.push(outcome)
    &&& s1.stage == stage_after_service(s0.options, s0.position())
}

/// The session in another stage, with nothing else changed.
pub open spec fn in_stage(s0: UpgradeSession, stage: UpgradeStage, s1: UpgradeSession) -> bool {
    s1 == (UpgradeSession { stage, ..s0 })
}

/// What one step does: `s0` and `r0` are the session and the registry before
/// `event` arrives, `s1` and `r1` after it.
pub open spec fn upgrade_stepped(
    s0: UpgradeSession,
    r0: Registry,
    event: UpgradeEvent,
    s1: UpgradeSession,
    r1: Registry,
) -> bool {
    let position = s0.position();
    let node = r0.nodes@[s0.node as int];
    match (s0.stage, event) {
        (UpgradeStage::Idle, UpgradeEvent::Done) => {
            &&& r1 == r0
            &&& match decision(s0.options, r0.nodes@, position) {
                Decision::Finish => in_stage(s0, UpgradeStage::Finished, s1),
                Decision::NotFound => {
                    &&& s1.results@ == s0.results@.push(
                        UpgradeOutcome::Failed(UpgradeFailure::NotFound),
                    )
                    &&& s1 == (UpgradeSession { results: s1.results, ..s0 })
                },
                Decision::NotRequired => {
                    &&& s1.results@ == s0.results@.push(UpgradeOutcome::NotRequired)
                    &&& s1 == (UpgradeSession { results: s1.results, ..s0 })
                },
                Decision::Stop(j) => s1 == (UpgradeSession {
                    stage: UpgradeStage::Stopping,
                    node: j as usize,
                    ..s0
                }),
                Decision::Replace(j) => s1 == (UpgradeSession {
                    stage: UpgradeStage::Replacing,
                    node: j as usize,
                    ..s0
                }),
            }
        },
        (UpgradeStage::Stopping, UpgradeEvent::Done) => {
            &&& with_node(r0, s0.node as int, stopped(node), r1)
            &&& in_stage(s0, UpgradeStage::Replacing, s1)
        },
        (UpgradeStage::Stopping, UpgradeEvent::Failed(e)) => {
            &&& r1 == r0
            &&& service_done(s0, UpgradeOutcome::Failed(UpgradeFailure::Stop(e)), s1)
        },
        (UpgradeStage::Replacing, UpgradeEvent::Done) => {
            &&& with_node(r0, s0.node as int, with_version(node, s0.options.target_version), r1)
            &&& if s0.reinstall {
                in_stage(s0, UpgradeStage::Reinstalling, s1)
            } else if s0.options.do_not_start {
                service_done(s0, UpgradeOutcome::UpgradedButNotStarted, s1)
            } else {
                in_stage(s0, UpgradeStage::Starting, s1)
            }
        },
        (UpgradeStage::Replacing, UpgradeEvent::Failed(e)) => {
            &&& r1 == r0
            &&& service_done(s0, UpgradeOutcome::Failed(UpgradeFailure::Replace(e)), s1)
        },
        (UpgradeStage::Reinstalling, UpgradeEvent::Done) => {
            &&& r1 == r0
            &&& if s0.options.do_not_start {
                service_done(s0, UpgradeOutcome::UpgradedButNotStarted, s1)
            } else {
                in_stage(s0, UpgradeStage::Starting, s1)
            }
        },
        (UpgradeStage::Reinstalling, UpgradeEvent::Failed(e)) => {
            &&& r1 == r0
            &&& service_done(s0, UpgradeOutcome::Failed(UpgradeFailure::Reinstall(e)), s1)
        },
        (UpgradeStage::Starting, UpgradeEvent::Started(report)) => {
            match expected_peer_id(s0.options, node, position) {
                Some(expected) if expected != report.peer_id@ => {
                    &&& with_node(r0, s0.node as int, started_unverified(node, report.pid), r1)
                    &&& s1.options == s0.options
                    &&& s1.reinstall == s0.reinstall
                    &&& s1.node == s0.node
                    &&& s1.stage == stage_after_service(s0.options, position)
                    &&& s1.results@.len() == s0.results@.len() + 1
                    &&& s1.results@.drop_last() == s0.results@
                    &&& s1.results@.last() matches UpgradeOutcome::Failed(
                        UpgradeFailure::PeerIdMismatch { expected: e, found },
                    )
                    &&& e@ == expected
                    &&& found == report.peer_id
                },
                _ => {
                    &&& with_node(r0, s0.node as int, started(node, report), r1)
                    &&& service_done(s0, UpgradeOutcome::Upgraded { peer_id: report.peer_id }, s1)
                },
            }
        },
        (UpgradeStage::Starting, UpgradeEvent::Failed(e)) => {
            &&& r1 == r0
            &&& service_done(s0, UpgradeOutcome::Failed(UpgradeFailure::Start(e)), s1)
        },
        (UpgradeStage::Sleeping, UpgradeEvent::Done) | (
            UpgradeStage::Sleeping,
            UpgradeEvent::Failed(_),
        ) => {
            &&& r1 == r0
            &&& in_stage(s0, UpgradeStage::Idle, s1)
        },
        _ => s1 == s0 && r1 == r0,
    }
}

/// The action that a session waits for.
pub open spec fn upgrade_action_for(s: UpgradeSession, r: Registry, action: UpgradeAction) -> bool {
    let node = r.nodes@[s.node as int];
    match s.stage {
        UpgradeStage::Idle => action == UpgradeAction::Proceed,
        UpgradeStage::Stopping => action == (UpgradeAction::Stop {
            service_name: node.service_name,
            timeout_s: s.options.connection_timeout_s,
        }),
        UpgradeStage::Replacing => action == (UpgradeAction::ReplaceBinary {
            service_name: node.service_name,
            path: node.safenode_path,
        }),
        UpgradeStage::Reinstalling => action matches UpgradeAction::Reinstall(ctx) && ctx@
            == reinstall_context(node, r),
        UpgradeStage::Starting => action == (UpgradeAction::Start {
            service_name: node.service_name,
            timeout_s: s.options.connection_timeout_s,
        }),
        UpgradeStage::Sleeping => match s.options.fixed_interval {
            Some(ms) => action == UpgradeAction::Sleep(ms),
            None => action == UpgradeAction::Proceed,
        },
        UpgradeStage::Finished => action == UpgradeAction::Finished,
    }
}

impl UpgradeSession {
    /// Begins a batch. If an environment is provided that differs from the
    /// recorded one, it is recorded and every service of the batch will be
    /// reinstalled. The first action is to proceed.
    pub fn begin(options: UpgradeOptions, registry: &mut Registry) -> (r: (UpgradeSession, UpgradeAction))
        ensures
            r.0.options == options,
            r.0.stage is Idle,
            r.0.results@.len() == 0,
            r.0.reinstall == (options.provided_env_variables is Some && env_texts(
                options.provided_env_variables,
            ) != env_texts(old(registry).environment_variables)),
            env_texts(final(registry).environment_variables) == if r.0.reinstall {
                env_texts(options.provided_env_variables)
            } else {
                env_texts(old(registry).environment_variables)
            },
            *final(registry) == (Registry {
                environment_variables: final(registry).environment_variables,
                ..*old(registry)
            }),
            r.1 == UpgradeAction::Proceed,
            r.0.inv(final(registry)),
    {
        let reinstall = options.provided_env_variables.is_some() && !same_env(
            &options.provided_env_variables,
            &registry.environment_variables,
        );
        if reinstall {
            registry.environment_variables = copy_env(&options.provided_env_variables);
        }
        let session = UpgradeSession {
            options,
            reinstall,
            stage: UpgradeStage::Idle,
            node: 0,
            results: Vec::new(),
        };
        (session, UpgradeAction::Proceed)
    }

    /// The action that the session waits for.
    pub fn current_action(&self, registry: &Registry) -> (action: UpgradeAction)
        ensures
            self.node < registry.nodes@.len() ==> upgrade_action_for(*self, *registry, action),
    {
        if self.node >= registry.nodes.len() {
            return match self.stage {
                UpgradeStage::Finished => UpgradeAction::Finished,
                _ => UpgradeAction::Proceed,
            };
        }
        let node = &registry.nodes[self.node];
        match self.stage {
            UpgradeStage::Idle => UpgradeAction::Proceed,
            UpgradeStage::Stopping => UpgradeAction::Stop {
                service_name: node.service_name.clone(),
                timeout_s: self.options.connection_timeout_s,
            },
            UpgradeStage::Replacing => UpgradeAction::ReplaceBinary {
                service_name: node.service_name.clone(),
                path: node.safenode_path.clone(),
            },
            UpgradeStage::Reinstalling => {
                let peers = registry.bootstrap_peers.clone();
                assert(texts(peers@) =~= texts(registry.bootstrap_peers@));
                let builder = InstallNodeServiceCtxBuilder {
                    bootstrap_peers: peers,
                    data_dir_path: node.data_dir_path.clone(),
                    env_variables: copy_env(&registry.environment_variables),
                    genesis: node.genesis,
                    local: node.local,
                    log_dir_path: node.log_dir_path.clone(),
                    name: node.service_name.clone(),
                    node_port: node.node_port,
                    rpc_socket_addr: node.rpc_socket_addr,
                    safenode_path: node.safenode_path.clone(),
                    service_user: node.user.clone(),
                };
                UpgradeAction::Reinstall(builder.build())
            },
            UpgradeStage::Starting => UpgradeAction::Start {
                service_name: node.service_name.clone(),
                timeout_s: self.options.connection_timeout_s,
            },
            UpgradeStage::Sleeping => match self.options.fixed_interval {
                Some(ms) => UpgradeAction::Sleep(ms),
                None => UpgradeAction::Proceed,
            },
            UpgradeStage::Finished => UpgradeAction::Finished,
        }
    }

    /// Ends the service at hand with `outcome`.
    fn finish_service(&mut self, outcome: UpgradeOutcome)
        ensures
            service_done(*old(self), outcome, *final(self)),
    {
        let more = self.results.len() < self.options.service_names.len()
            && self.options.service_names.len() - self.results.len() > 1;
        self.results.push(outcome);
        if self.options.fixed_interval.is_some() && more {
            self.stage = UpgradeStage::Sleeping;
        } else {
            self.stage = UpgradeStage::Idle;
        }
    }

    /// Goes on once the binary is in place and the definition up to date.
    fn ready_to_start(&mut self)
        ensures
            if old(self).options.do_not_start {
                service_done(*old(self), UpgradeOutcome::UpgradedButNotStarted, *final(self))
            } else {
                in_stage(*old(self), UpgradeStage::Starting, *final(self))
            },
    {
        if self.options.do_not_start {
            self.finish_service(UpgradeOutcome::UpgradedButNotStarted);
        } else {
            self.stage = UpgradeStage::Starting;
        }
    }

    /// Decides what is done with the next service of the batch.
    fn decide(&mut self, registry: &Registry)
        requires
            old(self).stage is Idle,
        ensures
            upgrade_stepped(*old(self), *registry, UpgradeEvent::Done, *final(self), *registry),
    {
        let position = self.results.len();
        if position >= self.options.service_names.len() {
            self.stage = UpgradeStage::Finished;
            return ;
        }
        match registry.find_node(&self.options.service_names[position]) {
            None => {
                self.results.push(UpgradeOutcome::Failed(UpgradeFailure::NotFound));
            },
            Some(j) => {
                proof {
                    let name = self.options.service_names@[position as int]@;
                    let k = choose|k: int| first_named(registry.nodes@, name, k);
                    assert(first_named(registry.nodes@, name, j as int));
                    assert(registry.nodes@[j as int].service_name@ == name);
                    assert(!none_named(registry.nodes@, name));
                    if k < j {
                        assert(registry.nodes@[k].service_name@ != name);
                    }
                    if j < k {
                        assert(registry.nodes@[j as int].service_name@ != name);
                    }
                    assert(k == j);
                }
                let node = &registry.nodes[j];
                if node.version == self.options.target_version && !self.options.force {
                    self.results.push(UpgradeOutcome::NotRequired);
                } else {
                    self.node = j;
                    match node.status {
                        ServiceStatus::Running => {
                            self.stage = UpgradeStage::Stopping;
                        },
                        _ => {
                            self.stage = UpgradeStage::Replacing;
                        },
                    }
                }
            },
        }
    }

    /// Checks the report of a restarted service against the peer id that is
    /// expected of it and records the restart.
    fn verify_restart(&mut self, registry: &mut Registry, report: StartReport)
        requires
            old(self).stage is Starting,
            old(self).node < old(registry).nodes@.len(),
        ensures
            upgrade_stepped(
                *old(self),
                *old(registry),
                UpgradeEvent::Started(report),
                *final(self),
                *final(registry),
            ),
    {
        let position = self.results.len();
        let i = self.node;
        let expected: Option<String> = if position < self.options.peer_ids.len() {
            Some(self.options.peer_ids[position].clone())
        } else {
            registry.nodes[i].peer_id.clone()
        };
        let matches = match &expected {
            Some(e) => *e == report.peer_id,
            None => true,
        };
        if matches {
            let peer_id = report.peer_id.clone();
            crate::lifecycle::record_started(registry, i, report);
            self.finish_service(UpgradeOutcome::Upgraded { peer_id });
        } else {
            registry.nodes[i].status = ServiceStatus::Running;
            registry.nodes[i].pid = Some(report.pid);
            assert(registry.nodes@ =~= old(registry).nodes@.update(
                i as int,
                started_unverified(old(registry).nodes@[i as int], report.pid),
            ));
            self.finish_service(
                UpgradeOutcome::Failed(
                    UpgradeFailure::PeerIdMismatch {
                        expected: expected.unwrap(),
                        found: report.peer_id,
                    },
                ),
            );
            assert(self.results@.drop_last() =~= old(self).results@);
        }
    }

    /// Takes the outcome of the action that was asked for and returns the
    /// next action. An event that does not answer the pending action is
    /// discarded. A failure ends the service at hand and the batch goes on.
    pub fn advance(&mut self, registry: &mut Registry, event: UpgradeEvent) -> (action:
        UpgradeAction)
        ensures
            old(self).inv(old(registry)) ==> {
                &&& upgrade_stepped(
                    *old(self),
                    *old(registry),
                    event,
                    *final(self),
                    *final(registry),
                )
                &&& final(self).inv(final(registry))
                &&& final(self).node < final(registry).nodes@.len() ==> upgrade_action_for(
                    *final(self),
                    *final(registry),
                    action,
                )
                &&& old(registry).wf() ==> final(registry).wf()
            },
    {
        let in_range = self.node < registry.nodes.len();
        match self.stage {
            UpgradeStage::Idle => {
                match event {
                    UpgradeEvent::Done => {
                        self.decide(registry);
                    },
                    _ => {},
                }
            },
            UpgradeStage::Stopping => {
                match event {
                    UpgradeEvent::Done => {
                        if in_range {
                            crate::lifecycle::record_stopped(registry, self.node);
                            self.stage = UpgradeStage::Replacing;
                        }
                    },
                    UpgradeEvent::Failed(e) => {
                        self.finish_service(UpgradeOutcome::Failed(UpgradeFailure::Stop(e)));
                    },
                    _ => {},
                }
            },
            UpgradeStage::Replacing => {
                match event {
                    UpgradeEvent::Done => {
                        if in_range {
                            registry.nodes[self.node].version = self.options.target_version.clone();
                            if self.reinstall {
                                self.stage = UpgradeStage::Reinstalling;
                            } else {
                                self.ready_to_start();
                            }
                        }
                    },
                    UpgradeEvent::Failed(e) => {
                        self.finish_service(UpgradeOutcome::Failed(UpgradeFailure::Replace(e)));
                    },
                    _ => {},
                }
            },
            UpgradeStage::Reinstalling => {
                match event {
                    UpgradeEvent::Done => {
                        self.ready_to_start();
                    },
                    UpgradeEvent::Failed(e) => {
                        self.finish_service(UpgradeOutcome::Failed(UpgradeFailure::Reinstall(e)));
                    },
                    _ => {},
                }
            },
            UpgradeStage::Starting => {
                match event {
                    UpgradeEvent::Started(report) => {
                        if in_range {
                            self.verify_restart(registry, report);
                        }
                    },
                    UpgradeEvent::Failed(e) => {
                        self.finish_service(UpgradeOutcome::Failed(UpgradeFailure::Start(e)));
                    },
                    _ => {},
                }
            },
            UpgradeStage::Sleeping => {
                match event {
                    UpgradeEvent::Done | UpgradeEvent::Failed(_) => {
                        self.stage = UpgradeStage::Idle;
                    },
                    _ => {},
                }
            },
            UpgradeStage::Finished => {},
        }
        proof {
            if old(self).inv(old(registry)) {
                lemma_upgrade_step(*old(self), *old(registry), event, *self, *registry);
            }
        }
        self.current_action(registry)
    }
}

/// A step keeps the invariants of the session and of the registry.
pub proof fn lemma_upgrade_step(
    s0: UpgradeSession,
    r0: Registry,
    event: UpgradeEvent,
    s1: UpgradeSession,
    r1: Registry,
)
    requires
        s0.inv(&r0),
        upgrade_stepped(s0, r0, event, s1, r1),
    ensures
        s1.inv(&r1),
        r0.wf() ==> r1.wf(),
{
    let n0 = r0.nodes@;
    let n1 = r1.nodes@;
    let position = s0.position();
    if r1 != r0 {
        let i = s0.node as int;
        assert(n1.len() == n0.len());
        assert forall|k: int| 0 <= k < n1.len() implies {
            &&& (#[trigger] n1[k]).service_name == n0[k].service_name
            &&& n1[k].number == n0[k].number
            &&& n1[k].rpc_socket_addr == n0[k].rpc_socket_addr
            &&& n1[k].node_port == n0[k].node_port
            &&& n1[k].genesis == n0[k].genesis
        } by {}
        if r0.wf() {
            assert(r1.wf());
        }
    }
    assert forall|i: int| 0 <= i < s1.results@.len() implies match #[trigger] s1.results@[i] {
        UpgradeOutcome::Upgraded { peer_id } => i < s1.options.peer_ids@.len() ==> peer_id@
            == s1.options.peer_ids@[i]@,
        _ => true,
    } by {
        if i < s0.results@.len() {
            assert(s1.results@[i] == s0.results@[i]);
        }
    }
    if s1.stage is Stopping || s1.stage is Replacing || s1.stage is Reinstalling || s1.stage is Starting {
        let name = s1.options.service_names@[s1.position()]@;
        if s0.stage is Idle {
            assert(!none_named(n0, name));
            let k = choose|k: int| 0 <= k < n0.len() && (#[trigger] n0[k]).service_name@ == name;
            lemma_first_named_exists(n0, name, k);
            let j = choose|j: int| first_named(n0, name, j);
            assert(first_named(n0, name, j));
            assert(n0.len() == r0.nodes.len());
            assert(j as usize as int == j);
        } else {
            assert(first_named(n0, name, s0.node as int));
            assert forall|k: int| 0 <= k < n1.len() implies (#[trigger] n1[k]).service_name
                == n0[k].service_name by {}
        }
        assert(first_named(n1, name, s1.node as int));
    }
}

/// An upgrade keeps the identity of a service: when a service of the batch
/// ends as upgraded, the registry records for it the peer id that it
/// reported, and that is the peer id which was expected of it; where the
/// peer id recorded before the restart was expected, it is unchanged.
pub proof fn lemma_upgrade_keeps_peer_id(
    s0: UpgradeSession,
    r0: Registry,
    event: UpgradeEvent,
    s1: UpgradeSession,
    r1: Registry,
)
    requires
        s0.inv(&r0),
        upgrade_stepped(s0, r0, event, s1, r1),
        s1.results@.len() == s0.results@.len() + 1,
        s1.results@.last() is Upgraded,
    ensures
        r1.nodes@[s0.node as int].peer_id == Some(s1.results@.last()->peer_id),
        r1.nodes@[s0.node as int].status is Running,
        expected_peer_id(s0.options, r0.nodes@[s0.node as int], s0.position()) matches Some(e)
            ==> s1.results@.last()->peer_id@ == e,
        forall|p: String|
            r0.nodes@[s0.node as int].peer_id == Some(p) && expected_peer_id(
                s0.options,
                r0.nodes@[s0.node as int],
                s0.position(),
            ) == Some(p@) ==> r1.nodes@[s0.node as int].peer_id->Some_0@ == p@,
{
}

} // verus!
