//! The lifecycle of a node service: start, stop, remove, and the refresh of
//! what the registry records from what the operating system reports.
//!
//! Each operation is decided here and carried out by a driver: the check
//! says whether the controller may be called, and the record function writes
//! the result into the registry. The driver saves the registry after every
//! record, before it reports success.
use vstd::prelude::*;
use vstd::string::*;
use crate::registry::{
    first_named, none_named, transition_allowed, NodeService, Registry, ServiceStatus,
};

verus! {

/// Why a lifecycle operation was refused.
#[derive(Clone, Debug, PartialEq, Eq)]
pub enum LifecycleError {
    /// No service of that name is recorded.
    NotFound,
    /// The service is running already.
    AlreadyRunning,
    /// The service is not running.
    NotRunning,
    /// The service is running and has to be stopped first.
    StillRunning,
    /// The service was removed.
    Removed,
}

impl LifecycleError {
    /// The message of the refusal.
    pub open spec fn message_text(&self) -> Seq<char> {
        match self {
            LifecycleError::NotFound => "No service of that name is recorded"@,
            LifecycleError::AlreadyRunning => "The service is running already"@,
            LifecycleError::NotRunning => "The service is not running"@,
            LifecycleError::StillRunning => "The service is running and has to be stopped first"@,
            LifecycleError::Removed => "The service was removed"@,
        }
    }

    /// The message of the refusal.
    pub fn message(&self) -> (s: String)
        ensures
            s@ == self.message_text(),
    {
        match self {
            LifecycleError::NotFound => String::from_str("No service of that name is recorded"),
            LifecycleError::AlreadyRunning => String::from_str("The service is running already"),
            LifecycleError::NotRunning => String::from_str("The service is not running"),
            LifecycleError::StillRunning => String::from_str(
                "The service is running and has to be stopped first",
            ),
            LifecycleError::Removed => String::from_str("The service was removed"),
        }
    }
}

/// What a node reports once it has started.
#[derive(Clone, Debug, PartialEq, Eq)]
pub struct StartReport {
    pub pid: u32,
    pub peer_id: String,
    pub listen_addr: Option<String>,
}

/// What has to be done to remove a service.
#[derive(Clone, Debug, PartialEq, Eq)]
pub enum RemovePlan {
    /// The service was removed before: nothing is left to do.
    Nothing,
    /// Uninstall the service, then delete the directories listed.
    Uninstall { index: usize, service_name: String, purge: Vec<String> },
}

/// Whether a node with this status may be started, and why not.
pub open spec fn start_refusal(status: ServiceStatus) -> Option<LifecycleError> {
    match status {
        ServiceStatus::Running => Some(LifecycleError::AlreadyRunning),
        ServiceStatus::Removed => Some(LifecycleError::Removed),
        _ => None,
    }
}

/// Whether a node with this status may be stopped, and why not.
pub open spec fn stop_refusal(status: ServiceStatus) -> Option<LifecycleError> {
    match status {
        ServiceStatus::Running => None,
        _ => Some(LifecycleError::NotRunning),
    }
}

/// The node after it has started with `report`.
pub open spec fn started(node: NodeService, report: StartReport) -> NodeService {
    NodeService {
        status: ServiceStatus::Running,
        pid: Some(report.pid),
        peer_id: Some(report.peer_id),
        listen_addr: report.listen_addr,
        ..node
    }
}

/// The node after it was stopped: its process and its connections are gone,
/// its identity stays.
pub open spec fn stopped(node: NodeService) -> NodeService {
    NodeService { status: ServiceStatus::Stopped, pid: None, connected_peers: None, ..node }
}

/// The node after it was removed.
pub open spec fn removed(node: NodeService) -> NodeService {
    NodeService { status: ServiceStatus::Removed, ..node }
}

/// The node after the operating system was asked for its process: `pid` is
/// the process found, if any. A node that was removed stays as it is,
/// whatever is found: removal is final. Any other node that runs is recorded
/// as running. A node without a process that was started before is recorded
/// as stopped; one that was never started stays as it is.
pub open spec fn refreshed(node: NodeService, pid: Option<u32>) -> NodeService {
    if node.status is Removed {
        node
    } else {
        match pid {
            Some(p) => NodeService { status: ServiceStatus::Running, pid: Some(p), ..node },
            None => match node.status {
                ServiceStatus::Added => node,
                _ => stopped(node),
            },
        }
    }
}

/// A refresh moves a record along the transitions that a record may take,
/// or leaves its status as it is; a removed record stays removed.
pub proof fn lemma_refresh_follows_transitions(node: NodeService, pid: Option<u32>)
    ensures
        refreshed(node, pid).status == node.status || transition_allowed(
            node.status,
            refreshed(node, pid).status,
        ),
        node.status is Removed ==> refreshed(node, pid) == node,
{
}

/// The registry with node `i` replaced by `node`.
pub open spec fn with_node(before: Registry, i: int, node: NodeService, after: Registry) -> bool {
    &&& after.nodes@ == before.nodes@.update(i, node)
    &&& after == (Registry { nodes: after.nodes, ..before })
}

/// Two records of the same service: name, number, RPC socket, custom port
/// and genesis flag agree.
pub open spec fn same_identity(a: NodeService, b: NodeService) -> bool {
    &&& a.service_name == b.service_name
    &&& a.number == b.number
    &&& a.rpc_socket_addr == b.rpc_socket_addr
    &&& a.node_port == b.node_port
    &&& a.genesis == b.genesis
}

/// A registry stays well formed when the record of a node is replaced by
/// one of the same service: what the lifecycle changes of a node has no
/// part in the invariant.
pub proof fn lemma_record_keeps_wf(before: Registry, i: int, node: NodeService, after: Registry)
    requires
        before.wf(),
        0 <= i < before.nodes@.len(),
        with_node(before, i, node, after),
        same_identity(before.nodes@[i], node),
    ensures
        after.wf(),
{
    let n0 = before.nodes@;
    let n1 = after.nodes@;
    assert forall|k: int| 0 <= k < n1.len() implies same_identity(n0[k], #[trigger] n1[k]) by {}
}

/// Looks up the node to start: refused if no node has that name, if it runs
/// already or if it was removed.
pub fn check_start(registry: &Registry, name: &String) -> (r: Result<usize, LifecycleError>)
    ensures
        match r {
            Ok(i) => first_named(registry.nodes@, name@, i as int) && start_refusal(
                registry.nodes@[i as int].status,
            ) is None,
            Err(e) => if none_named(registry.nodes@, name@) {
                e == LifecycleError::NotFound
            } else {
                exists|i: int|
                    first_named(registry.nodes@, name@, i) && start_refusal(
                        registry.nodes@[i].status,
                    ) == Some(e)
            },
        },
{
    match registry.find_node(name) {
        Some(i) => match registry.nodes[i].status {
            ServiceStatus::Running => Err(LifecycleError::AlreadyRunning),
            ServiceStatus::Removed => Err(LifecycleError::Removed),
            _ => Ok(i),
        },
        None => Err(LifecycleError::NotFound),
    }
}

/// Records that node `i` has started: it is running with the process, the
/// identity and the listen address that it reported.
pub fn record_started(registry: &mut Registry, i: usize, report: StartReport)
    requires
        i < old(registry).nodes@.len(),
    ensures
        with_node(
            *old(registry),
            i as int,
            started(old(registry).nodes@[i as int], report),
            *final(registry),
        ),
        start_refusal(old(registry).nodes@[i as int].status) is None ==> transition_allowed(
            old(registry).nodes@[i as int].status,
            final(registry).nodes@[i as int].status,
        ),
        old(registry).wf() ==> final(registry).wf(),
{
    registry.nodes[i].status = ServiceStatus::Running;
    registry.nodes[i].pid = Some(report.pid);
    registry.nodes[i].peer_id = Some(report.peer_id);
    registry.nodes[i].listen_addr = report.listen_addr;
    assert(registry.nodes@ =~= old(registry).nodes@.update(
        i as int,
        started(old(registry).nodes@[i as int], report),
    ));
    proof {
        if old(registry).wf() {
            lemma_record_keeps_wf(
                *old(registry),
                i as int,
                started(old(registry).nodes@[i as int], report),
                *registry,
            );
        }
    }
}

/// Looks up the node to stop: refused if no node has that name or if it is
/// not running.
pub fn check_stop(registry: &Registry, name: &String) -> (r: Result<usize, LifecycleError>)
    ensures
        match r {
            Ok(i) => first_named(registry.nodes@, name@, i as int) && stop_refusal(
                registry.nodes@[i as int].status,
            ) is None,
            Err(e) => if none_named(registry.nodes@, name@) {
                e == LifecycleError::NotFound
            } else {
                exists|i: int|
                    first_named(registry.nodes@, name@, i) && stop_refusal(
                        registry.nodes@[i].status,
                    ) == Some(e)
            },
        },
{
    match registry.find_node(name) {
        Some(i) => match registry.nodes[i].status {
            ServiceStatus::Running => Ok(i),
            _ => Err(LifecycleError::NotRunning),
        },
        None => Err(LifecycleError::NotFound),
    }
}

/// Records that node `i` was stopped: its process and its connections are
/// cleared, its peer id is kept.
pub fn record_stopped(registry: &mut Registry, i: usize)
    requires
        i < old(registry).nodes@.len(),
    ensures
        with_node(*old(registry), i as int, stopped(old(registry).nodes@[i as int]), *final(registry)),
        final(registry).nodes@[i as int].peer_id == old(registry).nodes@[i as int].peer_id,
        old(registry).nodes@[i as int].status is Running ==> transition_allowed(
            old(registry).nodes@[i as int].status,
            final(registry).nodes@[i as int].status,
        ),
        old(registry).wf() ==> final(registry).wf(),
{
    registry.nodes[i].status = ServiceStatus::Stopped;
    registry.nodes[i].pid = None;
    registry.nodes[i].connected_peers = None;
    assert(registry.nodes@ =~= old(registry).nodes@.update(
        i as int,
        stopped(old(registry).nodes@[i as int]),
    ));
    proof {
        if old(registry).wf() {
            lemma_record_keeps_wf(
                *old(registry),
                i as int,
                stopped(old(registry).nodes@[i as int]),
                *registry,
            );
        }
    }
}

/// What removing a node with this status takes: nothing for a node that was
/// removed before, the uninstallation for one that is stopped or was never
/// started; a running node is refused.
pub open spec fn removal(status: ServiceStatus) -> Result<bool, LifecycleError> {
    match status {
        ServiceStatus::Removed => Ok(false),
        ServiceStatus::Running => Err(LifecycleError::StillRunning),
        _ => Ok(true),
    }
}

/// The directories that go with a removed node: its data and its log
/// directory, unless they are to be kept.
pub open spec fn purge_list(node: NodeService, keep_directories: bool) -> Seq<String> {
    if keep_directories {
        Seq::empty()
    } else {
        seq![node.data_dir_path, node.log_dir_path]
    }
}

/// Plans the removal of the node named `name`. A node that was removed
/// before takes nothing: removing it again succeeds without any work. A node
/// that is stopped or was never started is to be uninstalled, and its data
/// and log directories deleted unless they are to be kept. A running node is
/// refused, and so is a name that no node has.
pub fn plan_remove(registry: &Registry, name: &String, keep_directories: bool) -> (r: Result<
    RemovePlan,
    LifecycleError,
>)
    ensures
        none_named(registry.nodes@, name@) ==> r == Err::<RemovePlan, LifecycleError>(
            LifecycleError::NotFound,
        ),
        forall|i: int|
            first_named(registry.nodes@, name@, i) ==> match removal(registry.nodes@[i].status) {
                Err(e) => r == Err::<RemovePlan, LifecycleError>(e),
                Ok(false) => r == Ok::<RemovePlan, LifecycleError>(RemovePlan::Nothing),
                Ok(true) => {
                    &&& r matches Ok(RemovePlan::Uninstall { index, service_name, purge })
                    &&& index == i
                    &&& service_name == registry.nodes@[i].service_name
                    &&& purge@ == purge_list(registry.nodes@[i], keep_directories)
                },
            },
{
    match registry.find_node(name) {
        Some(i) => {
            assert forall|k: int| first_named(registry.nodes@, name@, k) implies k == i by {
                if k < i {
                    assert(registry.nodes@[k].service_name@ != name@);
                }
                if i < k {
                    assert(registry.nodes@[i as int].service_name@ != name@);
                }
            }
            match registry.nodes[i].status {
                ServiceStatus::Removed => Ok(RemovePlan::Nothing),
                ServiceStatus::Running => Err(LifecycleError::StillRunning),
                _ => {
                    let mut purge: Vec<String> = Vec::new();
                    if !keep_directories {
                        purge.push(registry.nodes[i].data_dir_path.clone());
                        purge.push(registry.nodes[i].log_dir_path.clone());
                    }
                    assert(purge@ =~= purge_list(registry.nodes@[i as int], keep_directories));
                    Ok(
                        RemovePlan::Uninstall {
                            index: i,
                            service_name: registry.nodes[i].service_name.clone(),
                            purge,
                        },
                    )
                },
            }
        },
        None => {
            assert forall|k: int| first_named(registry.nodes@, name@, k) implies false by {
                assert(registry.nodes@[k].service_name@ != name@);
            }
            Err(LifecycleError::NotFound)
        },
    }
}

/// Records that node `i` was uninstalled: it is removed from the fleet, its
/// record stays.
pub fn record_removed(registry: &mut Registry, i: usize)
    requires
        i < old(registry).nodes@.len(),
    ensures
        with_node(*old(registry), i as int, removed(old(registry).nodes@[i as int]), *final(registry)),
        removal(old(registry).nodes@[i as int].status) == Ok::<bool, LifecycleError>(true)
            ==> transition_allowed(
            old(registry).nodes@[i as int].status,
            final(registry).nodes@[i as int].status,
        ),
        old(registry).wf() ==> final(registry).wf(),
{
    registry.nodes[i].status = ServiceStatus::Removed;
    proof {
        if old(registry).wf() {
            lemma_record_keeps_wf(
                *old(registry),
                i as int,
                removed(old(registry).nodes@[i as int]),
                *registry,
            );
        }
    }
}

/// Removing is idempotent: a node that was removed takes no work to remove
/// again, whatever is asked of its directories, and recording the removal
/// once more leaves it as it is.
pub proof fn lemma_remove_idempotent(node: NodeService)
    ensures
        removal(removed(node).status) == Ok::<bool, LifecycleError>(false),
        removed(removed(node)) == removed(node),
{
}

/// Stopping keeps the identity of a node, and a start that reports the same
/// identity restores it.
pub proof fn lemma_identity_survives_restart(node: NodeService, report: StartReport)
    requires
        node.peer_id == Some(report.peer_id),
    ensures
        stopped(node).peer_id == node.peer_id,
        started(stopped(node), report).peer_id == node.peer_id,
{
}

/// Writes what the operating system reports into the registry: `pids` holds,
/// for each node in order, the process that was found for it, if any. A node
/// for which `pids` has no entry stays as it is.
pub fn refresh(registry: &mut Registry, pids: &Vec<Option<u32>>)
    ensures
        final(registry).nodes@.len() == old(registry).nodes@.len(),
        forall|i: int|
            0 <= i < old(registry).nodes@.len() ==> #[trigger] final(registry).nodes@[i] == if i
                < pids@.len() {
                refreshed(old(registry).nodes@[i], pids@[i])
            } else {
                old(registry).nodes@[i]
            },
        *final(registry) == (Registry { nodes: final(registry).nodes, ..*old(registry) }),
        old(registry).wf() ==> final(registry).wf(),
{
    let mut i: usize = 0;
    while i < pids.len() && i < registry.nodes.len()
        invariant
            registry.nodes@.len() == old(registry).nodes@.len(),
            i <= pids@.len(),
            i <= registry.nodes@.len(),
            forall|k: int|
                0 <= k < i ==> #[trigger] registry.nodes@[k] == refreshed(
                    old(registry).nodes@[k],
                    pids@[k],
                ),
            forall|k: int|
                i <= k < registry.nodes@.len() ==> #[trigger] registry.nodes@[k] == old(
                    registry,
                ).nodes@[k],
            *registry == (Registry { nodes: registry.nodes, ..*old(registry) }),
            old(registry).wf() ==> registry.wf(),
        decreases pids@.len() - i,
    {
        let ghost before = *registry;
        match pids[i] {
            Some(p) => {
                match registry.nodes[i].status {
                    ServiceStatus::Removed => {},
                    _ => {
                        registry.nodes[i].status = ServiceStatus::Running;
                        registry.nodes[i].pid = Some(p);
                    },
                }
                proof {
                    assert(registry.nodes@ =~= before.nodes@.update(
                        i as int,
                        refreshed(before.nodes@[i as int], Some(p)),
                    ));
                    if before.wf() {
                        lemma_record_keeps_wf(
                            before,
                            i as int,
                            refreshed(before.nodes@[i as int], Some(p)),
                            *registry,
                        );
                    }
                }
            },
            None => {
                match registry.nodes[i].status {
                    ServiceStatus::Added | ServiceStatus::Removed => {},
                    _ => {
                        record_stopped(registry, i);
                    },
                }
            },
        }
        i = i + 1;
    }
}

} // verus!
