//! Reset: every node is stopped and removed, the faucet and the daemon go,
//! and the registry is left empty.
use vstd::prelude::*;
use vstd::string::*;
use crate::registry::{
    active_nodes, lemma_active_nodes_step, names_of, running_nodes, NodeService, Registry,
    ServiceStatus,
};

verus! {

/// What a reset takes, in the order in which it is done.
#[derive(Clone, Debug, PartialEq, Eq)]
pub struct ResetPlan {
    /// The running nodes, to be stopped.
    pub stop: Vec<String>,
    /// The nodes that were not removed before, to be uninstalled.
    pub uninstall: Vec<String>,
    /// The data and log directories of those nodes, to be deleted.
    pub purge: Vec<String>,
    /// Whether a faucet is to be uninstalled.
    pub faucet: bool,
    /// Whether a daemon is to be uninstalled.
    pub daemon: bool,
}

/// The data directory and the log directory of each node, in order.
pub open spec fn directories_of(nodes: Seq<NodeService>) -> Seq<String> {
    Seq::new(
        2 * nodes.len(),
        |i: int|
            if i % 2 == 0 {
                nodes[i / 2].data_dir_path
            } else {
                nodes[i / 2].log_dir_path
            },
    )
}

/// Plans a reset: which nodes are stopped, which are uninstalled with their
/// directories, and whether a faucet and a daemon are there to go.
pub fn plan_reset(registry: &Registry) -> (plan: ResetPlan)
    ensures
        plan.stop@ == names_of(running_nodes(registry.nodes@)),
        plan.uninstall@ == names_of(active_nodes(registry.nodes@)),
        plan.purge@ == directories_of(active_nodes(registry.nodes@)),
        plan.faucet == registry.faucet is Some,
        plan.daemon == registry.daemon is Some,
{
    let stop = registry.running_names();
    let uninstall = registry.active_names();
    let mut purge: Vec<String> = Vec::new();
    let mut i: usize = 0;
    proof {
        reveal(Seq::filter);
        assert(registry.nodes@.take(0) =~= Seq::<NodeService>::empty());
        assert(purge@ =~= directories_of(active_nodes(registry.nodes@.take(0))));
    }
    while i < registry.nodes.len()
        invariant
            i <= registry.nodes@.len(),
            purge@ == directories_of(active_nodes(registry.nodes@.take(i as int))),
        decreases registry.nodes@.len() - i,
    {
        proof {
            lemma_active_nodes_step(registry.nodes@, i as int);
        }
        let ghost before = active_nodes(registry.nodes@.take(i as int));
        match registry.nodes[i].status {
            ServiceStatus::Removed => {},
            _ => {
                purge.push(registry.nodes[i].data_dir_path.clone());
                purge.push(registry.nodes[i].log_dir_path.clone());
                proof {
                    let after = before.push(registry.nodes@[i as int]);
                    assert forall|k: int| 0 <= k < purge@.len() implies purge@[k] == directories_of(
                        after,
                    )[k] by {
                        if k < 2 * before.len() {
                            assert(purge@[k] == directories_of(before)[k]);
                            assert(after[k / 2] == before[k / 2]);
                        }
                    }
                    assert(purge@ =~= directories_of(after));
                }
            },
        }
        i = i + 1;
    }
    assert(registry.nodes@.take(registry.nodes@.len() as int) =~= registry.nodes@);
    ResetPlan {
        stop,
        uninstall,
        purge,
        faucet: registry.faucet.is_some(),
        daemon: registry.daemon.is_some(),
    }
}

/// Empties the registry once everything was uninstalled: no node, no faucet
/// and no daemon are left, and the settings are cleared. The registry keeps
/// the path at which it is saved.
pub fn complete_reset(registry: &mut Registry)
    ensures
        final(registry).save_path == old(registry).save_path,
        final(registry).nodes@.len() == 0,
        final(registry).faucet is None,
        final(registry).daemon is None,
        final(registry).bootstrap_peers@.len() == 0,
        final(registry).environment_variables is None,
        final(registry).nat_status is None,
        final(registry).wf(),
{
    registry.nodes = Vec::new();
    registry.faucet = None;
    registry.daemon = None;
    registry.bootstrap_peers = Vec::new();
    registry.environment_variables = None;
    registry.nat_status = None;
}

/// The count of nodes to bring up after a reset: the count that was stored,
/// if the nodes are to be started again.
pub fn restart_after_reset(start_after: bool, stored_count: u16) -> (r: Option<u16>)
    ensures
        r == if start_after {
            Some(stored_count)
        } else {
            None::<u16>
        },
{
    if start_after {
        Some(stored_count)
    } else {
        None
    }
}

} // verus!
