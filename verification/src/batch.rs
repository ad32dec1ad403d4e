//! Tasks of the worker as batches of steps: bringing the fleet to a count of
//! running nodes, stopping nodes, resetting. A batch takes its steps in
//! order. Each step is checked against the registry, carried out by a
//! driver, recorded, and the registry saved before the next step is taken.
//! A step that fails is noted and the batch goes on, unless the batch is one
//! that halts at the first failure.
use vstd::prelude::*;
use vstd::string::*;
use crate::lifecycle::{
    check_start, check_stop, plan_remove, purge_list, record_removed, record_started,
    record_stopped, removal, removed, start_refusal, started, stop_refusal, stopped, with_node,
    LifecycleError, RemovePlan, StartReport,
};
use crate::maintain::{
    as_ints, plan_maintenance, planned, probe_before_start, PortRange,
    MAX_ERRORS_WHILE_RUNNING_NAT_DETECTION,
};
use crate::registry::{
    active_nodes, first_named, lemma_first_named_exists, lemma_first_named_unique, names_of,
    none_named, running_nodes, NatStatus, NodeService, Registry,
};

verus! {

/// One step of a batch.
#[derive(Clone, Debug, PartialEq, Eq)]
pub enum Step {
    /// Probe how this host is reached from the network.
    DetectNat,
    /// Start the node of this name.
    Start(String),
    /// Stop the node of this name.
    Stop(String),
    /// Remove the node of this name, with its directories unless kept.
    Remove { service_name: String, keep_directories: bool },
    /// Add one node, with this custom port if any, and start it.
    Add(Option<u16>),
    /// Uninstall the faucet, if there is one.
    UninstallFaucet,
    /// Uninstall the daemon, if there is one.
    UninstallDaemon,
    /// Empty the registry.
    Clear,
}

/// What the driver is asked to do next.
#[derive(Clone, Debug, PartialEq, Eq)]
pub enum BatchAction {
    /// Nothing; go on.
    Proceed,
    DetectNat,
    Start { service_name: String },
    Stop { service_name: String },
    /// Uninstall the service, then delete the directories listed.
    Uninstall { service_name: String, purge: Vec<String> },
    /// Add one node service with this custom port; the registry is saved by
    /// the add operation itself.
    AddNode { node_port: Option<u16> },
    SaveRegistry,
    Finished,
}

/// How the action that was asked for went.
#[derive(Clone, Debug, PartialEq, Eq)]
pub enum BatchEvent {
    /// It was carried out.
    Done,
    /// The node has started and reported.
    Started(StartReport),
    /// The probe has found this.
    Nat(NatStatus),
    /// It failed, with this message.
    Failed(String),
}

/// Where a batch stands.
#[derive(Clone, Copy, Debug, PartialEq, Eq, Structural)]
pub enum BatchPhase {
    /// The next step is about to be taken.
    Ready,
    /// The action of the step at hand was asked for.
    Waiting,
    /// The step at hand was recorded and the registry is being saved.
    Saving,
    Finished,
}

/// A step that failed.
#[derive(Clone, Debug, PartialEq, Eq)]
pub struct StepFailure {
    /// The position of the step in the batch.
    pub step: usize,
    pub service_name: String,
    pub error: String,
}

/// A batch in progress.
#[derive(Clone, Debug, PartialEq, Eq)]
pub struct Batch {
    pub steps: Vec<Step>,
    /// The position of the step at hand.
    pub next: usize,
    pub phase: BatchPhase,
    /// The position in the registry of the node at hand; for a step that
    /// adds a node, the count of nodes before it.
    pub node: usize,
    /// Whether the batch ends at the first step that fails.
    pub halt_on_failure: bool,
    pub failures: Vec<StepFailure>,
    /// Whether the probe was run and failed.
    pub nat_failed: bool,
    /// What the probe found, if it was run and succeeded.
    pub nat_found: Option<NatStatus>,
    /// Why the batch was given up: the registry could not be saved.
    pub error: Option<String>,
}

/// The steps that start the nodes at `positions`.
pub open spec fn start_steps(nodes: Seq<NodeService>, positions: Seq<int>) -> Seq<Step> {
    Seq::new(positions.len(), |j: int| Step::Start(nodes[positions[j]].service_name))
}

/// The steps that stop the nodes at `positions`.
pub open spec fn stop_steps(nodes: Seq<NodeService>, positions: Seq<int>) -> Seq<Step> {
    Seq::new(positions.len(), |j: int| Step::Stop(nodes[positions[j]].service_name))
}

/// The steps that add a node for each entry.
pub open spec fn add_steps(ports: Seq<Option<u16>>) -> Seq<Step> {
    Seq::new(ports.len(), |j: int| Step::Add(ports[j]))
}

/// The steps that stop the services named.
pub open spec fn stop_named(names: Seq<String>) -> Seq<Step> {
    Seq::new(names.len(), |j: int| Step::Stop(names[j]))
}

/// The steps that remove the services named, with their directories.
pub open spec fn remove_named(names: Seq<String>) -> Seq<Step> {
    Seq::new(
        names.len(),
        |j: int| Step::Remove { service_name: names[j], keep_directories: false },
    )
}

/// A single step, if it is wanted.
pub open spec fn step_if(wanted: bool, step: Step) -> Seq<Step> {
    if wanted {
        seq![step]
    } else {
        Seq::empty()
    }
}

/// The steps of a reset: the running nodes are stopped, every node that was
/// not removed is removed with its directories, the faucet and the daemon
/// are uninstalled if they are there, and the registry is emptied.
pub open spec fn reset_steps(registry: Registry) -> Seq<Step> {
    stop_named(names_of(running_nodes(registry.nodes@))) + remove_named(
        names_of(active_nodes(registry.nodes@)),
    ) + step_if(registry.faucet is Some, Step::UninstallFaucet) + step_if(
        registry.daemon is Some,
        Step::UninstallDaemon,
    ) + seq![Step::Clear]
}

impl Batch {
    /// A batch of `steps` that stands before its first step.
    pub open spec fn fresh(&self, steps: Seq<Step>, halt_on_failure: bool) -> bool {
        &&& self.steps@ == steps
        &&& self.next == 0
        &&& self.phase is Ready
        &&& self.halt_on_failure == halt_on_failure
        &&& self.failures@.len() == 0
        &&& !self.nat_failed
        &&& self.nat_found is None
        &&& self.error is None
    }

    fn of(steps: Vec<Step>, halt_on_failure: bool) -> (r: Self)
        ensures
            r.fresh(steps@, halt_on_failure),
    {
        Batch {
            steps,
            next: 0,
            phase: BatchPhase::Ready,
            node: 0,
            halt_on_failure,
            failures: Vec::new(),
            nat_failed: false,
            nat_found: None,
            error: None,
        }
    }

    /// The batch that brings the fleet to `desired` running nodes: first the
    /// probe, if a node is to come up at all and the probe is due, that is,
    /// asked for, without a result yet, and not failed too often; then the
    /// idle nodes that are started, in registry order; then the nodes that
    /// are added; last the running nodes that are stopped, the last of the
    /// registry first. A step that fails does not halt the batch.
    pub fn maintain(
        registry: &Registry,
        desired: u16,
        ports: Option<PortRange>,
        run_nat_detection: bool,
        nat_errors: usize,
    ) -> (r: Self)
        ensures
            exists|start: Seq<int>, add: Seq<Option<u16>>, stop: Seq<int>|
                {
                    &&& #[trigger] planned(registry.nodes@, desired as int, ports, start, add, stop)
                    &&& r.fresh(
                        step_if(
                            (start.len() > 0 || add.len() > 0) && run_nat_detection
                                && registry.nat_status is None && nat_errors
                                < MAX_ERRORS_WHILE_RUNNING_NAT_DETECTION,
                            Step::DetectNat,
                        ) + start_steps(registry.nodes@, start) + add_steps(add) + stop_steps(
                            registry.nodes@,
                            stop,
                        ),
                        false,
                    )
                },
    {
        let plan = plan_maintenance(registry, desired, ports);
        let ghost start = as_ints(plan.start@);
        let ghost stop = as_ints(plan.stop@);
        let ghost nodes = registry.nodes@;
        proof {
            crate::maintain::lemma_running_positions(nodes);
            crate::maintain::lemma_idle_positions(nodes);
        }
        let mut steps: Vec<Step> = Vec::new();
        let probe = probe_before_start(&plan, run_nat_detection, registry.nat_status, nat_errors);
        if probe {
            steps.push(Step::DetectNat);
        }
        let ghost head = steps@;
        assert(start.len() == plan.start@.len());
        assert(head =~= step_if(probe, Step::DetectNat));
        let mut i: usize = 0;
        while i < plan.start.len()
            invariant
                i <= plan.start@.len(),
                nodes == registry.nodes@,
                start == as_ints(plan.start@),
                forall|j: int| 0 <= j < start.len() ==> 0 <= #[trigger] start[j] < nodes.len(),
                steps@ == head + start_steps(nodes, start.take(i as int)),
            decreases plan.start@.len() - i,
        {
            assert(start[i as int] == plan.start@[i as int]);
            steps.push(Step::Start(registry.nodes[plan.start[i]].service_name.clone()));
            i = i + 1;
            assert(steps@ =~= head + start_steps(nodes, start.take(i as int)));
        }
        assert(start.take(start.len() as int) =~= start);
        let ghost after_starts = steps@;
        let mut a: usize = 0;
        while a < plan.add.len()
            invariant
                a <= plan.add@.len(),
                steps@ == after_starts + add_steps(plan.add@.take(a as int)),
            decreases plan.add@.len() - a,
        {
            steps.push(Step::Add(plan.add[a]));
            a = a + 1;
            assert(steps@ =~= after_starts + add_steps(plan.add@.take(a as int)));
        }
        assert(plan.add@.take(plan.add@.len() as int) =~= plan.add@);
        let ghost after_adds = steps@;
        let mut k: usize = 0;
        while k < plan.stop.len()
            invariant
                k <= plan.stop@.len(),
                nodes == registry.nodes@,
                stop == as_ints(plan.stop@),
                forall|j: int| 0 <= j < stop.len() ==> 0 <= #[trigger] stop[j] < nodes.len(),
                steps@ == after_adds + stop_steps(nodes, stop.take(k as int)),
            decreases plan.stop@.len() - k,
        {
            assert(stop[k as int] == plan.stop@[k as int]);
            steps.push(Step::Stop(registry.nodes[plan.stop[k]].service_name.clone()));
            k = k + 1;
            assert(steps@ =~= after_adds + stop_steps(nodes, stop.take(k as int)));
        }
        assert(stop.take(stop.len() as int) =~= stop);
        Batch::of(steps, false)
    }

    /// The batch that stops the services named, in this order. A step that
    /// fails does not halt the batch.
    pub fn stop(services: Vec<String>) -> (r: Self)
        ensures
            r.fresh(stop_named(services@), false),
    {
        let mut steps: Vec<Step> = Vec::new();
        let mut i: usize = 0;
        while i < services.len()
            invariant
                i <= services@.len(),
                steps@ == stop_named(services@.take(i as int)),
            decreases services@.len() - i,
        {
            steps.push(Step::Stop(services[i].clone()));
            i = i + 1;
            assert(steps@ =~= stop_named(services@.take(i as int)));
        }
        assert(services@.take(services@.len() as int) =~= services@);
        Batch::of(steps, false)
    }

    /// The batch that resets the fleet. It halts at the first step that
    /// fails, so that the registry is emptied only when everything is gone.
    pub fn reset(registry: &Registry) -> (r: Self)
        ensures
            r.fresh(reset_steps(*registry), true),
    {
        let plan = crate::reset::plan_reset(registry);
        let running = plan.stop;
        let active = plan.uninstall;
        let mut steps: Vec<Step> = Vec::new();
        let mut i: usize = 0;
        while i < running.len()
            invariant
                i <= running@.len(),
                steps@ == stop_named(running@.take(i as int)),
            decreases running@.len() - i,
        {
            steps.push(Step::Stop(running[i].clone()));
            i = i + 1;
            assert(steps@ =~= stop_named(running@.take(i as int)));
        }
        assert(running@.take(running@.len() as int) =~= running@);
        let ghost stops = steps@;
        let mut k: usize = 0;
        while k < active.len()
            invariant
                k <= active@.len(),
                steps@ == stops + remove_named(active@.take(k as int)),
            decreases active@.len() - k,
        {
            steps.push(Step::Remove { service_name: active[k].clone(), keep_directories: false });
            k = k + 1;
            assert(steps@ =~= stops + remove_named(active@.take(k as int)));
        }
        assert(active@.take(active@.len() as int) =~= active@);
        if plan.faucet {
            steps.push(Step::UninstallFaucet);
        }
        if plan.daemon {
            steps.push(Step::UninstallDaemon);
        }
        steps.push(Step::Clear);
        assert(steps@ =~= reset_steps(*registry));
        Batch::of(steps, true)
    }
}


/// The name of the service that a step is about, if it is about one.
pub open spec fn step_name(step: Step) -> Seq<char> {
    match step {
        Step::Start(name) => name@,
        Step::Stop(name) => name@,
        Step::Remove { service_name, .. } => service_name@,
        Step::UninstallFaucet => "faucet"@,
        Step::UninstallDaemon => "safenodemand"@,
        _ => Seq::empty(),
    }
}

/// The batch after the step at hand failed with `error`: the failure is
/// noted, and the batch ends if it halts at failures and goes on with the
/// next step otherwise.
pub open spec fn failed_with(b0: Batch, error: Seq<char>, b1: Batch) -> bool {
    &&& b1.steps == b0.steps
    &&& b1.node == b0.node
    &&& b1.halt_on_failure == b0.halt_on_failure
    &&& b1.nat_failed == b0.nat_failed
    &&& b1.nat_found == b0.nat_found
    &&& b1.error == b0.error
    &&& b1.failures@.len() == b0.failures@.len() + 1
    &&& b1.failures@.drop_last() == b0.failures@
    &&& b1.failures@.last().step == b0.next
    &&& b1.failures@.last().service_name@ == step_name(b0.steps@[b0.next as int])
    &&& b1.failures@.last().error@ == error
    &&& if b0.halt_on_failure {
        b1.phase is Finished && b1.next == b0.next
    } else {
        b1.phase is Ready && b1.next == b0.next + 1
    }
}

/// The batch after the step at hand is done, in `phase`.
pub open spec fn moved_on(b0: Batch, phase: BatchPhase, b1: Batch) -> bool {
    b1 == (Batch { next: (b0.next + 1) as usize, phase, ..b0 })
}

/// The batch while the action of the step at hand is carried out on the
/// node at `node`.
pub open spec fn waiting_for(b0: Batch, node: int, b1: Batch) -> bool {
    b1 == (Batch { phase: BatchPhase::Waiting, node: node as usize, ..b0 })
}

/// The registry emptied: nothing is left but the path at which it is saved.
pub open spec fn emptied(r0: Registry, r1: Registry) -> bool {
    &&& r1.save_path == r0.save_path
    &&& r1.nodes@.len() == 0
    &&& r1.faucet is None
    &&& r1.daemon is None
    &&& r1.bootstrap_peers@.len() == 0
    &&& r1.environment_variables is None
    &&& r1.nat_status is None
}

/// What is decided for a step on a node by name: a failure where no node
/// has the name or the node's status refuses the step, else the node.
pub open spec fn on_named(
    b0: Batch,
    nodes: Seq<NodeService>,
    name: Seq<char>,
    refusal: spec_fn(NodeService) -> Option<LifecycleError>,
    b1: Batch,
) -> bool {
    if none_named(nodes, name) {
        failed_with(b0, LifecycleError::NotFound.message_text(), b1)
    } else {
        let i = choose|i: int| first_named(nodes, name, i);
        match refusal(nodes[i]) {
            Some(e) => failed_with(b0, e.message_text(), b1),
            None => waiting_for(b0, i, b1),
        }
    }
}

/// What taking the next step does.
pub open spec fn taken(b0: Batch, r0: Registry, b1: Batch, r1: Registry) -> bool {
    if b0.next >= b0.steps@.len() {
        b1 == (Batch { phase: BatchPhase::Finished, ..b0 }) && r1 == r0
    } else {
        match b0.steps@[b0.next as int] {
            Step::DetectNat => r1 == r0 && waiting_for(b0, b0.node as int, b1),
            Step::Add(_) => r1 == r0 && waiting_for(b0, r0.nodes@.len() as int, b1),
            Step::Start(name) => r1 == r0 && on_named(
                b0,
                r0.nodes@,
                name@,
                |n: NodeService| start_refusal(n.status),
                b1,
            ),
            Step::Stop(name) => r1 == r0 && on_named(
                b0,
                r0.nodes@,
                name@,
                |n: NodeService| stop_refusal(n.status),
                b1,
            ),
            Step::Remove { service_name, .. } => {
                &&& r1 == r0
                &&& if none_named(r0.nodes@, service_name@) {
                    failed_with(b0, LifecycleError::NotFound.message_text(), b1)
                } else {
                    let i = choose|i: int| first_named(r0.nodes@, service_name@, i);
                    match removal(r0.nodes@[i].status) {
                        Err(e) => failed_with(b0, e.message_text(), b1),
                        Ok(false) => moved_on(b0, BatchPhase::Ready, b1),
                        Ok(true) => waiting_for(b0, i, b1),
                    }
                }
            },
            Step::UninstallFaucet => r1 == r0 && if r0.faucet is Some {
                waiting_for(b0, b0.node as int, b1)
            } else {
                moved_on(b0, BatchPhase::Ready, b1)
            },
            Step::UninstallDaemon => r1 == r0 && if r0.daemon is Some {
                waiting_for(b0, b0.node as int, b1)
            } else {
                moved_on(b0, BatchPhase::Ready, b1)
            },
            Step::Clear => emptied(r0, r1) && moved_on(b0, BatchPhase::Saving, b1),
        }
    }
}

/// The message noted when an add operation left no new node.
pub open spec fn nothing_added_text() -> Seq<char> {
    "No service was added"@
}

/// What the outcome of the action of the step at hand does.
pub open spec fn answered(b0: Batch, r0: Registry, event: BatchEvent, b1: Batch, r1: Registry) -> bool {
    let node = r0.nodes@[b0.node as int];
    match (b0.steps@[b0.next as int], event) {
        (Step::DetectNat, BatchEvent::Nat(status)) => {
            &&& r1 == (Registry { nat_status: Some(status), ..r0 })
            &&& b1 == (Batch {
                next: (b0.next + 1) as usize,
                phase: BatchPhase::Saving,
                nat_found: Some(status),
                ..b0
            })
        },
        (Step::DetectNat, BatchEvent::Failed(_)) => {
            &&& r1 == r0
            &&& b1 == (Batch {
                next: (b0.next + 1) as usize,
                phase: BatchPhase::Ready,
                nat_failed: true,
                ..b0
            })
        },
        (Step::Start(_), BatchEvent::Started(report)) => {
            &&& with_node(r0, b0.node as int, started(node, report), r1)
            &&& moved_on(b0, BatchPhase::Saving, b1)
        },
        (Step::Stop(_), BatchEvent::Done) => {
            &&& with_node(r0, b0.node as int, stopped(node), r1)
            &&& moved_on(b0, BatchPhase::Saving, b1)
        },
        (Step::Remove { .. }, BatchEvent::Done) => {
            &&& with_node(r0, b0.node as int, removed(node), r1)
            &&& moved_on(b0, BatchPhase::Saving, b1)
        },
        (Step::Add(_), BatchEvent::Done) => {
            &&& r1 == r0
            &&& if r0.nodes@.len() > b0.node {
                &&& b1.steps@ == b0.steps@.update(b0.next as int, Step::Start(node.service_name))
                &&& b1 == (Batch { steps: b1.steps, phase: BatchPhase::Ready, ..b0 })
            } else {
                failed_with(b0, nothing_added_text(), b1)
            }
        },
        (Step::UninstallFaucet, BatchEvent::Done) => {
            &&& r1 == (Registry { faucet: None, ..r0 })
            &&& moved_on(b0, BatchPhase::Saving, b1)
        },
        (Step::UninstallDaemon, BatchEvent::Done) => {
            &&& r1 == (Registry { daemon: None, ..r0 })
            &&& moved_on(b0, BatchPhase::Saving, b1)
        },
        (Step::Start(_), BatchEvent::Failed(e)) | (Step::Stop(_), BatchEvent::Failed(e)) | (
            Step::Remove { .. },
            BatchEvent::Failed(e),
        ) | (Step::Add(_), BatchEvent::Failed(e)) | (Step::UninstallFaucet, BatchEvent::Failed(e))
        | (Step::UninstallDaemon, BatchEvent::Failed(e)) => {
            &&& r1 == r0
            &&& failed_with(b0, e@, b1)
        },
        _ => b1 == b0 && r1 == r0,
    }
}

/// What one step of the driver does: `b0` and `r0` are the batch and the
/// registry before `event` arrives, `b1` and `r1` after it.
pub open spec fn batch_stepped(
    b0: Batch,
    r0: Registry,
    event: BatchEvent,
    b1: Batch,
    r1: Registry,
) -> bool {
    match b0.phase {
        BatchPhase::Ready => if event is Done {
            taken(b0, r0, b1, r1)
        } else {
            b1 == b0 && r1 == r0
        },
        BatchPhase::Waiting => answered(b0, r0, event, b1, r1),
        BatchPhase::Saving => match event {
            BatchEvent::Done => b1 == (Batch { phase: BatchPhase::Ready, ..b0 }) && r1 == r0,
            BatchEvent::Failed(e) => b1 == (Batch {
                phase: BatchPhase::Finished,
                error: Some(e),
                ..b0
            }) && r1 == r0,
            _ => b1 == b0 && r1 == r0,
        },
        BatchPhase::Finished => b1 == b0 && r1 == r0,
    }
}

/// The action that a batch waits for.
pub open spec fn batch_action_for(b: Batch, r: Registry, action: BatchAction) -> bool {
    match b.phase {
        BatchPhase::Ready => action == BatchAction::Proceed,
        BatchPhase::Saving => action == BatchAction::SaveRegistry,
        BatchPhase::Finished => action == BatchAction::Finished,
        BatchPhase::Waiting => match b.steps@[b.next as int] {
            Step::DetectNat => action == BatchAction::DetectNat,
            Step::Start(name) => action == (BatchAction::Start { service_name: name }),
            Step::Stop(name) => action == (BatchAction::Stop { service_name: name }),
            Step::Remove { service_name: name, keep_directories } => {
                &&& action matches BatchAction::Uninstall { service_name, purge }
                &&& service_name == name
                &&& purge@ == purge_list(r.nodes@[b.node as int], keep_directories)
            },
            Step::Add(node_port) => action == (BatchAction::AddNode { node_port }),
            Step::UninstallFaucet => {
                &&& action matches BatchAction::Uninstall { service_name, purge }
                &&& service_name@ == "faucet"@
                &&& purge@.len() == 0
            },
            Step::UninstallDaemon => {
                &&& action matches BatchAction::Uninstall { service_name, purge }
                &&& service_name@ == "safenodemand"@
                &&& purge@.len() == 0
            },
            Step::Clear => action == BatchAction::Proceed,
        },
    }
}

impl Batch {
    /// What holds of a batch and the registry it works on, from the start
    /// and after every `advance`: while the batch waits for an action on a
    /// node, that node is the first of the name that the step gives.
    pub open spec fn inv(&self, registry: &Registry) -> bool {
        &&& self.next <= self.steps@.len()
        &&& self.phase is Waiting ==> {
            &&& self.next < self.steps@.len()
            &&& !(self.steps@[self.next as int] is Clear)
            &&& match self.steps@[self.next as int] {
                Step::Start(name) => {
                    &&& first_named(registry.nodes@, name@, self.node as int)
                    &&& start_refusal(registry.nodes@[self.node as int].status) is None
                },
                Step::Stop(name) => {
                    &&& first_named(registry.nodes@, name@, self.node as int)
                    &&& stop_refusal(registry.nodes@[self.node as int].status) is None
                },
                Step::Remove { service_name, .. } => {
                    &&& first_named(registry.nodes@, service_name@, self.node as int)
                    &&& removal(registry.nodes@[self.node as int].status) == Ok::<
                        bool,
                        LifecycleError,
                    >(true)
                },
                _ => true,
            }
        }
        &&& self.phase is Saving ==> self.next >= 1
        &&& self.error is Some ==> self.phase is Finished
        &&& self.phase is Finished && self.error is None && self.failures@.len() == 0
            ==> self.next == self.steps@.len()
    }
}

/// A copy of a step.
fn copy_step(step: &Step) -> (r: Step)
    ensures
        r == *step,
{
    match step {
        Step::DetectNat => Step::DetectNat,
        Step::Start(name) => Step::Start(name.clone()),
        Step::Stop(name) => Step::Stop(name.clone()),
        Step::Remove { service_name, keep_directories } => Step::Remove {
            service_name: service_name.clone(),
            keep_directories: *keep_directories,
        },
        Step::Add(port) => Step::Add(*port),
        Step::UninstallFaucet => Step::UninstallFaucet,
        Step::UninstallDaemon => Step::UninstallDaemon,
        Step::Clear => Step::Clear,
    }
}

/// The name of the service that a step is about, if it is about one.
fn name_of_step(step: &Step) -> (r: String)
    ensures
        r@ == step_name(*step),
{
    match step {
        Step::Start(name) => name.clone(),
        Step::Stop(name) => name.clone(),
        Step::Remove { service_name, .. } => service_name.clone(),
        Step::UninstallFaucet => String::from_str("faucet"),
        Step::UninstallDaemon => String::from_str("safenodemand"),
        _ => String::new(),
    }
}

impl Batch {
    /// Notes that the step at hand failed with `error`.
    fn note_failure(&mut self, error: String)
        requires
            old(self).next < old(self).steps@.len(),
        ensures
            failed_with(*old(self), error@, *final(self)),
    {
        let service_name = name_of_step(&self.steps[self.next]);
        let len = self.steps.len();
        self.failures.push(StepFailure { step: self.next, service_name, error });
        assert(self.failures@.drop_last() =~= old(self).failures@);
        if self.halt_on_failure {
            self.phase = BatchPhase::Finished;
        } else {
            self.next = self.next + 1;
            self.phase = BatchPhase::Ready;
        }
    }

    /// Goes on to the next step, in `phase`.
    fn move_on(&mut self, phase: BatchPhase)
        requires
            old(self).next < old(self).steps@.len(),
        ensures
            moved_on(*old(self), phase, *final(self)),
    {
        let len = self.steps.len();
        self.next = self.next + 1;
        self.phase = phase;
    }

    /// Takes the next step: decides whether its action can be asked for.
    fn take(&mut self, registry: &mut Registry)
        requires
            old(self).phase is Ready,
        ensures
            taken(*old(self), *old(registry), *final(self), *final(registry)),
            old(registry).wf() ==> final(registry).wf(),
    {
        if self.next >= self.steps.len() {
            self.phase = BatchPhase::Finished;
            return ;
        }
        let step = copy_step(&self.steps[self.next]);
        match step {
            Step::DetectNat => {
                self.phase = BatchPhase::Waiting;
            },
            Step::Add(_) => {
                self.node = registry.nodes.len();
                self.phase = BatchPhase::Waiting;
            },
            Step::Start(name) => {
                let checked = check_start(registry, &name);
                proof {
                    lemma_choice_of_first(registry.nodes@, name@);
                }
                match checked {
                    Ok(i) => {
                        self.node = i;
                        self.phase = BatchPhase::Waiting;
                    },
                    Err(e) => {
                        self.note_failure(e.message());
                    },
                }
            },
            Step::Stop(name) => {
                let checked = check_stop(registry, &name);
                proof {
                    lemma_choice_of_first(registry.nodes@, name@);
                }
                match checked {
                    Ok(i) => {
                        self.node = i;
                        self.phase = BatchPhase::Waiting;
                    },
                    Err(e) => {
                        self.note_failure(e.message());
                    },
                }
            },
            Step::Remove { service_name, keep_directories } => {
                let planned = plan_remove(registry, &service_name, keep_directories);
                proof {
                    lemma_choice_of_first(registry.nodes@, service_name@);
                }
                match planned {
                    Ok(RemovePlan::Nothing) => {
                        self.move_on(BatchPhase::Ready);
                    },
                    Ok(RemovePlan::Uninstall { index, .. }) => {
                        self.node = index;
                        self.phase = BatchPhase::Waiting;
                    },
                    Err(e) => {
                        self.note_failure(e.message());
                    },
                }
            },
            Step::UninstallFaucet => {
                if registry.faucet.is_some() {
                    self.phase = BatchPhase::Waiting;
                } else {
                    self.move_on(BatchPhase::Ready);
                }
            },
            Step::UninstallDaemon => {
                if registry.daemon.is_some() {
                    self.phase = BatchPhase::Waiting;
                } else {
                    self.move_on(BatchPhase::Ready);
                }
            },
            Step::Clear => {
                crate::reset::complete_reset(registry);
                self.move_on(BatchPhase::Saving);
            },
        }
    }

    /// Takes the outcome of the action of the step at hand.
    fn answer(&mut self, registry: &mut Registry, event: BatchEvent)
        requires
            old(self).phase is Waiting,
            old(self).next < old(self).steps@.len(),
        ensures
            old(self).inv(old(registry)) ==> answered(
                *old(self),
                *old(registry),
                event,
                *final(self),
                *final(registry),
            ),
            old(registry).wf() ==> final(registry).wf(),
    {
        let step = copy_step(&self.steps[self.next]);
        let len = self.steps.len();
        let in_range = self.node < registry.nodes.len();
        match event {
            BatchEvent::Failed(e) => {
                match step {
                    Step::DetectNat => {
                        self.nat_failed = true;
                        self.next = self.next + 1;
                        self.phase = BatchPhase::Ready;
                    },
                    Step::Clear => {},
                    _ => {
                        self.note_failure(e);
                    },
                }
            },
            BatchEvent::Nat(status) => {
                match step {
                    Step::DetectNat => {
                        registry.nat_status = Some(status);
                        self.nat_found = Some(status);
                        self.move_on(BatchPhase::Saving);
                    },
                    _ => {},
                }
            },
            BatchEvent::Started(report) => {
                match step {
                    Step::Start(_) => {
                        if in_range {
                            record_started(registry, self.node, report);
                            self.move_on(BatchPhase::Saving);
                        }
                    },
                    _ => {},
                }
            },
            BatchEvent::Done => {
                match step {
                    Step::Stop(_) => {
                        if in_range {
                            record_stopped(registry, self.node);
                            self.move_on(BatchPhase::Saving);
                        }
                    },
                    Step::Remove { .. } => {
                        if in_range {
                            record_removed(registry, self.node);
                            self.move_on(BatchPhase::Saving);
                        }
                    },
                    Step::Add(_) => {
                        if in_range {
                            let name = registry.nodes[self.node].service_name.clone();
                            self.steps.set(self.next, Step::Start(name));
                            self.phase = BatchPhase::Ready;
                        } else {
                            self.note_failure(String::from_str("No service was added"));
                        }
                    },
                    Step::UninstallFaucet => {
                        registry.faucet = None;
                        self.move_on(BatchPhase::Saving);
                    },
                    Step::UninstallDaemon => {
                        registry.daemon = None;
                        self.move_on(BatchPhase::Saving);
                    },
                    _ => {},
                }
            },
        }
    }

    /// The action that the batch waits for.
    pub fn current_action(&self, registry: &Registry) -> (action: BatchAction)
        ensures
            self.next < self.steps@.len() && (self.steps@[self.next as int] is Remove ==> self.node
                < registry.nodes@.len()) ==> batch_action_for(*self, *registry, action),
            !(self.phase is Waiting) ==> batch_action_for(*self, *registry, action),
    {
        match self.phase {
            BatchPhase::Ready => BatchAction::Proceed,
            BatchPhase::Saving => BatchAction::SaveRegistry,
            BatchPhase::Finished => BatchAction::Finished,
            BatchPhase::Waiting => {
                if self.next >= self.steps.len() {
                    return BatchAction::Proceed;
                }
                match &self.steps[self.next] {
                    Step::DetectNat => BatchAction::DetectNat,
                    Step::Start(name) => BatchAction::Start { service_name: name.clone() },
                    Step::Stop(name) => BatchAction::Stop { service_name: name.clone() },
                    Step::Remove { service_name, keep_directories } => {
                        let mut purge: Vec<String> = Vec::new();
                        if !*keep_directories && self.node < registry.nodes.len() {
                            purge.push(registry.nodes[self.node].data_dir_path.clone());
                            purge.push(registry.nodes[self.node].log_dir_path.clone());
                        }
                        proof {
                            if self.node < registry.nodes@.len() {
                                assert(purge@ =~= purge_list(
                                    registry.nodes@[self.node as int],
                                    *keep_directories,
                                ));
                            }
                        }
                        BatchAction::Uninstall { service_name: service_name.clone(), purge }
                    },
                    Step::Add(node_port) => BatchAction::AddNode { node_port: *node_port },
                    Step::UninstallFaucet => BatchAction::Uninstall {
                        service_name: String::from_str("faucet"),
                        purge: Vec::new(),
                    },
                    Step::UninstallDaemon => BatchAction::Uninstall {
                        service_name: String::from_str("safenodemand"),
                        purge: Vec::new(),
                    },
                    Step::Clear => BatchAction::Proceed,
                }
            },
        }
    }

    /// Takes the outcome of the action that was asked for and returns the
    /// next action. An event that does not answer the pending action is
    /// discarded. The registry is saved after every step that changed it,
    /// and a save that fails ends the batch.
    pub fn advance(&mut self, registry: &mut Registry, event: BatchEvent) -> (action: BatchAction)
        ensures
            old(self).inv(old(registry)) ==> {
                &&& batch_stepped(
                    *old(self),
                    *old(registry),
                    event,
                    *final(self),
                    *final(registry),
                )
                &&& final(self).inv(final(registry))
                &&& batch_action_for(*final(self), *final(registry), action)
            },
            old(registry).wf() ==> final(registry).wf(),
    {
        match self.phase {
            BatchPhase::Ready => {
                match event {
                    BatchEvent::Done => {
                        self.take(registry);
                    },
                    _ => {},
                }
            },
            BatchPhase::Waiting => {
                if self.next < self.steps.len() {
                    self.answer(registry, event);
                }
            },
            BatchPhase::Saving => {
                match event {
                    BatchEvent::Done => {
                        self.phase = BatchPhase::Ready;
                    },
                    BatchEvent::Failed(e) => {
                        self.phase = BatchPhase::Finished;
                        self.error = Some(e);
                    },
                    _ => {},
                }
            },
            BatchPhase::Finished => {},
        }
        proof {
            if old(self).inv(old(registry)) {
                lemma_batch_step(*old(self), *old(registry), event, *self, *registry);
            }
        }
        self.current_action(registry)
    }
}

/// A step keeps the invariant of the batch.
pub proof fn lemma_batch_step(b0: Batch, r0: Registry, event: BatchEvent, b1: Batch, r1: Registry)
    requires
        b0.inv(&r0),
        batch_stepped(b0, r0, event, b1, r1),
    ensures
        b1.inv(&r1),
        b1.phase is Waiting ==> b1.node < r1.nodes@.len() || !(b1.steps@[b1.next as int] is Start
            || b1.steps@[b1.next as int] is Stop || b1.steps@[b1.next as int] is Remove),
{
    assert(b0.steps@.len() == b0.steps.len());
    if b0.phase is Ready && event is Done && b0.next < b0.steps@.len() {
        let nodes = r0.nodes@;
        match b0.steps@[b0.next as int] {
            Step::Start(name) => {
                if !none_named(nodes, name@) {
                    let k = choose|k: int|
                        0 <= k < nodes.len() && (#[trigger] nodes[k]).service_name@ == name@;
                    lemma_first_named_exists(nodes, name@, k);
                    let i = choose|i: int| first_named(nodes, name@, i);
                    assert(nodes.len() == r0.nodes.len());
                    assert(i as usize as int == i);
                }
            },
            Step::Stop(name) => {
                if !none_named(nodes, name@) {
                    let k = choose|k: int|
                        0 <= k < nodes.len() && (#[trigger] nodes[k]).service_name@ == name@;
                    lemma_first_named_exists(nodes, name@, k);
                    let i = choose|i: int| first_named(nodes, name@, i);
                    assert(nodes.len() == r0.nodes.len());
                    assert(i as usize as int == i);
                }
            },
            Step::Remove { service_name, .. } => {
                if !none_named(nodes, service_name@) {
                    let k = choose|k: int|
                        0 <= k < nodes.len() && (#[trigger] nodes[k]).service_name@
                            == service_name@;
                    lemma_first_named_exists(nodes, service_name@, k);
                    let i = choose|i: int| first_named(nodes, service_name@, i);
                    assert(nodes.len() == r0.nodes.len());
                    assert(i as usize as int == i);
                }
            },
            _ => {},
        }
    }
}

/// Every change is saved: a step that changes the registry leads to the
/// save, and the batch leaves the save only when the registry was saved or
/// by giving up with the error of the save.
pub proof fn lemma_changes_are_saved(
    b0: Batch,
    r0: Registry,
    event: BatchEvent,
    b1: Batch,
    r1: Registry,
)
    requires
        b0.inv(&r0),
        batch_stepped(b0, r0, event, b1, r1),
    ensures
        r1 != r0 ==> b1.phase is Saving,
        b0.phase is Saving && !(b1.phase is Saving) ==> event is Done || (b1.phase is Finished
            && b1.error is Some),
        b0.phase is Saving && event is Done ==> b1.phase is Ready,
{
}

/// The steps are taken in order: the position of the step at hand never
/// goes back, and it moves by one step at most.
pub proof fn lemma_steps_in_order(
    b0: Batch,
    r0: Registry,
    event: BatchEvent,
    b1: Batch,
    r1: Registry,
)
    requires
        b0.inv(&r0),
        batch_stepped(b0, r0, event, b1, r1),
    ensures
        b0.next <= b1.next <= b0.next + 1,
        b1.steps@.len() == b0.steps@.len(),
        forall|i: int| 0 <= i < b0.steps@.len() && i != b0.next ==> b1.steps@[i] == b0.steps@[i],
{
    assert(b0.steps@.len() == b0.steps.len());
}

/// Where some node has the name, the first of them is the one position
/// that `first_named` holds of.
pub proof fn lemma_choice_of_first(nodes: Seq<NodeService>, name: Seq<char>)
    ensures
        !none_named(nodes, name) ==> first_named(
            nodes,
            name,
            choose|i: int| first_named(nodes, name, i),
        ),
        forall|i: int|
            first_named(nodes, name, i) ==> !none_named(nodes, name) && i == (choose|i: int|
                first_named(nodes, name, i)),
{
    if !none_named(nodes, name) {
        let k = choose|k: int| 0 <= k < nodes.len() && (#[trigger] nodes[k]).service_name@ == name;
        lemma_first_named_exists(nodes, name, k);
    }
    assert forall|i: int| first_named(nodes, name, i) implies !none_named(nodes, name) && i == (
    choose|i: int| first_named(nodes, name, i)) by {
        assert(nodes[i].service_name@ == name);
        lemma_first_named_unique(nodes, name, i, choose|i: int| first_named(nodes, name, i));
    }
}


/// A step that brings a node up: a start, or an addition, which ends in a
/// start.
pub open spec fn brings_up(step: Step) -> bool {
    step is Start || step is Add
}

/// How many of the steps from position `from` on bring a node up.
pub open spec fn ups(steps: Seq<Step>, from: int) -> int
    decreases steps.len() - from,
{
    if from < 0 || from >= steps.len() {
        0
    } else if brings_up(steps[from]) {
        1 + ups(steps, from + 1)
    } else {
        ups(steps, from + 1)
    }
}

/// How many of the steps from position `from` on stop a node.
pub open spec fn downs(steps: Seq<Step>, from: int) -> int
    decreases steps.len() - from,
{
    if from < 0 || from >= steps.len() {
        0
    } else if steps[from] is Stop {
        1 + downs(steps, from + 1)
    } else {
        downs(steps, from + 1)
    }
}

/// A batch is on its way to `desired` running nodes: as long as no step has
/// failed, the nodes that run, with those that the steps ahead bring up and
/// without those that they stop, are `desired`.
pub open spec fn on_course(b: Batch, r: Registry, desired: int) -> bool {
    b.failures@.len() == 0 ==> crate::maintain::running_count(
        crate::maintain::statuses_of(r.nodes@),
    ) + ups(b.steps@, b.next as int) - downs(b.steps@, b.next as int) == desired
}

/// Replacing a step by one of the same kind leaves the counts as they are.
pub proof fn lemma_counts_of_update(steps: Seq<Step>, i: int, step: Step, from: int)
    requires
        0 <= i < steps.len(),
        0 <= from,
        brings_up(step) == brings_up(steps[i]),
        (step is Stop) == (steps[i] is Stop),
    ensures
        ups(steps.update(i, step), from) == ups(steps, from),
        downs(steps.update(i, step), from) == downs(steps, from),
    decreases steps.len() - from,
{
    if from < steps.len() {
        lemma_counts_of_update(steps, i, step, from + 1);
    }
}

/// The counts of two lists of steps, one after the other, add up.
pub proof fn lemma_counts_of_concat(a: Seq<Step>, b: Seq<Step>, from: int)
    requires
        0 <= from <= a.len(),
    ensures
        ups(a + b, from) == ups(a, from) + ups(b, 0),
        downs(a + b, from) == downs(a, from) + downs(b, 0),
    decreases a.len() + b.len() - from,
{
    if from < a.len() {
        lemma_counts_of_concat(a, b, from + 1);
        assert((a + b)[from] == a[from]);
    } else {
        lemma_counts_shifted(a, b, 0);
    }
}

/// Behind a list of steps, the steps of a second list count as they do alone.
pub proof fn lemma_counts_shifted(a: Seq<Step>, b: Seq<Step>, k: int)
    requires
        0 <= k <= b.len(),
    ensures
        ups(a + b, a.len() + k) == ups(b, k),
        downs(a + b, a.len() + k) == downs(b, k),
    decreases b.len() - k,
{
    if k < b.len() {
        lemma_counts_shifted(a, b, k + 1);
        assert((a + b)[a.len() + k] == b[k]);
    }
}

/// Steps that all bring a node up, or all stop one, or do neither, count
/// accordingly.
pub proof fn lemma_counts_of_kind(steps: Seq<Step>, from: int)
    requires
        0 <= from <= steps.len(),
    ensures
        (forall|i: int| 0 <= i < steps.len() ==> brings_up(#[trigger] steps[i])) ==> ups(steps, from)
            == steps.len() - from,
        (forall|i: int| 0 <= i < steps.len() ==> !brings_up(#[trigger] steps[i])) ==> ups(
            steps,
            from,
        ) == 0,
        (forall|i: int| 0 <= i < steps.len() ==> (#[trigger] steps[i]) is Stop) ==> downs(
            steps,
            from,
        ) == steps.len() - from,
        (forall|i: int| 0 <= i < steps.len() ==> !((#[trigger] steps[i]) is Stop)) ==> downs(
            steps,
            from,
        ) == 0,
    decreases steps.len() - from,
{
    if from < steps.len() {
        lemma_counts_of_kind(steps, from + 1);
    }
}

/// A batch that brings the fleet to a count is on course when it begins,
/// provided that every node that is missing can be added: always without a
/// range of ports, and with a range as long as it has free ports enough.
pub proof fn lemma_maintain_sets_course(
    b: Batch,
    r: Registry,
    desired: int,
    ports: Option<PortRange>,
    probe: bool,
    start: Seq<int>,
    add: Seq<Option<u16>>,
    stop: Seq<int>,
)
    requires
        0 <= desired,
        planned(r.nodes@, desired, ports, start, add, stop),
        b.fresh(
            step_if(probe, Step::DetectNat) + start_steps(r.nodes@, start) + add_steps(add)
                + stop_steps(r.nodes@, stop),
            false,
        ),
        crate::maintain::running_positions(r.nodes@).len() + start.len() + add.len() >= desired,
    ensures
        on_course(b, r, desired),
        forall|i: int| 0 <= i < b.steps@.len() ==> !((#[trigger] b.steps@[i]) is Clear),
{
    let head = step_if(probe, Step::DetectNat);
    let starts = start_steps(r.nodes@, start);
    let adds = add_steps(add);
    let stops = stop_steps(r.nodes@, stop);
    lemma_counts_of_kind(head, 0);
    lemma_counts_of_kind(starts, 0);
    lemma_counts_of_kind(adds, 0);
    lemma_counts_of_kind(stops, 0);
    lemma_counts_of_concat(head, starts, 0);
    lemma_counts_of_concat(head + starts, adds, 0);
    lemma_counts_of_concat(head + starts + adds, stops, 0);
    crate::maintain::lemma_count_positions(r.nodes@);
    crate::maintain::lemma_plan_reaches_target(r.nodes@, desired, ports, start, add, stop);
    assert(ups(b.steps@, 0) == start.len() + add.len());
    assert(downs(b.steps@, 0) == stop.len());
}

/// A step of a batch keeps it on course: a start that succeeds makes one
/// node more run and leaves one start less ahead, and a stop likewise.
pub proof fn lemma_step_keeps_course(
    b0: Batch,
    r0: Registry,
    event: BatchEvent,
    b1: Batch,
    r1: Registry,
    desired: int,
)
    requires
        b0.inv(&r0),
        batch_stepped(b0, r0, event, b1, r1),
        on_course(b0, r0, desired),
        forall|i: int| 0 <= i < b0.steps@.len() ==> !((#[trigger] b0.steps@[i]) is Clear),
    ensures
        on_course(b1, r1, desired),
        forall|i: int| 0 <= i < b1.steps@.len() ==> !((#[trigger] b1.steps@[i]) is Clear),
{
    let n0 = r0.nodes@;
    let s0 = crate::maintain::statuses_of(n0);
    let s1 = crate::maintain::statuses_of(r1.nodes@);
    let next = b0.next as int;
    assert(b0.steps@.len() == b0.steps.len());
    if b1.failures@.len() == 0 {
        assert(b0.failures@.len() == 0) by {
            if b1.failures@.len() == b0.failures@.len() + 1 {
            }
        }
        if b0.phase is Waiting {
            let node = b0.node as int;
            match (b0.steps@[next], event) {
                (Step::Start(_), BatchEvent::Started(report)) => {
                    assert(s1 =~= s0.update(node, crate::registry::ServiceStatus::Running));
                    crate::maintain::lemma_count_update(
                        s0,
                        node,
                        crate::registry::ServiceStatus::Running,
                    );
                },
                (Step::Stop(_), BatchEvent::Done) => {
                    assert(s1 =~= s0.update(node, crate::registry::ServiceStatus::Stopped));
                    crate::maintain::lemma_count_update(
                        s0,
                        node,
                        crate::registry::ServiceStatus::Stopped,
                    );
                },
                (Step::Remove { .. }, BatchEvent::Done) => {
                    assert(s1 =~= s0.update(node, crate::registry::ServiceStatus::Removed));
                    crate::maintain::lemma_count_update(
                        s0,
                        node,
                        crate::registry::ServiceStatus::Removed,
                    );
                },
                (Step::Add(_), BatchEvent::Done) => {
                    if n0.len() > b0.node {
                        lemma_counts_of_update(
                            b0.steps@,
                            next,
                            Step::Start(n0[node].service_name),
                            next,
                        );
                    }
                },
                _ => {
                    assert(s1 =~= s0);
                },
            }
        } else {
            assert(s1 =~= s0);
        }
    }
    assert forall|i: int| 0 <= i < b1.steps@.len() implies !((#[trigger] b1.steps@[i]) is Clear) by {
        if b1.steps@ != b0.steps@ {
            if i != next {
                assert(b1.steps@[i] == b0.steps@[i]);
            }
        } else {
            assert(b1.steps@[i] == b0.steps@[i]);
        }
    }
}

/// A node that the driver adds for a step of the batch, not running yet,
/// leaves the batch on course.
pub proof fn lemma_added_node_keeps_course(b: Batch, r0: Registry, r1: Registry, node: NodeService, desired: int)
    requires
        on_course(b, r0, desired),
        r1.nodes@ == r0.nodes@.push(node),
        !(node.status is Running),
    ensures
        on_course(b, r1, desired),
{
    let s0 = crate::maintain::statuses_of(r0.nodes@);
    let s1 = crate::maintain::statuses_of(r1.nodes@);
    assert(s1.drop_last() =~= s0);
}

/// A batch on course that has ended without a failure has reached the
/// count: as many nodes run as were desired.
pub proof fn lemma_course_ends_at_target(b: Batch, r: Registry, desired: int)
    requires
        b.inv(&r),
        on_course(b, r, desired),
        b.phase is Finished,
        b.failures@.len() == 0,
        b.error is None,
    ensures
        crate::maintain::running_count(crate::maintain::statuses_of(r.nodes@)) == desired,
{
}

/// One move of a run: the batch takes a step on some event, or the driver
/// adds a node to the registry for it, which does not run yet.
pub open spec fn moves(b0: Batch, r0: Registry, b1: Batch, r1: Registry) -> bool {
    ||| exists|event: BatchEvent| #[trigger] batch_stepped(b0, r0, event, b1, r1)
    ||| b1 == b0 && exists|node: NodeService|
        r1.nodes@ == #[trigger] r0.nodes@.push(node) && !(node.status is Running)
}

/// A run: the states of a batch and of its registry, each reached from the
/// one before by one move.
pub open spec fn is_run(batches: Seq<Batch>, registries: Seq<Registry>) -> bool {
    &&& batches.len() == registries.len()
    &&& batches.len() >= 1
    &&& forall|i: int|
        0 <= i < batches.len() - 1 ==> moves(
            #[trigger] batches[i],
            registries[i],
            batches[i + 1],
            registries[i + 1],
        )
}

/// A node that the driver adds leaves the invariant of the batch as it is.
pub proof fn lemma_added_node_keeps_inv(b: Batch, r0: Registry, r1: Registry, node: NodeService)
    requires
        b.inv(&r0),
        r1.nodes@ == r0.nodes@.push(node),
    ensures
        b.inv(&r1),
{
    if b.phase is Waiting {
        let n0 = r0.nodes@;
        let n1 = r1.nodes@;
        let i = b.node as int;
        match b.steps@[b.next as int] {
            Step::Start(name) => {
                assert forall|k: int| 0 <= k < i implies (#[trigger] n1[k]).service_name@ != name@ by {
                    assert(n1[k] == n0[k]);
                }
                assert(n1[i] == n0[i]);
            },
            Step::Stop(name) => {
                assert forall|k: int| 0 <= k < i implies (#[trigger] n1[k]).service_name@ != name@ by {
                    assert(n1[k] == n0[k]);
                }
                assert(n1[i] == n0[i]);
            },
            Step::Remove { service_name, .. } => {
                assert forall|k: int| 0 <= k < i implies (#[trigger] n1[k]).service_name@
                    != service_name@ by {
                    assert(n1[k] == n0[k]);
                }
                assert(n1[i] == n0[i]);
            },
            _ => {},
        }
    }
}

/// Along a run that begins on course, every state is on course.
pub proof fn lemma_run_stays_on_course(
    batches: Seq<Batch>,
    registries: Seq<Registry>,
    desired: int,
    k: int,
)
    requires
        is_run(batches, registries),
        batches[0].inv(&registries[0]),
        on_course(batches[0], registries[0], desired),
        forall|i: int|
            0 <= i < batches[0].steps@.len() ==> !((#[trigger] batches[0].steps@[i]) is Clear),
        0 <= k < batches.len(),
    ensures
        batches[k].inv(&registries[k]),
        on_course(batches[k], registries[k], desired),
        forall|i: int|
            0 <= i < batches[k].steps@.len() ==> !((#[trigger] batches[k].steps@[i]) is Clear),
    decreases k,
{
    if k > 0 {
        lemma_run_stays_on_course(batches, registries, desired, k - 1);
        let b0 = batches[k - 1];
        let r0 = registries[k - 1];
        let b1 = batches[k];
        let r1 = registries[k];
        assert(moves(b0, r0, b1, r1));
        if exists|event: BatchEvent| #[trigger] batch_stepped(b0, r0, event, b1, r1) {
            let event = choose|event: BatchEvent| #[trigger] batch_stepped(b0, r0, event, b1, r1);
            lemma_batch_step(b0, r0, event, b1, r1);
            lemma_step_keeps_course(b0, r0, event, b1, r1, desired);
        } else {
            let node = choose|node: NodeService|
                r1.nodes@ == #[trigger] r0.nodes@.push(node) && !(node.status is Running);
            lemma_added_node_keeps_inv(b0, r0, r1, node);
            lemma_added_node_keeps_course(b0, r0, r1, node, desired);
        }
    }
}

/// A run of the batch that brings the fleet to a count reaches the count:
/// if the run begins with the batch as it was made for the registry, every
/// node that is missing can be added, and the run ends without a failure,
/// then as many nodes run at its end as were desired.
pub proof fn lemma_run_reaches_target(
    batches: Seq<Batch>,
    registries: Seq<Registry>,
    desired: int,
    ports: Option<PortRange>,
    probe: bool,
    start: Seq<int>,
    add: Seq<Option<u16>>,
    stop: Seq<int>,
)
    requires
        is_run(batches, registries),
        0 <= desired,
        planned(registries[0].nodes@, desired, ports, start, add, stop),
        batches[0].fresh(
            step_if(probe, Step::DetectNat) + start_steps(registries[0].nodes@, start) + add_steps(
                add,
            ) + stop_steps(registries[0].nodes@, stop),
            false,
        ),
        crate::maintain::running_positions(registries[0].nodes@).len() + start.len() + add.len()
            >= desired,
        batches.last().phase is Finished,
        batches.last().failures@.len() == 0,
        batches.last().error is None,
    ensures
        crate::maintain::running_count(crate::maintain::statuses_of(registries.last().nodes@))
            == desired,
{
    let b0 = batches[0];
    let r0 = registries[0];
    lemma_maintain_sets_course(b0, r0, desired, ports, probe, start, add, stop);
    assert(b0.inv(&r0));
    lemma_run_stays_on_course(batches, registries, desired, batches.len() - 1);
    lemma_course_ends_at_target(batches.last(), registries.last(), desired);
}

} // verus!
