//! The worker's queue: tasks that change the registry run one at a time, in
//! the order in which they came, each under the lock.
use vstd::prelude::*;
use crate::action::{NodeManagementTask, StatusActions};
use crate::status::LockRegistryState;

verus! {

/// What a running task is, as far as its end is reported.
#[derive(Clone, Copy, Debug, PartialEq, Eq, Structural)]
pub enum TaskKind {
    Maintain,
    Stop,
    Reset { start_nodes_after_reset: bool },
    Upgrade,
}

/// The queue of tasks with the lock.
#[derive(Clone, Debug, PartialEq, Eq)]
pub struct Dispatcher {
    /// The tasks that wait, the oldest first.
    pub queue: Vec<NodeManagementTask>,
    /// Which task holds the registry.
    pub lock: Option<LockRegistryState>,
    /// The task that runs.
    pub running: Option<TaskKind>,
}

/// The kind of a task.
pub open spec fn kind_of(task: NodeManagementTask) -> TaskKind {
    match task {
        NodeManagementTask::MaintainNodes { .. } => TaskKind::Maintain,
        NodeManagementTask::StopNodes { .. } => TaskKind::Stop,
        NodeManagementTask::ResetNodes { start_nodes_after_reset } => TaskKind::Reset {
            start_nodes_after_reset,
        },
        NodeManagementTask::UpgradeNodes { .. } => TaskKind::Upgrade,
    }
}

/// The lock under which a task of this kind runs.
pub open spec fn lock_for(kind: TaskKind) -> LockRegistryState {
    match kind {
        TaskKind::Maintain => LockRegistryState::StartingNodes,
        TaskKind::Stop => LockRegistryState::StoppingNodes,
        TaskKind::Reset { .. } => LockRegistryState::ResettingNodes,
        TaskKind::Upgrade => LockRegistryState::UpdatingNodes,
    }
}

/// The event that reports the end of a task.
pub open spec fn event_for(kind: TaskKind, result: Result<(), String>) -> StatusActions {
    match result {
        Ok(_) => match kind {
            TaskKind::Maintain => StatusActions::StartNodesCompleted,
            TaskKind::Stop => StatusActions::StopNodesCompleted,
            TaskKind::Reset { start_nodes_after_reset } => StatusActions::ResetNodesCompleted {
                trigger_start_node: start_nodes_after_reset,
            },
            TaskKind::Upgrade => StatusActions::UpdateNodesCompleted,
        },
        Err(raw_error) => match kind {
            TaskKind::Maintain => StatusActions::ErrorScalingUpNodes { raw_error },
            TaskKind::Stop => StatusActions::ErrorStoppingNodes { raw_error },
            TaskKind::Reset { .. } => StatusActions::ErrorResettingNodes { raw_error },
            TaskKind::Upgrade => StatusActions::ErrorUpdatingNodes { raw_error },
        },
    }
}

impl Dispatcher {
    /// The lock is held exactly while a task runs, and it is the lock of
    /// that task.
    pub open spec fn wf(&self) -> bool {
        match self.running {
            Some(kind) => self.lock == Some(lock_for(kind)),
            None => self.lock is None,
        }
    }

    /// An idle dispatcher with an empty queue.
    pub fn new() -> (r: Self)
        ensures
            r.queue@.len() == 0,
            r.lock is None,
            r.running is None,
            r.wf(),
    {
        Dispatcher { queue: Vec::new(), lock: None, running: None }
    }

    /// Takes a task in at the end of the queue, unless the lock is held: a
    /// task that arrives while another runs is rejected. Says whether the
    /// task was taken in.
    pub fn submit(&mut self, task: NodeManagementTask) -> (accepted: bool)
        ensures
            accepted == old(self).lock is None,
            accepted ==> final(self).queue@ == old(self).queue@.push(task),
            !accepted ==> final(self).queue@ == old(self).queue@,
            final(self).lock == old(self).lock,
            final(self).running == old(self).running,
    {
        if self.lock.is_some() {
            false
        } else {
            self.queue.push(task);
            true
        }
    }

    /// Starts the oldest task that waits, if no task runs: the task leaves
    /// the queue and the lock is set for it.
    pub fn start_next(&mut self) -> (task: Option<NodeManagementTask>)
        ensures
            match task {
                Some(t) => {
                    &&& old(self).running is None
                    &&& old(self).queue@.len() > 0
                    &&& t == old(self).queue@[0]
                    &&& final(self).queue@ == old(self).queue@.skip(1)
                    &&& final(self).running == Some(kind_of(t))
                    &&& final(self).lock == Some(lock_for(kind_of(t)))
                },
                None => {
                    &&& old(self).running is Some || old(self).queue@.len() == 0
                    &&& *final(self) == *old(self)
                },
            },
            old(self).wf() ==> final(self).wf(),
    {
        if self.running.is_some() || self.queue.len() == 0 {
            return None;
        }
        let task = self.queue.remove(0);
        assert(self.queue@ =~= old(self).queue@.skip(1));
        let kind = match &task {
            NodeManagementTask::MaintainNodes { .. } => TaskKind::Maintain,
            NodeManagementTask::StopNodes { .. } => TaskKind::Stop,
            NodeManagementTask::ResetNodes { start_nodes_after_reset } => TaskKind::Reset {
                start_nodes_after_reset: *start_nodes_after_reset,
            },
            NodeManagementTask::UpgradeNodes { .. } => TaskKind::Upgrade,
        };
        self.running = Some(kind);
        self.lock = Some(
            match kind {
                TaskKind::Maintain => LockRegistryState::StartingNodes,
                TaskKind::Stop => LockRegistryState::StoppingNodes,
                TaskKind::Reset { .. } => LockRegistryState::ResettingNodes,
                TaskKind::Upgrade => LockRegistryState::UpdatingNodes,
            },
        );
        Some(task)
    }

    /// Ends the running task with `result`: the lock is released, whether
    /// the task succeeded or failed, and the event that reports its end is
    /// returned. Without a running task nothing happens.
    pub fn complete(&mut self, result: Result<(), String>) -> (event: Option<StatusActions>)
        ensures
            match old(self).running {
                Some(kind) => event == Some(event_for(kind, result)),
                None => event is None,
            },
            final(self).queue == old(self).queue,
            final(self).running is None,
            old(self).running is Some ==> final(self).lock is None,
            old(self).running is None ==> final(self).lock == old(self).lock,
            old(self).wf() ==> final(self).wf(),
    {
        match self.running {
            None => None,
            Some(kind) => {
                self.running = None;
                self.lock = None;
                Some(
                    match result {
                        Ok(_) => match kind {
                            TaskKind::Maintain => StatusActions::StartNodesCompleted,
                            TaskKind::Stop => StatusActions::StopNodesCompleted,
                            TaskKind::Reset {
                                start_nodes_after_reset,
                            } => StatusActions::ResetNodesCompleted {
                                trigger_start_node: start_nodes_after_reset,
                            },
                            TaskKind::Upgrade => StatusActions::UpdateNodesCompleted,
                        },
                        Err(raw_error) => match kind {
                            TaskKind::Maintain => StatusActions::ErrorScalingUpNodes { raw_error },
                            TaskKind::Stop => StatusActions::ErrorStoppingNodes { raw_error },
                            TaskKind::Reset { .. } => StatusActions::ErrorResettingNodes {
                                raw_error,
                            },
                            TaskKind::Upgrade => StatusActions::ErrorUpdatingNodes { raw_error },
                        },
                    },
                )
            },
        }
    }
}

} // verus!
