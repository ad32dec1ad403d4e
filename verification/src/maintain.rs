//! Scaling the fleet to a target: which services to start, how many to add
//! and which to stop so that a desired count of nodes is running.
use vstd::prelude::*;
use crate::registry::{
    ascending_numbers, node_port_in_use, NatStatus, NodeService, Registry, ServiceStatus,
};

verus! {

/// After this many failures the reachability probe is not run again.
pub const MAX_ERRORS_WHILE_RUNNING_NAT_DETECTION: usize = 3;

/// A range of ports from which custom node ports are taken, both ends
/// included.
#[derive(Clone, Copy, Debug, PartialEq, Eq, Structural)]
pub struct PortRange {
    pub from: u16,
    pub to: u16,
}

/// What has to be done so that the desired count of nodes runs.
#[derive(Clone, Debug, PartialEq, Eq)]
pub struct MaintenancePlan {
    /// Positions in the registry of the nodes to start, in this order.
    pub start: Vec<usize>,
    /// One entry for each node to add and then start, with its custom port
    /// where ports are taken from a range.
    pub add: Vec<Option<u16>>,
    /// Positions in the registry of the nodes to stop, in this order.
    pub stop: Vec<usize>,
}

/// A node that runs.
pub open spec fn is_running(node: NodeService) -> bool {
    node.status is Running
}

/// A node that is defined but does not run: added or stopped.
pub open spec fn is_idle(node: NodeService) -> bool {
    node.status is Added || node.status is Stopped
}

/// The positions of the running nodes, ascending.
pub open spec fn running_positions(nodes: Seq<NodeService>) -> Seq<int>
    decreases nodes.len(),
{
    if nodes.len() == 0 {
        Seq::empty()
    } else if is_running(nodes.last()) {
        running_positions(nodes.drop_last()).push(nodes.len() - 1)
    } else {
        running_positions(nodes.drop_last())
    }
}

/// The positions of the idle nodes, ascending.
pub open spec fn idle_positions(nodes: Seq<NodeService>) -> Seq<int>
    decreases nodes.len(),
{
    if nodes.len() == 0 {
        Seq::empty()
    } else if is_idle(nodes.last()) {
        idle_positions(nodes.drop_last()).push(nodes.len() - 1)
    } else {
        idle_positions(nodes.drop_last())
    }
}

/// The ports from `from` to `to` that no node has as its custom port,
/// ascending.
pub open spec fn free_ports(nodes: Seq<NodeService>, from: int, to: int) -> Seq<u16>
    decreases to - from + 1,
{
    if from > to || from < 0 || to > u16::MAX {
        Seq::empty()
    } else if node_port_in_use(nodes, to as u16) {
        free_ports(nodes, from, to - 1)
    } else {
        free_ports(nodes, from, to - 1).push(to as u16)
    }
}

/// The smaller of two numbers.
pub open spec fn least(a: int, b: int) -> int {
    if a <= b {
        a
    } else {
        b
    }
}

/// The entries for `wanted` new nodes: without a range each node picks its
/// own port; with a range each gets the next free port of the range, as far
/// as free ports are left.
pub open spec fn new_node_ports(nodes: Seq<NodeService>, ports: Option<PortRange>, wanted: int) -> Seq<
    Option<u16>,
> {
    match ports {
        None => Seq::new(wanted as nat, |j: int| None),
        Some(range) => {
            let free = free_ports(nodes, range.from as int, range.to as int);
            Seq::new(least(wanted, free.len() as int) as nat, |j: int| Some(free[j]))
        },
    }
}

/// The plan for `desired` running nodes. If as many run, nothing is done.
/// If fewer run, idle nodes are started in registry order as far as needed,
/// and nodes are added for what is still missing. If more run, the running
/// nodes that come last in the registry are stopped, the last one first.
pub open spec fn planned(
    nodes: Seq<NodeService>,
    desired: int,
    ports: Option<PortRange>,
    start: Seq<int>,
    add: Seq<Option<u16>>,
    stop: Seq<int>,
) -> bool {
    let running = running_positions(nodes);
    let idle = idle_positions(nodes);
    let r = running.len() as int;
    if r < desired {
        let k = least(desired - r, idle.len() as int);
        &&& start == idle.take(k)
        &&& add == new_node_ports(nodes, ports, desired - r - k)
        &&& stop.len() == 0
    } else {
        &&& start.len() == 0
        &&& add.len() == 0
        &&& stop == Seq::new((r - desired) as nat, |j: int| running[r - 1 - j])
    }
}

/// The positions as integers.
pub open spec fn as_ints(v: Seq<usize>) -> Seq<int> {
    Seq::new(v.len(), |j: int| v[j] as int)
}

/// Positions are in bounds, ascending, and of running nodes; every running
/// node is among them.
pub proof fn lemma_running_positions(nodes: Seq<NodeService>)
    ensures
        running_positions(nodes).len() <= nodes.len(),
        forall|j: int|
            0 <= j < running_positions(nodes).len() ==> 0 <= (#[trigger] running_positions(
                nodes,
            )[j]) < nodes.len() && is_running(nodes[running_positions(nodes)[j]]),
        forall|j: int, k: int|
            0 <= j < k < running_positions(nodes).len() ==> (#[trigger] running_positions(nodes)[j])
                < (#[trigger] running_positions(nodes)[k]),
    decreases nodes.len(),
{
    if nodes.len() > 0 {
        let rest = nodes.drop_last();
        lemma_running_positions(rest);
        let p = running_positions(nodes);
        assert forall|j: int| 0 <= j < p.len() implies 0 <= (#[trigger] p[j]) < nodes.len()
            && is_running(nodes[p[j]]) by {
            if j < running_positions(rest).len() {
                assert(p[j] == running_positions(rest)[j]);
                assert(rest[p[j]] == nodes[p[j]]);
            }
        }
    }
}

/// Positions are in bounds, ascending, and of idle nodes.
pub proof fn lemma_idle_positions(nodes: Seq<NodeService>)
    ensures
        idle_positions(nodes).len() <= nodes.len(),
        forall|j: int|
            0 <= j < idle_positions(nodes).len() ==> 0 <= (#[trigger] idle_positions(nodes)[j])
                < nodes.len() && is_idle(nodes[idle_positions(nodes)[j]]),
        forall|j: int, k: int|
            0 <= j < k < idle_positions(nodes).len() ==> (#[trigger] idle_positions(nodes)[j]) < (
            #[trigger] idle_positions(nodes)[k]),
    decreases nodes.len(),
{
    if nodes.len() > 0 {
        let rest = nodes.drop_last();
        lemma_idle_positions(rest);
        let p = idle_positions(nodes);
        assert forall|j: int| 0 <= j < p.len() implies 0 <= (#[trigger] p[j]) < nodes.len()
            && is_idle(nodes[p[j]]) by {
            if j < idle_positions(rest).len() {
                assert(p[j] == idle_positions(rest)[j]);
                assert(rest[p[j]] == nodes[p[j]]);
            }
        }
    }
}

/// Whether the reachability probe is to be run before the first start: only
/// if it was asked for, no result is cached and it has not failed too often.
pub fn should_run_nat_detection(requested: bool, nat_status: Option<NatStatus>, errors: usize) -> (r:
    bool)
    ensures
        r == (requested && nat_status is None && errors < MAX_ERRORS_WHILE_RUNNING_NAT_DETECTION),
{
    requested && nat_status.is_none() && errors < MAX_ERRORS_WHILE_RUNNING_NAT_DETECTION
}

/// The positions of the running and of the idle nodes.
fn positions(registry: &Registry) -> (r: (Vec<usize>, Vec<usize>))
    ensures
        as_ints(r.0@) == running_positions(registry.nodes@),
        as_ints(r.1@) == idle_positions(registry.nodes@),
{
    let mut running: Vec<usize> = Vec::new();
    let mut idle: Vec<usize> = Vec::new();
    let mut i: usize = 0;
    assert(registry.nodes@.take(0) =~= Seq::<NodeService>::empty());
    assert(as_ints(running@) =~= running_positions(registry.nodes@.take(0)));
    assert(as_ints(idle@) =~= idle_positions(registry.nodes@.take(0)));
    while i < registry.nodes.len()
        invariant
            i <= registry.nodes@.len(),
            as_ints(running@) == running_positions(registry.nodes@.take(i as int)),
            as_ints(idle@) == idle_positions(registry.nodes@.take(i as int)),
        decreases registry.nodes@.len() - i,
    {
        let ghost next = registry.nodes@.take(i + 1);
        assert(next.drop_last() =~= registry.nodes@.take(i as int));
        assert(next.last() == registry.nodes@[i as int]);
        match registry.nodes[i].status {
            ServiceStatus::Running => {
                running.push(i);
            },
            ServiceStatus::Added | ServiceStatus::Stopped => {
                idle.push(i);
            },
            ServiceStatus::Removed => {},
        }
        assert(as_ints(running@) =~= running_positions(next));
        assert(as_ints(idle@) =~= idle_positions(next));
        i = i + 1;
    }
    assert(registry.nodes@.take(registry.nodes@.len() as int) =~= registry.nodes@);
    (running, idle)
}

/// The first `wanted` free ports of the range, ascending.
fn pick_ports(registry: &Registry, range: PortRange, wanted: usize) -> (r: Vec<Option<u16>>)
    ensures
        r@ == new_node_ports(registry.nodes@, Some(range), wanted as int),
{
    let mut r: Vec<Option<u16>> = Vec::new();
    let ghost nodes = registry.nodes@;
    let ghost from = range.from as int;
    if range.from > range.to {
        assert(r@ =~= new_node_ports(nodes, Some(range), wanted as int));
        return r;
    }
    let mut p: u16 = range.from;
    let mut done = false;
    assert(free_ports(nodes, from, from - 1) =~= Seq::<u16>::empty());
    while !done && r.len() < wanted
        invariant
            nodes == registry.nodes@,
            from == range.from as int,
            range.from <= p <= range.to,
            r@.len() <= wanted,
            !done ==> {
                &&& r@.len() == free_ports(nodes, from, p - 1).len()
                &&& forall|j: int| 0 <= j < r@.len() ==> r@[j] == Some(free_ports(nodes, from, p - 1)[j])
            },
            done ==> {
                &&& r@.len() == least(wanted as int, free_ports(nodes, from, range.to as int).len() as int)
                &&& forall|j: int|
                    0 <= j < r@.len() ==> r@[j] == Some(free_ports(nodes, from, range.to as int)[j])
            },
        decreases (if done { 0int } else { range.to - p + 1 }),
    {
        if !registry.node_port_taken(p) {
            r.push(Some(p));
        }
        assert(r@.len() == free_ports(nodes, from, p as int).len());
        assert forall|j: int| 0 <= j < r@.len() implies r@[j] == Some(
            free_ports(nodes, from, p as int)[j],
        ) by {}
        if p == range.to {
            done = true;
        } else {
            p = p + 1;
        }
    }
    proof {
        if !done {
            lemma_free_ports_prefix(nodes, from, p - 1, range.to as int);
        }
        assert(r@ =~= new_node_ports(nodes, Some(range), wanted as int));
    }
    r
}

/// The free ports up to `mid` are the first of the free ports up to `to`.
pub proof fn lemma_free_ports_prefix(nodes: Seq<NodeService>, from: int, mid: int, to: int)
    requires
        0 <= from,
        from - 1 <= mid <= to <= u16::MAX,
    ensures
        free_ports(nodes, from, mid).len() <= free_ports(nodes, from, to).len(),
        forall|j: int|
            0 <= j < free_ports(nodes, from, mid).len() ==> #[trigger] free_ports(nodes, from, to)[j]
                == free_ports(nodes, from, mid)[j],
    decreases to - mid,
{
    if mid < to {
        lemma_free_ports_prefix(nodes, from, mid, to - 1);
    }
}


/// Plans what has to be done so that `desired` nodes run. New nodes take
/// their custom ports from `ports` where a range is given; fewer nodes are
/// added than are missing if the range runs out of free ports.
pub fn plan_maintenance(registry: &Registry, desired: u16, ports: Option<PortRange>) -> (plan:
    MaintenancePlan)
    ensures
        planned(
            registry.nodes@,
            desired as int,
            ports,
            as_ints(plan.start@),
            plan.add@,
            as_ints(plan.stop@),
        ),
{
    let (running, idle) = positions(registry);
    let r: usize = running.len();
    let n: usize = desired as usize;
    let mut start: Vec<usize> = Vec::new();
    let mut add: Vec<Option<u16>> = Vec::new();
    let mut stop: Vec<usize> = Vec::new();
    proof {
        lemma_running_positions(registry.nodes@);
        lemma_idle_positions(registry.nodes@);
        assert(as_ints(running@).len() == running@.len());
        assert(as_ints(idle@).len() == idle@.len());
    }
    if r < n {
        let missing: usize = n - r;
        let k: usize = if missing <= idle.len() {
            missing
        } else {
            idle.len()
        };
        let mut j: usize = 0;
        while j < k
            invariant
                j <= k <= idle@.len(),
                start@.len() == j,
                forall|i: int| 0 <= i < j ==> start@[i] == idle@[i],
            decreases k - j,
        {
            start.push(idle[j]);
            j = j + 1;
        }
        assert(as_ints(start@) =~= idle_positions(registry.nodes@).take(k as int)) by {
            assert forall|i: int| 0 <= i < k implies as_ints(start@)[i] == idle_positions(
                registry.nodes@,
            )[i] by {
                assert(as_ints(idle@)[i] == idle@[i] as int);
            }
        }
        let wanted: usize = missing - k;
        match ports {
            Some(range) => {
                add = pick_ports(registry, range, wanted);
            },
            None => {
                let mut a: usize = 0;
                while a < wanted
                    invariant
                        a <= wanted,
                        add@.len() == a,
                        forall|i: int| 0 <= i < a ==> add@[i] == None::<u16>,
                    decreases wanted - a,
                {
                    add.push(None);
                    a = a + 1;
                }
                assert(add@ =~= new_node_ports(registry.nodes@, None, wanted as int));
            },
        }
    } else {
        let excess: usize = r - n;
        let mut j: usize = 0;
        while j < excess
            invariant
                j <= excess,
                excess <= r,
                r == running@.len(),
                stop@.len() == j,
                forall|i: int| 0 <= i < j ==> stop@[i] == running@[r - 1 - i],
            decreases excess - j,
        {
            stop.push(running[r - 1 - j]);
            j = j + 1;
        }
        assert(as_ints(stop@) =~= Seq::new(
            excess as nat,
            |i: int| running_positions(registry.nodes@)[r - 1 - i],
        )) by {
            assert forall|i: int| 0 <= i < excess implies as_ints(stop@)[i] == running_positions(
                registry.nodes@,
            )[r - 1 - i] by {
                assert(as_ints(running@)[r - 1 - i] == running@[r - 1 - i] as int);
            }
        }
    }
    MaintenancePlan { start, add, stop }
}

/// How many of the statuses are `Running`.
pub open spec fn running_count(statuses: Seq<ServiceStatus>) -> nat
    decreases statuses.len(),
{
    if statuses.len() == 0 {
        0
    } else if statuses.last() is Running {
        running_count(statuses.drop_last()) + 1
    } else {
        running_count(statuses.drop_last())
    }
}

/// The statuses of the nodes, in order.
pub open spec fn statuses_of(nodes: Seq<NodeService>) -> Seq<ServiceStatus> {
    Seq::new(nodes.len(), |i: int| nodes[i].status)
}

/// The statuses after those at `positions` were set to `to`.
pub open spec fn marked(statuses: Seq<ServiceStatus>, positions: Seq<int>, to: ServiceStatus) -> Seq<
    ServiceStatus,
>
    decreases positions.len(),
{
    if positions.len() == 0 {
        statuses
    } else {
        marked(statuses, positions.drop_last(), to).update(positions.last(), to)
    }
}

/// The statuses of the fleet once a plan was carried out without a failure:
/// the nodes to start run, the nodes to stop are stopped, and every added
/// node runs.
pub open spec fn carried_out(
    nodes: Seq<NodeService>,
    start: Seq<int>,
    add: Seq<Option<u16>>,
    stop: Seq<int>,
) -> Seq<ServiceStatus> {
    marked(
        marked(statuses_of(nodes), start, ServiceStatus::Running),
        stop,
        ServiceStatus::Stopped,
    ) + Seq::new(add.len(), |j: int| ServiceStatus::Running)
}

/// The running nodes of a list are as many as its running positions.
pub proof fn lemma_count_positions(nodes: Seq<NodeService>)
    ensures
        running_count(statuses_of(nodes)) == running_positions(nodes).len(),
    decreases nodes.len(),
{
    if nodes.len() > 0 {
        lemma_count_positions(nodes.drop_last());
        assert(statuses_of(nodes).drop_last() =~= statuses_of(nodes.drop_last()));
    }
}

/// Setting one status changes the count of running nodes by what the old
/// and the new status contribute.
pub proof fn lemma_count_update(statuses: Seq<ServiceStatus>, i: int, to: ServiceStatus)
    requires
        0 <= i < statuses.len(),
    ensures
        running_count(statuses.update(i, to)) + (if statuses[i] is Running {
            1int
        } else {
            0int
        }) == running_count(statuses) + (if to is Running {
            1int
        } else {
            0int
        }),
    decreases statuses.len(),
{
    let after = statuses.update(i, to);
    if i == statuses.len() - 1 {
        assert(after.drop_last() =~= statuses.drop_last());
    } else {
        lemma_count_update(statuses.drop_last(), i, to);
        assert(after.drop_last() =~= statuses.drop_last().update(i, to));
    }
}

/// Appending running nodes adds them to the count.
pub proof fn lemma_count_appended(statuses: Seq<ServiceStatus>, n: nat)
    ensures
        running_count(statuses + Seq::new(n, |j: int| ServiceStatus::Running)) == running_count(
            statuses,
        ) + n,
    decreases n,
{
    let tail = Seq::new(n, |j: int| ServiceStatus::Running);
    if n == 0 {
        assert(statuses + tail =~= statuses);
    } else {
        let shorter = Seq::new((n - 1) as nat, |j: int| ServiceStatus::Running);
        lemma_count_appended(statuses, (n - 1) as nat);
        assert((statuses + tail).drop_last() =~= statuses + shorter);
    }
}

/// Marking leaves the length and every other position as they were.
pub proof fn lemma_marked_elsewhere(
    statuses: Seq<ServiceStatus>,
    positions: Seq<int>,
    to: ServiceStatus,
)
    requires
        forall|j: int| 0 <= j < positions.len() ==> 0 <= #[trigger] positions[j] < statuses.len(),
    ensures
        marked(statuses, positions, to).len() == statuses.len(),
        forall|i: int|
            0 <= i < statuses.len() && !positions.contains(i) ==> #[trigger] marked(
                statuses,
                positions,
                to,
            )[i] == statuses[i],
    decreases positions.len(),
{
    if positions.len() > 0 {
        let rest = positions.drop_last();
        lemma_marked_elsewhere(statuses, rest, to);
        assert forall|i: int| 0 <= i < statuses.len() && !positions.contains(i) implies #[trigger] marked(
            statuses,
            positions,
            to,
        )[i] == statuses[i] by {
            assert(i != positions.last()) by {
                if i == positions.last() {
                    assert(positions[positions.len() - 1] == i);
                }
            }
            if rest.contains(i) {
                let j = choose|j: int| 0 <= j < rest.len() && rest[j] == i;
                assert(positions[j] == i);
            }
        }
    }
}

/// Marking distinct positions changes the count of running nodes by one for
/// each position whose status changes between running and not running.
pub proof fn lemma_count_marked(
    statuses: Seq<ServiceStatus>,
    positions: Seq<int>,
    to: ServiceStatus,
)
    requires
        forall|j: int| 0 <= j < positions.len() ==> 0 <= #[trigger] positions[j] < statuses.len(),
        forall|j: int, k: int|
            0 <= j < k < positions.len() ==> #[trigger] positions[j] != #[trigger] positions[k],
        forall|j: int|
            0 <= j < positions.len() ==> ((#[trigger] statuses[positions[j]]) is Running) != (to is Running),
    ensures
        to is Running ==> running_count(marked(statuses, positions, to)) == running_count(statuses)
            + positions.len(),
        !(to is Running) ==> running_count(marked(statuses, positions, to)) + positions.len()
            == running_count(statuses),
    decreases positions.len(),
{
    if positions.len() > 0 {
        let rest = positions.drop_last();
        let last = positions.last();
        lemma_count_marked(statuses, rest, to);
        lemma_marked_elsewhere(statuses, rest, to);
        assert(!rest.contains(last)) by {
            if rest.contains(last) {
                let j = choose|j: int| 0 <= j < rest.len() && rest[j] == last;
                assert(positions[j] != positions[positions.len() - 1]);
            }
        }
        assert(marked(statuses, rest, to)[last] == statuses[last]);
        assert(statuses[positions[positions.len() - 1]] is Running != (to is Running));
        lemma_count_update(marked(statuses, rest, to), last, to);
    }
}

/// A plan that is carried out without a failure leaves the desired count of
/// nodes running, unless the range ran out of free ports; then every node
/// that could be added runs as well. With ascending node numbers, nodes are
/// started from the lowest number up and stopped from the highest number
/// down.
pub proof fn lemma_plan_reaches_target(
    nodes: Seq<NodeService>,
    desired: int,
    ports: Option<PortRange>,
    start: Seq<int>,
    add: Seq<Option<u16>>,
    stop: Seq<int>,
)
    requires
        0 <= desired,
        planned(nodes, desired, ports, start, add, stop),
    ensures
        ports is None ==> running_count(carried_out(nodes, start, add, stop)) == desired,
        running_count(carried_out(nodes, start, add, stop)) == running_positions(nodes).len()
            + start.len() + add.len() - stop.len(),
        running_count(carried_out(nodes, start, add, stop)) <= desired,
        running_positions(nodes).len() >= desired ==> running_count(
            carried_out(nodes, start, add, stop),
        ) == desired,
        ascending_numbers(nodes) ==> forall|j: int, k: int|
            0 <= j < k < start.len() ==> nodes[#[trigger] start[j]].number < nodes[#[trigger] start[k]].number,
        ascending_numbers(nodes) ==> forall|j: int, k: int|
            0 <= j < k < stop.len() ==> nodes[#[trigger] stop[j]].number > nodes[#[trigger] stop[k]].number,
{
    let statuses = statuses_of(nodes);
    let running = running_positions(nodes);
    let idle = idle_positions(nodes);
    lemma_running_positions(nodes);
    lemma_idle_positions(nodes);
    lemma_count_positions(nodes);
    assert forall|j: int| 0 <= j < start.len() implies 0 <= #[trigger] start[j] < statuses.len()
        && !(statuses[start[j]] is Running) by {
        assert(start[j] == idle[j]);
    }
    assert forall|j: int, k: int| 0 <= j < k < start.len() implies #[trigger] start[j]
        != #[trigger] start[k] by {
        assert(start[j] == idle[j] && start[k] == idle[k]);
    }
    lemma_count_marked(statuses, start, ServiceStatus::Running);
    lemma_marked_elsewhere(statuses, start, ServiceStatus::Running);
    let up = marked(statuses, start, ServiceStatus::Running);
    let r = running.len() as int;
    assert forall|j: int| 0 <= j < stop.len() implies 0 <= #[trigger] stop[j] < up.len()
        && up[stop[j]] is Running by {
        assert(stop[j] == running[r - 1 - j]);
        assert(start.len() == 0);
        assert(up == statuses);
        assert(statuses[running[r - 1 - j]] == nodes[running[r - 1 - j]].status);
    }
    assert forall|j: int, k: int| 0 <= j < k < stop.len() implies #[trigger] stop[j]
        != #[trigger] stop[k] by {
        assert(stop[j] == running[r - 1 - j] && stop[k] == running[r - 1 - k]);
        assert(running[r - 1 - k] < running[r - 1 - j]);
    }
    lemma_count_marked(up, stop, ServiceStatus::Stopped);
    let down = marked(up, stop, ServiceStatus::Stopped);
    lemma_count_appended(down, add.len());
    if ascending_numbers(nodes) {
        assert forall|j: int, k: int| 0 <= j < k < start.len() implies nodes[#[trigger] start[j]].number
            < nodes[#[trigger] start[k]].number by {
            assert(start[j] == idle[j] && start[k] == idle[k]);
            assert(idle[j] < idle[k]);
        }
        assert forall|j: int, k: int| 0 <= j < k < stop.len() implies nodes[#[trigger] stop[j]].number
            > nodes[#[trigger] stop[k]].number by {
            assert(stop[j] == running[r - 1 - j] && stop[k] == running[r - 1 - k]);
            assert(running[r - 1 - k] < running[r - 1 - j]);
        }
    }
}


/// The free ports of a range lie inside the range, belong to no node, and
/// ascend, so that no port is handed out twice.
pub proof fn lemma_free_ports(nodes: Seq<NodeService>, from: int, to: int)
    requires
        0 <= from,
        to <= u16::MAX,
    ensures
        forall|j: int|
            0 <= j < free_ports(nodes, from, to).len() ==> {
                &&& from <= (#[trigger] free_ports(nodes, from, to)[j]) <= to
                &&& !node_port_in_use(nodes, free_ports(nodes, from, to)[j])
            },
        forall|j: int, k: int|
            0 <= j < k < free_ports(nodes, from, to).len() ==> (#[trigger] free_ports(
                nodes,
                from,
                to,
            )[j]) < (#[trigger] free_ports(nodes, from, to)[k]),
    decreases to - from + 1,
{
    if from <= to {
        lemma_free_ports(nodes, from, to - 1);
        let rest = free_ports(nodes, from, to - 1);
        let all = free_ports(nodes, from, to);
        assert forall|j: int| 0 <= j < all.len() implies {
            &&& from <= (#[trigger] all[j]) <= to
            &&& !node_port_in_use(nodes, all[j])
        } by {
            if j < rest.len() {
                assert(all[j] == rest[j]);
            }
        }
        assert forall|j: int, k: int| 0 <= j < k < all.len() implies (#[trigger] all[j]) < (
        #[trigger] all[k]) by {
            assert(all[j] == rest[j]);
            if k < rest.len() {
                assert(all[k] == rest[k]);
            }
        }
    }
}

/// Whether the reachability probe is run before the first node of a plan is
/// started: only if the plan starts or adds a node at all, and the probe is
/// due.
pub fn probe_before_start(
    plan: &MaintenancePlan,
    requested: bool,
    nat_status: Option<NatStatus>,
    errors: usize,
) -> (r: bool)
    ensures
        r == ((plan.start@.len() > 0 || plan.add@.len() > 0) && requested && nat_status is None
            && errors < MAX_ERRORS_WHILE_RUNNING_NAT_DETECTION),
{
    (plan.start.len() > 0 || plan.add.len() > 0) && should_run_nat_detection(
        requested,
        nat_status,
        errors,
    )
}

/// The range of custom ports from `from` to `to`, if it lies inside the
/// range from `min` to `max` that is allowed and its ends are in order.
pub fn checked_port_range(from: u32, to: u32, min: u32, max: u32) -> (r: Option<PortRange>)
    ensures
        r is Some <==> min <= from <= to <= max && to <= u16::MAX,
        r matches Some(range) ==> range.from == from && range.to == to,
{
    if min <= from && from <= to && to <= max && to <= 65535 {
        Some(PortRange { from: from as u16, to: to as u16 })
    } else {
        None
    }
}

} // verus!
