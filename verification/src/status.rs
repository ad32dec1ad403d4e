//! The state behind the status screen of the dashboard: the fleet as it was
//! last read, the table of nodes, the lock that keeps registry tasks apart,
//! and the handling of every message that reaches the screen.
//!
//! Reading the registry, fetching statistics and handing tasks to the worker
//! happen outside; what was read comes in with a message, and what is to be
//! done goes out as effects.
use vstd::prelude::*;
use vstd::string::*;
use crate::action::{
    Action, ConnectionMode, IndividualNodeStats, InputMode, MaintainNodesArgs, NodeManagementTask,
    NodeStats, OptionsActions, PeersArgs, Scene, StatusActions, UpgradeNodesArgs, UpnpSupport,
    FIXED_INTERVAL, NODE_STAT_UPDATE_INTERVAL_MS, PORT_MAX, PORT_MIN,
};
use crate::maintain::PortRange;
use crate::maintain::MAX_ERRORS_WHILE_RUNNING_NAT_DETECTION;
use crate::node_item::{
    item_views, next_frame, shown_status, NodeItem, NodeItemView, NodeStatus,
};
use crate::registry::{
    active_nodes, lemma_active_nodes_step, names_of, running_names_of, running_nodes, NodeService,
    Registry, ServiceStatus,
};
use crate::table::StatefulTable;

verus! {

/// Which task holds the registry. While a task holds it no other task that
/// changes the registry is handed to the worker.
#[derive(Clone, Copy, Debug, PartialEq, Eq, Structural)]
pub enum LockRegistryState {
    StartingNodes,
    StoppingNodes,
    ResettingNodes,
    UpdatingNodes,
}

impl LockRegistryState {
    /// The name of the state.
    pub open spec fn label_text(&self) -> Seq<char> {
        match self {
            LockRegistryState::StartingNodes => "StartingNodes"@,
            LockRegistryState::StoppingNodes => "StoppingNodes"@,
            LockRegistryState::ResettingNodes => "ResettingNodes"@,
            LockRegistryState::UpdatingNodes => "UpdatingNodes"@,
        }
    }

    /// The name of the state.
    pub fn label(&self) -> (s: String)
        ensures
            s@ == self.label_text(),
    {
        match self {
            LockRegistryState::StartingNodes => String::from_str("StartingNodes"),
            LockRegistryState::StoppingNodes => String::from_str("StoppingNodes"),
            LockRegistryState::ResettingNodes => String::from_str("ResettingNodes"),
            LockRegistryState::UpdatingNodes => String::from_str("UpdatingNodes"),
        }
    }
}

/// A message box for an error.
#[derive(Clone, Debug, PartialEq, Eq)]
pub struct ErrorPopup {
    pub visible: bool,
    pub title: String,
    pub message: String,
    pub error_message: String,
}

/// A key, as far as the status screen tells keys apart.
#[derive(Clone, Copy, Debug, PartialEq, Eq, Structural)]
pub enum KeyPress {
    Enter,
    Esc,
    Other,
}

impl ErrorPopup {
    /// A hidden message box.
    pub fn new(title: String, message: String, error_message: String) -> (r: Self)
        ensures
            r == (ErrorPopup { visible: false, title, message, error_message }),
    {
        ErrorPopup { visible: false, title, message, error_message }
    }

    /// Shows the box.
    pub fn show(&mut self)
        ensures
            *final(self) == (ErrorPopup { visible: true, ..*old(self) }),
    {
        self.visible = true;
    }

    /// Closes the box.
    pub fn close(&mut self)
        ensures
            *final(self) == (ErrorPopup { visible: false, ..*old(self) }),
    {
        self.visible = false;
    }

    pub fn is_visible(&self) -> (r: bool)
        ensures
            r == self.visible,
    {
        self.visible
    }

    /// Takes a key: Enter closes a box that is shown. Says whether the key
    /// was taken.
    pub fn handle_input(&mut self, key: KeyPress) -> (taken: bool)
        ensures
            taken == (old(self).visible && key is Enter),
            *final(self) == (ErrorPopup { visible: old(self).visible && !taken, ..*old(self) }),
    {
        if self.visible && key == KeyPress::Enter {
            self.close();
            true
        } else {
            false
        }
    }
}

/// What the status screen is set up with.
#[derive(Clone, Debug, PartialEq, Eq)]
pub struct StatusConfig {
    /// The count of nodes to run.
    pub allocated_disk_space: usize,
    pub antnode_path: Option<String>,
    pub connection_mode: ConnectionMode,
    pub upnp_support: UpnpSupport,
    pub data_dir_path: String,
    pub network_id: Option<u8>,
    pub peers_args: PeersArgs,
    pub port_from: Option<u32>,
    pub port_to: Option<u32>,
    pub rewards_address: String,
}

/// The state behind the status screen.
#[derive(Clone, Debug, PartialEq, Eq)]
pub struct Status {
    /// Whether the screen is shown and takes keys.
    pub active: bool,
    /// Whether a channel for messages was registered.
    pub action_sender_registered: bool,
    pub is_nat_status_determined: bool,
    pub error_while_running_nat_detection: usize,
    pub node_stats: NodeStats,
    /// When the statistics were last asked for, in milliseconds.
    pub node_stats_last_update: u64,
    /// The active fleet as it was last read from the registry.
    pub node_services: Vec<NodeService>,
    pub items: Option<StatefulTable<NodeItem>>,
    pub network_id: Option<u8>,
    pub nodes_to_start: usize,
    pub rewards_address: String,
    pub lock_registry: Option<LockRegistryState>,
    pub peers_args: PeersArgs,
    pub antnode_path: Option<String>,
    pub data_dir_path: String,
    pub connection_mode: ConnectionMode,
    pub upnp_support: UpnpSupport,
    pub port_from: Option<u32>,
    pub port_to: Option<u32>,
    pub error_popup: Option<ErrorPopup>,
}

/// The position of the first of `names` that is `name`.
pub open spec fn first_index_of(names: Seq<Seq<char>>, name: Seq<char>) -> Option<int>
    decreases names.len(),
{
    if names.len() == 0 {
        None
    } else {
        match first_index_of(names.drop_last(), name) {
            Some(i) => Some(i),
            None => if names.last() == name {
                Some(names.len() - 1)
            } else {
                None
            },
        }
    }
}

/// What `first_index_of` finds is the first position with that name.
pub proof fn lemma_first_index_of(names: Seq<Seq<char>>, name: Seq<char>)
    ensures
        match first_index_of(names, name) {
            Some(i) => 0 <= i < names.len() && names[i] == name && forall|k: int|
                0 <= k < i ==> names[k] != name,
            None => forall|k: int| 0 <= k < names.len() ==> names[k] != name,
        },
    decreases names.len(),
{
    if names.len() > 0 {
        lemma_first_index_of(names.drop_last(), name);
        match first_index_of(names.drop_last(), name) {
            Some(i) => {
                assert(names.drop_last()[i] == names[i]);
                assert forall|k: int| 0 <= k < i implies names[k] != name by {
                    assert(names.drop_last()[k] == names[k]);
                }
            },
            None => {
                assert forall|k: int| 0 <= k < names.len() - 1 implies names[k] != name by {
                    assert(names.drop_last()[k] == names[k]);
                }
            },
        }
    }
}

/// A position that holds the name and has no earlier position holding it is
/// what `first_index_of` finds; where no position holds it, nothing is found.
pub proof fn lemma_first_index_is(names: Seq<Seq<char>>, name: Seq<char>, found: Option<int>)
    requires
        match found {
            Some(i) => 0 <= i < names.len() && names[i] == name && forall|k: int|
                0 <= k < i ==> names[k] != name,
            None => forall|k: int| 0 <= k < names.len() ==> names[k] != name,
        },
    ensures
        first_index_of(names, name) == found,
{
    lemma_first_index_of(names, name);
}

/// The names of the lines of the table.
pub open spec fn item_names(items: Seq<NodeItemView>) -> Seq<Seq<char>> {
    Seq::new(items.len(), |i: int| items[i].name)
}

/// The names of the services that statistics were reported for.
pub open spec fn stat_names(stats: Seq<IndividualNodeStats>) -> Seq<Seq<char>> {
    Seq::new(stats.len(), |i: int| stats[i].service_name@)
}

/// The frame of a spinner after it moved `steps` times.
pub open spec fn frame_after(index: i8, steps: nat) -> i8
    decreases steps,
{
    if steps == 0 {
        index
    } else {
        next_frame(frame_after(index, (steps - 1) as nat))
    }
}

/// The status that a line takes, and how often its spinner moves, when the
/// table is refreshed for a node with the recorded status `recorded`: a
/// status that is forced is taken as it is; a line that shows an update
/// stays so, and its spinner moves; otherwise the line shows what is
/// recorded, and while nodes are being started every node that does not run
/// yet shows as starting. The spinner moves for a node that runs and for
/// every node while nodes are being started.
pub open spec fn refreshed_status(
    shown: NodeStatus,
    recorded: ServiceStatus,
    forced: Option<NodeStatus>,
    starting: bool,
) -> (NodeStatus, nat) {
    match forced {
        Some(status) => (status, 0),
        None => if shown is Updating {
            (NodeStatus::Updating, 1)
        } else {
            let spins: nat = if recorded is Running {
                1
            } else {
                0
            };
            if starting {
                (
                    if recorded is Running {
                        NodeStatus::Running
                    } else {
                        NodeStatus::Starting
                    },
                    spins + 1,
                )
            } else {
                (shown_status(recorded), spins)
            }
        },
    }
}

/// How many peers a node is connected to.
pub open spec fn peer_count(node: NodeService) -> usize {
    match node.connected_peers {
        Some(peers) => peers@.len() as usize,
        None => 0,
    }
}

/// A line of the table after it was refreshed for its node.
pub open spec fn refreshed_item(
    item: NodeItemView,
    node: NodeService,
    forced: Option<NodeStatus>,
    starting: bool,
    stats: Seq<IndividualNodeStats>,
) -> NodeItemView {
    let (status, spins) = refreshed_status(item.status, node.status, forced, starting);
    let with_status = NodeItemView {
        status,
        spinner_state: frame_after(item.spinner_state, spins),
        peers: peer_count(node),
        ..item
    };
    match first_index_of(stat_names(stats), node.service_name@) {
        Some(i) => NodeItemView {
            attos: stats[i].rewards_wallet_balance,
            memory: stats[i].memory_usage_mb,
            mbps: stats[i].throughput@,
            records: stats[i].max_records,
            connections: stats[i].connections,
            ..with_status
        },
        None => with_status,
    }
}

/// The table after it was refreshed for one node: the first line with the
/// node's name is refreshed, or a line is added for a node that has none.
pub open spec fn refresh_step(
    items: Seq<NodeItemView>,
    node: NodeService,
    forced: Option<NodeStatus>,
    starting: bool,
    stats: Seq<IndividualNodeStats>,
) -> Seq<NodeItemView> {
    match first_index_of(item_names(items), node.service_name@) {
        Some(i) => items.update(i, refreshed_item(items[i], node, forced, starting, stats)),
        None => items.push(NodeItem::fresh(node, NodeStatus::Added)),
    }
}

/// The table after it was refreshed for each node of the fleet in turn.
pub open spec fn refresh_all(
    items: Seq<NodeItemView>,
    nodes: Seq<NodeService>,
    forced: Option<NodeStatus>,
    starting: bool,
    stats: Seq<IndividualNodeStats>,
) -> Seq<NodeItemView>
    decreases nodes.len(),
{
    if nodes.len() == 0 {
        items
    } else {
        refresh_step(
            refresh_all(items, nodes.drop_last(), forced, starting, stats),
            nodes.last(),
            forced,
            starting,
            stats,
        )
    }
}

/// The lines of a table that is made for the first time: one for each node
/// of the fleet that was not removed, with the status that is recorded.
pub open spec fn initial_items(nodes: Seq<NodeService>) -> Seq<NodeItemView> {
    let active = active_nodes(nodes);
    Seq::new(active.len(), |i: int| NodeItem::fresh(active[i], shown_status(active[i].status)))
}


/// The position of the first line named `name`.
fn find_item(items: &Vec<NodeItem>, name: &String) -> (r: Option<usize>)
    ensures
        match r {
            Some(i) => first_index_of(item_names(item_views(items@)), name@) == Some(i as int) && i
                < items@.len(),
            None => first_index_of(item_names(item_views(items@)), name@) is None,
        },
{
    let ghost names = item_names(item_views(items@));
    let mut i: usize = 0;
    while i < items.len()
        invariant
            i <= items@.len(),
            names == item_names(item_views(items@)),
            forall|k: int| 0 <= k < i ==> names[k] != name@,
        decreases items@.len() - i,
    {
        if items[i].name == *name {
            proof {
                assert(names[i as int] == name@);
                lemma_first_index_is(names, name@, Some(i as int));
            }
            return Some(i);
        }
        i = i + 1;
    }
    proof {
        lemma_first_index_is(names, name@, None);
    }
    None
}

/// The position of the first statistics reported for the service `name`.
fn find_stats(stats: &Vec<IndividualNodeStats>, name: &String) -> (r: Option<usize>)
    ensures
        match r {
            Some(i) => first_index_of(stat_names(stats@), name@) == Some(i as int) && i
                < stats@.len(),
            None => first_index_of(stat_names(stats@), name@) is None,
        },
{
    let ghost names = stat_names(stats@);
    let mut i: usize = 0;
    while i < stats.len()
        invariant
            i <= stats@.len(),
            names == stat_names(stats@),
            forall|k: int| 0 <= k < i ==> names[k] != name@,
        decreases stats@.len() - i,
    {
        if stats[i].service_name == *name {
            proof {
                assert(names[i as int] == name@);
                lemma_first_index_is(names, name@, Some(i as int));
            }
            return Some(i);
        }
        i = i + 1;
    }
    proof {
        lemma_first_index_is(names, name@, None);
    }
    None
}

/// Refreshes one line for its node.
fn refresh_item(
    item: &mut NodeItem,
    node: &NodeService,
    forced: Option<NodeStatus>,
    starting: bool,
    stats: &Vec<IndividualNodeStats>,
)
    ensures
        final(item)@ == refreshed_item(old(item)@, *node, forced, starting, stats@),
{
    proof {
        reveal_with_fuel(frame_after, 3);
    }
    match forced {
        Some(status) => {
            item.status = status;
        },
        None => {
            if item.status == NodeStatus::Updating {
                item.spin();
            } else {
                match node.status {
                    ServiceStatus::Running => {
                        item.spin();
                        item.status = NodeStatus::Running;
                    },
                    ServiceStatus::Stopped => {
                        item.status = NodeStatus::Stopped;
                    },
                    ServiceStatus::Added => {
                        item.status = NodeStatus::Added;
                    },
                    ServiceStatus::Removed => {
                        item.status = NodeStatus::Removed;
                    },
                }
                if starting {
                    item.spin();
                    if item.status != NodeStatus::Running {
                        item.status = NodeStatus::Starting;
                    }
                }
            }
        },
    }
    item.peers = match &node.connected_peers {
        Some(peers) => peers.len(),
        None => 0,
    };
    match find_stats(stats, &node.service_name) {
        Some(i) => {
            item.attos = stats[i].rewards_wallet_balance;
            item.memory = stats[i].memory_usage_mb;
            item.mbps = stats[i].throughput.clone();
            item.records = stats[i].max_records;
            item.connections = stats[i].connections;
        },
        None => {},
    }
}

/// Refreshes the table for one node.
fn refresh_for(
    items: &mut Vec<NodeItem>,
    node: &NodeService,
    forced: Option<NodeStatus>,
    starting: bool,
    stats: &Vec<IndividualNodeStats>,
)
    ensures
        item_views(final(items)@) == refresh_step(
            item_views(old(items)@),
            *node,
            forced,
            starting,
            stats@,
        ),
{
    match find_item(items, &node.service_name) {
        Some(i) => {
            refresh_item(&mut items[i], node, forced, starting, stats);
            assert(item_views(items@) =~= item_views(old(items)@).update(
                i as int,
                refreshed_item(old(items)@[i as int]@, *node, forced, starting, stats@),
            ));
        },
        None => {
            items.push(NodeItem::new(node, NodeStatus::Added));
            assert(item_views(items@) =~= item_views(old(items)@).push(
                NodeItem::fresh(*node, NodeStatus::Added),
            ));
        },
    }
}

/// The lines for a fleet that the table shows for the first time.
fn first_items(nodes: &Vec<NodeService>) -> (r: Vec<NodeItem>)
    ensures
        item_views(r@) == initial_items(nodes@),
{
    let mut r: Vec<NodeItem> = Vec::new();
    let mut i: usize = 0;
    proof {
        reveal(Seq::filter);
        assert(nodes@.take(0) =~= Seq::<NodeService>::empty());
        assert(item_views(r@) =~= initial_items(nodes@.take(0)));
    }
    while i < nodes.len()
        invariant
            i <= nodes@.len(),
            item_views(r@) == initial_items(nodes@.take(i as int)),
        decreases nodes@.len() - i,
    {
        proof {
            lemma_active_nodes_step(nodes@, i as int);
        }
        let ghost before = item_views(r@);
        let ghost a0 = active_nodes(nodes@.take(i as int));
        let ghost a1 = active_nodes(nodes@.take(i + 1));
        match nodes[i].status {
            ServiceStatus::Removed => {},
            _ => {
                r.push(NodeItem::new(&nodes[i], NodeStatus::from_service(nodes[i].status)));
            },
        }
        proof {
            assert(initial_items(nodes@.take(i as int)).len() == a0.len());
            assert(before.len() == a0.len());
            assert(initial_items(nodes@.take(i + 1)).len() == a1.len());
            assert(item_views(r@).len() == a1.len());
            assert forall|j: int| 0 <= j < a1.len() implies item_views(r@)[j] == initial_items(
                nodes@.take(i + 1),
            )[j] by {
                if j < a0.len() {
                    assert(a1[j] == a0[j]);
                    assert(item_views(r@)[j] == before[j]);
                    assert(before[j] == initial_items(nodes@.take(i as int))[j]);
                }
            }
        }
        assert(item_views(r@) =~= initial_items(nodes@.take(i + 1)));
        i = i + 1;
    }
    assert(nodes@.take(nodes@.len() as int) =~= nodes@);
    r
}

/// A table of nodes as plain values.
pub struct TableView {
    pub selected: Option<usize>,
    pub last_selected: Option<usize>,
    pub items: Seq<NodeItemView>,
}

/// The table as plain values.
pub open spec fn table_view(table: Option<StatefulTable<NodeItem>>) -> Option<TableView> {
    match table {
        Some(t) => Some(
            TableView {
                selected: t.selected,
                last_selected: t.last_selected,
                items: item_views(t.items@),
            },
        ),
        None => None,
    }
}

/// The table without its lines.
pub open spec fn cleared(table: Option<TableView>) -> Option<TableView> {
    match table {
        Some(t) => Some(TableView { items: Seq::empty(), ..t }),
        None => None,
    }
}

/// The table after it was brought up to date: a table that exists is
/// refreshed for each node of the fleet in turn and keeps its selection;
/// where no table exists one is made for the fleet, without a selection.
pub open spec fn table_updated(
    before: Option<TableView>,
    nodes: Seq<NodeService>,
    forced: Option<NodeStatus>,
    starting: bool,
    stats: Seq<IndividualNodeStats>,
    after: Option<StatefulTable<NodeItem>>,
) -> bool {
    table_view(after) == Some(
        match before {
            Some(t) => TableView {
                items: refresh_all(t.items, nodes, forced, starting, stats),
                ..t
            },
            None => TableView {
                selected: None,
                last_selected: None,
                items: initial_items(nodes),
            },
        },
    )
}

/// The nodes of a list whose peer id is known, in order.
pub open spec fn identified_nodes(nodes: Seq<NodeService>) -> Seq<NodeService> {
    nodes.filter(|n: NodeService| n.peer_id is Some)
}

/// The peer ids of nodes whose peer id is known, in order.
pub open spec fn peer_ids_of(nodes: Seq<NodeService>) -> Seq<String> {
    Seq::new(nodes.len(), |i: int| nodes[i].peer_id->Some_0)
}

impl Status {
    /// The state of the screen when it is set up at `now_ms`: active, no
    /// fleet read yet, no table, nothing locked.
    pub fn new(config: StatusConfig, now_ms: u64) -> (r: Self)
        ensures
            r.active,
            !r.action_sender_registered,
            !r.is_nat_status_determined,
            r.error_while_running_nat_detection == 0,
            r.node_stats.individual_stats@.len() == 0,
            r.node_stats.total_rewards_wallet_balance == 0,
            r.node_stats.total_memory_usage_mb == 0,
            r.node_stats_last_update == now_ms,
            r.node_services@.len() == 0,
            r.items is None,
            r.lock_registry is None,
            r.error_popup is None,
            r.network_id == config.network_id,
            r.nodes_to_start == config.allocated_disk_space,
            r.rewards_address == config.rewards_address,
            r.peers_args == config.peers_args,
            r.antnode_path == config.antnode_path,
            r.data_dir_path == config.data_dir_path,
            r.connection_mode == config.connection_mode,
            r.upnp_support == config.upnp_support,
            r.port_from == config.port_from,
            r.port_to == config.port_to,
    {
        Status {
            active: true,
            action_sender_registered: false,
            is_nat_status_determined: false,
            error_while_running_nat_detection: 0,
            node_stats: NodeStats {
                total_rewards_wallet_balance: 0,
                total_memory_usage_mb: 0,
                individual_stats: Vec::new(),
            },
            node_stats_last_update: now_ms,
            node_services: Vec::new(),
            items: None,
            network_id: config.network_id,
            nodes_to_start: config.allocated_disk_space,
            rewards_address: config.rewards_address,
            lock_registry: None,
            peers_args: config.peers_args,
            antnode_path: config.antnode_path,
            data_dir_path: config.data_dir_path,
            connection_mode: config.connection_mode,
            upnp_support: config.upnp_support,
            port_from: config.port_from,
            port_to: config.port_to,
            error_popup: None,
        }
    }

    /// Whether nodes are being started.
    pub open spec fn starting(&self) -> bool {
        self.lock_registry == Some(LockRegistryState::StartingNodes)
    }

    /// The table after `update_node_items` on this state.
    pub open spec fn items_updated(
        before: Status,
        forced: Option<NodeStatus>,
        after: Option<StatefulTable<NodeItem>>,
    ) -> bool {
        table_updated(
            table_view(before.items),
            before.node_services@,
            forced,
            before.starting(),
            before.node_stats.individual_stats@,
            after,
        )
    }

    /// Brings the table of nodes up to date with the fleet, the statistics
    /// and the lock. `new_status`, where given, is shown for every node.
    pub fn update_node_items(&mut self, new_status: Option<NodeStatus>)
        ensures
            *final(self) == (Status { items: final(self).items, ..*old(self) }),
            Status::items_updated(*old(self), new_status, final(self).items),
    {
        let starting = match self.lock_registry {
            Some(LockRegistryState::StartingNodes) => true,
            _ => false,
        };
        let mut taken: Option<StatefulTable<NodeItem>> = None;
        std::mem::swap(&mut self.items, &mut taken);
        match taken {
            Some(table) => {
                let mut table = table;
                let ghost first = item_views(table.items@);
                let ghost nodes = self.node_services@;
                let ghost stats = self.node_stats.individual_stats@;
                let mut k: usize = 0;
                assert(nodes.take(0) =~= Seq::<NodeService>::empty());
                while k < self.node_services.len()
                    invariant
                        k <= nodes.len(),
                        nodes == self.node_services@,
                        stats == self.node_stats.individual_stats@,
                        table.selected == old(self).items->Some_0.selected,
                        table.last_selected == old(self).items->Some_0.last_selected,
                        item_views(table.items@) == refresh_all(
                            first,
                            nodes.take(k as int),
                            new_status,
                            starting,
                            stats,
                        ),
                        *self == (Status { items: None, ..*old(self) }),
                    decreases nodes.len() - k,
                {
                    assert(nodes.take(k + 1).drop_last() =~= nodes.take(k as int));
                    assert(nodes.take(k + 1).last() == nodes[k as int]);
                    refresh_for(
                        &mut table.items,
                        &self.node_services[k],
                        new_status,
                        starting,
                        &self.node_stats.individual_stats,
                    );
                    k = k + 1;
                }
                assert(nodes.take(nodes.len() as int) =~= nodes);
                self.items = Some(table);
            },
            None => {
                let items = first_items(&self.node_services);
                self.items = Some(StatefulTable::with_items(items));
            },
        }
    }

    /// Empties the table of nodes, if there is one.
    pub fn clear_node_items(&mut self)
        ensures
            *final(self) == (Status { items: final(self).items, ..*old(self) }),
            table_view(final(self).items) == cleared(table_view(old(self).items)),
    {
        let mut taken: Option<StatefulTable<NodeItem>> = None;
        std::mem::swap(&mut self.items, &mut taken);
        match taken {
            Some(table) => {
                let mut table = table;
                table.items = Vec::new();
                assert(item_views(table.items@) =~= Seq::<NodeItemView>::empty());
                self.items = Some(table);
            },
            None => {},
        }
    }

    /// Takes in the registry as it was just read: the nodes that were not
    /// removed become the fleet, and the reachability counts as determined
    /// if the registry holds a result.
    pub fn apply_registry(&mut self, registry: Registry)
        ensures
            *final(self) == (Status {
                is_nat_status_determined: registry.nat_status is Some,
                node_services: final(self).node_services,
                ..*old(self)
            }),
            final(self).node_services@ == active_nodes(registry.nodes@),
    {
        self.is_nat_status_determined = registry.nat_status.is_some();
        self.node_services = registry.into_active_nodes();
    }

    /// Whether the reachability probe is to be run: only in automatic
    /// connection mode, while nothing is determined, and unless it failed
    /// too often.
    pub fn should_we_run_nat_detection(&self) -> (r: bool)
        ensures
            r == (self.connection_mode is Automatic && !self.is_nat_status_determined
                && self.error_while_running_nat_detection
                < MAX_ERRORS_WHILE_RUNNING_NAT_DETECTION),
    {
        self.connection_mode == ConnectionMode::Automatic && !self.is_nat_status_determined
            && self.error_while_running_nat_detection < MAX_ERRORS_WHILE_RUNNING_NAT_DETECTION
    }

    /// The names of the running nodes of the fleet, in order.
    pub fn get_running_nodes(&self) -> (r: Vec<String>)
        ensures
            r@ == names_of(running_nodes(self.node_services@)),
    {
        running_names_of(&self.node_services)
    }

    /// The names and the peer ids of the nodes whose peer id is known, in
    /// order.
    pub fn get_service_names_and_peer_ids(&self) -> (r: (Vec<String>, Vec<String>))
        ensures
            r.0@ == names_of(identified_nodes(self.node_services@)),
            r.1@ == peer_ids_of(identified_nodes(self.node_services@)),
    {
        let mut names: Vec<String> = Vec::new();
        let mut ids: Vec<String> = Vec::new();
        let ghost nodes = self.node_services@;
        let mut i: usize = 0;
        proof {
            reveal(Seq::filter);
            assert(nodes.take(0) =~= Seq::<NodeService>::empty());
            assert(names@ =~= names_of(identified_nodes(nodes.take(0))));
            assert(ids@ =~= peer_ids_of(identified_nodes(nodes.take(0))));
        }
        while i < self.node_services.len()
            invariant
                i <= nodes.len(),
                nodes == self.node_services@,
                names@ == names_of(identified_nodes(nodes.take(i as int))),
                ids@ == peer_ids_of(identified_nodes(nodes.take(i as int))),
            decreases nodes.len() - i,
        {
            proof {
                reveal(Seq::filter);
                assert(nodes.take(i + 1).drop_last() =~= nodes.take(i as int));
            }
            match &self.node_services[i].peer_id {
                Some(peer_id) => {
                    names.push(self.node_services[i].service_name.clone());
                    ids.push(peer_id.clone());
                },
                None => {},
            }
            assert(names@ =~= names_of(identified_nodes(nodes.take(i + 1))));
            assert(ids@ =~= peer_ids_of(identified_nodes(nodes.take(i + 1))));
            i = i + 1;
        }
        assert(nodes.take(nodes.len() as int) =~= nodes);
        (names, ids)
    }
}


/// Work that a message leaves for the outside.
#[derive(Clone, Debug, PartialEq, Eq)]
pub enum Effect {
    /// Fetch the statistics of the fleet.
    FetchNodeStats,
    /// Hand the task to the worker.
    SendTask(NodeManagementTask),
    /// Open the logs of the node of this name.
    OpenLogs(String),
}

/// Why a message could not be handled.
#[derive(Clone, Debug, PartialEq, Eq)]
pub enum StatusError {
    /// No channel for messages was registered.
    ActionSenderNotRegistered,
    /// The registry could not be read.
    Registry(String),
    /// The data directory of a drive could not be made out.
    DataDir(String),
}

impl StatusError {
    /// The message of the error.
    pub open spec fn message_text(&self) -> Seq<char> {
        match self {
            StatusError::ActionSenderNotRegistered => "Action sender not registered"@,
            StatusError::Registry(e) => e@,
            StatusError::DataDir(e) => e@,
        }
    }

    /// The message of the error.
    pub fn message(&self) -> (s: String)
        ensures
            s@ == self.message_text(),
    {
        match self {
            StatusError::ActionSenderNotRegistered => String::from_str(
                "Action sender not registered",
            ),
            StatusError::Registry(e) => e.clone(),
            StatusError::DataDir(e) => e.clone(),
        }
    }
}

/// What was read outside for a message.
#[derive(Debug, PartialEq, Eq)]
pub struct UpdateInputs {
    /// The time, in milliseconds on a clock that does not go back.
    pub now_ms: u64,
    /// The registry as it was just read, for a message that consults it.
    pub registry: Option<Result<Registry, String>>,
    /// The data directory on the drive that a message names.
    pub data_dir: Option<Result<String, String>>,
}

/// What handling a message led to: the work left for the outside, in order,
/// and the message that follows, or the error.
#[derive(Debug, PartialEq, Eq)]
pub struct UpdateOutcome {
    pub effects: Vec<Effect>,
    pub result: Result<Option<Action>, StatusError>,
}

/// Whether the registry has to be read before the message is handled.
pub open spec fn needs_registry(action: Action) -> bool {
    match action {
        Action::StatusActions(StatusActions::StartNodesCompleted) => true,
        Action::StatusActions(StatusActions::StopNodesCompleted) => true,
        Action::StatusActions(StatusActions::UpdateNodesCompleted) => true,
        Action::StatusActions(StatusActions::ResetNodesCompleted { .. }) => true,
        Action::OptionsActions(OptionsActions::UpdateNodes) => true,
        _ => false,
    }
}

/// Whether the data directory of a drive has to be made out before the
/// message is handled.
pub open spec fn needs_data_dir(action: Action) -> bool {
    action is StoreStorageDrive
}

/// Whether the registry has to be read before the message is handled.
pub fn consults_registry(action: &Action) -> (r: bool)
    ensures
        r == needs_registry(*action),
{
    match action {
        Action::StatusActions(StatusActions::StartNodesCompleted) => true,
        Action::StatusActions(StatusActions::StopNodesCompleted) => true,
        Action::StatusActions(StatusActions::UpdateNodesCompleted) => true,
        Action::StatusActions(StatusActions::ResetNodesCompleted { .. }) => true,
        Action::OptionsActions(OptionsActions::UpdateNodes) => true,
        _ => false,
    }
}

/// Whether the data directory of a drive has to be made out before the
/// message is handled.
pub fn consults_data_dir(action: &Action) -> (r: bool)
    ensures
        r == needs_data_dir(*action),
{
    match action {
        Action::StoreStorageDrive(_, _) => true,
        _ => false,
    }
}

/// The lowest sixteen bits of a number.
pub open spec fn low16(x: int) -> u16 {
    (x % 65536) as u16
}

/// The same peers.
pub open spec fn same_peers(a: PeersArgs, b: PeersArgs) -> bool {
    &&& a.first == b.first
    &&& a.local == b.local
    &&& a.addrs@ == b.addrs@
    &&& a.network_contacts_url@ == b.network_contacts_url@
}

/// A copy of the peers.
pub fn copy_peers(p: &PeersArgs) -> (r: PeersArgs)
    ensures
        same_peers(r, *p),
{
    let addrs = p.addrs.clone();
    let urls = p.network_contacts_url.clone();
    assert(addrs@ =~= p.addrs@);
    assert(urls@ =~= p.network_contacts_url@);
    PeersArgs { first: p.first, local: p.local, addrs, network_contacts_url: urls }
}

/// The time that has passed since `since`, in milliseconds.
pub open spec fn elapsed_ms(now_ms: u64, since: u64) -> int {
    if now_ms >= since {
        now_ms - since
    } else {
        0
    }
}

impl Status {
    /// Whether the statistics are due at `now_ms`.
    pub open spec fn stats_due(&self, force: bool, now_ms: u64) -> bool {
        force || elapsed_ms(now_ms, self.node_stats_last_update) > NODE_STAT_UPDATE_INTERVAL_MS
    }

    /// The task that brings the fleet to the count of nodes that is set.
    pub open spec fn maintain_args(&self, args: MaintainNodesArgs) -> bool {
        &&& args.antnode_path == self.antnode_path
        &&& args.connection_mode == self.connection_mode
        &&& args.count == low16(self.nodes_to_start as int)
        &&& args.data_dir_path == Some(self.data_dir_path)
        &&& args.network_id == self.network_id
        &&& args.owner == self.rewards_address
        &&& same_peers(args.peers_args, self.peers_args)
        &&& args.port_range == Some(
            PortRange {
                from: low16(
                    match self.port_from {
                        Some(p) => p as int,
                        None => PORT_MIN as int,
                    },
                ),
                to: low16(
                    match self.port_to {
                        Some(p) => p as int,
                        None => PORT_MAX as int,
                    },
                ),
            },
        )
        &&& args.rewards_address == self.rewards_address
        &&& args.run_nat_detection == (self.connection_mode is Automatic
            && !self.is_nat_status_determined && self.error_while_running_nat_detection
            < MAX_ERRORS_WHILE_RUNNING_NAT_DETECTION)
    }

    /// The task that upgrades every node of the fleet whose peer id is
    /// known: one after the other, a minute apart, left stopped.
    pub open spec fn upgrade_args(&self, args: UpgradeNodesArgs) -> bool {
        &&& args.connection_timeout_s == 5
        &&& args.do_not_start
        &&& args.custom_bin_path is None
        &&& !args.force
        &&& args.fixed_interval == Some(FIXED_INTERVAL)
        &&& args.peer_ids@ == peer_ids_of(identified_nodes(self.node_services@))
        &&& args.provided_env_variables is None
        &&& args.service_names@ == names_of(identified_nodes(self.node_services@))
        &&& args.url is None
        &&& args.version is None
    }

    /// Whether a channel for messages is registered.
    fn require_sender(&self) -> (r: Result<(), StatusError>)
        ensures
            r == if self.action_sender_registered {
                Ok::<(), StatusError>(())
            } else {
                Err::<(), StatusError>(StatusError::ActionSenderNotRegistered)
            },
    {
        if self.action_sender_registered {
            Ok(())
        } else {
            Err(StatusError::ActionSenderNotRegistered)
        }
    }

    /// Asks for the statistics of the fleet if the last were asked for more
    /// than five seconds ago, or if `force_update` is set. Says whether they
    /// are to be fetched; fails if they are due and no channel is registered.
    pub fn try_update_node_stats(&mut self, force_update: bool, now_ms: u64) -> (r: Result<
        bool,
        StatusError,
    >)
        ensures
            *final(self) == (Status {
                node_stats_last_update: if old(self).stats_due(force_update, now_ms) {
                    now_ms
                } else {
                    old(self).node_stats_last_update
                },
                ..*old(self)
            }),
            r == if !old(self).stats_due(force_update, now_ms) {
                Ok::<bool, StatusError>(false)
            } else if old(self).action_sender_registered {
                Ok::<bool, StatusError>(true)
            } else {
                Err::<bool, StatusError>(StatusError::ActionSenderNotRegistered)
            },
    {
        let elapsed: u64 = if now_ms >= self.node_stats_last_update {
            now_ms - self.node_stats_last_update
        } else {
            0
        };
        if elapsed > NODE_STAT_UPDATE_INTERVAL_MS || force_update {
            self.node_stats_last_update = now_ms;
            match self.require_sender() {
                Ok(_) => Ok(true),
                Err(e) => Err(e),
            }
        } else {
            Ok(false)
        }
    }

    /// Registers the channel for messages and asks for the statistics at
    /// once. The statistics are to be fetched.
    pub fn register_action_handler(&mut self, now_ms: u64) -> (effects: Vec<Effect>)
        ensures
            *final(self) == (Status {
                action_sender_registered: true,
                node_stats_last_update: now_ms,
                ..*old(self)
            }),
            effects@ == seq![Effect::FetchNodeStats],
    {
        self.action_sender_registered = true;
        let _ = self.try_update_node_stats(true, now_ms);
        let mut effects: Vec<Effect> = Vec::new();
        effects.push(Effect::FetchNodeStats);
        effects
    }

    /// Takes a key: while an error is shown the key goes to its message box,
    /// and the screen returns to navigation.
    pub fn handle_key_events(&mut self, key: KeyPress) -> (r: Vec<Action>)
        ensures
            match old(self).error_popup {
                Some(popup) if popup.visible => {
                    &&& r@ == seq![Action::SwitchInputMode(InputMode::Navigation)]
                    &&& *final(self) == (Status {
                        error_popup: Some(ErrorPopup { visible: !(key is Enter), ..popup }),
                        ..*old(self)
                    })
                },
                _ => r@.len() == 0 && *final(self) == *old(self),
            },
    {
        let mut r: Vec<Action> = Vec::new();
        let mut taken: Option<ErrorPopup> = None;
        std::mem::swap(&mut self.error_popup, &mut taken);
        match taken {
            Some(popup) => {
                let mut popup = popup;
                if popup.is_visible() {
                    let _ = popup.handle_input(key);
                    r.push(Action::SwitchInputMode(InputMode::Navigation));
                }
                self.error_popup = Some(popup);
            },
            None => {},
        }
        r
    }

    /// Whether a task can be handed to the worker.
    pub open spec fn gate(&self) -> Gate {
        if self.lock_registry is Some {
            Gate::Locked
        } else if !self.action_sender_registered {
            Gate::NoChannel
        } else {
            Gate::Open
        }
    }

    /// Whether a task can be handed to the worker: not while the registry
    /// is locked, and not without a channel.
    pub fn check_gate(&self) -> (r: Gate)
        ensures
            r == self.gate(),
    {
        if self.lock_registry.is_some() {
            Gate::Locked
        } else if !self.action_sender_registered {
            Gate::NoChannel
        } else {
            Gate::Open
        }
    }

    /// Locks the registry for a reset and hands the reset to the worker.
    fn hand_over_reset(&mut self) -> (out: UpdateOutcome)
        ensures
            *final(self) == (Status {
                lock_registry: Some(LockRegistryState::ResettingNodes),
                ..*old(self)
            }),
            sent(out, |task: NodeManagementTask| is_plain_reset(task)),
            out.effects@ == seq![
                Effect::SendTask(NodeManagementTask::ResetNodes { start_nodes_after_reset: false }),
            ],
    {
        self.lock_registry = Some(LockRegistryState::ResettingNodes);
        let mut effects: Vec<Effect> = Vec::new();
        effects.push(
            Effect::SendTask(NodeManagementTask::ResetNodes { start_nodes_after_reset: false }),
        );
        UpdateOutcome { effects, result: Ok(None) }
    }

    /// Shows an error in a message box and hands the keys to it.
    fn show_error(&mut self, message: &str, raw_error: String) -> (r: Option<Action>)
        ensures
            r == Some(Action::SwitchInputMode(InputMode::Entry)),
            Status::error_shown(*old(self), message@, raw_error, *final(self)),
    {
        let mut popup = ErrorPopup::new(
            String::from_str("Error"),
            String::from_str(message),
            raw_error,
        );
        popup.show();
        self.error_popup = Some(popup);
        Some(Action::SwitchInputMode(InputMode::Entry))
    }

    /// The state with `raw_error` shown under `message`.
    pub open spec fn error_shown(before: Status, message: Seq<char>, raw_error: String, after: Status) -> bool {
        &&& after == (Status { error_popup: after.error_popup, ..before })
        &&& after.error_popup matches Some(popup)
        &&& popup.visible
        &&& popup.title@ == "Error"@
        &&& popup.message@ == message
        &&& popup.error_message == raw_error
    }
}



/// Nothing is left for the outside and no message follows.
pub open spec fn quiet(out: UpdateOutcome) -> bool {
    out.effects@.len() == 0 && out.result == Ok::<Option<Action>, StatusError>(None)
}

/// Nothing is left for the outside and `action` follows.
pub open spec fn replied(out: UpdateOutcome, action: Action) -> bool {
    out.effects@.len() == 0 && out.result == Ok::<Option<Action>, StatusError>(Some(action))
}

/// The task that `fits` is handed to the worker and no message follows.
pub open spec fn sent(out: UpdateOutcome, fits: spec_fn(NodeManagementTask) -> bool) -> bool {
    &&& out.result == Ok::<Option<Action>, StatusError>(None)
    &&& out.effects@.len() == 1
    &&& out.effects@[0] matches Effect::SendTask(task)
    &&& fits(task)
}

/// Nothing is handed over and the message fails for want of a channel.
pub open spec fn refused(out: UpdateOutcome) -> bool {
    &&& out.result == Err::<Option<Action>, StatusError>(StatusError::ActionSenderNotRegistered)
    &&& out.effects@.len() == 0
}

/// What stands in the way of a task.
#[derive(Clone, Copy, Debug, PartialEq, Eq, Structural)]
pub enum Gate {
    /// Nothing: the task can be handed over.
    Open,
    /// A task holds the registry.
    Locked,
    /// No channel for messages was registered.
    NoChannel,
}

/// What a request for a task does. While the registry is locked the request
/// is dropped. Without a channel it fails. Either way nothing changes.
/// Otherwise the registry is locked with `lock` and the task that `fits` is
/// handed to the worker.
pub open spec fn task_requested(
    s0: Status,
    lock: LockRegistryState,
    s1: Status,
    out: UpdateOutcome,
    fits: spec_fn(NodeManagementTask) -> bool,
) -> bool {
    match s0.gate() {
        Gate::Locked => s1 == s0 && quiet(out),
        Gate::NoChannel => s1 == s0 && refused(out),
        Gate::Open => s1 == (Status { lock_registry: Some(lock), ..s0 }) && sent(out, fits),
    }
}

/// What a change of a setting does that calls for a reset of the fleet:
/// `stored` is the state with the new setting. While the registry is locked
/// the setting is stored, nothing is handed over and the lock stays as it
/// is. Without a channel the message fails and nothing changes. Otherwise
/// the setting is stored, the registry locked and a reset handed to the
/// worker.
pub open spec fn setting_stored(s0: Status, stored: Status, s1: Status, out: UpdateOutcome) -> bool {
    match s0.gate() {
        Gate::Locked => s1 == stored && quiet(out),
        Gate::NoChannel => s1 == s0 && refused(out),
        Gate::Open => {
            &&& s1 == (Status {
                lock_registry: Some(LockRegistryState::ResettingNodes),
                ..stored
            })
            &&& sent(out, |task: NodeManagementTask| is_plain_reset(task))
        },
    }
}

/// The reset that the dashboard asks for: the nodes are not started again.
pub open spec fn is_plain_reset(task: NodeManagementTask) -> bool {
    task == (NodeManagementTask::ResetNodes { start_nodes_after_reset: false })
}

/// The state after the registry was taken in.
pub open spec fn registry_applied(before: Status, registry: Registry, after: Status) -> bool {
    &&& after == (Status {
        is_nat_status_determined: registry.nat_status is Some,
        node_services: after.node_services,
        ..before
    })
    &&& after.node_services@ == active_nodes(registry.nodes@)
}

/// The count of failed probes after one more.
pub open spec fn one_more(count: usize) -> usize {
    if count < usize::MAX {
        (count + 1) as usize
    } else {
        count
    }
}

impl Status {
    /// What the tick of the clock does: the statistics are fetched if they
    /// are due, and the table is brought up to date.
    pub open spec fn ticked(s0: Status, now_ms: u64, s1: Status, out: UpdateOutcome) -> bool {
        let due = s0.stats_due(false, now_ms);
        let mid = Status {
            node_stats_last_update: if due {
                now_ms
            } else {
                s0.node_stats_last_update
            },
            ..s0
        };
        if due && !s0.action_sender_registered {
            &&& s1 == mid
            &&& out.effects@.len() == 0
            &&& out.result == Err::<Option<Action>, StatusError>(
                StatusError::ActionSenderNotRegistered,
            )
        } else {
            &&& s1 == (Status { items: s1.items, ..mid })
            &&& Status::items_updated(mid, None, s1.items)
            &&& out.effects@ == if due {
                seq![Effect::FetchNodeStats]
            } else {
                Seq::<Effect>::empty()
            }
            &&& out.result == Ok::<Option<Action>, StatusError>(None)
        }
    }

    fn on_tick(&mut self, now_ms: u64) -> (out: UpdateOutcome)
        ensures
            Status::ticked(*old(self), now_ms, *final(self), out),
    {
        let mut effects: Vec<Effect> = Vec::new();
        match self.try_update_node_stats(false, now_ms) {
            Ok(fetch) => {
                if fetch {
                    effects.push(Effect::FetchNodeStats);
                }
                self.update_node_items(None);
                UpdateOutcome { effects, result: Ok(None) }
            },
            Err(e) => UpdateOutcome { effects, result: Err(e) },
        }
    }

    /// What a change of rewards address does: the address is stored, and if
    /// it differs from the one before and the fleet is not empty, the fleet
    /// is reset as for every setting that calls for a reset.
    pub open spec fn rewards_address_stored(
        s0: Status,
        address: String,
        s1: Status,
        out: UpdateOutcome,
    ) -> bool {
        let stored = Status { rewards_address: address, ..s0 };
        if s0.node_services@.len() > 0 && s0.rewards_address@ != address@ {
            setting_stored(s0, stored, s1, out)
        } else {
            s1 == stored && quiet(out)
        }
    }

    fn on_rewards_address(&mut self, address: String) -> (out: UpdateOutcome)
        ensures
            Status::rewards_address_stored(*old(self), address, *final(self), out),
    {
        let has_changed = !(self.rewards_address == address);
        let we_have_nodes = self.node_services.len() > 0;
        if we_have_nodes && has_changed {
            match self.check_gate() {
                Gate::Locked => {
                    self.rewards_address = address;
                    UpdateOutcome { effects: Vec::new(), result: Ok(None) }
                },
                Gate::NoChannel => UpdateOutcome {
                    effects: Vec::new(),
                    result: Err(StatusError::ActionSenderNotRegistered),
                },
                Gate::Open => {
                    self.rewards_address = address;
                    self.hand_over_reset()
                },
            }
        } else {
            self.rewards_address = address;
            UpdateOutcome { effects: Vec::new(), result: Ok(None) }
        }
    }

    fn on_connection_mode(&mut self, mode: ConnectionMode) -> (out: UpdateOutcome)
        ensures
            setting_stored(
                *old(self),
                (Status { connection_mode: mode, ..*old(self) }),
                *final(self),
                out,
            ),
    {
        match self.check_gate() {
            Gate::Locked => {
                self.connection_mode = mode;
                UpdateOutcome { effects: Vec::new(), result: Ok(None) }
            },
            Gate::NoChannel => UpdateOutcome {
                effects: Vec::new(),
                result: Err(StatusError::ActionSenderNotRegistered),
            },
            Gate::Open => {
                self.connection_mode = mode;
                self.hand_over_reset()
            },
        }
    }

    fn on_port_range(&mut self, from: u32, to: u32) -> (out: UpdateOutcome)
        ensures
            setting_stored(
                *old(self),
                (Status { port_from: Some(from), port_to: Some(to), ..*old(self) }),
                *final(self),
                out,
            ),
    {
        match self.check_gate() {
            Gate::Locked => {
                self.port_from = Some(from);
                self.port_to = Some(to);
                UpdateOutcome { effects: Vec::new(), result: Ok(None) }
            },
            Gate::NoChannel => UpdateOutcome {
                effects: Vec::new(),
                result: Err(StatusError::ActionSenderNotRegistered),
            },
            Gate::Open => {
                self.port_from = Some(from);
                self.port_to = Some(to);
                self.hand_over_reset()
            },
        }
    }

    /// What a change of storage drive does. While the registry is locked
    /// the data directory on the new drive is stored and nothing is handed
    /// over. Without a channel the message fails and nothing changes.
    /// Otherwise the registry is locked and a reset handed to the worker,
    /// and then the data directory is stored. Wherever the directory would
    /// be stored and could not be made out, the message fails instead.
    pub open spec fn storage_drive_stored(
        s0: Status,
        data_dir: Result<String, String>,
        s1: Status,
        out: UpdateOutcome,
    ) -> bool {
        match s0.gate() {
            Gate::NoChannel => s1 == s0 && refused(out),
            Gate::Locked => {
                &&& out.effects@.len() == 0
                &&& match data_dir {
                    Ok(dir) => s1 == (Status { data_dir_path: dir, ..s0 }) && out.result == Ok::<
                        Option<Action>,
                        StatusError,
                    >(None),
                    Err(e) => s1 == s0 && out.result == Err::<Option<Action>, StatusError>(
                        StatusError::DataDir(e),
                    ),
                }
            },
            Gate::Open => {
                let locked = Status {
                    lock_registry: Some(LockRegistryState::ResettingNodes),
                    ..s0
                };
                &&& out.effects@ == seq![
                    Effect::SendTask(
                        NodeManagementTask::ResetNodes { start_nodes_after_reset: false },
                    ),
                ]
                &&& match data_dir {
                    Ok(dir) => s1 == (Status { data_dir_path: dir, ..locked }) && out.result
                        == Ok::<Option<Action>, StatusError>(None),
                    Err(e) => s1 == locked && out.result == Err::<Option<Action>, StatusError>(
                        StatusError::DataDir(e),
                    ),
                }
            },
        }
    }

    fn on_storage_drive(&mut self, data_dir: Result<String, String>) -> (out: UpdateOutcome)
        ensures
            Status::storage_drive_stored(*old(self), data_dir, *final(self), out),
    {
        let out = match self.check_gate() {
            Gate::NoChannel => {
                return UpdateOutcome {
                    effects: Vec::new(),
                    result: Err(StatusError::ActionSenderNotRegistered),
                };
            },
            Gate::Locked => UpdateOutcome { effects: Vec::new(), result: Ok(None) },
            Gate::Open => self.hand_over_reset(),
        };
        match data_dir {
            Ok(dir) => {
                self.data_dir_path = dir;
                out
            },
            Err(e) => UpdateOutcome { effects: out.effects, result: Err(StatusError::DataDir(e)) },
        }
    }

    /// What the end of a start or of a stop does: the registry is unlocked
    /// and the fleet read anew.
    pub open spec fn task_completed(
        s0: Status,
        registry: Result<Registry, String>,
        s1: Status,
        out: UpdateOutcome,
    ) -> bool {
        let unlocked = Status { lock_registry: None, ..s0 };
        &&& out.effects@.len() == 0
        &&& match registry {
            Ok(r) => registry_applied(unlocked, r, s1) && out.result == Ok::<
                Option<Action>,
                StatusError,
            >(None),
            Err(e) => s1 == unlocked && out.result == Err::<Option<Action>, StatusError>(
                StatusError::Registry(e),
            ),
        }
    }

    fn on_task_completed(&mut self, registry: Result<Registry, String>) -> (out: UpdateOutcome)
        ensures
            Status::task_completed(*old(self), registry, *final(self), out),
    {
        self.lock_registry = None;
        match registry {
            Ok(r) => {
                self.apply_registry(r);
                UpdateOutcome { effects: Vec::new(), result: Ok(None) }
            },
            Err(e) => UpdateOutcome { effects: Vec::new(), result: Err(StatusError::Registry(e)) },
        }
    }

    /// What the end of an upgrade does: the registry is unlocked, the table
    /// emptied, the fleet read anew and the table filled again.
    pub open spec fn update_completed(
        s0: Status,
        registry: Result<Registry, String>,
        s1: Status,
        out: UpdateOutcome,
    ) -> bool {
        &&& out.effects@.len() == 0
        &&& match registry {
            Ok(r) => {
                &&& s1 == (Status {
                    lock_registry: None,
                    is_nat_status_determined: r.nat_status is Some,
                    node_services: s1.node_services,
                    items: s1.items,
                    ..s0
                })
                &&& s1.node_services@ == active_nodes(r.nodes@)
                &&& table_updated(
                    cleared(table_view(s0.items)),
                    s1.node_services@,
                    None,
                    false,
                    s0.node_stats.individual_stats@,
                    s1.items,
                )
                &&& out.result == Ok::<Option<Action>, StatusError>(None)
            },
            Err(e) => {
                &&& s1 == (Status { lock_registry: None, items: s1.items, ..s0 })
                &&& table_view(s1.items) == cleared(table_view(s0.items))
                &&& out.result == Err::<Option<Action>, StatusError>(StatusError::Registry(e))
            },
        }
    }

    fn on_update_completed(&mut self, registry: Result<Registry, String>) -> (out: UpdateOutcome)
        ensures
            Status::update_completed(*old(self), registry, *final(self), out),
    {
        self.lock_registry = None;
        self.clear_node_items();
        match registry {
            Ok(r) => {
                self.apply_registry(r);
                self.update_node_items(None);
                UpdateOutcome { effects: Vec::new(), result: Ok(None) }
            },
            Err(e) => UpdateOutcome { effects: Vec::new(), result: Err(StatusError::Registry(e)) },
        }
    }

    /// What the end of a reset does: the registry is unlocked, the fleet
    /// read anew and the table emptied; the nodes are started where the
    /// reset asks for it.
    pub open spec fn reset_completed(
        s0: Status,
        trigger_start_node: bool,
        registry: Result<Registry, String>,
        s1: Status,
        out: UpdateOutcome,
    ) -> bool {
        &&& out.effects@.len() == 0
        &&& match registry {
            Ok(r) => {
                &&& s1 == (Status {
                    lock_registry: None,
                    is_nat_status_determined: r.nat_status is Some,
                    node_services: s1.node_services,
                    items: s1.items,
                    ..s0
                })
                &&& s1.node_services@ == active_nodes(r.nodes@)
                &&& table_view(s1.items) == cleared(table_view(s0.items))
                &&& out.result == Ok::<Option<Action>, StatusError>(
                    if trigger_start_node {
                        Some(Action::StatusActions(StatusActions::StartNodes))
                    } else {
                        None
                    },
                )
            },
            Err(e) => {
                &&& s1 == (Status { lock_registry: None, ..s0 })
                &&& out.result == Err::<Option<Action>, StatusError>(StatusError::Registry(e))
            },
        }
    }

    fn on_reset_completed(&mut self, trigger_start_node: bool, registry: Result<Registry, String>) -> (out:
        UpdateOutcome)
        ensures
            Status::reset_completed(*old(self), trigger_start_node, registry, *final(self), out),
    {
        self.lock_registry = None;
        match registry {
            Ok(r) => {
                self.apply_registry(r);
                self.clear_node_items();
                let reply = if trigger_start_node {
                    Some(Action::StatusActions(StatusActions::StartNodes))
                } else {
                    None
                };
                UpdateOutcome { effects: Vec::new(), result: Ok(reply) }
            },
            Err(e) => UpdateOutcome { effects: Vec::new(), result: Err(StatusError::Registry(e)) },
        }
    }

    /// What the request to start nodes does: it asks for the rewards address
    /// or for the count of nodes if one of them is missing; otherwise it asks
    /// for the task that maintains the count, under the lock for a start.
    pub open spec fn start_requested(s0: Status, s1: Status, out: UpdateOutcome) -> bool {
        if s0.rewards_address@.len() == 0 {
            s1 == s0 && replied(out, Action::StatusActions(StatusActions::TriggerRewardsAddress))
        } else if s0.nodes_to_start == 0 {
            s1 == s0 && replied(out, Action::StatusActions(StatusActions::TriggerManageNodes))
        } else {
            task_requested(
                s0,
                LockRegistryState::StartingNodes,
                s1,
                out,
                |task: NodeManagementTask|
                    task matches NodeManagementTask::MaintainNodes { args } && s0.maintain_args(args),
            )
        }
    }

    fn on_start_nodes(&mut self) -> (out: UpdateOutcome)
        ensures
            Status::start_requested(*old(self), *final(self), out),
    {
        let mut effects: Vec<Effect> = Vec::new();
        if self.rewards_address.as_str().is_empty() {
            return UpdateOutcome {
                effects,
                result: Ok(Some(Action::StatusActions(StatusActions::TriggerRewardsAddress))),
            };
        }
        if self.nodes_to_start == 0 {
            return UpdateOutcome {
                effects,
                result: Ok(Some(Action::StatusActions(StatusActions::TriggerManageNodes))),
            };
        }
        match self.check_gate() {
            Gate::Locked => {
                return UpdateOutcome { effects, result: Ok(None) };
            },
            Gate::NoChannel => {
                return UpdateOutcome {
                    effects,
                    result: Err(StatusError::ActionSenderNotRegistered),
                };
            },
            Gate::Open => {},
        }
        let from: u32 = match self.port_from {
            Some(p) => p,
            None => PORT_MIN,
        };
        let to: u32 = match self.port_to {
            Some(p) => p,
            None => PORT_MAX,
        };
        let port_range = PortRange { from: (from % 65536) as u16, to: (to % 65536) as u16 };
        let args = MaintainNodesArgs {
            antnode_path: self.antnode_path.clone(),
            connection_mode: self.connection_mode,
            count: (self.nodes_to_start % 65536) as u16,
            data_dir_path: Some(self.data_dir_path.clone()),
            network_id: self.network_id,
            owner: self.rewards_address.clone(),
            peers_args: copy_peers(&self.peers_args),
            port_range: Some(port_range),
            rewards_address: self.rewards_address.clone(),
            run_nat_detection: self.should_we_run_nat_detection(),
        };
        assert(old(self).maintain_args(args));
        self.lock_registry = Some(LockRegistryState::StartingNodes);
        effects.push(Effect::SendTask(NodeManagementTask::MaintainNodes { args }));
        UpdateOutcome { effects, result: Ok(None) }
    }

    /// What the request to stop nodes does: it asks for the task that stops
    /// the running nodes, under the lock for a stop.
    pub open spec fn stop_requested(s0: Status, s1: Status, out: UpdateOutcome) -> bool {
        task_requested(
            s0,
            LockRegistryState::StoppingNodes,
            s1,
            out,
            |task: NodeManagementTask|
                task matches NodeManagementTask::StopNodes { services } && services@ == names_of(
                    running_nodes(s0.node_services@),
                ),
        )
    }

    fn on_stop_nodes(&mut self) -> (out: UpdateOutcome)
        ensures
            Status::stop_requested(*old(self), *final(self), out),
    {
        let mut effects: Vec<Effect> = Vec::new();
        match self.check_gate() {
            Gate::Locked => {
                return UpdateOutcome { effects, result: Ok(None) };
            },
            Gate::NoChannel => {
                return UpdateOutcome {
                    effects,
                    result: Err(StatusError::ActionSenderNotRegistered),
                };
            },
            Gate::Open => {},
        }
        let services = self.get_running_nodes();
        self.lock_registry = Some(LockRegistryState::StoppingNodes);
        effects.push(Effect::SendTask(NodeManagementTask::StopNodes { services }));
        UpdateOutcome { effects, result: Ok(None) }
    }

    /// What the request for the logs of a node does: the logs of the
    /// selected node are to be opened, if a node is selected.
    pub open spec fn logs_requested(s0: Status, out: UpdateOutcome) -> bool {
        &&& out.result == Ok::<Option<Action>, StatusError>(None)
        &&& match s0.items {
            Some(table) => match table.selected {
                Some(i) if i < table.items@.len() => out.effects@ == seq![
                    Effect::OpenLogs(table.items@[i as int].name),
                ],
                _ => out.effects@.len() == 0,
            },
            None => out.effects@.len() == 0,
        }
    }

    fn on_node_logs(&self) -> (out: UpdateOutcome)
        ensures
            Status::logs_requested(*self, out),
    {
        let mut effects: Vec<Effect> = Vec::new();
        match &self.items {
            Some(table) => {
                match table.selected_item() {
                    Some(item) => {
                        effects.push(Effect::OpenLogs(item.name.clone()));
                    },
                    None => {},
                }
            },
            None => {},
        }
        UpdateOutcome { effects, result: Ok(None) }
    }

    /// What the request to upgrade does. If the registry could not be read
    /// the message fails. While the registry is locked the fleet is read anew
    /// and the request dropped. Without a channel the message fails and
    /// nothing changes. Otherwise the fleet is read anew, the registry is
    /// locked for the upgrade, every node shows as updating, and the nodes
    /// whose peer id is known are handed to the worker to be upgraded.
    pub open spec fn upgrade_requested(
        s0: Status,
        registry: Result<Registry, String>,
        s1: Status,
        out: UpdateOutcome,
    ) -> bool {
        match registry {
            Err(e) => {
                &&& s1 == s0
                &&& out.effects@.len() == 0
                &&& out.result == Err::<Option<Action>, StatusError>(StatusError::Registry(e))
            },
            Ok(r) => match s0.gate() {
                Gate::Locked => registry_applied(s0, r, s1) && quiet(out),
                Gate::NoChannel => s1 == s0 && refused(out),
                Gate::Open => {
                    &&& s1 == (Status {
                        lock_registry: Some(LockRegistryState::UpdatingNodes),
                        is_nat_status_determined: r.nat_status is Some,
                        node_services: s1.node_services,
                        items: s1.items,
                        ..s0
                    })
                    &&& s1.node_services@ == active_nodes(r.nodes@)
                    &&& table_updated(
                        table_view(s0.items),
                        s1.node_services@,
                        Some(NodeStatus::Updating),
                        false,
                        s0.node_stats.individual_stats@,
                        s1.items,
                    )
                    &&& sent(
                        out,
                        |task: NodeManagementTask|
                            task matches NodeManagementTask::UpgradeNodes { args } && s1.upgrade_args(
                                args,
                            ),
                    )
                },
            },
        }
    }

    fn on_upgrade_nodes(&mut self, registry: Result<Registry, String>) -> (out: UpdateOutcome)
        ensures
            Status::upgrade_requested(*old(self), registry, *final(self), out),
    {
        let mut effects: Vec<Effect> = Vec::new();
        match registry {
            Err(e) => UpdateOutcome { effects, result: Err(StatusError::Registry(e)) },
            Ok(r) => {
                match self.check_gate() {
                    Gate::Locked => {
                        self.apply_registry(r);
                        UpdateOutcome { effects, result: Ok(None) }
                    },
                    Gate::NoChannel => UpdateOutcome {
                        effects,
                        result: Err(StatusError::ActionSenderNotRegistered),
                    },
                    Gate::Open => {
                        self.apply_registry(r);
                        self.lock_registry = Some(LockRegistryState::UpdatingNodes);
                        self.update_node_items(Some(NodeStatus::Updating));
                        let (service_names, peer_ids) = self.get_service_names_and_peer_ids();
                        let args = UpgradeNodesArgs {
                            connection_timeout_s: 5,
                            do_not_start: true,
                            custom_bin_path: None,
                            force: false,
                            fixed_interval: Some(FIXED_INTERVAL),
                            peer_ids,
                            provided_env_variables: None,
                            service_names,
                            url: None,
                            version: None,
                        };
                        effects.push(Effect::SendTask(NodeManagementTask::UpgradeNodes { args }));
                        UpdateOutcome { effects, result: Ok(None) }
                    },
                }
            },
        }
    }

    /// What the request to reset does: it asks for a reset, under the lock
    /// for a reset.
    pub open spec fn reset_requested(s0: Status, s1: Status, out: UpdateOutcome) -> bool {
        task_requested(
            s0,
            LockRegistryState::ResettingNodes,
            s1,
            out,
            |task: NodeManagementTask| is_plain_reset(task),
        )
    }

    fn on_reset_nodes(&mut self) -> (out: UpdateOutcome)
        ensures
            Status::reset_requested(*old(self), *final(self), out),
    {
        match self.check_gate() {
            Gate::Locked => UpdateOutcome { effects: Vec::new(), result: Ok(None) },
            Gate::NoChannel => UpdateOutcome {
                effects: Vec::new(),
                result: Err(StatusError::ActionSenderNotRegistered),
            },
            Gate::Open => self.hand_over_reset(),
        }
    }

    /// What moving the selection does.
    pub open spec fn selection_moved(s0: Status, forward: bool, s1: Status) -> bool {
        match s0.items {
            Some(table) => {
                &&& s1 == (Status { items: s1.items, ..s0 })
                &&& s1.items matches Some(after)
                &&& after.items == table.items
                &&& after.last_selected == after.selected
                &&& after.selected == Some(
                    if forward {
                        crate::table::position_after(
                            table.selected,
                            table.last_selected,
                            table.items@.len(),
                        )
                    } else {
                        crate::table::position_before(
                            table.selected,
                            table.last_selected,
                            table.items@.len(),
                        )
                    },
                )
            },
            None => s1 == s0,
        }
    }

    fn move_selection(&mut self, forward: bool)
        ensures
            Status::selection_moved(*old(self), forward, *final(self)),
    {
        let mut taken: Option<StatefulTable<NodeItem>> = None;
        std::mem::swap(&mut self.items, &mut taken);
        match taken {
            Some(table) => {
                let mut table = table;
                if forward {
                    table.next();
                } else {
                    table.previous();
                }
                self.items = Some(table);
            },
            None => {},
        }
    }
}


/// What the switch to a screen does: the status screen is active while it
/// or one of its dialogs is shown, and it returns to navigation when it or
/// its rewards dialog comes up.
pub open spec fn scene_switched(s0: Status, scene: Scene, s1: Status, out: UpdateOutcome) -> bool {
    match scene {
        Scene::Status | Scene::StatusRewardsAddressPopUp => {
            &&& s1 == (Status { active: true, ..s0 })
            &&& replied(out, Action::SwitchInputMode(InputMode::Navigation))
        },
        Scene::ManageNodesPopUp => s1 == (Status { active: true, ..s0 }) && quiet(out),
        _ => s1 == (Status { active: false, ..s0 }) && quiet(out),
    }
}

/// The headline under which an error of the worker is shown.
pub open spec fn error_headline(action: StatusActions) -> Seq<char> {
    match action {
        StatusActions::ErrorLoadingNodeRegistry { .. } => "Error getting node registry path"@,
        StatusActions::ErrorGettingNodeRegistryPath { .. } => "Error getting node registry path"@,
        StatusActions::ErrorScalingUpNodes { .. } => "Error adding new nodes"@,
        StatusActions::ErrorStoppingNodes { .. } => "Error stopping nodes"@,
        StatusActions::ErrorUpdatingNodes { .. } => "Error upgrading nodes"@,
        _ => "Error resetting nodes"@,
    }
}

/// What a message of the status screen does.
pub open spec fn status_action_handled(
    s0: Status,
    action: StatusActions,
    inputs: UpdateInputs,
    s1: Status,
    out: UpdateOutcome,
) -> bool {
    match action {
        StatusActions::NodesStatsObtained(stats) => s1 == (Status { node_stats: stats, ..s0 })
            && quiet(out),
        StatusActions::StartNodesCompleted | StatusActions::StopNodesCompleted => {
            Status::task_completed(s0, inputs.registry->Some_0, s1, out)
        },
        StatusActions::UpdateNodesCompleted => Status::update_completed(
            s0,
            inputs.registry->Some_0,
            s1,
            out,
        ),
        StatusActions::ResetNodesCompleted { trigger_start_node } => Status::reset_completed(
            s0,
            trigger_start_node,
            inputs.registry->Some_0,
            s1,
            out,
        ),
        StatusActions::SuccessfullyDetectedNatStatus => s1 == (Status {
            is_nat_status_determined: true,
            ..s0
        }) && quiet(out),
        StatusActions::ErrorWhileRunningNatDetection => s1 == (Status {
            error_while_running_nat_detection: one_more(s0.error_while_running_nat_detection),
            ..s0
        }) && quiet(out),
        StatusActions::ErrorLoadingNodeRegistry { raw_error }
        | StatusActions::ErrorGettingNodeRegistryPath { raw_error } => {
            &&& Status::error_shown(s0, error_headline(action), raw_error, s1)
            &&& replied(out, Action::SwitchInputMode(InputMode::Entry))
        },
        StatusActions::ErrorScalingUpNodes { raw_error }
        | StatusActions::ErrorStoppingNodes { raw_error }
        | StatusActions::ErrorUpdatingNodes { raw_error }
        | StatusActions::ErrorResettingNodes { raw_error } => {
            &&& Status::error_shown(
                Status { lock_registry: None, ..s0 },
                error_headline(action),
                raw_error,
                s1,
            )
            &&& replied(out, Action::SwitchInputMode(InputMode::Entry))
        },
        StatusActions::TriggerManageNodes => s1 == s0 && replied(
            out,
            Action::SwitchScene(Scene::ManageNodesPopUp),
        ),
        StatusActions::PreviousTableItem => Status::selection_moved(s0, false, s1) && quiet(out),
        StatusActions::NextTableItem => Status::selection_moved(s0, true, s1) && quiet(out),
        StatusActions::StartNodes => Status::start_requested(s0, s1, out),
        StatusActions::StopNodes => Status::stop_requested(s0, s1, out),
        StatusActions::TriggerRewardsAddress => s1 == s0 && if s0.rewards_address@.len() == 0 {
            replied(out, Action::SwitchScene(Scene::StatusRewardsAddressPopUp))
        } else {
            quiet(out)
        },
        StatusActions::TriggerNodeLogs => s1 == s0 && Status::logs_requested(s0, out),
    }
}

/// What a message does to the state behind the status screen, what it
/// leaves for the outside, and which message follows.
pub open spec fn updated(
    s0: Status,
    action: Action,
    inputs: UpdateInputs,
    s1: Status,
    out: UpdateOutcome,
) -> bool {
    match action {
        Action::Tick => Status::ticked(s0, inputs.now_ms, s1, out),
        Action::SwitchScene(scene) => scene_switched(s0, scene, s1, out),
        Action::StoreNodesToStart(count) => {
            &&& s1 == (Status { nodes_to_start: count, ..s0 })
            &&& replied(
                out,
                Action::StatusActions(
                    if count == 0 {
                        StatusActions::StopNodes
                    } else {
                        StatusActions::StartNodes
                    },
                ),
            )
        },
        Action::StoreRewardsAddress(address) => Status::rewards_address_stored(
            s0,
            address,
            s1,
            out,
        ),
        Action::StoreStorageDrive(_, _) => Status::storage_drive_stored(
            s0,
            inputs.data_dir->Some_0,
            s1,
            out,
        ),
        Action::StoreConnectionMode(mode) => setting_stored(
            s0,
            Status { connection_mode: mode, ..s0 },
            s1,
            out,
        ),
        Action::StorePortRange(from, to) => setting_stored(
            s0,
            Status { port_from: Some(from), port_to: Some(to), ..s0 },
            s1,
            out,
        ),
        Action::SetUpnpSupport(support) => s1 == (Status { upnp_support: support, ..s0 }) && quiet(
            out,
        ),
        Action::StatusActions(status_action) => status_action_handled(
            s0,
            status_action,
            inputs,
            s1,
            out,
        ),
        Action::OptionsActions(OptionsActions::UpdateNodes) => Status::upgrade_requested(
            s0,
            inputs.registry->Some_0,
            s1,
            out,
        ),
        Action::OptionsActions(OptionsActions::ResetNodes) => Status::reset_requested(s0, s1, out),
        _ => s1 == s0 && quiet(out),
    }
}

impl Status {
    fn on_status_action(&mut self, action: StatusActions, inputs: UpdateInputs) -> (out:
        UpdateOutcome)
        requires
            needs_registry(Action::StatusActions(action)) ==> inputs.registry is Some,
        ensures
            status_action_handled(*old(self), action, inputs, *final(self), out),
    {
        match action {
            StatusActions::NodesStatsObtained(stats) => {
                self.node_stats = stats;
                UpdateOutcome { effects: Vec::new(), result: Ok(None) }
            },
            StatusActions::StartNodesCompleted | StatusActions::StopNodesCompleted => {
                self.on_task_completed(inputs.registry.unwrap())
            },
            StatusActions::UpdateNodesCompleted => self.on_update_completed(
                inputs.registry.unwrap(),
            ),
            StatusActions::ResetNodesCompleted { trigger_start_node } => self.on_reset_completed(
                trigger_start_node,
                inputs.registry.unwrap(),
            ),
            StatusActions::SuccessfullyDetectedNatStatus => {
                self.is_nat_status_determined = true;
                UpdateOutcome { effects: Vec::new(), result: Ok(None) }
            },
            StatusActions::ErrorWhileRunningNatDetection => {
                if self.error_while_running_nat_detection < usize::MAX {
                    self.error_while_running_nat_detection = self.error_while_running_nat_detection
                        + 1;
                }
                UpdateOutcome { effects: Vec::new(), result: Ok(None) }
            },
            StatusActions::ErrorLoadingNodeRegistry { raw_error } => {
                let reply = self.show_error("Error getting node registry path", raw_error);
                UpdateOutcome { effects: Vec::new(), result: Ok(reply) }
            },
            StatusActions::ErrorGettingNodeRegistryPath { raw_error } => {
                let reply = self.show_error("Error getting node registry path", raw_error);
                UpdateOutcome { effects: Vec::new(), result: Ok(reply) }
            },
            StatusActions::ErrorScalingUpNodes { raw_error } => {
                self.lock_registry = None;
                let reply = self.show_error("Error adding new nodes", raw_error);
                UpdateOutcome { effects: Vec::new(), result: Ok(reply) }
            },
            StatusActions::ErrorStoppingNodes { raw_error } => {
                self.lock_registry = None;
                let reply = self.show_error("Error stopping nodes", raw_error);
                UpdateOutcome { effects: Vec::new(), result: Ok(reply) }
            },
            StatusActions::ErrorUpdatingNodes { raw_error } => {
                self.lock_registry = None;
                let reply = self.show_error("Error upgrading nodes", raw_error);
                UpdateOutcome { effects: Vec::new(), result: Ok(reply) }
            },
            StatusActions::ErrorResettingNodes { raw_error } => {
                self.lock_registry = None;
                let reply = self.show_error("Error resetting nodes", raw_error);
                UpdateOutcome { effects: Vec::new(), result: Ok(reply) }
            },
            StatusActions::TriggerManageNodes => UpdateOutcome {
                effects: Vec::new(),
                result: Ok(Some(Action::SwitchScene(Scene::ManageNodesPopUp))),
            },
            StatusActions::PreviousTableItem => {
                self.move_selection(false);
                UpdateOutcome { effects: Vec::new(), result: Ok(None) }
            },
            StatusActions::NextTableItem => {
                self.move_selection(true);
                UpdateOutcome { effects: Vec::new(), result: Ok(None) }
            },
            StatusActions::StartNodes => self.on_start_nodes(),
            StatusActions::StopNodes => self.on_stop_nodes(),
            StatusActions::TriggerRewardsAddress => {
                if self.rewards_address.as_str().is_empty() {
                    UpdateOutcome {
                        effects: Vec::new(),
                        result: Ok(Some(Action::SwitchScene(Scene::StatusRewardsAddressPopUp))),
                    }
                } else {
                    UpdateOutcome { effects: Vec::new(), result: Ok(None) }
                }
            },
            StatusActions::TriggerNodeLogs => self.on_node_logs(),
        }
    }

    /// Handles a message. `inputs` holds what was read outside for it: the
    /// time, the registry for a message that consults it, and the data
    /// directory for a message that names a drive. The outcome lists what is
    /// left for the outside, in order, and the message that follows.
    ///
    /// A task that changes the registry is handed to the worker only while
    /// no other task holds the registry and a channel is registered; the
    /// registry is locked for it, and the lock is released when the worker
    /// reports the end of the task, whether it succeeded or failed.
    pub fn update(&mut self, action: Action, inputs: UpdateInputs) -> (out: UpdateOutcome)
        requires
            needs_registry(action) ==> inputs.registry is Some,
            needs_data_dir(action) ==> inputs.data_dir is Some,
        ensures
            updated(*old(self), action, inputs, *final(self), out),
    {
        match action {
            Action::Tick => self.on_tick(inputs.now_ms),
            Action::SwitchScene(scene) => {
                match scene {
                    Scene::Status | Scene::StatusRewardsAddressPopUp => {
                        self.active = true;
                        UpdateOutcome {
                            effects: Vec::new(),
                            result: Ok(Some(Action::SwitchInputMode(InputMode::Navigation))),
                        }
                    },
                    Scene::ManageNodesPopUp => {
                        self.active = true;
                        UpdateOutcome { effects: Vec::new(), result: Ok(None) }
                    },
                    _ => {
                        self.active = false;
                        UpdateOutcome { effects: Vec::new(), result: Ok(None) }
                    },
                }
            },
            Action::StoreNodesToStart(count) => {
                self.nodes_to_start = count;
                let next = if count == 0 {
                    StatusActions::StopNodes
                } else {
                    StatusActions::StartNodes
                };
                UpdateOutcome { effects: Vec::new(), result: Ok(Some(Action::StatusActions(next))) }
            },
            Action::StoreRewardsAddress(address) => self.on_rewards_address(address),
            Action::StoreStorageDrive(_, _) => self.on_storage_drive(inputs.data_dir.unwrap()),
            Action::StoreConnectionMode(mode) => self.on_connection_mode(mode),
            Action::StorePortRange(from, to) => self.on_port_range(from, to),
            Action::SetUpnpSupport(support) => {
                self.upnp_support = support;
                UpdateOutcome { effects: Vec::new(), result: Ok(None) }
            },
            Action::StatusActions(status_action) => self.on_status_action(status_action, inputs),
            Action::OptionsActions(OptionsActions::UpdateNodes) => self.on_upgrade_nodes(
                inputs.registry.unwrap(),
            ),
            Action::OptionsActions(OptionsActions::ResetNodes) => self.on_reset_nodes(),
            _ => UpdateOutcome { effects: Vec::new(), result: Ok(None) },
        }
    }
}

/// Whether a message asks for a task: a request to start, stop, upgrade or
/// reset, or a change of a setting that calls for a reset.
pub open spec fn asks_for_task(action: Action) -> bool {
    ||| action == Action::StatusActions(StatusActions::StartNodes)
    ||| action == Action::StatusActions(StatusActions::StopNodes)
    ||| action == Action::OptionsActions(OptionsActions::ResetNodes)
    ||| action == Action::OptionsActions(OptionsActions::UpdateNodes)
    ||| action is StoreRewardsAddress
    ||| action is StoreStorageDrive
    ||| action is StoreConnectionMode
    ||| action is StorePortRange
}

/// The report of the worker that a task has ended, well or not.
pub open spec fn reports_end(action: StatusActions) -> bool {
    ||| action is StartNodesCompleted
    ||| action is StopNodesCompleted
    ||| action is UpdateNodesCompleted
    ||| action is ResetNodesCompleted
    ||| action is ErrorScalingUpNodes
    ||| action is ErrorStoppingNodes
    ||| action is ErrorUpdatingNodes
    ||| action is ErrorResettingNodes
}

/// The lock keeps tasks apart: a message that asks for a task while the
/// registry is locked hands nothing to the worker and leaves the lock as it
/// is.
pub proof fn lemma_locked_requests_are_dropped(
    s0: Status,
    action: Action,
    inputs: UpdateInputs,
    s1: Status,
    out: UpdateOutcome,
)
    requires
        s0.lock_registry is Some,
        updated(s0, action, inputs, s1, out),
        asks_for_task(action),
    ensures
        out.effects@.len() == 0,
        s1.lock_registry == s0.lock_registry,
{
}

/// A message that asks for a task and fails because no channel is
/// registered changes nothing: the registry is not locked for a task that
/// nobody will run.
pub proof fn lemma_refused_requests_change_nothing(
    s0: Status,
    action: Action,
    inputs: UpdateInputs,
    s1: Status,
    out: UpdateOutcome,
)
    requires
        updated(s0, action, inputs, s1, out),
        asks_for_task(action),
        out.result == Err::<Option<Action>, StatusError>(StatusError::ActionSenderNotRegistered),
    ensures
        s1 == s0,
        out.effects@.len() == 0,
{
}

/// A task is handed over only under the lock: whenever a message leaves a
/// task for the worker, the registry was free before and is locked
/// afterwards.
pub proof fn lemma_tasks_run_under_lock(
    s0: Status,
    action: Action,
    inputs: UpdateInputs,
    s1: Status,
    out: UpdateOutcome,
    i: int,
)
    requires
        updated(s0, action, inputs, s1, out),
        0 <= i < out.effects@.len(),
        out.effects@[i] is SendTask,
    ensures
        s0.lock_registry is None,
        s1.lock_registry is Some,
{
}

/// The worker's report that a task has ended releases the lock, whether the
/// task succeeded or failed, so that the next request is taken.
pub proof fn lemma_completion_unlocks(
    s0: Status,
    action: StatusActions,
    inputs: UpdateInputs,
    s1: Status,
    out: UpdateOutcome,
)
    requires
        needs_registry(Action::StatusActions(action)) ==> inputs.registry is Some,
        updated(s0, Action::StatusActions(action), inputs, s1, out),
        reports_end(action),
    ensures
        s1.lock_registry is None,
{
}

} // verus!
