//! The messages that drive the dashboard and the tasks that it hands to the
//! worker.
use vstd::prelude::*;
use crate::maintain::PortRange;

verus! {

/// Lowest port of the default range for node ports.
pub const PORT_MIN: u32 = 49152;

/// Highest port of the default range for node ports.
pub const PORT_MAX: u32 = 65535;

/// Milliseconds between two services of an upgrade.
pub const FIXED_INTERVAL: u64 = 60_000;

/// Milliseconds after which the node statistics are fetched again.
pub const NODE_STAT_UPDATE_INTERVAL_MS: u64 = 5_000;

/// How nodes are made reachable.
#[derive(Clone, Copy, Debug, PartialEq, Eq, Structural)]
pub enum ConnectionMode {
    Automatic,
    HomeNetwork,
    UPnP,
    CustomPorts,
}

/// Whether the router supports UPnP.
#[derive(Clone, Copy, Debug, PartialEq, Eq, Structural)]
pub enum UpnpSupport {
    Supported,
    Unsupported,
    Loading,
    Unknown,
}

/// The screens of the dashboard.
#[derive(Clone, Copy, Debug, PartialEq, Eq, Structural)]
pub enum Scene {
    Status,
    Options,
    Help,
    ChangeDrivePopUp,
    ChangeConnectionModePopUp,
    ChangePortsPopUp,
    StatusRewardsAddressPopUp,
    OptionsRewardsAddressPopUp,
    ManageNodesPopUp,
    ResetNodesPopUp,
    UpgradeNodesPopUp,
}

/// Whether keys navigate or are typed into a field.
#[derive(Clone, Copy, Debug, PartialEq, Eq, Structural)]
pub enum InputMode {
    Navigation,
    Entry,
}

/// Where new nodes find the network.
#[derive(Clone, Debug, PartialEq, Eq)]
pub struct PeersArgs {
    pub first: bool,
    pub local: bool,
    pub addrs: Vec<String>,
    pub network_contacts_url: Vec<String>,
}

/// What one node reports of itself.
#[derive(Clone, Debug, PartialEq, Eq)]
pub struct IndividualNodeStats {
    pub service_name: String,
    pub rewards_wallet_balance: usize,
    pub memory_usage_mb: usize,
    pub bandwidth_inbound: usize,
    pub bandwidth_outbound: usize,
    pub bandwidth_inbound_rate: usize,
    pub bandwidth_outbound_rate: usize,
    /// Both rates in megabits per second, as shown in the table.
    pub throughput: String,
    pub max_records: usize,
    pub peers: usize,
    pub connections: usize,
}

/// What the fleet reports of itself.
#[derive(Clone, Debug, PartialEq, Eq)]
pub struct NodeStats {
    pub total_rewards_wallet_balance: usize,
    pub total_memory_usage_mb: usize,
    pub individual_stats: Vec<IndividualNodeStats>,
}

/// What the worker needs to bring the fleet to a count of running nodes.
#[derive(Clone, Debug, PartialEq, Eq)]
pub struct MaintainNodesArgs {
    pub antnode_path: Option<String>,
    pub connection_mode: ConnectionMode,
    pub count: u16,
    pub data_dir_path: Option<String>,
    pub network_id: Option<u8>,
    pub owner: String,
    pub peers_args: PeersArgs,
    pub port_range: Option<PortRange>,
    pub rewards_address: String,
    pub run_nat_detection: bool,
}

/// What the worker needs to upgrade services.
#[derive(Clone, Debug, PartialEq, Eq)]
pub struct UpgradeNodesArgs {
    pub connection_timeout_s: u64,
    pub do_not_start: bool,
    pub custom_bin_path: Option<String>,
    pub force: bool,
    pub fixed_interval: Option<u64>,
    pub peer_ids: Vec<String>,
    pub provided_env_variables: Option<Vec<(String, String)>>,
    pub service_names: Vec<String>,
    pub url: Option<String>,
    pub version: Option<String>,
}

/// A task for the worker. Every task changes the registry.
#[derive(Clone, Debug, PartialEq, Eq)]
pub enum NodeManagementTask {
    MaintainNodes { args: MaintainNodesArgs },
    ResetNodes { start_nodes_after_reset: bool },
    StopNodes { services: Vec<String> },
    UpgradeNodes { args: UpgradeNodesArgs },
}

/// What concerns the status screen.
#[derive(Clone, Debug, PartialEq, Eq)]
pub enum StatusActions {
    StartNodes,
    StopNodes,
    StartNodesCompleted,
    StopNodesCompleted,
    ResetNodesCompleted { trigger_start_node: bool },
    UpdateNodesCompleted,
    SuccessfullyDetectedNatStatus,
    ErrorWhileRunningNatDetection,
    ErrorLoadingNodeRegistry { raw_error: String },
    ErrorGettingNodeRegistryPath { raw_error: String },
    ErrorScalingUpNodes { raw_error: String },
    ErrorStoppingNodes { raw_error: String },
    ErrorUpdatingNodes { raw_error: String },
    ErrorResettingNodes { raw_error: String },
    NodesStatsObtained(NodeStats),
    TriggerManageNodes,
    TriggerRewardsAddress,
    TriggerNodeLogs,
    PreviousTableItem,
    NextTableItem,
}

/// What concerns the options screen.
#[derive(Clone, Copy, Debug, PartialEq, Eq, Structural)]
pub enum OptionsActions {
    ResetNodes,
    UpdateNodes,
    TriggerChangeDrive,
    TriggerChangeConnectionMode,
    TriggerChangePortRange,
    TriggerRewardsAddress,
    TriggerUpdateNodes,
    TriggerResetNodes,
    TriggerAccessLogs,
}

/// A message to the components of the dashboard.
#[derive(Clone, Debug, PartialEq, Eq)]
pub enum Action {
    Tick,
    Render,
    Resize(u16, u16),
    Suspend,
    Resume,
    Quit,
    Refresh,
    Noop,
    SwitchScene(Scene),
    SwitchInputMode(InputMode),
    StoreStorageDrive(String, String),
    StoreConnectionMode(ConnectionMode),
    StorePortRange(u32, u32),
    StoreRewardsAddress(String),
    StoreNodesToStart(usize),
    SetUpnpSupport(UpnpSupport),
    StatusActions(StatusActions),
    OptionsActions(OptionsActions),
}

} // verus!
