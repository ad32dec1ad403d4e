use node_fleet::action::{
    Action, ConnectionMode, IndividualNodeStats, InputMode, MaintainNodesArgs, NodeManagementTask,
    NodeStats, OptionsActions, PeersArgs, Scene, StatusActions, UpgradeNodesArgs, UpnpSupport,
};
use node_fleet::maintain::PortRange;
use node_fleet::node_item::{NodeConnectionMode, NodeItem, NodeStatus};
use node_fleet::registry::{
    Ipv4Address, NatStatus, NodeService, Registry, ServiceStatus, SocketAddress,
};
use node_fleet::status::{
    consults_data_dir, consults_registry, Effect, ErrorPopup, Gate, KeyPress, LockRegistryState,
    Status, StatusConfig, StatusError, UpdateInputs, UpdateOutcome,
};
use node_fleet::table::StatefulTable;

fn node(number: u16, status: ServiceStatus) -> NodeService {
    NodeService {
        service_name: format!("antnode{number}"),
        number,
        user: "svc".to_string(),
        version: "0.96.3".to_string(),
        genesis: false,
        local: false,
        rpc_socket_addr: SocketAddress::new(Ipv4Address::localhost(), 8000 + number),
        node_port: None,
        listen_addr: None,
        peer_id: None,
        pid: None,
        status,
        safenode_path: format!("/d/antnode{number}/antnode"),
        data_dir_path: format!("/d/antnode{number}"),
        log_dir_path: format!("/l/antnode{number}"),
        connected_peers: None,
        critical_failure: None,
    }
}

fn registry(statuses: &[ServiceStatus]) -> Registry {
    let mut r = Registry::new("/tmp/reg.json".to_string());
    for (i, status) in statuses.iter().enumerate() {
        r.nodes.push(node(i as u16 + 1, *status));
    }
    r
}

fn peers() -> PeersArgs {
    PeersArgs {
        first: false,
        local: false,
        addrs: vec!["/ip4/1.1.1.1/udp/1".to_string()],
        network_contacts_url: vec![],
    }
}

fn config() -> StatusConfig {
    StatusConfig {
        allocated_disk_space: 3,
        antnode_path: None,
        connection_mode: ConnectionMode::Automatic,
        upnp_support: UpnpSupport::Unknown,
        data_dir_path: "/data".to_string(),
        network_id: Some(2),
        peers_args: peers(),
        port_from: None,
        port_to: None,
        rewards_address: "0xabc".to_string(),
    }
}

/// A screen with a channel registered and the given fleet read.
fn status(statuses: &[ServiceStatus]) -> Status {
    let mut s = Status::new(config(), 1_000);
    let effects = s.register_action_handler(1_000);
    assert_eq!(effects, vec![Effect::FetchNodeStats]);
    s.apply_registry(registry(statuses));
    s
}

fn at(now_ms: u64) -> UpdateInputs {
    UpdateInputs { now_ms, registry: None, data_dir: None }
}

fn with_registry(r: Result<Registry, String>) -> UpdateInputs {
    UpdateInputs { now_ms: 0, registry: Some(r), data_dir: None }
}

fn quiet() -> UpdateOutcome {
    UpdateOutcome { effects: vec![], result: Ok(None) }
}

fn reply(action: Action) -> UpdateOutcome {
    UpdateOutcome { effects: vec![], result: Ok(Some(action)) }
}

fn reset_sent() -> UpdateOutcome {
    UpdateOutcome {
        effects: vec![Effect::SendTask(NodeManagementTask::ResetNodes {
            start_nodes_after_reset: false,
        })],
        result: Ok(None),
    }
}

use ServiceStatus::{Added, Removed, Running, Stopped};

#[test]
fn a_new_screen_is_active_and_unlocked() {
    let s = Status::new(config(), 77);
    assert!(s.active);
    assert!(!s.action_sender_registered);
    assert_eq!(s.node_stats_last_update, 77);
    assert_eq!(s.nodes_to_start, 3);
    assert_eq!(s.lock_registry, None);
    assert_eq!(s.items, None);
    assert!(s.node_services.is_empty());
    assert_eq!(s.rewards_address, "0xabc");
    assert_eq!(s.data_dir_path, "/data");
    assert_eq!(s.network_id, Some(2));
    assert_eq!(s.error_while_running_nat_detection, 0);
}

#[test]
fn the_fleet_leaves_out_removed_nodes() {
    let mut s = Status::new(config(), 0);
    let mut r = registry(&[Running, Removed, Stopped]);
    r.nat_status = Some(NatStatus::Public);
    s.apply_registry(r);
    assert!(s.is_nat_status_determined);
    assert_eq!(s.node_services, vec![node(1, Running), node(3, Stopped)]);
    assert_eq!(s.get_running_nodes(), vec!["antnode1"]);
}

#[test]
fn names_and_peer_ids_go_together() {
    let mut s = status(&[Running, Stopped, Added]);
    s.node_services[0].peer_id = Some("peerA".to_string());
    s.node_services[2].peer_id = Some("peerC".to_string());
    assert_eq!(
        s.get_service_names_and_peer_ids(),
        (
            vec!["antnode1".to_string(), "antnode3".to_string()],
            vec!["peerA".to_string(), "peerC".to_string()]
        )
    );
}

#[test]
fn the_probe_runs_only_in_automatic_mode() {
    let mut s = status(&[]);
    assert!(s.should_we_run_nat_detection());
    s.error_while_running_nat_detection = 3;
    assert!(!s.should_we_run_nat_detection());
    s.error_while_running_nat_detection = 2;
    s.connection_mode = ConnectionMode::UPnP;
    assert!(!s.should_we_run_nat_detection());
    s.connection_mode = ConnectionMode::Automatic;
    s.is_nat_status_determined = true;
    assert!(!s.should_we_run_nat_detection());
}

#[test]
fn start_nodes_locks_and_hands_over_the_task() {
    let mut s = status(&[Running, Stopped]);
    s.port_from = Some(50000);
    s.port_to = Some(50010);
    let out = s.update(Action::StatusActions(StatusActions::StartNodes), at(0));
    assert_eq!(s.lock_registry, Some(LockRegistryState::StartingNodes));
    assert_eq!(
        out,
        UpdateOutcome {
            effects: vec![Effect::SendTask(NodeManagementTask::MaintainNodes {
                args: MaintainNodesArgs {
                    antnode_path: None,
                    connection_mode: ConnectionMode::Automatic,
                    count: 3,
                    data_dir_path: Some("/data".to_string()),
                    network_id: Some(2),
                    owner: "0xabc".to_string(),
                    peers_args: peers(),
                    port_range: Some(PortRange { from: 50000, to: 50010 }),
                    rewards_address: "0xabc".to_string(),
                    run_nat_detection: true,
                }
            })],
            result: Ok(None),
        }
    );
}

#[test]
fn start_nodes_uses_the_default_port_range() {
    let mut s = status(&[]);
    let out = s.update(Action::StatusActions(StatusActions::StartNodes), at(0));
    match &out.effects[0] {
        Effect::SendTask(NodeManagementTask::MaintainNodes { args }) => {
            assert_eq!(args.port_range, Some(PortRange { from: 49152, to: 65535 }));
        }
        other => panic!("unexpected effect {other:?}"),
    }
}

#[test]
fn start_nodes_asks_for_what_is_missing() {
    let mut s = status(&[]);
    s.rewards_address = String::new();
    let before = s.clone();
    assert_eq!(
        s.update(Action::StatusActions(StatusActions::StartNodes), at(0)),
        reply(Action::StatusActions(StatusActions::TriggerRewardsAddress))
    );
    assert_eq!(s, before);
    s.rewards_address = "0xabc".to_string();
    s.nodes_to_start = 0;
    assert_eq!(
        s.update(Action::StatusActions(StatusActions::StartNodes), at(0)),
        reply(Action::StatusActions(StatusActions::TriggerManageNodes))
    );
    assert_eq!(s.lock_registry, None);
}

#[test]
fn requests_are_dropped_while_the_registry_is_locked() {
    for action in [
        Action::StatusActions(StatusActions::StartNodes),
        Action::StatusActions(StatusActions::StopNodes),
        Action::OptionsActions(OptionsActions::ResetNodes),
    ] {
        let mut s = status(&[Running]);
        s.lock_registry = Some(LockRegistryState::UpdatingNodes);
        let before = s.clone();
        assert_eq!(s.update(action, at(0)), quiet());
        assert_eq!(s, before);
    }
    let mut s = status(&[Running]);
    s.lock_registry = Some(LockRegistryState::StartingNodes);
    let out = s.update(
        Action::OptionsActions(OptionsActions::UpdateNodes),
        with_registry(Ok(registry(&[Running, Running]))),
    );
    assert_eq!(out, quiet());
    assert_eq!(s.lock_registry, Some(LockRegistryState::StartingNodes));
    // the fleet was read anew all the same
    assert_eq!(s.node_services.len(), 2);
}

#[test]
fn stop_nodes_hands_over_the_running_nodes() {
    let mut s = status(&[Running, Stopped, Running]);
    let out = s.update(Action::StatusActions(StatusActions::StopNodes), at(0));
    assert_eq!(s.lock_registry, Some(LockRegistryState::StoppingNodes));
    assert_eq!(
        out,
        UpdateOutcome {
            effects: vec![Effect::SendTask(NodeManagementTask::StopNodes {
                services: vec!["antnode1".to_string(), "antnode3".to_string()]
            })],
            result: Ok(None),
        }
    );
}

#[test]
fn without_a_channel_a_task_cannot_be_handed_over() {
    let mut s = Status::new(config(), 0);
    s.apply_registry(registry(&[Running]));
    let out = s.update(Action::StatusActions(StatusActions::StopNodes), at(0));
    assert_eq!(
        out,
        UpdateOutcome { effects: vec![], result: Err(StatusError::ActionSenderNotRegistered) }
    );
    assert_eq!(StatusError::ActionSenderNotRegistered.message(), "Action sender not registered");
    // no task will run, so the registry is not locked
    assert_eq!(s.lock_registry, None);
}

#[test]
fn a_request_that_cannot_be_handed_over_changes_nothing() {
    let unregistered = || {
        let mut s = Status::new(config(), 0);
        s.apply_registry(registry(&[Running, Stopped]));
        s
    };
    let refused =
        UpdateOutcome { effects: vec![], result: Err(StatusError::ActionSenderNotRegistered) };
    for action in [
        Action::StatusActions(StatusActions::StartNodes),
        Action::StatusActions(StatusActions::StopNodes),
        Action::OptionsActions(OptionsActions::ResetNodes),
        Action::StoreConnectionMode(ConnectionMode::UPnP),
        Action::StorePortRange(50000, 50010),
        Action::StoreRewardsAddress("0xdef".to_string()),
    ] {
        let mut s = unregistered();
        let before = s.clone();
        assert_eq!(s.update(action, at(0)), refused);
        assert_eq!(s, before);
    }
    let mut s = unregistered();
    let before = s.clone();
    let out = s.update(
        Action::StoreStorageDrive("/mnt/disk".to_string(), "disk".to_string()),
        UpdateInputs { now_ms: 0, registry: None, data_dir: Some(Ok("/mnt/disk/n".to_string())) },
    );
    assert_eq!(out, refused);
    assert_eq!(s, before);
    let mut s = unregistered();
    let before = s.clone();
    let out = s.update(
        Action::OptionsActions(OptionsActions::UpdateNodes),
        with_registry(Ok(registry(&[Running, Running, Running]))),
    );
    assert_eq!(out, refused);
    assert_eq!(s, before);
}

#[test]
fn a_start_is_taken_after_a_task_failed() {
    let mut s = status(&[Stopped]);
    let out = s.update(Action::StatusActions(StatusActions::StartNodes), at(0));
    assert_eq!(out.effects.len(), 1);
    assert_eq!(s.lock_registry, Some(LockRegistryState::StartingNodes));
    // while the task runs a second start is dropped
    assert_eq!(s.update(Action::StatusActions(StatusActions::StartNodes), at(0)), quiet());
    // the task fails: the error is shown and the lock released
    let out = s.update(
        Action::StatusActions(StatusActions::ErrorScalingUpNodes {
            raw_error: "no ports".to_string(),
        }),
        at(0),
    );
    assert_eq!(out, reply(Action::SwitchInputMode(InputMode::Entry)));
    assert_eq!(s.lock_registry, None);
    assert!(s.error_popup.as_ref().unwrap().is_visible());
    let out = s.update(Action::StatusActions(StatusActions::StartNodes), at(0));
    assert_eq!(out.effects.len(), 1);
    assert!(matches!(
        out.effects[0],
        Effect::SendTask(NodeManagementTask::MaintainNodes { .. })
    ));
    assert_eq!(s.lock_registry, Some(LockRegistryState::StartingNodes));
}

#[test]
fn every_report_of_a_failed_task_releases_the_lock() {
    let reports = [
        StatusActions::ErrorScalingUpNodes { raw_error: "e".to_string() },
        StatusActions::ErrorStoppingNodes { raw_error: "e".to_string() },
        StatusActions::ErrorUpdatingNodes { raw_error: "e".to_string() },
        StatusActions::ErrorResettingNodes { raw_error: "e".to_string() },
    ];
    for report in reports {
        let mut s = status(&[Running]);
        s.lock_registry = Some(LockRegistryState::UpdatingNodes);
        s.update(Action::StatusActions(report), at(0));
        assert_eq!(s.lock_registry, None);
        assert_eq!(s.update(Action::OptionsActions(OptionsActions::ResetNodes), at(0)), reset_sent());
    }
    // a registry that could not be read is no end of a task
    let mut s = status(&[Running]);
    s.lock_registry = Some(LockRegistryState::UpdatingNodes);
    s.update(
        Action::StatusActions(StatusActions::ErrorLoadingNodeRegistry {
            raw_error: "e".to_string(),
        }),
        at(0),
    );
    assert_eq!(s.lock_registry, Some(LockRegistryState::UpdatingNodes));
}

#[test]
fn settings_are_stored_under_the_lock_without_a_reset() {
    let locked = || {
        let mut s = status(&[Running]);
        s.lock_registry = Some(LockRegistryState::StartingNodes);
        s
    };
    let mut s = locked();
    assert_eq!(s.update(Action::StoreConnectionMode(ConnectionMode::UPnP), at(0)), quiet());
    assert_eq!(s.connection_mode, ConnectionMode::UPnP);
    assert_eq!(s.lock_registry, Some(LockRegistryState::StartingNodes));

    let mut s = locked();
    assert_eq!(s.update(Action::StorePortRange(50000, 50010), at(0)), quiet());
    assert_eq!((s.port_from, s.port_to), (Some(50000), Some(50010)));
    assert_eq!(s.lock_registry, Some(LockRegistryState::StartingNodes));

    let mut s = locked();
    assert_eq!(s.update(Action::StoreRewardsAddress("0xdef".to_string()), at(0)), quiet());
    assert_eq!(s.rewards_address, "0xdef");
    assert_eq!(s.lock_registry, Some(LockRegistryState::StartingNodes));

    let mut s = locked();
    let out = s.update(
        Action::StoreStorageDrive("/mnt/disk".to_string(), "disk".to_string()),
        UpdateInputs { now_ms: 0, registry: None, data_dir: Some(Ok("/mnt/disk/n".to_string())) },
    );
    assert_eq!(out, quiet());
    assert_eq!(s.data_dir_path, "/mnt/disk/n");
    assert_eq!(s.lock_registry, Some(LockRegistryState::StartingNodes));

    let mut s = locked();
    let before = s.clone();
    let out = s.update(
        Action::StoreStorageDrive("/mnt/disk".to_string(), "disk".to_string()),
        UpdateInputs { now_ms: 0, registry: None, data_dir: Some(Err("gone".to_string())) },
    );
    assert_eq!(
        out,
        UpdateOutcome { effects: vec![], result: Err(StatusError::DataDir("gone".to_string())) }
    );
    assert_eq!(s, before);
}

#[test]
fn the_gate_tells_what_stands_in_the_way() {
    let mut s = Status::new(config(), 0);
    assert_eq!(s.check_gate(), Gate::NoChannel);
    s.register_action_handler(0);
    assert_eq!(s.check_gate(), Gate::Open);
    s.lock_registry = Some(LockRegistryState::StoppingNodes);
    assert_eq!(s.check_gate(), Gate::Locked);
    s.action_sender_registered = false;
    assert_eq!(s.check_gate(), Gate::Locked);
}

#[test]
fn the_count_of_nodes_is_stored_and_acted_on() {
    let mut s = status(&[]);
    assert_eq!(
        s.update(Action::StoreNodesToStart(0), at(0)),
        reply(Action::StatusActions(StatusActions::StopNodes))
    );
    assert_eq!(s.nodes_to_start, 0);
    assert_eq!(
        s.update(Action::StoreNodesToStart(7), at(0)),
        reply(Action::StatusActions(StatusActions::StartNodes))
    );
    assert_eq!(s.nodes_to_start, 7);
}

#[test]
fn a_new_rewards_address_resets_the_fleet() {
    let mut s = status(&[Running]);
    assert_eq!(s.update(Action::StoreRewardsAddress("0xdef".to_string()), at(0)), reset_sent());
    assert_eq!(s.rewards_address, "0xdef");
    assert_eq!(s.lock_registry, Some(LockRegistryState::ResettingNodes));

    // the same address again changes nothing
    let mut s = status(&[Running]);
    assert_eq!(s.update(Action::StoreRewardsAddress("0xabc".to_string()), at(0)), quiet());
    assert_eq!(s.lock_registry, None);

    // nor does a new address without nodes
    let mut s = status(&[]);
    assert_eq!(s.update(Action::StoreRewardsAddress("0xdef".to_string()), at(0)), quiet());
    assert_eq!(s.rewards_address, "0xdef");
    assert_eq!(s.lock_registry, None);
}

#[test]
fn settings_that_change_reset_the_fleet() {
    let mut s = status(&[]);
    assert_eq!(
        s.update(Action::StoreConnectionMode(ConnectionMode::CustomPorts), at(0)),
        reset_sent()
    );
    assert_eq!(s.connection_mode, ConnectionMode::CustomPorts);
    assert_eq!(s.lock_registry, Some(LockRegistryState::ResettingNodes));

    let mut s = status(&[]);
    assert_eq!(s.update(Action::StorePortRange(50000, 50049), at(0)), reset_sent());
    assert_eq!(s.port_from, Some(50000));
    assert_eq!(s.port_to, Some(50049));

    let mut s = status(&[]);
    let out = s.update(
        Action::StoreStorageDrive("/mnt/disk".to_string(), "disk".to_string()),
        UpdateInputs { now_ms: 0, registry: None, data_dir: Some(Ok("/mnt/disk/nodes".to_string())) },
    );
    assert_eq!(out, reset_sent());
    assert_eq!(s.data_dir_path, "/mnt/disk/nodes");

    let mut s = status(&[]);
    let out = s.update(
        Action::StoreStorageDrive("/mnt/disk".to_string(), "disk".to_string()),
        UpdateInputs { now_ms: 0, registry: None, data_dir: Some(Err("no such drive".to_string())) },
    );
    assert_eq!(out.effects, reset_sent().effects);
    assert_eq!(out.result, Err(StatusError::DataDir("no such drive".to_string())));
    assert_eq!(s.data_dir_path, "/data");

    let mut s = status(&[]);
    assert_eq!(s.update(Action::OptionsActions(OptionsActions::ResetNodes), at(0)), reset_sent());
    assert_eq!(s.update(Action::SetUpnpSupport(UpnpSupport::Supported), at(0)), quiet());
    assert_eq!(s.upnp_support, UpnpSupport::Supported);
}

#[test]
fn the_end_of_a_task_unlocks_and_reads_the_fleet() {
    for action in [StatusActions::StartNodesCompleted, StatusActions::StopNodesCompleted] {
        let mut s = status(&[Stopped]);
        s.lock_registry = Some(LockRegistryState::StartingNodes);
        let out = s.update(
            Action::StatusActions(action),
            with_registry(Ok(registry(&[Running, Running, Removed]))),
        );
        assert_eq!(out, quiet());
        assert_eq!(s.lock_registry, None);
        assert_eq!(s.node_services, vec![node(1, Running), node(2, Running)]);
    }
    let mut s = status(&[Stopped]);
    s.lock_registry = Some(LockRegistryState::StoppingNodes);
    let out = s.update(
        Action::StatusActions(StatusActions::StopNodesCompleted),
        with_registry(Err("corrupt".to_string())),
    );
    assert_eq!(out.result, Err(StatusError::Registry("corrupt".to_string())));
    assert_eq!(s.lock_registry, None);
    assert_eq!(s.node_services, vec![node(1, Stopped)]);
}

#[test]
fn the_end_of_a_reset_empties_the_table() {
    let mut s = status(&[Running, Stopped]);
    s.update_node_items(None);
    assert_eq!(s.items.as_ref().unwrap().items.len(), 2);
    s.lock_registry = Some(LockRegistryState::ResettingNodes);
    let out = s.update(
        Action::StatusActions(StatusActions::ResetNodesCompleted { trigger_start_node: true }),
        with_registry(Ok(registry(&[]))),
    );
    assert_eq!(out, reply(Action::StatusActions(StatusActions::StartNodes)));
    assert_eq!(s.lock_registry, None);
    assert!(s.node_services.is_empty());
    assert!(s.items.as_ref().unwrap().items.is_empty());

    let mut s = status(&[Running]);
    s.lock_registry = Some(LockRegistryState::ResettingNodes);
    let out = s.update(
        Action::StatusActions(StatusActions::ResetNodesCompleted { trigger_start_node: false }),
        with_registry(Ok(registry(&[]))),
    );
    assert_eq!(out, quiet());
}

#[test]
fn the_end_of_an_upgrade_fills_the_table_again() {
    let mut s = status(&[Running, Running]);
    s.update_node_items(Some(NodeStatus::Updating));
    s.lock_registry = Some(LockRegistryState::UpdatingNodes);
    let out = s.update(
        Action::StatusActions(StatusActions::UpdateNodesCompleted),
        with_registry(Ok(registry(&[Stopped, Running, Added]))),
    );
    assert_eq!(out, quiet());
    assert_eq!(s.lock_registry, None);
    let items = &s.items.as_ref().unwrap().items;
    assert_eq!(items.len(), 3);
    // lines are added as new and show what is recorded from the next tick on
    assert!(items.iter().all(|i| i.status == NodeStatus::Added));
    s.update_node_items(None);
    let shown: Vec<NodeStatus> = s.items.as_ref().unwrap().items.iter().map(|i| i.status).collect();
    assert_eq!(shown, vec![NodeStatus::Stopped, NodeStatus::Running, NodeStatus::Added]);
}

#[test]
fn an_upgrade_takes_the_nodes_with_a_peer_id() {
    let mut s = status(&[]);
    let mut r = registry(&[Running, Stopped, Running]);
    r.nodes[0].peer_id = Some("peerA".to_string());
    r.nodes[2].peer_id = Some("peerC".to_string());
    let out = s.update(Action::OptionsActions(OptionsActions::UpdateNodes), with_registry(Ok(r)));
    assert_eq!(s.lock_registry, Some(LockRegistryState::UpdatingNodes));
    assert_eq!(
        out,
        UpdateOutcome {
            effects: vec![Effect::SendTask(NodeManagementTask::UpgradeNodes {
                args: UpgradeNodesArgs {
                    connection_timeout_s: 5,
                    do_not_start: true,
                    custom_bin_path: None,
                    force: false,
                    fixed_interval: Some(60_000),
                    peer_ids: vec!["peerA".to_string(), "peerC".to_string()],
                    provided_env_variables: None,
                    service_names: vec!["antnode1".to_string(), "antnode3".to_string()],
                    url: None,
                    version: None,
                }
            })],
            result: Ok(None),
        }
    );
    let items = &s.items.as_ref().unwrap().items;
    assert_eq!(items.len(), 3);

    let mut s = status(&[Running]);
    let before = s.clone();
    let out = s.update(
        Action::OptionsActions(OptionsActions::UpdateNodes),
        with_registry(Err("unreadable".to_string())),
    );
    assert_eq!(out.result, Err(StatusError::Registry("unreadable".to_string())));
    assert_eq!(s, before);
}

#[test]
fn errors_of_the_worker_are_shown() {
    let cases = [
        (
            StatusActions::ErrorLoadingNodeRegistry { raw_error: "e1".to_string() },
            "Error getting node registry path",
        ),
        (
            StatusActions::ErrorGettingNodeRegistryPath { raw_error: "e1".to_string() },
            "Error getting node registry path",
        ),
        (StatusActions::ErrorScalingUpNodes { raw_error: "e1".to_string() }, "Error adding new nodes"),
        (StatusActions::ErrorStoppingNodes { raw_error: "e1".to_string() }, "Error stopping nodes"),
        (StatusActions::ErrorUpdatingNodes { raw_error: "e1".to_string() }, "Error upgrading nodes"),
        (StatusActions::ErrorResettingNodes { raw_error: "e1".to_string() }, "Error resetting nodes"),
    ];
    for (action, headline) in cases {
        let mut s = status(&[]);
        let out = s.update(Action::StatusActions(action), at(0));
        assert_eq!(out, reply(Action::SwitchInputMode(InputMode::Entry)));
        assert_eq!(
            s.error_popup,
            Some(ErrorPopup {
                visible: true,
                title: "Error".to_string(),
                message: headline.to_string(),
                error_message: "e1".to_string(),
            })
        );
    }
}

#[test]
fn keys_go_to_the_error_box_while_it_is_shown() {
    let mut s = status(&[]);
    assert_eq!(s.handle_key_events(KeyPress::Enter), vec![]);
    s.update(
        Action::StatusActions(StatusActions::ErrorStoppingNodes { raw_error: "e".to_string() }),
        at(0),
    );
    assert_eq!(
        s.handle_key_events(KeyPress::Other),
        vec![Action::SwitchInputMode(InputMode::Navigation)]
    );
    assert!(s.error_popup.as_ref().unwrap().is_visible());
    assert_eq!(
        s.handle_key_events(KeyPress::Enter),
        vec![Action::SwitchInputMode(InputMode::Navigation)]
    );
    assert!(!s.error_popup.as_ref().unwrap().is_visible());
    assert_eq!(s.handle_key_events(KeyPress::Enter), vec![]);
}

#[test]
fn the_probe_is_counted() {
    let mut s = status(&[]);
    for expected in 1..=4usize {
        assert_eq!(
            s.update(Action::StatusActions(StatusActions::ErrorWhileRunningNatDetection), at(0)),
            quiet()
        );
        assert_eq!(s.error_while_running_nat_detection, expected);
    }
    assert!(!s.should_we_run_nat_detection());
    s.error_while_running_nat_detection = usize::MAX;
    s.update(Action::StatusActions(StatusActions::ErrorWhileRunningNatDetection), at(0));
    assert_eq!(s.error_while_running_nat_detection, usize::MAX);
    assert_eq!(
        s.update(Action::StatusActions(StatusActions::SuccessfullyDetectedNatStatus), at(0)),
        quiet()
    );
    assert!(s.is_nat_status_determined);
}

#[test]
fn scenes_switch_the_screen_on_and_off() {
    let mut s = status(&[]);
    assert_eq!(s.update(Action::SwitchScene(Scene::Options), at(0)), quiet());
    assert!(!s.active);
    assert_eq!(
        s.update(Action::SwitchScene(Scene::Status), at(0)),
        reply(Action::SwitchInputMode(InputMode::Navigation))
    );
    assert!(s.active);
    s.active = false;
    assert_eq!(
        s.update(Action::SwitchScene(Scene::StatusRewardsAddressPopUp), at(0)),
        reply(Action::SwitchInputMode(InputMode::Navigation))
    );
    assert!(s.active);
    s.active = false;
    assert_eq!(s.update(Action::SwitchScene(Scene::ManageNodesPopUp), at(0)), quiet());
    assert!(s.active);
    assert_eq!(s.update(Action::SwitchScene(Scene::Help), at(0)), quiet());
    assert!(!s.active);
}

#[test]
fn small_requests_are_answered() {
    let mut s = status(&[]);
    assert_eq!(
        s.update(Action::StatusActions(StatusActions::TriggerManageNodes), at(0)),
        reply(Action::SwitchScene(Scene::ManageNodesPopUp))
    );
    assert_eq!(s.update(Action::StatusActions(StatusActions::TriggerRewardsAddress), at(0)), quiet());
    s.rewards_address = String::new();
    assert_eq!(
        s.update(Action::StatusActions(StatusActions::TriggerRewardsAddress), at(0)),
        reply(Action::SwitchScene(Scene::StatusRewardsAddressPopUp))
    );
    let before = s.clone();
    for action in [Action::Render, Action::Quit, Action::Resize(1, 2), Action::Noop] {
        assert_eq!(s.update(action, at(0)), quiet());
    }
    assert_eq!(s.update(Action::OptionsActions(OptionsActions::TriggerAccessLogs), at(0)), quiet());
    assert_eq!(s, before);
    let stats = NodeStats {
        total_rewards_wallet_balance: 5,
        total_memory_usage_mb: 6,
        individual_stats: vec![],
    };
    assert_eq!(
        s.update(Action::StatusActions(StatusActions::NodesStatsObtained(stats.clone())), at(0)),
        quiet()
    );
    assert_eq!(s.node_stats, stats);
}

#[test]
fn the_tick_fetches_statistics_every_five_seconds() {
    let mut s = status(&[Running]);
    // registered at 1000
    let out = s.update(Action::Tick, at(6_000));
    assert_eq!(out, quiet());
    assert_eq!(s.node_stats_last_update, 1_000);
    let out = s.update(Action::Tick, at(6_001));
    assert_eq!(out, UpdateOutcome { effects: vec![Effect::FetchNodeStats], result: Ok(None) });
    assert_eq!(s.node_stats_last_update, 6_001);
    // a clock that went back counts as no time passed
    let out = s.update(Action::Tick, at(10));
    assert_eq!(out, quiet());
    assert!(s.items.is_some());

    let mut s = Status::new(config(), 0);
    let out = s.update(Action::Tick, at(5_001));
    assert_eq!(out.result, Err(StatusError::ActionSenderNotRegistered));
    assert_eq!(s.node_stats_last_update, 5_001);
    assert_eq!(s.items, None);
    assert_eq!(s.try_update_node_stats(false, 5_002), Ok(false));
}

fn stats_for(name: &str) -> IndividualNodeStats {
    IndividualNodeStats {
        service_name: name.to_string(),
        rewards_wallet_balance: 11,
        memory_usage_mb: 22,
        bandwidth_inbound: 0,
        bandwidth_outbound: 0,
        bandwidth_inbound_rate: 125_000,
        bandwidth_outbound_rate: 250_000,
        throughput: "↓00001 ↑00002".to_string(),
        max_records: 33,
        peers: 0,
        connections: 44,
    }
}

#[test]
fn the_table_is_made_from_the_fleet() {
    let mut s = Status::new(config(), 0);
    let mut r = registry(&[Running, Stopped, Removed, Added]);
    r.nodes[1].node_port = Some(12000);
    r.nodes[1].critical_failure = Some((1_700_000_000, "out of disk".to_string()));
    s.apply_registry(r);
    // removed nodes are in no fleet, but a stale record may linger
    s.node_services.push(node(9, Removed));
    s.update_node_items(None);
    let table = s.items.clone().unwrap();
    assert_eq!(table.selected, None);
    let fresh = |name: &str, status: NodeStatus| NodeItem {
        name: name.to_string(),
        version: "0.96.3".to_string(),
        attos: 0,
        memory: 0,
        mbps: "-".to_string(),
        records: 0,
        peers: 0,
        connections: 0,
        mode: NodeConnectionMode::Unknown,
        status,
        failure: None,
        spinner: None,
        spinner_state: 0,
    };
    assert_eq!(
        table.items,
        vec![
            fresh("antnode1", NodeStatus::Running),
            NodeItem {
                mode: NodeConnectionMode::Manual,
                failure: Some((1_700_000_000, "out of disk".to_string())),
                ..fresh("antnode2", NodeStatus::Stopped)
            },
            fresh("antnode4", NodeStatus::Added),
        ]
    );
}

#[test]
fn the_table_follows_the_fleet_and_the_statistics() {
    let mut s = status(&[Running, Stopped]);
    s.update_node_items(None);
    s.node_services[0].connected_peers = Some(vec!["a".to_string(), "b".to_string()]);
    s.node_services.push(node(3, Running));
    s.node_stats.individual_stats = vec![stats_for("antnode2"), stats_for("antnode1")];
    s.update_node_items(None);
    let items = &s.items.as_ref().unwrap().items;
    assert_eq!(items.len(), 3);
    assert_eq!(items[0].status, NodeStatus::Running);
    assert_eq!(items[0].spinner_state, 1);
    assert_eq!(items[0].peers, 2);
    assert_eq!(items[0].attos, 11);
    assert_eq!(items[0].memory, 22);
    assert_eq!(items[0].mbps, "↓00001 ↑00002");
    assert_eq!(items[0].records, 33);
    assert_eq!(items[0].connections, 44);
    assert_eq!(items[1].status, NodeStatus::Stopped);
    assert_eq!(items[1].spinner_state, 0);
    assert_eq!(items[1].attos, 11);
    // a line that is added starts as added, whatever is recorded
    assert_eq!(items[2].name, "antnode3");
    assert_eq!(items[2].status, NodeStatus::Added);
    assert_eq!(items[2].mbps, "-");
}

#[test]
fn while_nodes_start_every_node_that_does_not_run_shows_as_starting() {
    let mut s = status(&[Running, Stopped, Added]);
    s.update_node_items(None);
    s.lock_registry = Some(LockRegistryState::StartingNodes);
    s.update_node_items(None);
    let items = &s.items.as_ref().unwrap().items;
    assert_eq!(items[0].status, NodeStatus::Running);
    assert_eq!(items[0].spinner_state, 2);
    assert_eq!(items[1].status, NodeStatus::Starting);
    assert_eq!(items[1].spinner_state, 1);
    assert_eq!(items[2].status, NodeStatus::Starting);
}

#[test]
fn a_line_that_shows_an_update_stays_so() {
    let mut s = status(&[Running, Stopped]);
    s.update_node_items(None);
    s.update_node_items(Some(NodeStatus::Updating));
    let items = &s.items.as_ref().unwrap().items;
    assert!(items.iter().all(|i| i.status == NodeStatus::Updating));
    assert!(items.iter().all(|i| i.spinner_state == 0));
    s.update_node_items(None);
    let items = &s.items.as_ref().unwrap().items;
    assert!(items.iter().all(|i| i.status == NodeStatus::Updating));
    assert!(items.iter().all(|i| i.spinner_state == 1));
}

#[test]
fn the_spinner_wraps() {
    let mut s = status(&[Running]);
    s.update_node_items(None);
    s.items.as_mut().unwrap().items[0].spinner_state = i8::MAX;
    s.update_node_items(None);
    assert_eq!(s.items.as_ref().unwrap().items[0].spinner_state, 0);
}

#[test]
fn the_selection_moves_through_the_table() {
    let mut s = status(&[Running, Stopped, Added]);
    s.update_node_items(None);
    let next = Action::StatusActions(StatusActions::NextTableItem);
    let previous = Action::StatusActions(StatusActions::PreviousTableItem);
    let selected = |s: &Status| s.items.as_ref().unwrap().selected;
    assert_eq!(s.update(next.clone(), at(0)), quiet());
    assert_eq!(selected(&s), Some(0));
    s.update(next.clone(), at(0));
    s.update(next.clone(), at(0));
    assert_eq!(selected(&s), Some(2));
    s.update(next.clone(), at(0));
    assert_eq!(selected(&s), Some(0));
    s.update(previous.clone(), at(0));
    assert_eq!(selected(&s), Some(2));
    s.update(previous.clone(), at(0));
    assert_eq!(selected(&s), Some(1));
    assert_eq!(s.items.as_ref().unwrap().last_selected, Some(1));

    let out = s.update(Action::StatusActions(StatusActions::TriggerNodeLogs), at(0));
    assert_eq!(
        out,
        UpdateOutcome { effects: vec![Effect::OpenLogs("antnode2".to_string())], result: Ok(None) }
    );
    s.items.as_mut().unwrap().selected = None;
    assert_eq!(s.update(Action::StatusActions(StatusActions::TriggerNodeLogs), at(0)), quiet());

    let mut empty = Status::new(config(), 0);
    assert_eq!(empty.update(next, at(0)), quiet());
    assert_eq!(empty.items, None);
}

#[test]
fn a_table_selects_and_wraps() {
    let mut t = StatefulTable::with_items(vec!['a', 'b', 'c']);
    assert_eq!(t.selected_item(), None);
    t.next();
    assert_eq!(t.selected_item(), Some(&'a'));
    t.previous();
    assert_eq!(t.selected_item(), Some(&'c'));
    t.next();
    assert_eq!(t.selected_item(), Some(&'a'));
    t.selected = None;
    t.last_selected = Some(1);
    t.previous();
    assert_eq!(t.selected, Some(1));
    t.selected = Some(7);
    assert_eq!(t.selected_item(), None);
    t.next();
    assert_eq!(t.selected, Some(0));

    let mut e: StatefulTable<u8> = StatefulTable::with_items(vec![]);
    e.selected = Some(0);
    e.next();
    assert_eq!(e.selected, Some(0));
    e.previous();
    assert_eq!(e.selected, Some(0));
    assert_eq!(e.selected_item(), None);
}

#[test]
fn clearing_keeps_the_selection() {
    let mut s = status(&[Running, Stopped]);
    s.clear_node_items();
    assert_eq!(s.items, None);
    s.update_node_items(None);
    s.items.as_mut().unwrap().next();
    s.clear_node_items();
    let table = s.items.as_ref().unwrap();
    assert!(table.items.is_empty());
    assert_eq!(table.selected, Some(0));
}

#[test]
fn messages_say_what_they_consult() {
    assert!(consults_registry(&Action::StatusActions(StatusActions::StartNodesCompleted)));
    assert!(consults_registry(&Action::StatusActions(StatusActions::StopNodesCompleted)));
    assert!(consults_registry(&Action::StatusActions(StatusActions::UpdateNodesCompleted)));
    assert!(consults_registry(&Action::StatusActions(StatusActions::ResetNodesCompleted {
        trigger_start_node: false
    })));
    assert!(consults_registry(&Action::OptionsActions(OptionsActions::UpdateNodes)));
    assert!(!consults_registry(&Action::OptionsActions(OptionsActions::ResetNodes)));
    assert!(!consults_registry(&Action::Tick));
    assert!(consults_data_dir(&Action::StoreStorageDrive("a".to_string(), "b".to_string())));
    assert!(!consults_data_dir(&Action::Tick));
    assert_eq!(LockRegistryState::StartingNodes.label(), "StartingNodes");
    assert_eq!(LockRegistryState::StoppingNodes.label(), "StoppingNodes");
    assert_eq!(LockRegistryState::ResettingNodes.label(), "ResettingNodes");
    assert_eq!(LockRegistryState::UpdatingNodes.label(), "UpdatingNodes");
}
