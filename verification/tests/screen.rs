use node_fleet::action::{ConnectionMode, PeersArgs, UpnpSupport};
use node_fleet::node_item::{
    Area, Hue, NodeConnectionMode, NodeItem, NodeStatus, RowStyle, SpinnerLook, SpinnerSet,
    SpinnerUse,
};
use node_fleet::registry::{Ipv4Address, NodeService, Registry, ServiceStatus, SocketAddress};
use node_fleet::screen::{NodesSection, NodesToStart, UpnpNote};
use node_fleet::status::{ErrorPopup, LockRegistryState, Status, StatusConfig};
use node_fleet::table::StatefulTable;

fn item() -> NodeItem {
    NodeItem {
        name: "antnode1".to_string(),
        version: "0.96.4".to_string(),
        attos: 7,
        memory: 120,
        mbps: "↓00001 ↑00002".to_string(),
        records: 2048,
        peers: 12,
        connections: 123456,
        mode: NodeConnectionMode::UPnP,
        status: NodeStatus::Running,
        failure: Some((1_700_000_000, "out of disk".to_string())),
        spinner: None,
        spinner_state: 3,
    }
}

fn area() -> Area {
    Area { x: 0, y: 8, width: 120, height: 30 }
}

#[test]
fn a_running_row_is_green_and_spins() {
    let mut it = item();
    let row = it.render_as_row(4, area(), false);
    assert_eq!(
        row.cells,
        vec![
            "antnode1",
            "0.96.4",
            "    7",
            "120 MB",
            "↓00001 ↑00002",
            "2048",
            "   12",
            "123456",
            "UPnP",
            "Running",
            "-",
        ]
    );
    assert_eq!(row.style, RowStyle { fg: Hue::Eucalyptus, bg: None });
    let look = Some(SpinnerLook {
        color: Hue::Eucalyptus,
        set: SpinnerSet::BrailleSixDouble,
        which: SpinnerUse::Spin,
    });
    assert_eq!(row.spinner, look);
    assert_eq!(row.spinner_state, 3);
    assert_eq!(row.throbber_area, Area { x: 117, y: 14, width: 1, height: 1 });
    assert_eq!(it, NodeItem { spinner: look, ..item() });
}

#[test]
fn a_stopped_row_tells_of_its_failure() {
    let mut it = NodeItem {
        status: NodeStatus::Stopped,
        memory: 5,
        mbps: "-".to_string(),
        attos: 123456,
        records: 0,
        ..item()
    };
    let row = it.render_as_row(0, area(), true);
    assert_eq!(row.cells[2], "123456");
    assert_eq!(row.cells[3], "  5 MB");
    assert_eq!(row.cells[4], "            -");
    assert_eq!(row.cells[5], "   0");
    assert_eq!(row.cells[9], "Stopped");
    assert_eq!(row.cells[10], "out of disk");
    assert_eq!(row.style, RowStyle { fg: Hue::GhostWhite, bg: Some(Hue::Indigo) });
    assert_eq!(
        row.spinner,
        Some(SpinnerLook {
            color: Hue::GhostWhite,
            set: SpinnerSet::BrailleSixDouble,
            which: SpinnerUse::Full
        })
    );
    assert_eq!(row.throbber_area, Area { x: 117, y: 10, width: 1, height: 1 });
}

#[test]
fn the_look_of_the_spinner_follows_the_status() {
    let mut it = NodeItem { status: NodeStatus::Starting, ..item() };
    let row = it.render_as_row(0, area(), false);
    let starting = Some(SpinnerLook {
        color: Hue::Eucalyptus,
        set: SpinnerSet::BoxDrawing,
        which: SpinnerUse::Spin,
    });
    assert_eq!(row.spinner, starting);
    assert_eq!(row.cells[9], "Starting");
    it.status = NodeStatus::Updating;
    let row = it.render_as_row(0, area(), false);
    assert_eq!(
        row.spinner,
        Some(SpinnerLook {
            color: Hue::GhostWhite,
            set: SpinnerSet::VerticalBlock,
            which: SpinnerUse::Spin
        })
    );
    assert_eq!(row.cells[9], "Updating");
    // a node that was added or removed keeps the look it had
    it.status = NodeStatus::Added;
    let kept = it.spinner;
    let row = it.render_as_row(0, area(), false);
    assert_eq!(row.spinner, kept);
    assert_eq!(row.cells[9], "Added");
    it.status = NodeStatus::Removed;
    assert_eq!(it.render_as_row(0, area(), false).cells[9], "Removed");
    assert_eq!(NodeItem { spinner: None, status: NodeStatus::Added, ..item() }
        .render_as_row(0, area(), false)
        .spinner, None);
}

#[test]
fn modes_and_statuses_have_their_words() {
    assert_eq!(NodeConnectionMode::UPnP.label(), "UPnP");
    assert_eq!(NodeConnectionMode::HomeNetwork.label(), "Relay");
    assert_eq!(NodeConnectionMode::Manual.label(), "Manual");
    assert_eq!(NodeConnectionMode::Unknown.label(), "Unknown");
    assert_eq!(NodeStatus::default(), NodeStatus::Added);
    assert_eq!(NodeStatus::from_service(ServiceStatus::Running), NodeStatus::Running);
    assert_eq!(NodeStatus::from_service(ServiceStatus::Stopped), NodeStatus::Stopped);
    assert_eq!(NodeStatus::from_service(ServiceStatus::Added), NodeStatus::Added);
    assert_eq!(NodeStatus::from_service(ServiceStatus::Removed), NodeStatus::Removed);
}

#[test]
fn wide_memory_is_not_padded() {
    let mut it = NodeItem { memory: 1234, ..item() };
    assert_eq!(it.render_as_row(0, area(), false).cells[3], "1234 MB");
    it.memory = 0;
    assert_eq!(it.render_as_row(0, area(), false).cells[3], "  0 MB");
    it.memory = 99;
    assert_eq!(it.render_as_row(0, area(), false).cells[3], " 99 MB");
}

fn node(number: u16, status: ServiceStatus) -> NodeService {
    NodeService {
        service_name: format!("antnode{number}"),
        number,
        user: "svc".to_string(),
        version: "0.96.3".to_string(),
        genesis: false,
        local: false,
        rpc_socket_addr: SocketAddress::new(Ipv4Address::localhost(), 8000 + number),
        node_port: None,
        listen_addr: None,
        peer_id: None,
        pid: None,
        status,
        safenode_path: format!("/d/antnode{number}/antnode"),
        data_dir_path: format!("/d/antnode{number}"),
        log_dir_path: format!("/l/antnode{number}"),
        connected_peers: None,
        critical_failure: None,
    }
}

fn status(statuses: &[ServiceStatus]) -> Status {
    let mut s = Status::new(
        StatusConfig {
            allocated_disk_space: 2,
            antnode_path: None,
            connection_mode: ConnectionMode::Automatic,
            upnp_support: UpnpSupport::Supported,
            data_dir_path: "/data".to_string(),
            network_id: None,
            peers_args: PeersArgs {
                first: false,
                local: false,
                addrs: vec![],
                network_contacts_url: vec![],
            },
            port_from: None,
            port_to: None,
            rewards_address: "0xabc".to_string(),
        },
        0,
    );
    let mut r = Registry::new("/tmp/reg.json".to_string());
    for (i, st) in statuses.iter().enumerate() {
        r.nodes.push(node(i as u16 + 1, *st));
    }
    s.apply_registry(r);
    s
}

#[test]
fn an_inactive_screen_draws_nothing() {
    let mut s = status(&[ServiceStatus::Running]);
    s.active = false;
    let before = s.clone();
    assert_eq!(s.draw(area()), None);
    assert_eq!(s, before);
}

#[test]
fn the_screen_shows_the_fleet() {
    let mut s = status(&[ServiceStatus::Running, ServiceStatus::Stopped]);
    s.node_stats.total_memory_usage_mb = 2048;
    s.node_stats.total_rewards_wallet_balance = 99;
    s.update_node_items(None);
    s.items.as_mut().unwrap().next();
    let view = s.draw(area()).unwrap();
    assert_eq!(view.storage_allocated, "70 GB");
    assert_eq!(view.memory_use_mb, 2048);
    assert_eq!(view.connection_mode, "Automatic");
    assert_eq!(
        view.upnp,
        Some(UpnpNote { labelled: true, words: "supported".to_string(), color: Hue::Eucalyptus })
    );
    assert_eq!(view.attos_earned, "99");
    assert!(!view.wallet_hint);
    assert_eq!(view.mbps_header, "         Mbps");
    assert_eq!(view.footer, NodesToStart::Running);
    assert!(!view.error_shown);
    assert_eq!(view.progress, None);
    match view.nodes {
        NodesSection::Table { count, rows, selected } => {
            assert_eq!(count, 2);
            assert_eq!(selected, Some(0));
            assert_eq!(rows.len(), 2);
            assert_eq!(rows[0].cells[0], "antnode1");
            assert_eq!(rows[0].style, RowStyle { fg: Hue::Eucalyptus, bg: Some(Hue::Indigo) });
            assert_eq!(rows[1].cells[0], "antnode2");
            assert_eq!(rows[1].style, RowStyle { fg: Hue::GhostWhite, bg: None });
            assert_eq!(rows[1].throbber_area, Area { x: 117, y: 11, width: 1, height: 1 });
        }
        other => panic!("unexpected section {other:?}"),
    }
    // drawing set the look of the spinners
    assert!(s.items.as_ref().unwrap().items.iter().all(|i| i.spinner.is_some()));
}

#[test]
fn the_screen_invites_to_add_nodes() {
    let mut s = status(&[]);
    assert_eq!(s.draw(area()).unwrap().nodes, NodesSection::Nothing);
    assert_eq!(s.draw(area()).unwrap().footer, NodesToStart::NotConfigured);
    s.update_node_items(None);
    let view = s.draw(area()).unwrap();
    assert_eq!(view.nodes, NodesSection::Invitation);
    assert_eq!(view.footer, NodesToStart::NotConfigured);

    let mut s = status(&[ServiceStatus::Stopped]);
    s.update_node_items(None);
    s.rewards_address = String::new();
    let view = s.draw(area()).unwrap();
    assert_eq!(view.nodes, NodesSection::Invitation);
    assert!(view.wallet_hint);
    assert_eq!(view.footer, NodesToStart::Configured);
}

#[test]
fn the_connection_is_put_in_words() {
    let mut s = status(&[]);
    s.connection_mode = ConnectionMode::CustomPorts;
    assert_eq!(s.draw(area()).unwrap().connection_mode, "Custom Ports  49152-49201");
    assert_eq!(s.draw(area()).unwrap().upnp, None);
    s.port_from = Some(50000);
    s.port_to = Some(50049);
    assert_eq!(s.draw(area()).unwrap().connection_mode, "Custom Ports  50000-50049");
    s.connection_mode = ConnectionMode::HomeNetwork;
    assert_eq!(s.draw(area()).unwrap().connection_mode, "Home Network");
    s.connection_mode = ConnectionMode::UPnP;
    s.upnp_support = UpnpSupport::Unsupported;
    let view = s.draw(area()).unwrap();
    assert_eq!(view.connection_mode, "UPnP");
    assert_eq!(
        view.upnp,
        Some(UpnpNote {
            labelled: false,
            words: "disabled / unsupported".to_string(),
            color: Hue::SizzlingRed
        })
    );
    s.upnp_support = UpnpSupport::Loading;
    assert_eq!(s.draw(area()).unwrap().upnp.unwrap().words, "loading..");
    s.upnp_support = UpnpSupport::Unknown;
    let note = s.draw(area()).unwrap().upnp.unwrap();
    assert_eq!(note.words, "unknown");
    assert_eq!(note.color, Hue::LightPeriwinkle);
}

#[test]
fn a_task_in_progress_is_told_of() {
    let mut s = status(&[]);
    s.lock_registry = Some(LockRegistryState::StoppingNodes);
    assert_eq!(
        s.draw(area()).unwrap().progress,
        Some(vec!["".to_string(), "".to_string(), "".to_string(), "Stopping nodes...".to_string()])
    );
    s.lock_registry = Some(LockRegistryState::ResettingNodes);
    assert_eq!(s.progress_box().unwrap()[3], "Resetting nodes...");
    s.lock_registry = Some(LockRegistryState::UpdatingNodes);
    assert_eq!(s.progress_box(), None);
    s.lock_registry = Some(LockRegistryState::StartingNodes);
    assert_eq!(
        s.progress_box(),
        Some(vec![
            "Starting nodes...".to_string(),
            "".to_string(),
            "".to_string(),
            "Please wait, performing initial NAT detection".to_string(),
            "This may take a couple minutes.".to_string(),
        ])
    );
    s.is_nat_status_determined = true;
    assert_eq!(s.progress_box(), None);
    // the error box goes before the progress box
    s.lock_registry = Some(LockRegistryState::StoppingNodes);
    let mut popup = ErrorPopup::new("Error".to_string(), "m".to_string(), "e".to_string());
    popup.show();
    s.error_popup = Some(popup);
    let view = s.draw(area()).unwrap();
    assert!(view.error_shown);
    assert_eq!(view.progress, None);
}

#[test]
fn rows_that_do_not_fit_are_left_out() {
    let mut s = status(&[ServiceStatus::Running, ServiceStatus::Running, ServiceStatus::Running]);
    s.update_node_items(None);
    let rows_in = |s: &mut Status, a: Area| match s.draw(a).unwrap().nodes {
        NodesSection::Table { rows, .. } => rows.len(),
        other => panic!("unexpected section {other:?}"),
    };
    assert_eq!(rows_in(&mut s, Area { x: 0, y: 0, width: 2, height: 10 }), 0);
    assert_eq!(rows_in(&mut s, Area { x: 0, y: 65532, width: 80, height: 3 }), 2);
    assert_eq!(rows_in(&mut s, Area { x: 0, y: 65535, width: 80, height: 1 }), 0);
    assert_eq!(rows_in(&mut s, Area { x: 0, y: 65531, width: 3, height: 4 }), 3);
    let table: &StatefulTable<NodeItem> = s.items.as_ref().unwrap();
    assert_eq!(table.items.len(), 3);
}
