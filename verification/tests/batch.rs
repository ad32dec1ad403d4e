use node_fleet::action::{
    Action, ConnectionMode, NodeManagementTask, PeersArgs, StatusActions, UpnpSupport,
};
use node_fleet::batch::{Batch, BatchAction, BatchEvent, BatchPhase, Step, StepFailure};
use node_fleet::dispatcher::Dispatcher;
use node_fleet::status::{Effect, LockRegistryState, Status, StatusConfig, UpdateInputs};
use node_fleet::lifecycle::{LifecycleError, StartReport};
use node_fleet::maintain::PortRange;
use node_fleet::registry::{
    DaemonService, FaucetService, Ipv4Address, NatStatus, NodeService, Registry, ServiceStatus,
    SocketAddress,
};

use ServiceStatus::{Added, Removed, Running, Stopped};

fn node(number: u16, status: ServiceStatus) -> NodeService {
    NodeService {
        service_name: format!("antnode{number}"),
        number,
        user: "svc".to_string(),
        version: "0.96.4".to_string(),
        genesis: false,
        local: false,
        rpc_socket_addr: SocketAddress::new(Ipv4Address::localhost(), 8000 + number),
        node_port: None,
        listen_addr: None,
        peer_id: None,
        pid: None,
        status,
        safenode_path: format!("/d/antnode{number}/antnode"),
        data_dir_path: format!("/d/antnode{number}"),
        log_dir_path: format!("/l/antnode{number}"),
        connected_peers: None,
        critical_failure: None,
    }
}

fn registry(statuses: &[ServiceStatus]) -> Registry {
    let mut r = Registry::new("/tmp/reg.json".to_string());
    for (i, status) in statuses.iter().enumerate() {
        r.nodes.push(node(i as u16 + 1, *status));
    }
    r
}

fn report(pid: u32) -> StartReport {
    StartReport { pid, peer_id: format!("peer{pid}"), listen_addr: None }
}

/// Runs a batch to its end. Every action succeeds, but for the services
/// named in `failing`; a node that is added gets the next number.
fn run(batch: &mut Batch, registry: &mut Registry, failing: &[&str]) -> Vec<BatchAction> {
    let mut log = vec![];
    let mut action = batch.current_action(registry);
    for _ in 0..10_000 {
        let fails = |name: &String| failing.contains(&name.as_str());
        let event = match &action {
            BatchAction::Finished => return log,
            BatchAction::Proceed => BatchEvent::Done,
            BatchAction::DetectNat => BatchEvent::Nat(NatStatus::Public),
            BatchAction::Start { service_name } if fails(service_name) => {
                BatchEvent::Failed("refused".to_string())
            }
            BatchAction::Start { .. } => BatchEvent::Started(report(log.len() as u32)),
            BatchAction::Stop { service_name } | BatchAction::Uninstall { service_name, .. }
                if fails(service_name) =>
            {
                BatchEvent::Failed("refused".to_string())
            }
            BatchAction::AddNode { node_port } => {
                let number = registry.nodes.len() as u16 + 1;
                let mut added = node(number, Added);
                added.node_port = *node_port;
                registry.nodes.push(added);
                BatchEvent::Done
            }
            _ => BatchEvent::Done,
        };
        if action != BatchAction::Proceed {
            log.push(action.clone());
        }
        action = batch.advance(registry, event);
    }
    panic!("the batch does not end");
}

fn start(n: u16) -> BatchAction {
    BatchAction::Start { service_name: format!("antnode{n}") }
}

fn stop(n: u16) -> BatchAction {
    BatchAction::Stop { service_name: format!("antnode{n}") }
}

fn uninstall(n: u16) -> BatchAction {
    BatchAction::Uninstall {
        service_name: format!("antnode{n}"),
        purge: vec![format!("/d/antnode{n}"), format!("/l/antnode{n}")],
    }
}

#[test]
fn maintain_starts_what_is_idle_and_adds_what_is_missing() {
    // antnode1 runs, antnode2 is stopped; three are wanted
    let mut r = registry(&[Running, Stopped]);
    let mut batch = Batch::maintain(&r, 3, None, false, 0);
    assert_eq!(batch.steps, vec![Step::Start("antnode2".to_string()), Step::Add(None)]);
    let log = run(&mut batch, &mut r, &[]);
    assert_eq!(
        log,
        vec![
            start(2),
            BatchAction::SaveRegistry,
            BatchAction::AddNode { node_port: None },
            start(3),
            BatchAction::SaveRegistry,
        ]
    );
    assert_eq!(batch.phase, BatchPhase::Finished);
    assert!(batch.failures.is_empty());
    assert_eq!(batch.error, None);
    assert_eq!(r.running_names(), vec!["antnode1", "antnode2", "antnode3"]);
    assert_eq!(r.nodes[1].pid, Some(0));
    assert_eq!(r.nodes[1].peer_id, Some("peer0".to_string()));
}

#[test]
fn maintain_probes_before_the_first_start() {
    let mut r = registry(&[Stopped]);
    let mut batch = Batch::maintain(&r, 1, None, true, 0);
    assert_eq!(batch.steps, vec![Step::DetectNat, Step::Start("antnode1".to_string())]);
    let log = run(&mut batch, &mut r, &[]);
    assert_eq!(
        log,
        vec![
            BatchAction::DetectNat,
            BatchAction::SaveRegistry,
            start(1),
            BatchAction::SaveRegistry
        ]
    );
    assert_eq!(r.nat_status, Some(NatStatus::Public));
    assert!(!batch.nat_failed);
    assert_eq!(batch.nat_found, Some(NatStatus::Public));

    // a probe that failed three times is not run again, nor one with a result
    let idle = registry(&[Stopped]);
    assert_eq!(
        Batch::maintain(&idle, 1, None, true, 3).steps,
        vec![Step::Start("antnode1".to_string())]
    );
    let mut probed = registry(&[Stopped]);
    probed.nat_status = Some(NatStatus::Private);
    assert_eq!(
        Batch::maintain(&probed, 1, None, true, 0).steps,
        vec![Step::Start("antnode1".to_string())]
    );

    // nothing comes up, so nothing is probed
    let r = registry(&[Running, Running]);
    assert_eq!(Batch::maintain(&r, 1, None, true, 0).steps, vec![Step::Stop("antnode2".to_string())]);
    assert_eq!(Batch::maintain(&r, 2, None, true, 0).steps, vec![]);
}

#[test]
fn a_probe_that_fails_does_not_stop_the_batch() {
    let mut r = registry(&[Added]);
    let mut batch = Batch::maintain(&r, 1, None, true, 0);
    assert_eq!(batch.advance(&mut r, BatchEvent::Done), BatchAction::DetectNat);
    assert_eq!(
        batch.advance(&mut r, BatchEvent::Failed("no route".to_string())),
        BatchAction::Proceed
    );
    assert!(batch.nat_failed);
    assert_eq!(batch.nat_found, None);
    assert!(batch.failures.is_empty());
    assert_eq!(r.nat_status, None);
    assert_eq!(batch.advance(&mut r, BatchEvent::Done), start(1));
}

#[test]
fn maintain_stops_from_the_last_node_down() {
    let mut r = registry(&[Running, Running, Stopped, Running]);
    let mut batch = Batch::maintain(&r, 1, None, false, 0);
    let log = run(&mut batch, &mut r, &[]);
    assert_eq!(
        log,
        vec![stop(4), BatchAction::SaveRegistry, stop(2), BatchAction::SaveRegistry]
    );
    assert_eq!(r.running_names(), vec!["antnode1"]);
}

#[test]
fn maintain_hands_out_the_ports_of_the_range() {
    let mut r = registry(&[]);
    let mut batch = Batch::maintain(&r, 2, Some(PortRange { from: 12000, to: 12010 }), false, 0);
    assert_eq!(batch.steps, vec![Step::Add(Some(12000)), Step::Add(Some(12001))]);
    run(&mut batch, &mut r, &[]);
    assert_eq!(r.nodes[0].node_port, Some(12000));
    assert_eq!(r.nodes[1].node_port, Some(12001));
    assert_eq!(r.running_names().len(), 2);
}

#[test]
fn a_step_that_fails_is_noted_and_the_batch_goes_on() {
    let mut r = registry(&[Stopped, Added, Stopped]);
    let mut batch = Batch::maintain(&r, 3, None, false, 0);
    let log = run(&mut batch, &mut r, &["antnode2"]);
    assert_eq!(
        log,
        vec![start(1), BatchAction::SaveRegistry, start(2), start(3), BatchAction::SaveRegistry]
    );
    assert_eq!(
        batch.failures,
        vec![StepFailure {
            step: 1,
            service_name: "antnode2".to_string(),
            error: "refused".to_string()
        }]
    );
    assert_eq!(batch.error, None);
    assert_eq!(r.running_names(), vec!["antnode1", "antnode3"]);
    assert_eq!(r.nodes[1], node(2, Added));
}

#[test]
fn steps_are_checked_against_the_registry() {
    let mut r = registry(&[Running, Stopped, Removed]);
    let mut batch = Batch::stop(vec![
        "antnode2".to_string(),
        "nobody".to_string(),
        "antnode1".to_string(),
    ]);
    let log = run(&mut batch, &mut r, &[]);
    assert_eq!(log, vec![stop(1), BatchAction::SaveRegistry]);
    assert_eq!(
        batch.failures,
        vec![
            StepFailure {
                step: 0,
                service_name: "antnode2".to_string(),
                error: LifecycleError::NotRunning.message()
            },
            StepFailure {
                step: 1,
                service_name: "nobody".to_string(),
                error: LifecycleError::NotFound.message()
            },
        ]
    );
    assert_eq!(LifecycleError::NotRunning.message(), "The service is not running");
    assert_eq!(LifecycleError::NotFound.message(), "No service of that name is recorded");
    assert_eq!(LifecycleError::AlreadyRunning.message(), "The service is running already");
    assert_eq!(LifecycleError::Removed.message(), "The service was removed");
    assert_eq!(
        LifecycleError::StillRunning.message(),
        "The service is running and has to be stopped first"
    );
    assert!(r.running_names().is_empty());
}

fn full_registry() -> Registry {
    let mut r = registry(&[Running, Stopped, Running, Removed, Added]);
    r.bootstrap_peers.push("/ip4/1.1.1.1/udp/1".to_string());
    r.faucet = Some(FaucetService {
        faucet_path: "/usr/local/bin/faucet".to_string(),
        local: false,
        log_dir_path: "/var/log/faucet".to_string(),
        pid: None,
        service_name: "faucet".to_string(),
        status: Added,
        user: "svc".to_string(),
        version: "0.96.4".to_string(),
    });
    r.daemon = Some(DaemonService {
        daemon_path: "/usr/local/bin/safenodemand".to_string(),
        endpoint: None,
        pid: None,
        service_name: "safenodemand".to_string(),
        status: Added,
        version: "0.96.4".to_string(),
    });
    r
}

#[test]
fn reset_takes_everything_down_and_empties_the_registry() {
    let mut r = full_registry();
    let mut batch = Batch::reset(&r);
    assert!(batch.halt_on_failure);
    let log = run(&mut batch, &mut r, &[]);
    let save = BatchAction::SaveRegistry;
    assert_eq!(
        log,
        vec![
            stop(1),
            save.clone(),
            stop(3),
            save.clone(),
            uninstall(1),
            save.clone(),
            uninstall(2),
            save.clone(),
            uninstall(3),
            save.clone(),
            uninstall(5),
            save.clone(),
            BatchAction::Uninstall { service_name: "faucet".to_string(), purge: vec![] },
            save.clone(),
            BatchAction::Uninstall { service_name: "safenodemand".to_string(), purge: vec![] },
            save.clone(),
            save.clone(),
        ]
    );
    assert_eq!(batch.phase, BatchPhase::Finished);
    assert!(batch.failures.is_empty());
    assert_eq!(r, Registry::new("/tmp/reg.json".to_string()));
}

#[test]
fn a_reset_halts_at_the_first_failure() {
    let mut r = full_registry();
    let mut batch = Batch::reset(&r);
    let log = run(&mut batch, &mut r, &["antnode2"]);
    assert_eq!(log.last(), Some(&uninstall(2)));
    assert_eq!(batch.phase, BatchPhase::Finished);
    assert_eq!(batch.failures.len(), 1);
    assert_eq!(batch.failures[0].service_name, "antnode2");
    // what was done stays done, the rest stays recorded
    assert_eq!(r.nodes.len(), 5);
    assert_eq!(r.nodes[0].status, Removed);
    assert_eq!(r.nodes[1].status, Stopped);
    assert_eq!(r.nodes[2].status, Stopped);
    assert!(r.faucet.is_some());
}

#[test]
fn a_save_that_fails_ends_the_batch() {
    let mut r = registry(&[Running, Running]);
    let mut batch = Batch::stop(vec!["antnode1".to_string(), "antnode2".to_string()]);
    assert_eq!(batch.advance(&mut r, BatchEvent::Done), stop(1));
    assert_eq!(batch.advance(&mut r, BatchEvent::Done), BatchAction::SaveRegistry);
    assert_eq!(
        batch.advance(&mut r, BatchEvent::Failed("disk full".to_string())),
        BatchAction::Finished
    );
    assert_eq!(batch.error, Some("disk full".to_string()));
    assert_eq!(r.nodes[1].status, Running);
}

#[test]
fn an_add_that_leaves_no_node_is_a_failure() {
    let mut r = registry(&[]);
    let mut batch = Batch::maintain(&r, 1, None, false, 0);
    assert_eq!(batch.advance(&mut r, BatchEvent::Done), BatchAction::AddNode { node_port: None });
    assert_eq!(batch.advance(&mut r, BatchEvent::Done), BatchAction::Proceed);
    assert_eq!(
        batch.failures,
        vec![StepFailure {
            step: 0,
            service_name: String::new(),
            error: "No service was added".to_string()
        }]
    );
    assert_eq!(batch.advance(&mut r, BatchEvent::Done), BatchAction::Finished);
}

#[test]
fn an_event_that_does_not_answer_is_discarded() {
    let mut r = registry(&[Stopped]);
    let mut batch = Batch::maintain(&r, 1, None, false, 0);
    assert_eq!(batch.advance(&mut r, BatchEvent::Nat(NatStatus::Public)), BatchAction::Proceed);
    assert_eq!(batch.advance(&mut r, BatchEvent::Done), start(1));
    let before = batch.clone();
    assert_eq!(batch.advance(&mut r, BatchEvent::Done), start(1));
    assert_eq!(batch, before);
    assert_eq!(r, registry(&[Stopped]));
}

#[test]
fn a_start_from_the_dashboard_brings_the_fleet_up() {
    // antnode1 runs, antnode2 is stopped; three nodes are to run
    let mut on_disk = registry(&[Running, Stopped]);
    let mut screen = Status::new(
        StatusConfig {
            allocated_disk_space: 3,
            antnode_path: None,
            connection_mode: ConnectionMode::HomeNetwork,
            upnp_support: UpnpSupport::Unknown,
            data_dir_path: "/d".to_string(),
            network_id: None,
            peers_args: PeersArgs {
                first: false,
                local: false,
                addrs: vec![],
                network_contacts_url: vec![],
            },
            port_from: None,
            port_to: None,
            rewards_address: "0xabc".to_string(),
        },
        0,
    );
    screen.register_action_handler(0);
    screen.apply_registry(on_disk.clone());

    let out = screen.update(
        Action::StatusActions(StatusActions::StartNodes),
        UpdateInputs { now_ms: 0, registry: None, data_dir: None },
    );
    assert_eq!(screen.lock_registry, Some(LockRegistryState::StartingNodes));
    assert_eq!(out.effects.len(), 1);
    let mut dispatcher = Dispatcher::new();
    for effect in out.effects {
        match effect {
            Effect::SendTask(task) => assert!(dispatcher.submit(task)),
            other => panic!("unexpected effect {other:?}"),
        }
    }

    let task = dispatcher.start_next().unwrap();
    assert_eq!(dispatcher.lock, Some(LockRegistryState::StartingNodes));
    let args = match task {
        NodeManagementTask::MaintainNodes { args } => args,
        other => panic!("unexpected task {other:?}"),
    };
    assert_eq!(args.count, 3);
    let mut batch =
        Batch::maintain(&on_disk, args.count, None, args.run_nat_detection, 0);
    let log = run(&mut batch, &mut on_disk, &[]);
    // antnode2 is started before antnode3 is added and started; antnode1 is
    // left alone
    let acted: Vec<BatchAction> =
        log.into_iter().filter(|a| *a != BatchAction::SaveRegistry).collect();
    assert_eq!(acted, vec![start(2), BatchAction::AddNode { node_port: None }, start(3)]);
    assert_eq!(on_disk.nodes[0], node(1, Running));
    let failed = !batch.failures.is_empty() || batch.error.is_some();
    assert!(!failed);

    let event = dispatcher.complete(Ok(())).unwrap();
    assert_eq!(event, StatusActions::StartNodesCompleted);
    assert_eq!(dispatcher.lock, None);
    screen.update(
        Action::StatusActions(event),
        UpdateInputs { now_ms: 0, registry: Some(Ok(on_disk.clone())), data_dir: None },
    );
    assert_eq!(screen.lock_registry, None);
    assert_eq!(screen.get_running_nodes(), vec!["antnode1", "antnode2", "antnode3"]);
}
