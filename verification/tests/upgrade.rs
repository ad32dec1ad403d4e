use node_fleet::dispatcher::{Dispatcher, TaskKind};
use node_fleet::action::{NodeManagementTask, StatusActions, UpgradeNodesArgs};
use node_fleet::lifecycle::StartReport;
use node_fleet::registry::{
    Ipv4Address, NodeService, Registry, ServiceStatus, SocketAddress,
};
use node_fleet::status::LockRegistryState;
use node_fleet::upgrade::{
    same_env, UpgradeAction, UpgradeEvent, UpgradeFailure, UpgradeOptions, UpgradeOutcome,
    UpgradeSession, UpgradeStage,
};

fn node(number: u16, status: ServiceStatus, version: &str) -> NodeService {
    NodeService {
        service_name: format!("antnode{number}"),
        number,
        user: "svc".to_string(),
        version: version.to_string(),
        genesis: false,
        local: false,
        rpc_socket_addr: SocketAddress::new(Ipv4Address::localhost(), 8000 + number),
        node_port: None,
        listen_addr: None,
        peer_id: Some(format!("peer{number}")),
        pid: Some(1000 + number as u32),
        status,
        safenode_path: format!("/d/antnode{number}/antnode"),
        data_dir_path: format!("/d/antnode{number}"),
        log_dir_path: format!("/l/antnode{number}"),
        connected_peers: None,
        critical_failure: None,
    }
}

fn three_running() -> Registry {
    let mut r = Registry::new("/tmp/reg.json".to_string());
    for n in 1..=3 {
        r.nodes.push(node(n, ServiceStatus::Running, "0.96.3"));
    }
    r
}

fn options() -> UpgradeOptions {
    UpgradeOptions {
        service_names: vec!["antnode1".to_string(), "antnode2".to_string(), "antnode3".to_string()],
        peer_ids: vec!["peer1".to_string(), "peer2".to_string(), "peer3".to_string()],
        target_version: "0.96.4".to_string(),
        force: false,
        do_not_start: false,
        fixed_interval: Some(60_000),
        connection_timeout_s: 5,
        provided_env_variables: None,
    }
}

fn report(number: u16) -> StartReport {
    StartReport { pid: 2000 + number as u32, peer_id: format!("peer{number}"), listen_addr: None }
}

/// Runs a batch to its end; every action succeeds and every node comes back
/// with the peer id that `reports` names for it.
fn run(
    session: &mut UpgradeSession,
    registry: &mut Registry,
    first: UpgradeAction,
    reports: &dyn Fn(&str) -> StartReport,
) -> Vec<UpgradeAction> {
    let mut log = vec![];
    let mut action = first;
    for _ in 0..1000 {
        let event = match &action {
            UpgradeAction::Finished => return log,
            UpgradeAction::Proceed => UpgradeEvent::Done,
            UpgradeAction::Start { service_name, .. } => {
                UpgradeEvent::Started(reports(service_name))
            }
            _ => UpgradeEvent::Done,
        };
        if action != UpgradeAction::Proceed {
            log.push(action.clone());
        }
        action = session.advance(registry, event);
    }
    panic!("the batch does not end");
}

#[test]
fn upgrade_batch() {
    let mut registry = three_running();
    let (mut session, first) = UpgradeSession::begin(options(), &mut registry);
    assert_eq!(first, UpgradeAction::Proceed);
    assert!(!session.reinstall);
    let log = run(&mut session, &mut registry, first, &|name| {
        let number: u16 = name.trim_start_matches("antnode").parse().unwrap();
        report(number)
    });
    let stop = |n: u16| UpgradeAction::Stop { service_name: format!("antnode{n}"), timeout_s: 5 };
    let replace = |n: u16| UpgradeAction::ReplaceBinary {
        service_name: format!("antnode{n}"),
        path: format!("/d/antnode{n}/antnode"),
    };
    let start = |n: u16| UpgradeAction::Start { service_name: format!("antnode{n}"), timeout_s: 5 };
    assert_eq!(
        log,
        vec![
            stop(1),
            replace(1),
            start(1),
            UpgradeAction::Sleep(60_000),
            stop(2),
            replace(2),
            start(2),
            UpgradeAction::Sleep(60_000),
            stop(3),
            replace(3),
            start(3),
        ]
    );
    assert_eq!(session.stage, UpgradeStage::Finished);
    assert_eq!(
        session.results,
        vec![
            UpgradeOutcome::Upgraded { peer_id: "peer1".to_string() },
            UpgradeOutcome::Upgraded { peer_id: "peer2".to_string() },
            UpgradeOutcome::Upgraded { peer_id: "peer3".to_string() },
        ]
    );
    for n in 1..=3u16 {
        let node = &registry.nodes[n as usize - 1];
        assert_eq!(node.version, "0.96.4");
        assert_eq!(node.status, ServiceStatus::Running);
        assert_eq!(node.peer_id, Some(format!("peer{n}")));
        assert_eq!(node.pid, Some(2000 + n as u32));
    }
}

#[test]
fn a_node_at_the_target_version_is_passed_over() {
    let mut registry = three_running();
    registry.nodes[1].version = "0.96.4".to_string();
    let (mut session, first) = UpgradeSession::begin(options(), &mut registry);
    let log = run(&mut session, &mut registry, first, &|name| {
        report(name.trim_start_matches("antnode").parse().unwrap())
    });
    assert_eq!(session.results[1], UpgradeOutcome::NotRequired);
    assert!(!log.contains(&UpgradeAction::Stop {
        service_name: "antnode2".to_string(),
        timeout_s: 5
    }));
    // one pause only: after the first node, none after the last
    assert_eq!(log.iter().filter(|a| matches!(a, UpgradeAction::Sleep(_))).count(), 1);
    assert_eq!(registry.nodes[1], node(2, ServiceStatus::Running, "0.96.4"));
}

#[test]
fn a_forced_upgrade_takes_every_node() {
    let mut registry = three_running();
    registry.nodes[1].version = "0.96.4".to_string();
    let (mut session, first) =
        UpgradeSession::begin(UpgradeOptions { force: true, ..options() }, &mut registry);
    run(&mut session, &mut registry, first, &|name| {
        report(name.trim_start_matches("antnode").parse().unwrap())
    });
    assert_eq!(session.results[1], UpgradeOutcome::Upgraded { peer_id: "peer2".to_string() });
}

#[test]
fn another_peer_id_fails_the_service_and_the_batch_goes_on() {
    let mut registry = three_running();
    let (mut session, first) = UpgradeSession::begin(options(), &mut registry);
    run(&mut session, &mut registry, first, &|name| {
        let number: u16 = name.trim_start_matches("antnode").parse().unwrap();
        if number == 2 {
            StartReport { pid: 9, peer_id: "stranger".to_string(), listen_addr: None }
        } else {
            report(number)
        }
    });
    assert_eq!(
        session.results,
        vec![
            UpgradeOutcome::Upgraded { peer_id: "peer1".to_string() },
            UpgradeOutcome::Failed(UpgradeFailure::PeerIdMismatch {
                expected: "peer2".to_string(),
                found: "stranger".to_string()
            }),
            UpgradeOutcome::Upgraded { peer_id: "peer3".to_string() },
        ]
    );
    // the registry keeps the identity it knew
    assert_eq!(registry.nodes[1].peer_id, Some("peer2".to_string()));
    assert_eq!(registry.nodes[1].status, ServiceStatus::Running);
    assert_eq!(registry.nodes[1].pid, Some(9));
}

#[test]
fn nodes_can_be_left_stopped() {
    let mut registry = three_running();
    let (mut session, first) = UpgradeSession::begin(
        UpgradeOptions { do_not_start: true, fixed_interval: None, ..options() },
        &mut registry,
    );
    let log = run(&mut session, &mut registry, first, &|_| panic!("no node is started"));
    assert_eq!(log.len(), 6);
    assert_eq!(
        session.results,
        vec![
            UpgradeOutcome::UpgradedButNotStarted,
            UpgradeOutcome::UpgradedButNotStarted,
            UpgradeOutcome::UpgradedButNotStarted
        ]
    );
    for node in &registry.nodes {
        assert_eq!(node.status, ServiceStatus::Stopped);
        assert_eq!(node.version, "0.96.4");
        assert_eq!(node.pid, None);
    }
    assert_eq!(registry.nodes[0].peer_id, Some("peer1".to_string()));
}

#[test]
fn a_changed_environment_reinstalls_the_services() {
    let mut registry = three_running();
    registry.bootstrap_peers.push("/ip4/1.1.1.1/udp/1".to_string());
    let env = Some(vec![("RUST_LOG".to_string(), "debug".to_string())]);
    let (mut session, first) = UpgradeSession::begin(
        UpgradeOptions {
            service_names: vec!["antnode3".to_string()],
            peer_ids: vec!["peer3".to_string()],
            provided_env_variables: env.clone(),
            ..options()
        },
        &mut registry,
    );
    assert!(session.reinstall);
    assert_eq!(registry.environment_variables, env);
    let log = run(&mut session, &mut registry, first, &|_| report(3));
    assert_eq!(log.len(), 4);
    match &log[2] {
        UpgradeAction::Reinstall(ctx) => {
            assert_eq!(
                ctx.args,
                vec![
                    "--rpc",
                    "127.0.0.1:8003",
                    "--root-dir",
                    "/d/antnode3",
                    "--log-output-dest",
                    "/l/antnode3",
                    "--peer",
                    "/ip4/1.1.1.1/udp/1"
                ]
            );
            assert_eq!(ctx.environment, env);
            assert_eq!(ctx.program, "/d/antnode3/antnode");
            assert_eq!(ctx.label.application, "antnode3");
        }
        other => panic!("unexpected action {other:?}"),
    }
    assert_eq!(session.results, vec![UpgradeOutcome::Upgraded { peer_id: "peer3".to_string() }]);
}

#[test]
fn a_reinstall_that_fails_ends_the_service() {
    let mut registry = three_running();
    let (mut session, _) = UpgradeSession::begin(
        UpgradeOptions {
            service_names: vec!["antnode1".to_string()],
            peer_ids: vec!["peer1".to_string()],
            provided_env_variables: Some(vec![("A".to_string(), "1".to_string())]),
            ..options()
        },
        &mut registry,
    );
    session.advance(&mut registry, UpgradeEvent::Done);
    session.advance(&mut registry, UpgradeEvent::Done);
    let a = session.advance(&mut registry, UpgradeEvent::Done);
    assert!(matches!(a, UpgradeAction::Reinstall(_)));
    let a = session.advance(&mut registry, UpgradeEvent::Failed("denied".to_string()));
    assert_eq!(a, UpgradeAction::Proceed);
    assert_eq!(
        session.results,
        vec![UpgradeOutcome::Failed(UpgradeFailure::Reinstall("denied".to_string()))]
    );
    assert_eq!(session.advance(&mut registry, UpgradeEvent::Done), UpgradeAction::Finished);
    assert_eq!(registry.nodes[0].status, ServiceStatus::Stopped);
}

#[test]
fn the_same_environment_is_reused() {
    let env = Some(vec![("A".to_string(), "1".to_string())]);
    let mut registry = three_running();
    registry.environment_variables = env.clone();
    let (session, _) = UpgradeSession::begin(
        UpgradeOptions { provided_env_variables: env.clone(), ..options() },
        &mut registry,
    );
    assert!(!session.reinstall);
    assert!(same_env(&env, &env.clone()));
    assert!(same_env(&None, &None));
    assert!(!same_env(&env, &None));
    assert!(!same_env(&env, &Some(vec![("A".to_string(), "2".to_string())])));
    assert!(!same_env(&env, &Some(vec![])));
}

#[test]
fn failures_are_recorded_per_service() {
    let mut registry = three_running();
    registry.nodes[2].status = ServiceStatus::Stopped;
    let (mut session, _) = UpgradeSession::begin(
        UpgradeOptions {
            service_names: vec![
                "antnode1".to_string(),
                "missing".to_string(),
                "antnode2".to_string(),
                "antnode3".to_string(),
            ],
            peer_ids: vec![],
            fixed_interval: None,
            ..options()
        },
        &mut registry,
    );
    let a = session.advance(&mut registry, UpgradeEvent::Done);
    assert_eq!(a, UpgradeAction::Stop { service_name: "antnode1".to_string(), timeout_s: 5 });
    let a = session.advance(&mut registry, UpgradeEvent::Failed("busy".to_string()));
    assert_eq!(a, UpgradeAction::Proceed);
    // the unknown name
    let a = session.advance(&mut registry, UpgradeEvent::Done);
    assert_eq!(a, UpgradeAction::Proceed);
    let a = session.advance(&mut registry, UpgradeEvent::Done);
    assert_eq!(a, UpgradeAction::Stop { service_name: "antnode2".to_string(), timeout_s: 5 });
    let a = session.advance(&mut registry, UpgradeEvent::Done);
    assert!(matches!(a, UpgradeAction::ReplaceBinary { .. }));
    let a = session.advance(&mut registry, UpgradeEvent::Failed("read-only".to_string()));
    assert_eq!(a, UpgradeAction::Proceed);
    // a node that does not run is not stopped
    let a = session.advance(&mut registry, UpgradeEvent::Done);
    assert_eq!(
        a,
        UpgradeAction::ReplaceBinary {
            service_name: "antnode3".to_string(),
            path: "/d/antnode3/antnode".to_string()
        }
    );
    let a = session.advance(&mut registry, UpgradeEvent::Done);
    assert_eq!(a, UpgradeAction::Start { service_name: "antnode3".to_string(), timeout_s: 5 });
    let a = session.advance(&mut registry, UpgradeEvent::Failed("timed out".to_string()));
    assert_eq!(a, UpgradeAction::Proceed);
    let a = session.advance(&mut registry, UpgradeEvent::Done);
    assert_eq!(a, UpgradeAction::Finished);
    assert_eq!(
        session.results,
        vec![
            UpgradeOutcome::Failed(UpgradeFailure::Stop("busy".to_string())),
            UpgradeOutcome::Failed(UpgradeFailure::NotFound),
            UpgradeOutcome::Failed(UpgradeFailure::Replace("read-only".to_string())),
            UpgradeOutcome::Failed(UpgradeFailure::Start("timed out".to_string())),
        ]
    );
    assert_eq!(registry.nodes[0], node(1, ServiceStatus::Running, "0.96.3"));
    assert_eq!(registry.nodes[1].status, ServiceStatus::Stopped);
    assert_eq!(registry.nodes[1].version, "0.96.3");
    assert_eq!(registry.nodes[2].version, "0.96.4");
}

fn reset_task(start: bool) -> NodeManagementTask {
    NodeManagementTask::ResetNodes { start_nodes_after_reset: start }
}

fn stop_task(name: &str) -> NodeManagementTask {
    NodeManagementTask::StopNodes { services: vec![name.to_string()] }
}

#[test]
fn tasks_run_in_the_order_in_which_they_came() {
    let mut d = Dispatcher::new();
    assert!(d.submit(stop_task("a")));
    assert!(d.submit(reset_task(true)));
    assert!(d.submit(stop_task("b")));
    assert_eq!(d.start_next(), Some(stop_task("a")));
    assert_eq!(d.lock, Some(LockRegistryState::StoppingNodes));
    assert_eq!(d.running, Some(TaskKind::Stop));
    // one task at a time
    assert_eq!(d.start_next(), None);
    assert_eq!(d.complete(Ok(())), Some(StatusActions::StopNodesCompleted));
    assert_eq!(d.lock, None);
    assert_eq!(d.start_next(), Some(reset_task(true)));
    assert_eq!(d.lock, Some(LockRegistryState::ResettingNodes));
    assert_eq!(
        d.complete(Ok(())),
        Some(StatusActions::ResetNodesCompleted { trigger_start_node: true })
    );
    assert_eq!(d.start_next(), Some(stop_task("b")));
    assert_eq!(
        d.complete(Err("gone".to_string())),
        Some(StatusActions::ErrorStoppingNodes { raw_error: "gone".to_string() })
    );
    assert_eq!(d.lock, None);
    assert_eq!(d.start_next(), None);
    assert_eq!(d.complete(Ok(())), None);
}

#[test]
fn a_task_that_comes_while_another_runs_is_rejected() {
    let mut d = Dispatcher::new();
    assert!(d.submit(reset_task(false)));
    assert!(d.start_next().is_some());
    assert!(!d.submit(stop_task("a")));
    assert!(d.queue.is_empty());
    assert_eq!(
        d.complete(Err("no".to_string())),
        Some(StatusActions::ErrorResettingNodes { raw_error: "no".to_string() })
    );
    assert!(d.submit(stop_task("a")));
    assert_eq!(d.queue.len(), 1);
}

#[test]
fn every_kind_of_task_reports_its_end() {
    let upgrade = NodeManagementTask::UpgradeNodes {
        args: UpgradeNodesArgs {
            connection_timeout_s: 5,
            do_not_start: true,
            custom_bin_path: None,
            force: false,
            fixed_interval: Some(60_000),
            peer_ids: vec![],
            provided_env_variables: None,
            service_names: vec![],
            url: None,
            version: None,
        },
    };
    let mut d = Dispatcher::new();
    assert!(d.submit(upgrade.clone()));
    assert_eq!(d.start_next(), Some(upgrade.clone()));
    assert_eq!(d.lock, Some(LockRegistryState::UpdatingNodes));
    assert_eq!(d.complete(Ok(())), Some(StatusActions::UpdateNodesCompleted));
    assert!(d.submit(upgrade));
    d.start_next();
    assert_eq!(
        d.complete(Err("x".to_string())),
        Some(StatusActions::ErrorUpdatingNodes { raw_error: "x".to_string() })
    );
}
