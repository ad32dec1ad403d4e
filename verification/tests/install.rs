use node_fleet::install::{
    build_daemon_context, InstallFaucetServiceCtxBuilder, InstallNodeServiceCtxBuilder,
    ServiceLabel,
};
use node_fleet::registry::{node_service_name, Ipv4Address, SocketAddress};
use node_fleet::text::{blank_string, decimal_string, pad_left, wide_decimal_string};

fn builder() -> InstallNodeServiceCtxBuilder {
    InstallNodeServiceCtxBuilder {
        bootstrap_peers: vec![],
        data_dir_path: "/d/antnode1".to_string(),
        env_variables: None,
        genesis: false,
        local: false,
        log_dir_path: "/l/antnode1".to_string(),
        name: "antnode1".to_string(),
        node_port: None,
        rpc_socket_addr: SocketAddress::new(Ipv4Address::localhost(), 8081),
        safenode_path: "/d/antnode1/antnode".to_string(),
        service_user: "svc".to_string(),
    }
}

#[test]
fn node_context_with_the_least_arguments() {
    let ctx = builder().build();
    assert_eq!(
        ctx.args,
        vec!["--rpc", "127.0.0.1:8081", "--root-dir", "/d/antnode1", "--log-output-dest", "/l/antnode1"]
    );
    assert_eq!(
        ctx.label,
        ServiceLabel { qualifier: None, organization: None, application: "antnode1".to_string() }
    );
    assert_eq!(ctx.program, "/d/antnode1/antnode");
    assert_eq!(ctx.contents, None);
    assert_eq!(ctx.username, Some("svc".to_string()));
    assert_eq!(ctx.working_directory, None);
    assert_eq!(ctx.environment, None);
}

#[test]
fn node_context_with_every_argument_in_order() {
    let ctx = InstallNodeServiceCtxBuilder {
        bootstrap_peers: vec!["/ip4/1.1.1.1/udp/1".to_string(), "/ip4/2.2.2.2/udp/2".to_string()],
        env_variables: Some(vec![("RUST_LOG".to_string(), "debug".to_string())]),
        genesis: true,
        local: true,
        node_port: Some(12000),
        ..builder()
    }
    .build();
    assert_eq!(
        ctx.args,
        vec![
            "--rpc",
            "127.0.0.1:8081",
            "--port",
            "12000",
            "--local",
            "--genesis",
            "--root-dir",
            "/d/antnode1",
            "--log-output-dest",
            "/l/antnode1",
            "--peer",
            "/ip4/1.1.1.1/udp/1",
            "--peer",
            "/ip4/2.2.2.2/udp/2",
        ]
    );
    assert_eq!(ctx.environment, Some(vec![("RUST_LOG".to_string(), "debug".to_string())]));
}

#[test]
fn equal_builders_give_equal_contexts() {
    let a = InstallNodeServiceCtxBuilder { local: true, node_port: Some(1), ..builder() };
    let b = a.clone();
    assert_eq!(a.build(), b.build());
}

#[test]
fn a_qualified_name_is_cut_into_its_parts() {
    let ctx = InstallNodeServiceCtxBuilder { name: "org.example.node".to_string(), ..builder() }
        .build();
    assert_eq!(
        ctx.label,
        ServiceLabel {
            qualifier: Some("org".to_string()),
            organization: Some("example".to_string()),
            application: "node".to_string()
        }
    );
    let ctx =
        InstallNodeServiceCtxBuilder { name: "example.node".to_string(), ..builder() }.build();
    assert_eq!(
        ctx.label,
        ServiceLabel {
            qualifier: None,
            organization: Some("example".to_string()),
            application: "node".to_string()
        }
    );
}

#[test]
fn faucet_context_runs_the_server() {
    let ctx = InstallFaucetServiceCtxBuilder {
        bootstrap_peers: vec!["/ip4/1.1.1.1/udp/1".to_string()],
        env_variables: None,
        faucet_path: "/usr/local/bin/faucet".to_string(),
        local: false,
        log_dir_path: "/var/log/faucet".to_string(),
        name: "faucet".to_string(),
        service_user: "svc".to_string(),
    }
    .build();
    assert_eq!(
        ctx.args,
        vec!["--log-output-dest", "/var/log/faucet", "--peer", "/ip4/1.1.1.1/udp/1", "server"]
    );
    assert_eq!(ctx.program, "/usr/local/bin/faucet");
    assert_eq!(ctx.username, Some("svc".to_string()));
}

#[test]
fn daemon_context_names_port_and_address() {
    let ctx = build_daemon_context(
        &"safenodemand".to_string(),
        "/usr/local/bin/safenodemand".to_string(),
        Ipv4Address::new(192, 168, 1, 20),
        65535,
    );
    assert_eq!(ctx.args, vec!["--port", "65535", "--address", "192.168.1.20"]);
    assert_eq!(ctx.username, None);
    assert_eq!(ctx.environment, None);
    assert_eq!(ctx.label.application, "safenodemand");
}

#[test]
fn addresses_are_written_in_decimal() {
    assert_eq!(Ipv4Address::new(0, 10, 200, 255).to_text(), "0.10.200.255");
    assert_eq!(Ipv4Address::localhost().to_text(), "127.0.0.1");
    assert_eq!(SocketAddress::new(Ipv4Address::new(1, 2, 3, 4), 0).to_text(), "1.2.3.4:0");
    assert_eq!(SocketAddress::new(Ipv4Address::new(1, 2, 3, 4), 65535).to_text(), "1.2.3.4:65535");
}

#[test]
fn node_names_follow_the_numbers() {
    assert_eq!(node_service_name(1), "antnode1");
    assert_eq!(node_service_name(10), "antnode10");
    assert_eq!(node_service_name(65535), "antnode65535");
    assert_eq!(node_service_name(0), "antnode0");
}

#[test]
fn numbers_are_written_in_decimal() {
    assert_eq!(decimal_string(0), "0");
    assert_eq!(decimal_string(7), "7");
    assert_eq!(decimal_string(10), "10");
    assert_eq!(decimal_string(1234567890), "1234567890");
    assert_eq!(decimal_string(u64::MAX), "18446744073709551615");
    assert_eq!(wide_decimal_string(u128::MAX), "340282366920938463463374607431768211455");
}

#[test]
fn padding_counts_bytes() {
    assert_eq!(pad_left(&"7".to_string(), 5), "    7");
    assert_eq!(pad_left(&"12345".to_string(), 5), "12345");
    assert_eq!(pad_left(&"123456".to_string(), 5), "123456");
    assert_eq!(pad_left(&"".to_string(), 2), "  ");
    // an arrow takes three bytes
    assert_eq!(pad_left(&"↓1".to_string(), 6), "  ↓1");
    assert_eq!(pad_left(&"↓00001 ↑00002".to_string(), 13), "↓00001 ↑00002");
    assert_eq!(blank_string(3), "   ");
}
