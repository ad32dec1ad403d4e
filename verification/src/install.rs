//! Install contexts: what is handed to the operating system's service
//! manager when a service is defined. A context is a function of the
//! builder's fields alone, so equal builders give equal contexts.
use vstd::prelude::*;
use vstd::string::*;
use crate::registry::{SocketAddress, Ipv4Address, socket_text, ip_text, texts, env_texts};
use crate::text::{decimal, decimal_string};
use crate::paths::opt_text;

verus! {

/// A service label in the three parts that the service manager reads.
#[derive(Clone, Debug, PartialEq, Eq)]
pub struct ServiceLabel {
    pub qualifier: Option<String>,
    pub organization: Option<String>,
    pub application: String,
}

/// The texts of a label's three parts.
pub struct LabelView {
    pub qualifier: Option<Seq<char>>,
    pub organization: Option<Seq<char>>,
    pub application: Seq<char>,
}

impl View for ServiceLabel {
    type V = LabelView;

    open spec fn view(&self) -> LabelView {
        LabelView {
            qualifier: opt_text(self.qualifier),
            organization: opt_text(self.organization),
            application: self.application@,
        }
    }
}

/// The label that the service manager reads out of a qualified name.
pub uninterp spec fn parsed_label(name: Seq<char>) -> LabelView;

/// The label of a name without a dot: the name is the application, and there
/// is neither qualifier nor organization.
pub open spec fn plain_label(name: Seq<char>) -> LabelView {
    LabelView { qualifier: None, organization: None, application: name }
}

/// Parses a qualified service name with `service_manager::ServiceLabel::from_str`
/// and copies the three parts of the label it returns.
///
/// Trusted: that function never fails; it cuts the name at its dots, so a
/// name without a dot comes back whole as the application, with no qualifier
/// and no organization. What it returns for other names is `parsed_label`.
#[verifier::external_body]
fn parse_service_label(name: &str) -> (r: Option<ServiceLabel>)
    ensures
        r is Some,
        r->Some_0@ == parsed_label(name@),
        !name@.contains('.') ==> r->Some_0@ == plain_label(name@),
{
    match name.parse::<service_manager::ServiceLabel>() {
        Ok(l) => Some(
            ServiceLabel {
                qualifier: l.qualifier,
                organization: l.organization,
                application: l.application,
            },
        ),
        Err(_) => None,
    }
}

/// What the service manager is given to define a service.
#[derive(Clone, Debug, PartialEq, Eq)]
pub struct ServiceInstallCtx {
    pub label: ServiceLabel,
    pub program: String,
    pub args: Vec<String>,
    pub contents: Option<String>,
    pub username: Option<String>,
    pub working_directory: Option<String>,
    pub environment: Option<Vec<(String, String)>>,
}

/// An install context as plain text.
pub struct InstallCtxView {
    pub label: LabelView,
    pub program: Seq<char>,
    pub args: Seq<Seq<char>>,
    pub contents: Option<Seq<char>>,
    pub username: Option<Seq<char>>,
    pub working_directory: Option<Seq<char>>,
    pub environment: Option<Seq<(Seq<char>, Seq<char>)>>,
}

impl View for ServiceInstallCtx {
    type V = InstallCtxView;

    open spec fn view(&self) -> InstallCtxView {
        InstallCtxView {
            label: self.label@,
            program: self.program@,
            args: texts(self.args@),
            contents: opt_text(self.contents),
            username: opt_text(self.username),
            working_directory: opt_text(self.working_directory),
            environment: env_texts(self.environment),
        }
    }
}

/// One `--peer` flag with its address for each bootstrap peer, in order.
pub open spec fn peer_args(peers: Seq<Seq<char>>) -> Seq<Seq<char>>
    decreases peers.len(),
{
    if peers.len() == 0 {
        Seq::empty()
    } else {
        peer_args(peers.drop_last()) + seq!["--peer"@, peers.last()]
    }
}

/// The `--port` flag with the custom port, where one is set.
pub open spec fn port_args(node_port: Option<u16>) -> Seq<Seq<char>> {
    match node_port {
        Some(p) => seq!["--port"@, decimal(p as nat)],
        None => Seq::empty(),
    }
}

/// A flag that is present or absent.
pub open spec fn flag_args(flag: Seq<char>, present: bool) -> Seq<Seq<char>> {
    if present {
        seq![flag]
    } else {
        Seq::empty()
    }
}

/// The argument vector of a node service.
pub open spec fn node_args(
    rpc: SocketAddress,
    node_port: Option<u16>,
    local: bool,
    genesis: bool,
    data_dir: Seq<char>,
    log_dir: Seq<char>,
    peers: Seq<Seq<char>>,
) -> Seq<Seq<char>> {
    seq!["--rpc"@, socket_text(rpc)] + port_args(node_port) + flag_args("--local"@, local)
        + flag_args("--genesis"@, genesis) + seq![
        "--root-dir"@,
        data_dir,
        "--log-output-dest"@,
        log_dir,
    ] + peer_args(peers)
}

/// The argument vector of the faucet service.
pub open spec fn faucet_args(log_dir: Seq<char>, peers: Seq<Seq<char>>) -> Seq<Seq<char>> {
    seq!["--log-output-dest"@, log_dir] + peer_args(peers) + seq!["server"@]
}

/// The argument vector of the daemon service.
pub open spec fn daemon_args(address: Ipv4Address, port: u16) -> Seq<Seq<char>> {
    seq!["--port"@, decimal(port as nat), "--address"@, ip_text(address)]
}

/// Appends one `--peer` flag with its address for each peer.
fn push_peer_args(args: &mut Vec<String>, peers: &Vec<String>)
    ensures
        texts(final(args)@) == texts(old(args)@) + peer_args(texts(peers@)),
{
    let mut i: usize = 0;
    assert(texts(peers@).take(0) =~= Seq::<Seq<char>>::empty());
    assert(texts(args@) =~= texts(old(args)@) + peer_args(texts(peers@).take(0)));
    while i < peers.len()
        invariant
            i <= peers.len(),
            texts(args@) == texts(old(args)@) + peer_args(texts(peers@).take(i as int)),
        decreases peers.len() - i,
    {
        let ghost before = args@;
        args.push(String::from_str("--peer"));
        args.push(peers[i].clone());
        proof {
            let done = texts(peers@).take(i as int);
            let next = texts(peers@).take(i + 1);
            assert(next.drop_last() =~= done);
            assert(next.last() == peers@[i as int]@);
            assert(texts(args@) =~= texts(before) + seq!["--peer"@, peers@[i as int]@]);
            assert(texts(args@) =~= texts(old(args)@) + peer_args(next));
        }
        i = i + 1;
    }
    assert(texts(peers@).take(peers.len() as int) =~= texts(peers@));
}

/// The fields that make up the install context of a node service.
#[derive(Clone, Debug, PartialEq, Eq)]
pub struct InstallNodeServiceCtxBuilder {
    pub bootstrap_peers: Vec<String>,
    pub data_dir_path: String,
    pub env_variables: Option<Vec<(String, String)>>,
    pub genesis: bool,
    pub local: bool,
    pub log_dir_path: String,
    pub name: String,
    pub node_port: Option<u16>,
    pub rpc_socket_addr: SocketAddress,
    pub safenode_path: String,
    pub service_user: String,
}

impl InstallNodeServiceCtxBuilder {
    /// The install context that these fields describe.
    pub open spec fn context(&self) -> InstallCtxView {
        InstallCtxView {
            label: parsed_label(self.name@),
            program: self.safenode_path@,
            args: node_args(
                self.rpc_socket_addr,
                self.node_port,
                self.local,
                self.genesis,
                self.data_dir_path@,
                self.log_dir_path@,
                texts(self.bootstrap_peers@),
            ),
            contents: None,
            username: Some(self.service_user@),
            working_directory: None,
            environment: env_texts(self.env_variables),
        }
    }

    /// Builds the install context: the label parsed from the name, the node
    /// binary as program, the argument vector in its fixed order, the service
    /// user and the environment.
    pub fn build(self) -> (ctx: ServiceInstallCtx)
        ensures
            ctx@ == self.context(),
            !self.name@.contains('.') ==> ctx.label@ == plain_label(self.name@),
    {
        let label = parse_service_label(self.name.as_str()).unwrap();
        let mut args: Vec<String> = Vec::new();
        args.push(String::from_str("--rpc"));
        args.push(self.rpc_socket_addr.to_text());
        match self.node_port {
            Some(p) => {
                args.push(String::from_str("--port"));
                args.push(decimal_string(p as u64));
            },
            None => {},
        }
        if self.local {
            args.push(String::from_str("--local"));
        }
        if self.genesis {
            args.push(String::from_str("--genesis"));
        }
        args.push(String::from_str("--root-dir"));
        args.push(self.data_dir_path);
        args.push(String::from_str("--log-output-dest"));
        args.push(self.log_dir_path);
        assert(texts(args@) =~= seq!["--rpc"@, socket_text(self.rpc_socket_addr)] + port_args(
            self.node_port,
        ) + flag_args("--local"@, self.local) + flag_args("--genesis"@, self.genesis) + seq![
            "--root-dir"@,
            self.data_dir_path@,
            "--log-output-dest"@,
            self.log_dir_path@,
        ]);
        push_peer_args(&mut args, &self.bootstrap_peers);
        ServiceInstallCtx {
            label,
            program: self.safenode_path,
            args,
            contents: None,
            username: Some(self.service_user),
            working_directory: None,
            environment: self.env_variables,
        }
    }
}

/// The fields that make up the install context of the faucet service.
#[derive(Clone, Debug, PartialEq, Eq)]
pub struct InstallFaucetServiceCtxBuilder {
    pub bootstrap_peers: Vec<String>,
    pub env_variables: Option<Vec<(String, String)>>,
    pub faucet_path: String,
    pub local: bool,
    pub log_dir_path: String,
    pub name: String,
    pub service_user: String,
}

impl InstallFaucetServiceCtxBuilder {
    /// The install context that these fields describe.
    pub open spec fn context(&self) -> InstallCtxView {
        InstallCtxView {
            label: parsed_label(self.name@),
            program: self.faucet_path@,
            args: faucet_args(self.log_dir_path@, texts(self.bootstrap_peers@)),
            contents: None,
            username: Some(self.service_user@),
            working_directory: None,
            environment: env_texts(self.env_variables),
        }
    }

    /// Builds the install context of the faucet, which runs as a server.
    pub fn build(self) -> (ctx: ServiceInstallCtx)
        ensures
            ctx@ == self.context(),
            !self.name@.contains('.') ==> ctx.label@ == plain_label(self.name@),
    {
        let label = parse_service_label(self.name.as_str()).unwrap();
        let mut args: Vec<String> = Vec::new();
        args.push(String::from_str("--log-output-dest"));
        args.push(self.log_dir_path);
        assert(texts(args@) =~= seq!["--log-output-dest"@, self.log_dir_path@]);
        push_peer_args(&mut args, &self.bootstrap_peers);
        let ghost with_peers = args@;
        args.push(String::from_str("server"));
        assert(texts(args@) =~= texts(with_peers) + seq!["server"@]);
        ServiceInstallCtx {
            label,
            program: self.faucet_path,
            args,
            contents: None,
            username: Some(self.service_user),
            working_directory: None,
            environment: self.env_variables,
        }
    }
}

/// The install context of the daemon as plain text.
pub open spec fn daemon_context(
    name: Seq<char>,
    program: Seq<char>,
    address: Ipv4Address,
    port: u16,
) -> InstallCtxView {
    InstallCtxView {
        label: parsed_label(name),
        program,
        args: daemon_args(address, port),
        contents: None,
        username: None,
        working_directory: None,
        environment: None,
    }
}

/// Builds the install context of the daemon, which listens on `address` and
/// `port` and runs without a service user or an environment.
pub fn build_daemon_context(name: &String, program: String, address: Ipv4Address, port: u16) -> (ctx:
    ServiceInstallCtx)
    ensures
        ctx@ == daemon_context(name@, program@, address, port),
        !name@.contains('.') ==> ctx.label@ == plain_label(name@),
{
    let label = parse_service_label(name.as_str()).unwrap();
    let mut args: Vec<String> = Vec::new();
    args.push(String::from_str("--port"));
    args.push(decimal_string(port as u64));
    args.push(String::from_str("--address"));
    args.push(address.to_text());
    assert(texts(args@) =~= daemon_args(address, port));
    ServiceInstallCtx {
        label,
        program,
        args,
        contents: None,
        username: None,
        working_directory: None,
        environment: None,
    }
}

} // verus!
