//! The registry: the authoritative record of every service provisioned on
//! this host, with the fleet-wide settings that go with it.
use vstd::prelude::*;
use vstd::string::*;
use crate::text::{decimal, push_decimal};

verus! {

/// Lifecycle state of a managed service.
#[derive(Clone, Copy, Debug, PartialEq, Eq, Structural)]
pub enum ServiceStatus {
    /// Installed, never started.
    Added,
    /// The service process is up.
    Running,
    /// Started at least once, currently down.
    Stopped,
    /// Uninstalled; the record is kept but no longer part of the fleet.
    Removed,
}

/// The transitions a record may take. `Removed` is terminal.
pub open spec fn transition_allowed(from: ServiceStatus, to: ServiceStatus) -> bool {
    ||| from is Added && to is Running
    ||| from is Running && to is Stopped
    ||| from is Stopped && to is Running
    ||| from is Stopped && to is Removed
    ||| from is Added && to is Removed
}

/// Cached result of the reachability probe.
#[derive(Clone, Copy, Debug, PartialEq, Eq, Structural)]
pub enum NatStatus {
    Public,
    Private,
    Unknown,
}

/// An IPv4 address, by its four octets.
#[derive(Clone, Copy, Debug, PartialEq, Eq, Structural)]
pub struct Ipv4Address {
    pub a: u8,
    pub b: u8,
    pub c: u8,
    pub d: u8,
}

/// An IPv4 address with a port.
#[derive(Clone, Copy, Debug, PartialEq, Eq, Structural)]
pub struct SocketAddress {
    pub ip: Ipv4Address,
    pub port: u16,
}

/// Dotted-decimal text of an address.
pub open spec fn ip_text(ip: Ipv4Address) -> Seq<char> {
    decimal(ip.a as nat) + seq!['.'] + decimal(ip.b as nat) + seq!['.'] + decimal(ip.c as nat)
        + seq!['.'] + decimal(ip.d as nat)
}

/// Text of a socket address: the address, a colon, the port.
pub open spec fn socket_text(addr: SocketAddress) -> Seq<char> {
    ip_text(addr.ip) + seq![':'] + decimal(addr.port as nat)
}

impl Ipv4Address {
    pub fn new(a: u8, b: u8, c: u8, d: u8) -> (r: Self)
        ensures
            r == (Ipv4Address { a, b, c, d }),
    {
        Ipv4Address { a, b, c, d }
    }

    /// The loopback address 127.0.0.1, where RPC sockets are bound by default.
    pub fn localhost() -> (r: Self)
        ensures
            r == (Ipv4Address { a: 127, b: 0, c: 0, d: 1 }),
    {
        Ipv4Address { a: 127, b: 0, c: 0, d: 1 }
    }

    /// Dotted-decimal text, as in `127.0.0.1`.
    pub fn to_text(&self) -> (s: String)
        ensures
            s@ == ip_text(*self),
    {
        proof {
            reveal_strlit(".");
        }
        let mut s = String::new();
        push_decimal(&mut s, self.a as u128);
        s.append(".");
        push_decimal(&mut s, self.b as u128);
        s.append(".");
        push_decimal(&mut s, self.c as u128);
        s.append(".");
        push_decimal(&mut s, self.d as u128);
        assert(s@ =~= ip_text(*self));
        s
    }
}

impl SocketAddress {
    pub fn new(ip: Ipv4Address, port: u16) -> (r: Self)
        ensures
            r == (SocketAddress { ip, port }),
    {
        SocketAddress { ip, port }
    }

    /// Text of the address, as in `127.0.0.1:8081`.
    pub fn to_text(&self) -> (s: String)
        ensures
            s@ == socket_text(*self),
    {
        proof {
            reveal_strlit(":");
        }
        let mut s = self.ip.to_text();
        s.append(":");
        push_decimal(&mut s, self.port as u128);
        assert(s@ =~= socket_text(*self));
        s
    }
}

/// The name of node number `n`.
pub open spec fn node_name(n: nat) -> Seq<char> {
    "antnode"@ + decimal(n)
}

/// The service name of node number `n`: `antnode` followed by the number.
pub fn node_service_name(n: u16) -> (s: String)
    ensures
        s@ == node_name(n as nat),
{
    let mut s = String::from_str("antnode");
    push_decimal(&mut s, n as u128);
    s
}

/// The record of one node service.
#[derive(Clone, Debug, PartialEq, Eq)]
pub struct NodeService {
    pub service_name: String,
    pub number: u16,
    pub user: String,
    pub version: String,
    pub genesis: bool,
    pub local: bool,
    pub rpc_socket_addr: SocketAddress,
    pub node_port: Option<u16>,
    pub listen_addr: Option<String>,
    pub peer_id: Option<String>,
    pub pid: Option<u32>,
    pub status: ServiceStatus,
    pub safenode_path: String,
    pub data_dir_path: String,
    pub log_dir_path: String,
    pub connected_peers: Option<Vec<String>>,
    /// Time (seconds since the epoch) and message of the last fatal failure.
    pub critical_failure: Option<(i64, String)>,
}

/// The record of the faucet service.
#[derive(Clone, Debug, PartialEq, Eq)]
pub struct FaucetService {
    pub faucet_path: String,
    pub local: bool,
    pub log_dir_path: String,
    pub pid: Option<u32>,
    pub service_name: String,
    pub status: ServiceStatus,
    pub user: String,
    pub version: String,
}

/// The record of the manager daemon service.
#[derive(Clone, Debug, PartialEq, Eq)]
pub struct DaemonService {
    pub daemon_path: String,
    pub endpoint: Option<SocketAddress>,
    pub pid: Option<u32>,
    pub service_name: String,
    pub status: ServiceStatus,
    pub version: String,
}

/// The persisted document.
#[derive(Clone, Debug, PartialEq, Eq)]
pub struct Registry {
    pub save_path: String,
    pub nodes: Vec<NodeService>,
    pub faucet: Option<FaucetService>,
    pub daemon: Option<DaemonService>,
    pub bootstrap_peers: Vec<String>,
    pub environment_variables: Option<Vec<(String, String)>>,
    pub nat_status: Option<NatStatus>,
}

/// The texts of a list of strings.
pub open spec fn texts(v: Seq<String>) -> Seq<Seq<char>> {
    Seq::new(v.len(), |i: int| v[i]@)
}

/// The texts of a list of name and value pairs.
pub open spec fn pair_texts(v: Seq<(String, String)>) -> Seq<(Seq<char>, Seq<char>)> {
    Seq::new(v.len(), |i: int| (v[i].0@, v[i].1@))
}

/// The texts of an optional environment.
pub open spec fn env_texts(e: Option<Vec<(String, String)>>) -> Option<Seq<(Seq<char>, Seq<char>)>> {
    match e {
        Some(v) => Some(pair_texts(v@)),
        None => None,
    }
}

/// Some node of the list is a genesis node.
pub open spec fn has_genesis(nodes: Seq<NodeService>) -> bool {
    exists|i: int| 0 <= i < nodes.len() && (#[trigger] nodes[i]).genesis
}

/// No two nodes of the list are genesis nodes.
pub open spec fn at_most_one_genesis(nodes: Seq<NodeService>) -> bool {
    forall|i: int, j: int|
        0 <= i < j < nodes.len() ==> !((#[trigger] nodes[i]).genesis && (#[trigger] nodes[j]).genesis)
}

/// Some node of the list has its RPC socket at `addr`.
pub open spec fn rpc_in_use(nodes: Seq<NodeService>, addr: SocketAddress) -> bool {
    exists|i: int| 0 <= i < nodes.len() && (#[trigger] nodes[i]).rpc_socket_addr == addr
}

/// No two nodes of the list share an RPC socket address.
pub open spec fn rpc_distinct(nodes: Seq<NodeService>) -> bool {
    forall|i: int, j: int|
        0 <= i < j < nodes.len() ==> (#[trigger] nodes[i]).rpc_socket_addr != (
        #[trigger] nodes[j]).rpc_socket_addr
}

/// Some node of the list listens on the custom port `port`.
pub open spec fn node_port_in_use(nodes: Seq<NodeService>, port: u16) -> bool {
    exists|i: int| 0 <= i < nodes.len() && (#[trigger] nodes[i]).node_port == Some(port)
}

/// No two nodes of the list share a custom port.
pub open spec fn node_ports_distinct(nodes: Seq<NodeService>) -> bool {
    forall|i: int, j: int|
        0 <= i < j < nodes.len() && (#[trigger] nodes[i]).node_port is Some ==> nodes[i].node_port
            != (#[trigger] nodes[j]).node_port
}

/// Every node is named after its number.
pub open spec fn names_follow_numbers(nodes: Seq<NodeService>) -> bool {
    forall|i: int|
        0 <= i < nodes.len() ==> (#[trigger] nodes[i]).service_name@ == node_name(
            nodes[i].number as nat,
        )
}

/// The nodes are numbered 1, 2, 3, ... in list order, without gaps.
pub open spec fn densely_numbered(nodes: Seq<NodeService>) -> bool {
    forall|i: int| 0 <= i < nodes.len() ==> (#[trigger] nodes[i]).number == i + 1
}

/// The node numbers grow strictly along the list.
pub open spec fn ascending_numbers(nodes: Seq<NodeService>) -> bool {
    forall|i: int, j: int|
        0 <= i < j < nodes.len() ==> (#[trigger] nodes[i]).number < (#[trigger] nodes[j]).number
}

/// The highest number that a node of the list has; zero for no node.
pub open spec fn highest_number(nodes: Seq<NodeService>) -> u16
    decreases nodes.len(),
{
    if nodes.len() == 0 {
        0
    } else if nodes.last().number > highest_number(nodes.drop_last()) {
        nodes.last().number
    } else {
        highest_number(nodes.drop_last())
    }
}

/// No node has a number above the highest; and nodes that are numbered
/// without gaps are as many as their highest number.
pub proof fn lemma_highest_number(nodes: Seq<NodeService>)
    ensures
        forall|i: int| 0 <= i < nodes.len() ==> (#[trigger] nodes[i]).number <= highest_number(nodes),
        densely_numbered(nodes) ==> highest_number(nodes) == nodes.len(),
    decreases nodes.len(),
{
    if nodes.len() > 0 {
        let rest = nodes.drop_last();
        lemma_highest_number(rest);
        assert forall|i: int| 0 <= i < nodes.len() implies (#[trigger] nodes[i]).number
            <= highest_number(nodes) by {
            if i < rest.len() {
                assert(rest[i] == nodes[i]);
            }
        }
        if densely_numbered(nodes) {
            assert forall|i: int| 0 <= i < rest.len() implies (#[trigger] rest[i]).number == i + 1 by {
                assert(rest[i] == nodes[i]);
            }
            assert(nodes.last() == nodes[nodes.len() - 1]);
        }
    }
}

/// Some string of the list has the text `t`.
pub open spec fn has_text(v: Seq<String>, t: Seq<char>) -> bool {
    exists|i: int| 0 <= i < v.len() && (#[trigger] v[i])@ == t
}

/// No two strings of the list have the same text.
pub open spec fn texts_distinct(v: Seq<String>) -> bool {
    forall|i: int, j: int| 0 <= i < j < v.len() ==> (#[trigger] v[i])@ != (#[trigger] v[j])@
}

/// The index of the first node named `name`, if there is one.
pub open spec fn first_named(nodes: Seq<NodeService>, name: Seq<char>, i: int) -> bool {
    &&& 0 <= i < nodes.len()
    &&& nodes[i].service_name@ == name
    &&& forall|k: int| 0 <= k < i ==> (#[trigger] nodes[k]).service_name@ != name
}

/// No node is named `name`.
pub open spec fn none_named(nodes: Seq<NodeService>, name: Seq<char>) -> bool {
    forall|k: int| 0 <= k < nodes.len() ==> (#[trigger] nodes[k]).service_name@ != name
}

/// Whether `v` holds a string with the text of `t`.
pub fn contains_text(v: &Vec<String>, t: &String) -> (r: bool)
    ensures
        r == has_text(v@, t@),
{
    let mut i: usize = 0;
    while i < v.len()
        invariant
            i <= v.len(),
            forall|k: int| 0 <= k < i ==> (#[trigger] v@[k])@ != t@,
        decreases v.len() - i,
    {
        if v[i] == *t {
            return true;
        }
        i = i + 1;
    }
    false
}

impl Registry {
    /// The invariant of a registry: no RPC socket and no custom port is used
    /// twice, at most one node is a genesis node, every node is named after
    /// its number, the numbers grow along the list, so that no number occurs
    /// twice, and no bootstrap peer is listed twice.
    pub open spec fn wf(&self) -> bool {
        &&& rpc_distinct(self.nodes@)
        &&& node_ports_distinct(self.nodes@)
        &&& at_most_one_genesis(self.nodes@)
        &&& names_follow_numbers(self.nodes@)
        &&& ascending_numbers(self.nodes@)
        &&& texts_distinct(self.bootstrap_peers@)
    }

    /// The highest number that a node of the registry has; zero if it has
    /// no node.
    pub fn highest_number(&self) -> (r: u16)
        ensures
            r == highest_number(self.nodes@),
    {
        let mut r: u16 = 0;
        let mut i: usize = 0;
        assert(self.nodes@.take(0) =~= Seq::<NodeService>::empty());
        while i < self.nodes.len()
            invariant
                i <= self.nodes@.len(),
                r == highest_number(self.nodes@.take(i as int)),
            decreases self.nodes@.len() - i,
        {
            assert(self.nodes@.take(i + 1).drop_last() =~= self.nodes@.take(i as int));
            if self.nodes[i].number > r {
                r = self.nodes[i].number;
            }
            i = i + 1;
        }
        assert(self.nodes@.take(self.nodes@.len() as int) =~= self.nodes@);
        r
    }

    /// An empty registry that will be saved at `save_path`: what a load
    /// yields when no file exists yet.
    pub fn new(save_path: String) -> (r: Self)
        ensures
            r.save_path == save_path,
            r.nodes@.len() == 0,
            r.faucet is None,
            r.daemon is None,
            r.bootstrap_peers@.len() == 0,
            r.environment_variables is None,
            r.nat_status is None,
            r.wf(),
    {
        Registry {
            save_path,
            nodes: Vec::new(),
            faucet: None,
            daemon: None,
            bootstrap_peers: Vec::new(),
            environment_variables: None,
            nat_status: None,
        }
    }

    /// Whether a genesis node is recorded.
    pub fn has_genesis_node(&self) -> (r: bool)
        ensures
            r == has_genesis(self.nodes@),
    {
        let mut i: usize = 0;
        while i < self.nodes.len()
            invariant
                i <= self.nodes.len(),
                forall|k: int| 0 <= k < i ==> !(#[trigger] self.nodes@[k]).genesis,
            decreases self.nodes.len() - i,
        {
            if self.nodes[i].genesis {
                return true;
            }
            i = i + 1;
        }
        false
    }

    /// Whether some node already has its RPC socket at `addr`.
    pub fn rpc_address_in_use(&self, addr: SocketAddress) -> (r: bool)
        ensures
            r == rpc_in_use(self.nodes@, addr),
    {
        let mut i: usize = 0;
        while i < self.nodes.len()
            invariant
                i <= self.nodes.len(),
                forall|k: int| 0 <= k < i ==> (#[trigger] self.nodes@[k]).rpc_socket_addr != addr,
            decreases self.nodes.len() - i,
        {
            if self.nodes[i].rpc_socket_addr == addr {
                return true;
            }
            i = i + 1;
        }
        false
    }

    /// Whether some node already listens on the custom port `port`.
    pub fn node_port_taken(&self, port: u16) -> (r: bool)
        ensures
            r == node_port_in_use(self.nodes@, port),
    {
        let mut i: usize = 0;
        while i < self.nodes.len()
            invariant
                i <= self.nodes.len(),
                forall|k: int| 0 <= k < i ==> (#[trigger] self.nodes@[k]).node_port != Some(port),
            decreases self.nodes.len() - i,
        {
            match self.nodes[i].node_port {
                Some(p) => {
                    if p == port {
                        return true;
                    }
                },
                None => {},
            }
            i = i + 1;
        }
        false
    }

    /// The position of the first node named `name`.
    pub fn find_node(&self, name: &String) -> (r: Option<usize>)
        ensures
            match r {
                Some(i) => first_named(self.nodes@, name@, i as int),
                None => none_named(self.nodes@, name@),
            },
    {
        let mut i: usize = 0;
        while i < self.nodes.len()
            invariant
                i <= self.nodes.len(),
                forall|k: int| 0 <= k < i ==> (#[trigger] self.nodes@[k]).service_name@ != name@,
            decreases self.nodes.len() - i,
        {
            if self.nodes[i].service_name == *name {
                return Some(i);
            }
            i = i + 1;
        }
        None
    }
}


/// The running nodes of a list, in order.
pub open spec fn running_nodes(nodes: Seq<NodeService>) -> Seq<NodeService> {
    nodes.filter(|n: NodeService| n.status is Running)
}

/// The nodes of a list that were not removed, in order: the active fleet.
pub open spec fn active_nodes(nodes: Seq<NodeService>) -> Seq<NodeService> {
    nodes.filter(|n: NodeService| !(n.status is Removed))
}

/// The service names of the nodes, in order.
pub open spec fn names_of(nodes: Seq<NodeService>) -> Seq<String> {
    Seq::new(nodes.len(), |i: int| nodes[i].service_name)
}

/// The running nodes of a list that grew by one node.
pub proof fn lemma_running_nodes_step(nodes: Seq<NodeService>, i: int)
    requires
        0 <= i < nodes.len(),
    ensures
        running_nodes(nodes.take(i + 1)) == if nodes[i].status is Running {
            running_nodes(nodes.take(i)).push(nodes[i])
        } else {
            running_nodes(nodes.take(i))
        },
{
    reveal(Seq::filter);
    assert(nodes.take(i + 1).drop_last() =~= nodes.take(i));
}

/// The active nodes of a list that grew by one node.
pub proof fn lemma_active_nodes_step(nodes: Seq<NodeService>, i: int)
    requires
        0 <= i < nodes.len(),
    ensures
        active_nodes(nodes.take(i + 1)) == if nodes[i].status is Removed {
            active_nodes(nodes.take(i))
        } else {
            active_nodes(nodes.take(i)).push(nodes[i])
        },
{
    reveal(Seq::filter);
    assert(nodes.take(i + 1).drop_last() =~= nodes.take(i));
}

impl Registry {
    /// The names of the running nodes, in registry order.
    pub fn running_names(&self) -> (r: Vec<String>)
        ensures
            r@ == names_of(running_nodes(self.nodes@)),
    {
        running_names_of(&self.nodes)
    }

    /// The names of the nodes that were not removed, in registry order.
    pub fn active_names(&self) -> (r: Vec<String>)
        ensures
            r@ == names_of(active_nodes(self.nodes@)),
    {
        let mut r: Vec<String> = Vec::new();
        let mut i: usize = 0;
        proof {
            reveal(Seq::filter);
            assert(self.nodes@.take(0) =~= Seq::<NodeService>::empty());
            assert(r@ =~= names_of(active_nodes(self.nodes@.take(0))));
        }
        while i < self.nodes.len()
            invariant
                i <= self.nodes@.len(),
                r@ == names_of(active_nodes(self.nodes@.take(i as int))),
            decreases self.nodes@.len() - i,
        {
            proof {
                lemma_active_nodes_step(self.nodes@, i as int);
            }
            match self.nodes[i].status {
                ServiceStatus::Removed => {},
                _ => {
                    r.push(self.nodes[i].service_name.clone());
                },
            }
            assert(r@ =~= names_of(active_nodes(self.nodes@.take(i + 1))));
            i = i + 1;
        }
        assert(self.nodes@.take(self.nodes@.len() as int) =~= self.nodes@);
        r
    }

    /// The active fleet: the nodes that were not removed, in registry order.
    pub fn into_active_nodes(self) -> (r: Vec<NodeService>)
        ensures
            r@ == active_nodes(self.nodes@),
    {
        let mut nodes = self.nodes;
        let ghost all = nodes@;
        assert(nodes@ =~= all.skip(0));
        let mut r: Vec<NodeService> = Vec::new();
        proof {
            reveal(Seq::filter);
            assert(all.take(0) =~= Seq::<NodeService>::empty());
        }
        let n = nodes.len();
        let mut i: usize = 0;
        while i < n
            invariant
                i <= n,
                n == all.len(),
                nodes@ == all.skip(i as int),
                r@ == active_nodes(all.take(i as int)),
            decreases n - i,
        {
            proof {
                lemma_active_nodes_step(all, i as int);
            }
            let node = nodes.remove(0);
            assert(node == all[i as int]);
            assert(nodes@ =~= all.skip(i + 1));
            match node.status {
                ServiceStatus::Removed => {},
                _ => {
                    r.push(node);
                },
            }
            i = i + 1;
        }
        assert(all.take(n as int) =~= all);
        r
    }
}

/// The names of the running nodes of a list, in order.
pub fn running_names_of(nodes: &Vec<NodeService>) -> (r: Vec<String>)
    ensures
        r@ == names_of(running_nodes(nodes@)),
{
    let mut r: Vec<String> = Vec::new();
    let mut i: usize = 0;
    proof {
        reveal(Seq::filter);
        assert(nodes@.take(0) =~= Seq::<NodeService>::empty());
        assert(r@ =~= names_of(running_nodes(nodes@.take(0))));
    }
    while i < nodes.len()
        invariant
            i <= nodes@.len(),
            r@ == names_of(running_nodes(nodes@.take(i as int))),
        decreases nodes@.len() - i,
    {
        proof {
            lemma_running_nodes_step(nodes@, i as int);
        }
        match nodes[i].status {
            ServiceStatus::Running => {
                r.push(nodes[i].service_name.clone());
            },
            _ => {},
        }
        assert(r@ =~= names_of(running_nodes(nodes@.take(i + 1))));
        i = i + 1;
    }
    assert(nodes@.take(nodes@.len() as int) =~= nodes@);
    r
}

/// Where a node has a name, a first node has it.
pub proof fn lemma_first_named_exists(nodes: Seq<NodeService>, name: Seq<char>, k: int)
    requires
        0 <= k < nodes.len(),
        nodes[k].service_name@ == name,
    ensures
        exists|j: int| first_named(nodes, name, j),
    decreases k,
{
    if forall|i: int| 0 <= i < k ==> (#[trigger] nodes[i]).service_name@ != name {
        assert(first_named(nodes, name, k));
    } else {
        let i = choose|i: int| 0 <= i < k && (#[trigger] nodes[i]).service_name@ == name;
        lemma_first_named_exists(nodes, name, i);
    }
}

/// Two first positions of a name are the same position.
pub proof fn lemma_first_named_unique(nodes: Seq<NodeService>, name: Seq<char>, i: int, j: int)
    requires
        first_named(nodes, name, i),
        first_named(nodes, name, j),
    ensures
        i == j,
{
    if i < j {
        assert(nodes[i].service_name@ != name);
    }
    if j < i {
        assert(nodes[j].service_name@ != name);
    }
}

/// What is wrong with a registry.
#[derive(Clone, Copy, Debug, PartialEq, Eq, Structural)]
pub enum RegistryFault {
    /// Two nodes have the same RPC socket address.
    DuplicateRpcAddress,
    /// Two nodes have the same custom port.
    DuplicateNodePort,
    /// Two nodes are genesis nodes.
    SecondGenesis,
    /// A node is not named after its number.
    NameMismatch,
    /// The numbers of the nodes do not grow along the list.
    NumbersOutOfOrder,
    /// A bootstrap peer is listed twice.
    DuplicatePeer,
}

/// Two nodes can stand in one registry, the first before the second.
pub open spec fn compatible(a: NodeService, b: NodeService) -> bool {
    &&& a.rpc_socket_addr != b.rpc_socket_addr
    &&& a.node_port is Some ==> a.node_port != b.node_port
    &&& !(a.genesis && b.genesis)
    &&& a.number < b.number
}

/// Why two nodes cannot stand in one registry, if they cannot.
fn clash(a: &NodeService, b: &NodeService) -> (r: Option<RegistryFault>)
    ensures
        r is None <==> compatible(*a, *b),
        r == Some(RegistryFault::DuplicateRpcAddress) ==> a.rpc_socket_addr == b.rpc_socket_addr,
        r == Some(RegistryFault::DuplicateNodePort) ==> a.node_port is Some && a.node_port
            == b.node_port,
        r == Some(RegistryFault::SecondGenesis) ==> a.genesis && b.genesis,
        r == Some(RegistryFault::NumbersOutOfOrder) ==> a.number >= b.number,
        r != Some(RegistryFault::NameMismatch),
        r != Some(RegistryFault::DuplicatePeer),
{
    if a.rpc_socket_addr == b.rpc_socket_addr {
        return Some(RegistryFault::DuplicateRpcAddress);
    }
    match a.node_port {
        Some(p) => {
            match b.node_port {
                Some(q) => {
                    if p == q {
                        return Some(RegistryFault::DuplicateNodePort);
                    }
                },
                None => {},
            }
        },
        None => {},
    }
    if a.genesis && b.genesis {
        return Some(RegistryFault::SecondGenesis);
    }
    if a.number >= b.number {
        return Some(RegistryFault::NumbersOutOfOrder);
    }
    None
}

impl Registry {
    /// Checks a registry that comes from outside, such as one that was read
    /// from disk: it is accepted exactly if it is well formed, and a fault
    /// that is returned is one that the registry has.
    pub fn validate(&self) -> (r: Result<(), RegistryFault>)
        ensures
            r is Ok <==> self.wf(),
            r == Err::<(), RegistryFault>(RegistryFault::DuplicateRpcAddress) ==> !rpc_distinct(
                self.nodes@,
            ),
            r == Err::<(), RegistryFault>(RegistryFault::DuplicateNodePort)
                ==> !node_ports_distinct(self.nodes@),
            r == Err::<(), RegistryFault>(RegistryFault::SecondGenesis) ==> !at_most_one_genesis(
                self.nodes@,
            ),
            r == Err::<(), RegistryFault>(RegistryFault::NameMismatch) ==> !names_follow_numbers(
                self.nodes@,
            ),
            r == Err::<(), RegistryFault>(RegistryFault::NumbersOutOfOrder) ==> !ascending_numbers(
                self.nodes@,
            ),
            r == Err::<(), RegistryFault>(RegistryFault::DuplicatePeer) ==> !texts_distinct(
                self.bootstrap_peers@,
            ),
    {
        let ghost nodes = self.nodes@;
        let n = self.nodes.len();
        let mut j: usize = 0;
        while j < n
            invariant
                j <= n,
                n == nodes.len(),
                nodes == self.nodes@,
                forall|a: int, b: int| 0 <= a < b < j ==> compatible(#[trigger] nodes[a], #[trigger] nodes[b]),
                forall|a: int|
                    0 <= a < j ==> (#[trigger] nodes[a]).service_name@ == node_name(
                        nodes[a].number as nat,
                    ),
            decreases n - j,
        {
            let name = node_service_name(self.nodes[j].number);
            if !(self.nodes[j].service_name == name) {
                return Err(RegistryFault::NameMismatch);
            }
            let mut i: usize = 0;
            while i < j
                invariant
                    i <= j < n,
                    n == nodes.len(),
                    nodes == self.nodes@,
                    forall|a: int| 0 <= a < i ==> compatible(#[trigger] nodes[a], nodes[j as int]),
                decreases j - i,
            {
                match clash(&self.nodes[i], &self.nodes[j]) {
                    Some(fault) => {
                        return Err(fault);
                    },
                    None => {},
                }
                i = i + 1;
            }
            j = j + 1;
        }
        let ghost peers = self.bootstrap_peers@;
        let m = self.bootstrap_peers.len();
        let mut q: usize = 0;
        while q < m
            invariant
                q <= m,
                m == peers.len(),
                peers == self.bootstrap_peers@,
                forall|a: int, b: int| 0 <= a < b < q ==> (#[trigger] peers[a])@ != (#[trigger] peers[b])@,
            decreases m - q,
        {
            let mut p: usize = 0;
            while p < q
                invariant
                    p <= q < m,
                    m == peers.len(),
                    peers == self.bootstrap_peers@,
                    forall|a: int| 0 <= a < p ==> (#[trigger] peers[a])@ != peers[q as int]@,
                decreases q - p,
            {
                if self.bootstrap_peers[p] == self.bootstrap_peers[q] {
                    return Err(RegistryFault::DuplicatePeer);
                }
                p = p + 1;
            }
            q = q + 1;
        }
        Ok(())
    }
}

} // verus!
