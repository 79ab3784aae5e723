use vstd::prelude::*;

use crate::process_inbound_connection::{clone_opt_string, merge_inbound, ProcessInboundConnection};

verus! {

/// The kinds of node a graph description can hold.
#[derive(Debug, Clone, Copy, PartialEq, Eq, Structural)]
pub enum NodeKind {
    Process,
    File,
    Asset,
    IpAddress,
    IpPort,
    NetworkConnection,
    IpConnection,
    ProcessOutboundConnection,
    ProcessInboundConnection,
    Dynamic,
}

/// A node of a graph description. `which_node` tells its kind (or that the
/// kind is unknown); the other fields hold what the pipeline reads of a node
/// of that kind, and stay at their defaults where a kind has no such field.
pub struct Node {
    pub which_node: Option<NodeKind>,
    pub node_key: String,
    pub asset_id: Option<String>,
    pub hostname: Option<String>,
    pub state: u32,
    pub created_timestamp: u64,
    pub terminated_timestamp: u64,
    pub last_seen_timestamp: u64,
    pub process_id: u64,
    pub file_path: String,
    pub ip_address: String,
    pub port: u32,
    pub src_ip_address: String,
    pub src_port: u32,
    pub dst_ip_address: String,
    pub dst_port: u32,
    pub protocol: String,
    pub requires_asset_identification: bool,
}

/// A directed, named edge between two node keys.
pub struct Edge {
    pub from: String,
    pub to: String,
    pub edge_name: String,
}

/// The edges that leave one node.
pub struct EdgeList {
    pub edges: Vec<Edge>,
}

/// A graph description: nodes by node key, edge lists by the key of the node
/// they leave, and the time the graph was observed. A well-formed graph holds
/// each node key at most once, and each edge-list key at most once.
pub struct Graph {
    pub nodes: Vec<Node>,
    pub edges: Vec<(String, EdgeList)>,
    pub timestamp: u64,
}

/// A batch of graphs produced together.
pub struct GeneratedSubgraphs {
    pub subgraphs: Vec<Graph>,
}

// ---------------------------------------------------------------------------
// Keys

pub open spec fn node_keys(nodes: Seq<Node>) -> Seq<Seq<char>> {
    nodes.map_values(|n: Node| n.node_key@)
}

pub open spec fn list_keys(lists: Seq<(String, EdgeList)>) -> Seq<Seq<char>> {
    lists.map_values(|e: (String, EdgeList)| e.0@)
}

/// No key occurs twice.
pub open spec fn no_dup(keys: Seq<Seq<char>>) -> bool {
    forall|i: int, j: int| 0 <= i < keys.len() && 0 <= j < keys.len() && i != j ==> keys[i] != keys[j]
}

/// The position of `k` in `keys` (its last occurrence), or -1 if absent.
pub open spec fn index_of_key(keys: Seq<Seq<char>>, k: Seq<char>) -> int
    decreases keys.len(),
{
    if keys.len() == 0 {
        -1
    } else if keys.last() == k {
        keys.len() - 1
    } else {
        index_of_key(keys.drop_last(), k)
    }
}

pub proof fn lemma_index_of_key(keys: Seq<Seq<char>>, k: Seq<char>)
    ensures
        -1 <= index_of_key(keys, k) < keys.len(),
        index_of_key(keys, k) == -1 <==> !keys.contains(k),
        index_of_key(keys, k) >= 0 ==> keys[index_of_key(keys, k)] == k,
        no_dup(keys) ==> forall|j: int| 0 <= j < keys.len() && keys[j] == k ==> j == index_of_key(keys, k),
    decreases keys.len(),
{
    if keys.len() > 0 {
        lemma_index_of_key(keys.drop_last(), k);
        if keys.last() != k {
            if keys.contains(k) {
                let j = choose|j: int| 0 <= j < keys.len() && keys[j] == k;
                assert(keys.drop_last()[j] == k);
            }
            if keys.drop_last().contains(k) {
                let j = choose|j: int| 0 <= j < keys.len() - 1 && keys.drop_last()[j] == k;
                assert(keys[j] == k);
            }
        } else {
            assert(keys[keys.len() - 1] == k);
        }
    }
}

pub proof fn lemma_unique_index(keys: Seq<Seq<char>>, k: Seq<char>, j: int)
    requires
        no_dup(keys),
        0 <= j < keys.len(),
        keys[j] == k,
    ensures
        index_of_key(keys, k) == j,
{
    lemma_index_of_key(keys, k);
    let i = index_of_key(keys, k);
    assert(keys[i] == keys[j]);
}

pub proof fn lemma_no_dup_push(keys: Seq<Seq<char>>, k: Seq<char>)
    requires
        no_dup(keys),
        !keys.contains(k),
    ensures
        no_dup(keys.push(k)),
{
    assert forall|i: int, j: int| 0 <= i < keys.len() + 1 && 0 <= j < keys.len() + 1 && i != j implies keys.push(k)[i] != keys.push(k)[j] by {
        if i == keys.len() {
            assert(keys[j] == keys.push(k)[j]);
        } else if j == keys.len() {
            assert(keys[i] == keys.push(k)[i]);
        }
    }
}

pub proof fn lemma_no_dup_update(keys: Seq<Seq<char>>, i: int, k: Seq<char>)
    requires
        no_dup(keys),
        0 <= i < keys.len(),
        keys[i] == k,
    ensures
        keys.update(i, k) == keys,
{
    assert(keys.update(i, k) =~= keys);
}

/// Finds the position of the node with key `key`.
pub(crate) fn find_node(nodes: &Vec<Node>, key: &String) -> (r: Option<usize>)
    requires
        no_dup(node_keys(nodes@)),
    ensures
        r is None ==> index_of_key(node_keys(nodes@), key@) == -1,
        r matches Some(i) ==> i as int == index_of_key(node_keys(nodes@), key@),
{
    proof {
        lemma_index_of_key(node_keys(nodes@), key@);
    }
    let mut i: usize = 0;
    while i < nodes.len()
        invariant
            i <= nodes.len(),
            forall|j: int| 0 <= j < i ==> nodes@[j].node_key@ != key@,
            no_dup(node_keys(nodes@)),
        decreases nodes.len() - i,
    {
        if nodes[i].node_key == *key {
            proof {
                lemma_unique_index(node_keys(nodes@), key@, i as int);
            }
            return Some(i);
        }
        i = i + 1;
    }
    assert(!node_keys(nodes@).contains(key@));
    None
}

/// Finds the position of the edge list with key `key`.
pub(crate) fn find_list(lists: &Vec<(String, EdgeList)>, key: &String) -> (r: Option<usize>)
    requires
        no_dup(list_keys(lists@)),
    ensures
        r is None ==> index_of_key(list_keys(lists@), key@) == -1,
        r matches Some(i) ==> i as int == index_of_key(list_keys(lists@), key@),
{
    proof {
        lemma_index_of_key(list_keys(lists@), key@);
    }
    let mut i: usize = 0;
    while i < lists.len()
        invariant
            i <= lists.len(),
            forall|j: int| 0 <= j < i ==> lists@[j].0@ != key@,
            no_dup(list_keys(lists@)),
        decreases lists.len() - i,
    {
        if lists[i].0 == *key {
            proof {
                lemma_unique_index(list_keys(lists@), key@, i as int);
            }
            return Some(i);
        }
        i = i + 1;
    }
    assert(!list_keys(lists@).contains(key@));
    None
}

// ---------------------------------------------------------------------------
// Nodes

/// What merging `other` into `node` yields: the merged node and whether a
/// timestamp moved. Nodes of other kinds, keys or addresses are left alone.
pub open spec fn merge_node(node: Node, other: Node) -> (Node, bool) {
    if node.which_node != other.which_node || node.node_key@ != other.node_key@ || node.ip_address@ != other.ip_address@ {
        (node, false)
    } else {
        let created_moves = node.created_timestamp != 0 && node.created_timestamp > other.created_timestamp;
        let terminated_moves = node.terminated_timestamp != 0 && node.terminated_timestamp < other.terminated_timestamp;
        let last_seen_moves = node.last_seen_timestamp != 0 && node.last_seen_timestamp < other.last_seen_timestamp;
        (Node {
            asset_id: if node.asset_id is None && other.asset_id is Some { other.asset_id } else { node.asset_id },
            hostname: if node.hostname is None && other.hostname is Some { other.hostname } else { node.hostname },
            created_timestamp: if created_moves { other.created_timestamp } else { node.created_timestamp },
            terminated_timestamp: if terminated_moves { other.terminated_timestamp } else { node.terminated_timestamp },
            last_seen_timestamp: if last_seen_moves { other.last_seen_timestamp } else { node.last_seen_timestamp },
            ..node
        }, created_moves || terminated_moves || last_seen_moves)
    }
}

impl Clone for Node {
    fn clone(&self) -> (r: Self)
        ensures
            r == *self,
    {
        Node {
            which_node: self.which_node,
            node_key: self.node_key.clone(),
            asset_id: clone_opt_string(&self.asset_id),
            hostname: clone_opt_string(&self.hostname),
            state: self.state,
            created_timestamp: self.created_timestamp,
            terminated_timestamp: self.terminated_timestamp,
            last_seen_timestamp: self.last_seen_timestamp,
            process_id: self.process_id,
            file_path: self.file_path.clone(),
            ip_address: self.ip_address.clone(),
            port: self.port,
            src_ip_address: self.src_ip_address.clone(),
            src_port: self.src_port,
            dst_ip_address: self.dst_ip_address.clone(),
            dst_port: self.dst_port,
            protocol: self.protocol.clone(),
            requires_asset_identification: self.requires_asset_identification,
        }
    }
}

impl Node {
    /// A node of the given kind and key, with every other field at its default.
    pub fn new(which_node: Option<NodeKind>, node_key: String) -> (r: Node)
        ensures
            r.which_node == which_node,
            r.node_key == node_key,
            r.asset_id is None,
            r.hostname is None,
            r.state == 0,
            r.created_timestamp == 0,
            r.terminated_timestamp == 0,
            r.last_seen_timestamp == 0,
            r.process_id == 0,
            r.file_path@ == Seq::<char>::empty(),
            r.ip_address@ == Seq::<char>::empty(),
            r.port == 0,
            r.src_ip_address@ == Seq::<char>::empty(),
            r.src_port == 0,
            r.dst_ip_address@ == Seq::<char>::empty(),
            r.dst_port == 0,
            r.protocol@ == Seq::<char>::empty(),
            !r.requires_asset_identification,
    {
        Node {
            which_node,
            node_key,
            asset_id: None,
            hostname: None,
            state: 0,
            created_timestamp: 0,
            terminated_timestamp: 0,
            last_seen_timestamp: 0,
            process_id: 0,
            file_path: String::new(),
            ip_address: String::new(),
            port: 0,
            src_ip_address: String::new(),
            src_port: 0,
            dst_ip_address: String::new(),
            dst_port: 0,
            protocol: String::new(),
            requires_asset_identification: false,
        }
    }

    pub fn get_node_key(&self) -> (r: &String)
        ensures
            *r == self.node_key,
    {
        &self.node_key
    }

    pub fn clone_node_key(&self) -> (r: String)
        ensures
            r == self.node_key,
    {
        self.node_key.clone()
    }

    pub fn set_node_key(&mut self, node_key: String)
        ensures
            *final(self) == (Node { node_key, ..*old(self) }),
    {
        self.node_key = node_key;
    }

    /// Sets the asset id; an inbound-connection node holds none, and setting
    /// one on it panics, so it is left out.
    pub fn set_asset_id(&mut self, asset_id: String)
        requires
            old(self).which_node != Some(NodeKind::ProcessInboundConnection),
        ensures
            *final(self) == (Node { asset_id: Some(asset_id), ..*old(self) }),
    {
        self.asset_id = Some(asset_id);
    }

    pub fn clone_asset_id(&self) -> (r: Option<String>)
        ensures
            r == self.asset_id,
    {
        clone_opt_string(&self.asset_id)
    }

    /// Merges what `other` knows of the same node into `self`; see [`merge_node`].
    pub fn merge(&mut self, other: &Node) -> (merged: bool)
        ensures
            (*final(self), merged) == merge_node(*old(self), *other),
    {
        if self.which_node != other.which_node {
            return false;
        }
        if self.node_key != other.node_key {
            return false;
        }
        if self.ip_address != other.ip_address {
            return false;
        }
        let mut merged = false;
        if self.asset_id.is_none() && other.asset_id.is_some() {
            self.asset_id = clone_opt_string(&other.asset_id);
        }
        if self.hostname.is_none() && other.hostname.is_some() {
            self.hostname = clone_opt_string(&other.hostname);
        }
        if self.created_timestamp != 0 && self.created_timestamp > other.created_timestamp {
            self.created_timestamp = other.created_timestamp;
            merged = true;
        }
        if self.terminated_timestamp != 0 && self.terminated_timestamp < other.terminated_timestamp {
            self.terminated_timestamp = other.terminated_timestamp;
            merged = true;
        }
        if self.last_seen_timestamp != 0 && self.last_seen_timestamp < other.last_seen_timestamp {
            self.last_seen_timestamp = other.last_seen_timestamp;
            merged = true;
        }
        merged
    }
}

impl Node {
    /// Turns a connection description into a graph node.
    pub fn from_inbound(p: ProcessInboundConnection) -> (r: Node)
        ensures
            r.which_node == Some(NodeKind::ProcessInboundConnection),
            r.node_key == p.node_key,
            r.asset_id == p.asset_id,
            r.hostname == p.hostname,
            r.state == p.state,
            r.created_timestamp == p.created_timestamp,
            r.terminated_timestamp == p.terminated_timestamp,
            r.last_seen_timestamp == p.last_seen_timestamp,
            r.port == p.port,
            r.ip_address == p.ip_address,
            r.process_id == 0,
            r.file_path@ == Seq::<char>::empty(),
            r.src_ip_address@ == Seq::<char>::empty(),
            r.src_port == 0,
            r.dst_ip_address@ == Seq::<char>::empty(),
            r.dst_port == 0,
            r.protocol@ == Seq::<char>::empty(),
            !r.requires_asset_identification,
    {
        Node {
            which_node: Some(NodeKind::ProcessInboundConnection),
            node_key: p.node_key,
            asset_id: p.asset_id,
            hostname: p.hostname,
            state: p.state,
            created_timestamp: p.created_timestamp,
            terminated_timestamp: p.terminated_timestamp,
            last_seen_timestamp: p.last_seen_timestamp,
            process_id: 0,
            file_path: String::new(),
            ip_address: p.ip_address,
            port: p.port,
            src_ip_address: String::new(),
            src_port: 0,
            dst_ip_address: String::new(),
            dst_port: 0,
            protocol: String::new(),
            requires_asset_identification: false,
        }
    }
}

// ---------------------------------------------------------------------------
// Edges

impl Clone for Edge {
    fn clone(&self) -> (r: Self)
        ensures
            r == *self,
    {
        Edge { from: self.from.clone(), to: self.to.clone(), edge_name: self.edge_name.clone() }
    }
}

pub fn clone_edges(edges: &Vec<Edge>) -> (r: Vec<Edge>)
    ensures
        r@ == edges@,
{
    let mut r: Vec<Edge> = Vec::new();
    let mut i: usize = 0;
    while i < edges.len()
        invariant
            i <= edges.len(),
            r@ == edges@.take(i as int),
        decreases edges.len() - i,
    {
        r.push(edges[i].clone());
        assert(edges@.take(i as int).push(edges@[i as int]) =~= edges@.take(i + 1));
        i = i + 1;
    }
    assert(edges@.take(edges.len() as int) =~= edges@);
    r
}

/// The edge lists of a graph seen as keys and edge sequences.
pub open spec fn lists_view(lists: Seq<(String, EdgeList)>) -> Seq<(Seq<char>, Seq<Edge>)> {
    lists.map_values(|e: (String, EdgeList)| (e.0@, e.1.edges@))
}

/// Appends `edges` to the list keyed `k`, starting that list if there is none.
pub open spec fn append_to_list(lists: Seq<(Seq<char>, Seq<Edge>)>, k: Seq<char>, edges: Seq<Edge>) -> Seq<(Seq<char>, Seq<Edge>)> {
    let i = index_of_key(lists.map_values(|e: (Seq<char>, Seq<Edge>)| e.0), k);
    if i < 0 {
        lists.push((k, edges))
    } else {
        lists.update(i, (k, lists[i].1 + edges))
    }
}

/// Appends `edges` to the list keyed `key` of `lists`, starting that list if
/// there is none.
fn append_edges(lists: &mut Vec<(String, EdgeList)>, key: &String, edges: &Vec<Edge>)
    requires
        no_dup(list_keys(old(lists)@)),
    ensures
        no_dup(list_keys(final(lists)@)),
        lists_view(final(lists)@) == append_to_list(lists_view(old(lists)@), key@, edges@),
{
    let ghost old_lists = lists@;
    assert(lists_view(old_lists).map_values(|e: (Seq<char>, Seq<Edge>)| e.0) =~= list_keys(old_lists));
    proof {
        lemma_index_of_key(list_keys(old_lists), key@);
    }
    match find_list(lists, key) {
        None => {
            lists.push((key.clone(), EdgeList { edges: clone_edges(edges) }));
            assert(list_keys(lists@) =~= list_keys(old_lists).push(key@));
            proof {
                lemma_no_dup_push(list_keys(old_lists), key@);
            }
            assert(lists_view(lists@) =~= lists_view(old_lists).push((key@, edges@)));
        },
        Some(i) => {
            let mut merged = clone_edges(&lists[i].1.edges);
            let mut extra = clone_edges(edges);
            merged.append(&mut extra);
            let k = lists[i].0.clone();
            lists.set(i, (k, EdgeList { edges: merged }));
            assert(list_keys(lists@) =~= list_keys(old_lists));
            assert(lists_view(lists@) =~= lists_view(old_lists).update(i as int, (key@, lists_view(old_lists)[i as int].1 + edges@)));
        },
    }
}

// ---------------------------------------------------------------------------
// Graphs

/// Inserts `n`, replacing the node with the same key if there is one.
pub open spec fn insert_node(nodes: Seq<Node>, n: Node) -> Seq<Node> {
    let i = index_of_key(node_keys(nodes), n.node_key@);
    if i < 0 {
        nodes.push(n)
    } else {
        nodes.update(i, n)
    }
}

/// Merges `n` into the node with the same key, or inserts it if there is none.
pub open spec fn merge_node_into(nodes: Seq<Node>, n: Node) -> Seq<Node> {
    let i = index_of_key(node_keys(nodes), n.node_key@);
    if i < 0 {
        nodes.push(n)
    } else {
        nodes.update(i, merge_node(nodes[i], n).0)
    }
}

/// Merges each of `others`, in order, into `nodes`.
pub open spec fn merge_nodes(nodes: Seq<Node>, others: Seq<Node>) -> Seq<Node>
    decreases others.len(),
{
    if others.len() == 0 {
        nodes
    } else {
        merge_node_into(merge_nodes(nodes, others.drop_last()), others.last())
    }
}

/// Appends each of `others`, in order, to the edge lists of `lists`.
pub open spec fn merge_lists(lists: Seq<(Seq<char>, Seq<Edge>)>, others: Seq<(Seq<char>, Seq<Edge>)>) -> Seq<(Seq<char>, Seq<Edge>)>
    decreases others.len(),
{
    if others.len() == 0 {
        lists
    } else {
        let last = others.last();
        append_to_list(merge_lists(lists, others.drop_last()), last.0, last.1)
    }
}

pub proof fn lemma_insert_node_keys(nodes: Seq<Node>, n: Node)
    requires
        no_dup(node_keys(nodes)),
    ensures
        no_dup(node_keys(insert_node(nodes, n))),
{
    lemma_index_of_key(node_keys(nodes), n.node_key@);
    let i = index_of_key(node_keys(nodes), n.node_key@);
    if i < 0 {
        assert(node_keys(nodes.push(n)) =~= node_keys(nodes).push(n.node_key@));
        lemma_no_dup_push(node_keys(nodes), n.node_key@);
    } else {
        assert(node_keys(nodes.update(i, n)) =~= node_keys(nodes).update(i, n.node_key@));
        lemma_no_dup_update(node_keys(nodes), i, n.node_key@);
    }
}

pub proof fn lemma_merge_node_into_keys(nodes: Seq<Node>, n: Node)
    requires
        no_dup(node_keys(nodes)),
    ensures
        no_dup(node_keys(merge_node_into(nodes, n))),
{
    lemma_index_of_key(node_keys(nodes), n.node_key@);
    let i = index_of_key(node_keys(nodes), n.node_key@);
    if i < 0 {
        assert(node_keys(nodes.push(n)) =~= node_keys(nodes).push(n.node_key@));
        lemma_no_dup_push(node_keys(nodes), n.node_key@);
    } else {
        let m = merge_node(nodes[i], n).0;
        assert(m.node_key == nodes[i].node_key);
        assert(node_keys(nodes.update(i, m)) =~= node_keys(nodes));
    }
}

/// The node held under key `k`, if any.
pub open spec fn node_at(nodes: Seq<Node>, k: Seq<char>) -> Option<Node> {
    let i = index_of_key(node_keys(nodes), k);
    if i >= 0 {
        Some(nodes[i])
    } else {
        None
    }
}

proof fn lemma_node_at_by_index(nodes: Seq<Node>, k: Seq<char>)
    requires
        no_dup(node_keys(nodes)),
    ensures
        node_at(nodes, k) is Some <==> node_keys(nodes).contains(k),
        forall|j: int| 0 <= j < nodes.len() && nodes[j].node_key@ == k ==> node_at(nodes, k) == Some(nodes[j]),
{
    lemma_index_of_key(node_keys(nodes), k);
    assert forall|j: int| 0 <= j < nodes.len() && nodes[j].node_key@ == k implies node_at(nodes, k) == Some(nodes[j]) by {
        assert(node_keys(nodes)[j] == k);
        lemma_unique_index(node_keys(nodes), k, j);
    }
}

/// After a node is added, it is the node held under its key, and every other
/// key holds what it held before.
pub proof fn lemma_insert_node_lookup(nodes: Seq<Node>, n: Node, k: Seq<char>)
    requires
        no_dup(node_keys(nodes)),
    ensures
        node_at(insert_node(nodes, n), k) == if k == n.node_key@ {
            Some(n)
        } else {
            node_at(nodes, k)
        },
{
    let r = insert_node(nodes, n);
    lemma_insert_node_keys(nodes, n);
    lemma_index_of_key(node_keys(nodes), n.node_key@);
    lemma_node_at_by_index(nodes, k);
    lemma_node_at_by_index(r, k);
    let i = index_of_key(node_keys(nodes), n.node_key@);
    if k == n.node_key@ {
        if i < 0 {
            assert(r[nodes.len() as int] == n);
        } else {
            assert(r[i] == n);
        }
    } else {
        if node_keys(nodes).contains(k) {
            let j = choose|j: int| 0 <= j < nodes.len() && node_keys(nodes)[j] == k;
            assert(r[j] == nodes[j]);
        }
        if node_keys(r).contains(k) {
            let j = choose|j: int| 0 <= j < r.len() && node_keys(r)[j] == k;
            assert(r[j] == nodes[j]);
            assert(node_keys(nodes)[j] == k);
        }
    }
}

/// After a node is merged in, the node under its key is the merge of what was
/// there with it (or it, where nothing was), and every other key holds what it
/// held before.
pub proof fn lemma_merge_node_into_lookup(nodes: Seq<Node>, n: Node, k: Seq<char>)
    requires
        no_dup(node_keys(nodes)),
    ensures
        node_at(merge_node_into(nodes, n), k) == if k == n.node_key@ {
            match node_at(nodes, k) {
                Some(o) => Some(merge_node(o, n).0),
                None => Some(n),
            }
        } else {
            node_at(nodes, k)
        },
{
    let r = merge_node_into(nodes, n);
    lemma_merge_node_into_keys(nodes, n);
    lemma_index_of_key(node_keys(nodes), n.node_key@);
    lemma_node_at_by_index(nodes, k);
    lemma_node_at_by_index(r, k);
    let i = index_of_key(node_keys(nodes), n.node_key@);
    if k == n.node_key@ {
        if i < 0 {
            assert(r[nodes.len() as int] == n);
        } else {
            assert(r[i] == merge_node(nodes[i], n).0);
        }
    } else {
        if node_keys(nodes).contains(k) {
            let j = choose|j: int| 0 <= j < nodes.len() && node_keys(nodes)[j] == k;
            assert(r[j] == nodes[j]);
        }
        if node_keys(r).contains(k) {
            let j = choose|j: int| 0 <= j < r.len() && node_keys(r)[j] == k;
            assert(r[j].node_key == nodes[j].node_key);
            assert(node_keys(nodes)[j] == k);
            assert(r[j] == nodes[j]);
        }
    }
}

/// `n` is the graph node of connection `p`.
pub open spec fn is_node_of_inbound(n: Node, p: ProcessInboundConnection) -> bool {
    &&& n.which_node == Some(NodeKind::ProcessInboundConnection)
    &&& n.node_key == p.node_key
    &&& n.ip_address == p.ip_address
    &&& n.asset_id == p.asset_id
    &&& n.hostname == p.hostname
    &&& n.created_timestamp == p.created_timestamp
    &&& n.terminated_timestamp == p.terminated_timestamp
    &&& n.last_seen_timestamp == p.last_seen_timestamp
    &&& n.port == p.port
    &&& n.state == p.state
}

/// Merging connections and merging their graph nodes agree: the merged node is
/// the node of the merged connection, and both report the same move.
pub proof fn lemma_merge_node_agrees_with_inbound(
    na: Node,
    nb: Node,
    a: ProcessInboundConnection,
    b: ProcessInboundConnection,
)
    requires
        is_node_of_inbound(na, a),
        is_node_of_inbound(nb, b),
    ensures
        is_node_of_inbound(merge_node(na, nb).0, merge_inbound(a, b).0),
        merge_node(na, nb).1 == merge_inbound(a, b).1,
{
}

/// Merging graphs loses no node and invents none: a key is held after the
/// merge exactly when it was held before or the merged-in nodes hold it.
pub proof fn lemma_merge_nodes_keys(a: Seq<Node>, b: Seq<Node>, k: Seq<char>)
    requires
        no_dup(node_keys(a)),
    ensures
        no_dup(node_keys(merge_nodes(a, b))),
        node_at(merge_nodes(a, b), k) is Some <==> (node_at(a, k) is Some || node_keys(b).contains(k)),
    decreases b.len(),
{
    if b.len() > 0 {
        let t = b.drop_last();
        lemma_merge_nodes_keys(a, t, k);
        let acc = merge_nodes(a, t);
        lemma_merge_node_into_keys(acc, b.last());
        lemma_merge_node_into_lookup(acc, b.last(), k);
        if node_keys(t).contains(k) {
            let j = choose|j: int| 0 <= j < t.len() && node_keys(t)[j] == k;
            assert(node_keys(b)[j] == k);
        }
        if node_keys(b).contains(k) && k != b.last().node_key@ {
            let j = choose|j: int| 0 <= j < b.len() && node_keys(b)[j] == k;
            assert(j < t.len());
            assert(node_keys(t)[j] == k);
        }
        if k == b.last().node_key@ {
            assert(node_keys(b)[b.len() - 1] == k);
        }
    }
}

/// Merging a node with itself changes nothing and moves no timestamp.
pub proof fn lemma_merge_node_self(a: Node)
    ensures
        merge_node(a, a) == (a, false),
{
}

/// Merging the same node a second time changes nothing more.
pub proof fn lemma_merge_node_idempotent(a: Node, b: Node)
    ensures
        merge_node(merge_node(a, b).0, b) == (merge_node(a, b).0, false),
{
}

impl Clone for EdgeList {
    fn clone(&self) -> (r: Self)
        ensures
            r.edges@ == self.edges@,
    {
        EdgeList { edges: clone_edges(&self.edges) }
    }
}

impl Graph {
    /// Each node key, and each edge-list key, occurs once.
    pub open spec fn wf(&self) -> bool {
        &&& no_dup(node_keys(self.nodes@))
        &&& no_dup(list_keys(self.edges@))
    }

    /// Whether each node key, and each edge-list key, occurs once.
    pub fn is_well_formed(&self) -> (r: bool)
        ensures
            r == self.wf(),
    {
        let mut i: usize = 0;
        while i < self.nodes.len()
            invariant
                i <= self.nodes.len(),
                forall|a: int, b: int| 0 <= a < i && 0 <= b < self.nodes@.len() && a != b
                    ==> node_keys(self.nodes@)[a] != node_keys(self.nodes@)[b],
            decreases self.nodes.len() - i,
        {
            let mut j: usize = 0;
            while j < self.nodes.len()
                invariant
                    i < self.nodes.len(),
                    j <= self.nodes.len(),
                    forall|a: int, b: int| 0 <= a < i && 0 <= b < self.nodes@.len() && a != b
                        ==> node_keys(self.nodes@)[a] != node_keys(self.nodes@)[b],
                    forall|b: int| 0 <= b < j && b != i ==> node_keys(self.nodes@)[i as int] != node_keys(self.nodes@)[b],
                decreases self.nodes.len() - j,
            {
                if j != i && self.nodes[i].node_key == self.nodes[j].node_key {
                    assert(node_keys(self.nodes@)[i as int] == node_keys(self.nodes@)[j as int]);
                    return false;
                }
                j = j + 1;
            }
            i = i + 1;
        }
        let mut i: usize = 0;
        while i < self.edges.len()
            invariant
                i <= self.edges.len(),
                no_dup(node_keys(self.nodes@)),
                forall|a: int, b: int| 0 <= a < i && 0 <= b < self.edges@.len() && a != b
                    ==> list_keys(self.edges@)[a] != list_keys(self.edges@)[b],
            decreases self.edges.len() - i,
        {
            let mut j: usize = 0;
            while j < self.edges.len()
                invariant
                    i < self.edges.len(),
                    j <= self.edges.len(),
                    no_dup(node_keys(self.nodes@)),
                    forall|a: int, b: int| 0 <= a < i && 0 <= b < self.edges@.len() && a != b
                        ==> list_keys(self.edges@)[a] != list_keys(self.edges@)[b],
                    forall|b: int| 0 <= b < j && b != i ==> list_keys(self.edges@)[i as int] != list_keys(self.edges@)[b],
                decreases self.edges.len() - j,
            {
                if j != i && self.edges[i].0 == self.edges[j].0 {
                    assert(list_keys(self.edges@)[i as int] == list_keys(self.edges@)[j as int]);
                    return false;
                }
                j = j + 1;
            }
            i = i + 1;
        }
        true
    }

    /// An empty graph observed at `timestamp`.
    pub fn new(timestamp: u64) -> (r: Graph)
        ensures
            r.wf(),
            r.nodes@.len() == 0,
            r.edges@.len() == 0,
            r.timestamp == timestamp,
    {
        Graph { nodes: Vec::new(), edges: Vec::new(), timestamp }
    }

    /// A graph is empty when it has neither nodes nor edge lists.
    pub fn is_empty(&self) -> (r: bool)
        ensures
            r == (self.nodes@.len() == 0 && self.edges@.len() == 0),
    {
        self.nodes.len() == 0 && self.edges.len() == 0
    }

    /// Adds `node` under its key, replacing a node already held under it.
    pub fn add_node(&mut self, node: Node)
        requires
            old(self).wf(),
        ensures
            final(self).wf(),
            final(self).nodes@ == insert_node(old(self).nodes@, node),
            final(self).edges@ == old(self).edges@,
            final(self).timestamp == old(self).timestamp,
    {
        proof {
            lemma_insert_node_keys(self.nodes@, node);
            lemma_index_of_key(node_keys(self.nodes@), node.node_key@);
        }
        match find_node(&self.nodes, &node.node_key) {
            None => {
                self.nodes.push(node);
            },
            Some(i) => {
                self.nodes.set(i, node);
            },
        }
    }

    /// Adds the edge `from -> to` named `edge_name` to the list of `from`.
    pub fn add_edge(&mut self, edge_name: String, from: String, to: String)
        requires
            old(self).wf(),
        ensures
            final(self).wf(),
            final(self).nodes@ == old(self).nodes@,
            lists_view(final(self).edges@) == append_to_list(
                lists_view(old(self).edges@),
                from@,
                seq![Edge { from, to, edge_name }],
            ),
            final(self).timestamp == old(self).timestamp,
    {
        let key = from.clone();
        let mut one: Vec<Edge> = Vec::new();
        one.push(Edge { from, to, edge_name });
        append_edges(&mut self.edges, &key, &one);
        assert(one@ =~= seq![Edge { from: key, to: one@[0].to, edge_name: one@[0].edge_name }]);
    }

    /// Merges `other` into `self`: each of its nodes is merged into the node
    /// with the same key or added, and each of its edge lists is appended to
    /// the list with the same key or added.
    pub fn merge(&mut self, other: &Graph)
        requires
            old(self).wf(),
            other.wf(),
        ensures
            final(self).wf(),
            final(self).nodes@ == merge_nodes(old(self).nodes@, other.nodes@),
            lists_view(final(self).edges@) == merge_lists(lists_view(old(self).edges@), lists_view(other.edges@)),
            final(self).timestamp == old(self).timestamp,
    {
        let ghost old_nodes = self.nodes@;
        let ghost old_lists = lists_view(self.edges@);
        let mut i: usize = 0;
        while i < other.nodes.len()
            invariant
                i <= other.nodes.len(),
                no_dup(node_keys(self.nodes@)),
                self.nodes@ == merge_nodes(old_nodes, other.nodes@.take(i as int)),
                self.edges@ == old(self).edges@,
                self.timestamp == old(self).timestamp,
                no_dup(list_keys(self.edges@)),
                old_lists == lists_view(old(self).edges@),
            decreases other.nodes.len() - i,
        {
            let n = &other.nodes[i];
            proof {
                lemma_merge_node_into_keys(self.nodes@, *n);
                lemma_index_of_key(node_keys(self.nodes@), n.node_key@);
            }
            match find_node(&self.nodes, &n.node_key) {
                None => {
                    self.nodes.push(n.clone());
                },
                Some(j) => {
                    let mut m = self.nodes[j].clone();
                    m.merge(n);
                    self.nodes.set(j, m);
                },
            }
            assert(other.nodes@.take(i + 1).drop_last() =~= other.nodes@.take(i as int));
            i = i + 1;
        }
        assert(other.nodes@.take(other.nodes.len() as int) =~= other.nodes@);
        let mut k: usize = 0;
        while k < other.edges.len()
            invariant
                k <= other.edges.len(),
                no_dup(list_keys(self.edges@)),
                lists_view(self.edges@) == merge_lists(old_lists, lists_view(other.edges@).take(k as int)),
                no_dup(node_keys(self.nodes@)),
                self.nodes@ == merge_nodes(old_nodes, other.nodes@),
                self.timestamp == old(self).timestamp,
            decreases other.edges.len() - k,
        {
            append_edges(&mut self.edges, &other.edges[k].0, &other.edges[k].1.edges);
            assert(lists_view(other.edges@).take(k + 1).drop_last() =~= lists_view(other.edges@).take(k as int));
            k = k + 1;
        }
        assert(lists_view(other.edges@).take(other.edges.len() as int) =~= lists_view(other.edges@));
    }
}

fn clone_nodes(nodes: &Vec<Node>) -> (r: Vec<Node>)
    ensures
        r@ == nodes@,
{
    let mut r: Vec<Node> = Vec::new();
    let mut i: usize = 0;
    while i < nodes.len()
        invariant
            i <= nodes.len(),
            r@ == nodes@.take(i as int),
        decreases nodes.len() - i,
    {
        r.push(nodes[i].clone());
        assert(nodes@.take(i as int).push(nodes@[i as int]) =~= nodes@.take(i + 1));
        i = i + 1;
    }
    assert(nodes@.take(nodes.len() as int) =~= nodes@);
    r
}

fn clone_lists(lists: &Vec<(String, EdgeList)>) -> (r: Vec<(String, EdgeList)>)
    ensures
        lists_view(r@) == lists_view(lists@),
        list_keys(r@) == list_keys(lists@),
{
    let mut r: Vec<(String, EdgeList)> = Vec::new();
    let mut i: usize = 0;
    while i < lists.len()
        invariant
            i <= lists.len(),
            lists_view(r@) == lists_view(lists@).take(i as int),
            list_keys(r@) == list_keys(lists@).take(i as int),
            r@.len() == i,
        decreases lists.len() - i,
    {
        r.push((lists[i].0.clone(), lists[i].1.clone()));
        assert(lists_view(r@) =~= lists_view(lists@).take(i + 1));
        assert(list_keys(r@) =~= list_keys(lists@).take(i + 1));
        i = i + 1;
    }
    assert(lists_view(lists@).take(lists.len() as int) =~= lists_view(lists@));
    assert(list_keys(lists@).take(lists.len() as int) =~= list_keys(lists@));
    r
}

impl Clone for Graph {
    fn clone(&self) -> (r: Self)
        ensures
            r.nodes@ == self.nodes@,
            lists_view(r.edges@) == lists_view(self.edges@),
            list_keys(r.edges@) == list_keys(self.edges@),
            r.timestamp == self.timestamp,
    {
        Graph { nodes: clone_nodes(&self.nodes), edges: clone_lists(&self.edges), timestamp: self.timestamp }
    }
}

impl GeneratedSubgraphs {
    pub fn new(subgraphs: Vec<Graph>) -> (r: GeneratedSubgraphs)
        ensures
            r.subgraphs@ == subgraphs@,
    {
        GeneratedSubgraphs { subgraphs }
    }
}

} // verus!
