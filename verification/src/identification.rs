use vstd::prelude::*;

use crate::graph::{
    append_to_list, index_of_key, insert_node, lists_view, merge_lists, merge_nodes, no_dup, node_at, node_keys,
    Edge, GeneratedSubgraphs, Graph, Node, NodeKind,
};
use crate::graph_ops::{live_edges, remove_dead_edges, KeyMap, KeySet};
use crate::node_identifier::IdentificationError;

verus! {

/// The edge lists of a graph, seen as keys and edge sequences.
pub type ListsView = Seq<(Seq<char>, Seq<Edge>)>;

/// The error the identification of a batch of subgraphs reports.
#[derive(Debug, Clone, Copy, PartialEq, Eq, Structural)]
pub enum NodeIdentifierError {
    Unexpected,
}

/// Every graph of `gs` is well formed.
pub open spec fn all_wf(gs: Seq<Graph>) -> bool {
    forall|i: int| 0 <= i < gs.len() ==> #[trigger] gs[i].wf()
}

/// Whether every graph of the batch is well formed.
pub fn batch_well_formed(batch: &GeneratedSubgraphs) -> (r: bool)
    ensures
        r == all_wf(batch.subgraphs@),
{
    let mut i: usize = 0;
    while i < batch.subgraphs.len()
        invariant
            i <= batch.subgraphs.len(),
            forall|j: int| 0 <= j < i ==> #[trigger] batch.subgraphs@[j].wf(),
        decreases batch.subgraphs.len() - i,
    {
        if !batch.subgraphs[i].is_well_formed() {
            return false;
        }
        i = i + 1;
    }
    true
}

/// Nodes and edge lists of the graph that merging `gs`, in order, into an
/// empty graph yields.
pub open spec fn merged_view(gs: Seq<Graph>) -> (Seq<Node>, ListsView)
    decreases gs.len(),
{
    if gs.len() == 0 {
        (Seq::empty(), Seq::empty())
    } else {
        let acc = merged_view(gs.drop_last());
        (merge_nodes(acc.0, gs.last().nodes@), merge_lists(acc.1, lists_view(gs.last().edges@)))
    }
}

/// Merges `subgraphs`, in order, into one graph observed at time 0.
pub fn merge_subgraphs(subgraphs: &Vec<Graph>) -> (r: Graph)
    requires
        all_wf(subgraphs@),
    ensures
        r.wf(),
        r.timestamp == 0,
        (r.nodes@, lists_view(r.edges@)) == merged_view(subgraphs@),
{
    let mut total = Graph::new(0);
    let mut i: usize = 0;
    while i < subgraphs.len()
        invariant
            i <= subgraphs.len(),
            all_wf(subgraphs@),
            total.wf(),
            total.timestamp == 0,
            (total.nodes@, lists_view(total.edges@)) == merged_view(subgraphs@.take(i as int)),
        decreases subgraphs.len() - i,
    {
        assert(subgraphs@.take(i + 1).drop_last() =~= subgraphs@.take(i as int));
        assert(subgraphs@[i as int].wf());
        total.merge(&subgraphs[i]);
        i = i + 1;
    }
    assert(subgraphs@.take(subgraphs.len() as int) =~= subgraphs@);
    total
}

/// Merges the batch into the single graph to identify, or gives `None` where
/// the batch is empty or merges into an empty graph: then there is nothing to do.
pub fn merge_batch(subgraphs: &GeneratedSubgraphs) -> (r: Option<Graph>)
    requires
        all_wf(subgraphs.subgraphs@),
    ensures
        r is None <==> (subgraphs.subgraphs@.len() == 0 || (merged_view(subgraphs.subgraphs@).0.len() == 0
            && merged_view(subgraphs.subgraphs@).1.len() == 0)),
        r matches Some(g) ==> g.wf() && g.timestamp == 0 && (g.nodes@, lists_view(g.edges@)) == merged_view(subgraphs.subgraphs@),
{
    if subgraphs.subgraphs.len() == 0 {
        return None;
    }
    let g = merge_subgraphs(&subgraphs.subgraphs);
    if g.is_empty() {
        None
    } else {
        Some(g)
    }
}

// ---------------------------------------------------------------------------
// Asset id mappings

/// A mapping from an asset id to the hostname it was seen with, and when.
pub struct AssetIdMapping {
    pub asset_id: String,
    pub hostname: String,
    pub timestamp: u64,
}

impl Clone for AssetIdMapping {
    fn clone(&self) -> (r: Self)
        ensures
            r == *self,
    {
        AssetIdMapping { asset_id: self.asset_id.clone(), hostname: self.hostname.clone(), timestamp: self.timestamp }
    }
}

/// The mapping a node implies: nodes that carry both an asset id and a
/// hostname (processes, files, connections of processes, assets) map one to
/// the other as of their creation (for assets, first-seen) time.
pub open spec fn mapping_of(n: Node) -> Option<(Seq<char>, Seq<char>, u64)> {
    match n.which_node {
        Some(NodeKind::Process) | Some(NodeKind::File) | Some(NodeKind::ProcessOutboundConnection)
        | Some(NodeKind::ProcessInboundConnection) | Some(NodeKind::Asset) => {
            if n.asset_id is Some && n.hostname is Some {
                Some((n.asset_id->0@, n.hostname->0@, n.created_timestamp))
            } else {
                None
            }
        },
        _ => None,
    }
}

/// The mappings the nodes imply, in order.
pub open spec fn mappings_of(nodes: Seq<Node>) -> Seq<(Seq<char>, Seq<char>, u64)>
    decreases nodes.len(),
{
    if nodes.len() == 0 {
        Seq::empty()
    } else {
        match mapping_of(nodes.last()) {
            Some(m) => mappings_of(nodes.drop_last()).push(m),
            None => mappings_of(nodes.drop_last()),
        }
    }
}

/// The position of the first node of unknown kind, or the number of nodes.
pub open spec fn first_unknown(nodes: Seq<Node>) -> int
    decreases nodes.len(),
{
    if nodes.len() == 0 {
        0
    } else {
        let j = first_unknown(nodes.drop_last());
        if j < nodes.len() - 1 {
            j
        } else if nodes.last().which_node is None {
            nodes.len() - 1
        } else {
            nodes.len() as int
        }
    }
}

pub proof fn lemma_first_unknown(nodes: Seq<Node>)
    ensures
        0 <= first_unknown(nodes) <= nodes.len(),
        forall|i: int| 0 <= i < first_unknown(nodes) ==> nodes[i].which_node is Some,
        first_unknown(nodes) < nodes.len() ==> nodes[first_unknown(nodes)].which_node is None,
    decreases nodes.len(),
{
    if nodes.len() > 0 {
        let t = nodes.drop_last();
        lemma_first_unknown(t);
        assert forall|i: int| 0 <= i < first_unknown(nodes) implies nodes[i].which_node is Some by {
            if i < nodes.len() - 1 {
                assert(t[i] == nodes[i]);
            }
        }
        if first_unknown(t) < t.len() {
            assert(t[first_unknown(t)] == nodes[first_unknown(t)]);
        }
    }
}

pub open spec fn mapping_view(m: AssetIdMapping) -> (Seq<char>, Seq<char>, u64) {
    (m.asset_id@, m.hostname@, m.timestamp)
}

/// The asset-id mappings to record for `graph`, in node order, up to the first
/// node of unknown kind; that node, if there is one, stops the work with an
/// error after the mappings before it.
pub fn asset_id_mappings(graph: &Graph) -> (r: (Vec<AssetIdMapping>, Option<IdentificationError>))
    ensures
        r.0@.map_values(|m: AssetIdMapping| mapping_view(m)) == mappings_of(graph.nodes@.take(first_unknown(graph.nodes@))),
        r.1 is Some <==> first_unknown(graph.nodes@) < graph.nodes@.len(),
        r.1 is Some ==> r.1 == Some(IdentificationError::UnknownNodeVariant),
{
    proof {
        lemma_first_unknown(graph.nodes@);
    }
    let ghost nodes = graph.nodes@;
    let mut out: Vec<AssetIdMapping> = Vec::new();
    let mut i: usize = 0;
    while i < graph.nodes.len()
        invariant
            i <= graph.nodes.len(),
            nodes == graph.nodes@,
            i <= first_unknown(nodes),
            0 <= first_unknown(nodes) <= nodes.len(),
            forall|j: int| 0 <= j < first_unknown(nodes) ==> nodes[j].which_node is Some,
            first_unknown(nodes) < nodes.len() ==> nodes[first_unknown(nodes)].which_node is None,
            out@.map_values(|m: AssetIdMapping| mapping_view(m)) == mappings_of(nodes.take(i as int)),
        decreases graph.nodes.len() - i,
    {
        let n = &graph.nodes[i];
        assert(nodes.take(i + 1).drop_last() =~= nodes.take(i as int));
        match n.which_node {
            None => {
                return (out, Some(IdentificationError::UnknownNodeVariant));
            },
            Some(NodeKind::Process) | Some(NodeKind::File) | Some(NodeKind::ProcessOutboundConnection)
            | Some(NodeKind::ProcessInboundConnection) | Some(NodeKind::Asset) => {
                match (&n.asset_id, &n.hostname) {
                    (Some(a), Some(h)) => {
                        out.push(AssetIdMapping { asset_id: a.clone(), hostname: h.clone(), timestamp: n.created_timestamp });
                        assert(out@.map_values(|m: AssetIdMapping| mapping_view(m)) =~= mappings_of(nodes.take(i as int)).push(
                            mapping_of(nodes[i as int])->0,
                        ));
                    },
                    _ => {},
                }
            },
            _ => {},
        }
        i = i + 1;
    }
    assert(nodes.take(nodes.len() as int) =~= nodes);
    (out, None)
}

// ---------------------------------------------------------------------------
// Asset id attribution

/// Nodes whose asset id must be attributed before their key can be: all but
/// IP addresses, IP ports, network and IP connections, and dynamic nodes that
/// say they need none.
pub open spec fn needs_asset_attribution(n: Node) -> bool {
    match n.which_node {
        Some(NodeKind::IpAddress) | Some(NodeKind::NetworkConnection) | Some(NodeKind::IpPort)
        | Some(NodeKind::IpConnection) => false,
        Some(NodeKind::Dynamic) => n.requires_asset_identification,
        _ => true,
    }
}

/// Whether `node` needs its asset id attributed; see [`needs_asset_attribution`].
pub fn requires_asset_attribution(node: &Node) -> (r: bool)
    ensures
        r == needs_asset_attribution(*node),
{
    match node.which_node {
        Some(NodeKind::IpAddress) | Some(NodeKind::NetworkConnection) | Some(NodeKind::IpPort)
        | Some(NodeKind::IpConnection) => false,
        Some(NodeKind::Dynamic) => node.requires_asset_identification,
        _ => true,
    }
}

/// What attributing a node's asset id came to.
pub enum AssetAttribution {
    /// The asset id found for the node.
    Attributed(String),
    /// Attribution failed, with this message.
    Failed(String),
}

/// The nodes kept after asset attribution: nodes that need none as they are,
/// attributed nodes with their asset id, failed nodes not at all.
pub open spec fn attributed_nodes(nodes: Seq<Node>, outcomes: Seq<AssetAttribution>) -> Seq<Node>
    decreases nodes.len(),
{
    if nodes.len() == 0 {
        Seq::empty()
    } else {
        let i: int = nodes.len() - 1;
        let acc = attributed_nodes(nodes.drop_last(), outcomes);
        let n = nodes[i];
        if !needs_asset_attribution(n) {
            insert_node(acc, n)
        } else {
            match outcomes[i] {
                AssetAttribution::Attributed(a) => insert_node(acc, Node { asset_id: Some(a), ..n }),
                AssetAttribution::Failed(_) => acc,
            }
        }
    }
}

/// The message of the last failed attribution among the first `k` nodes, if any.
pub open spec fn last_failure(nodes: Seq<Node>, outcomes: Seq<AssetAttribution>, k: int) -> Option<Seq<char>>
    decreases k,
{
    if k <= 0 {
        None
    } else if needs_asset_attribution(nodes[k - 1]) && outcomes[k - 1] is Failed {
        Some(outcomes[k - 1]->Failed_0@)
    } else {
        last_failure(nodes, outcomes, k - 1)
    }
}

/// Every node kept after attribution that needed an asset id has one.
pub proof fn lemma_attributed_nodes_have_asset_ids(nodes: Seq<Node>, outcomes: Seq<AssetAttribution>)
    requires
        outcomes.len() == nodes.len(),
    ensures
        forall|i: int| 0 <= i < attributed_nodes(nodes, outcomes).len()
            && needs_asset_attribution(#[trigger] attributed_nodes(nodes, outcomes)[i])
            ==> attributed_nodes(nodes, outcomes)[i].asset_id is Some,
{
    lemma_attributed_nodes_have_asset_ids_prefix(nodes, outcomes);
}

proof fn lemma_attributed_nodes_have_asset_ids_prefix(nodes: Seq<Node>, outcomes: Seq<AssetAttribution>)
    requires
        outcomes.len() >= nodes.len(),
    ensures
        forall|i: int| 0 <= i < attributed_nodes(nodes, outcomes).len()
            && needs_asset_attribution(#[trigger] attributed_nodes(nodes, outcomes)[i])
            ==> attributed_nodes(nodes, outcomes)[i].asset_id is Some,
    decreases nodes.len(),
{
    if nodes.len() > 0 {
        let k = nodes.len() - 1;
        let t = nodes.drop_last();
        lemma_attributed_nodes_have_asset_ids_prefix(t, outcomes);
        let acc = attributed_nodes(t, outcomes);
        let n = nodes[k];
        assert forall|i: int| 0 <= i < attributed_nodes(nodes, outcomes).len()
            && needs_asset_attribution(#[trigger] attributed_nodes(nodes, outcomes)[i])
            implies attributed_nodes(nodes, outcomes)[i].asset_id is Some by {
            if !needs_asset_attribution(n) {
                lemma_insert_node_elems(acc, n, i);
            } else {
                match outcomes[k] {
                    AssetAttribution::Attributed(a) => {
                        lemma_insert_node_elems(acc, Node { asset_id: Some(a), ..n }, i);
                    },
                    AssetAttribution::Failed(_) => {},
                }
            }
        }
    }
}

/// Each node after an insertion is the inserted node or one that was there.
proof fn lemma_insert_node_elems(nodes: Seq<Node>, n: Node, i: int)
    requires
        0 <= i < insert_node(nodes, n).len(),
    ensures
        insert_node(nodes, n)[i] == n || (i < nodes.len() && insert_node(nodes, n)[i] == nodes[i]),
{
    crate::graph::lemma_index_of_key(node_keys(nodes), n.node_key@);
}

/// No inbound-connection node is given an asset id: such a node holds none,
/// and setting one on it panics.
pub open spec fn no_inbound_attributed(nodes: Seq<Node>, outcomes: Seq<AssetAttribution>) -> bool {
    forall|i: int|
        0 <= i < nodes.len() && i < outcomes.len() && nodes[i].which_node == Some(NodeKind::ProcessInboundConnection)
            ==> !(#[trigger] outcomes[i] is Attributed)
}

/// Builds the graph of nodes with attributed asset ids: `outcomes[i]` is what
/// attributing the asset id of `unid_graph.nodes[i]` came to, and is not read
/// for nodes that need no attribution. Edges whose ends were dropped go too.
/// The graph comes back as `Ok` when no attribution failed, and else with the
/// message of the last failure.
pub fn assemble_asset_attribution(unid_graph: Graph, outcomes: &Vec<AssetAttribution>) -> (r: Result<Graph, (String, Graph)>)
    requires
        unid_graph.wf(),
        outcomes@.len() == unid_graph.nodes@.len(),
        no_inbound_attributed(unid_graph.nodes@, outcomes@),
    ensures
        ({
            let g = match r {
                Ok(g) => g,
                Err((_, g)) => g,
            };
            &&& g.wf()
            &&& g.timestamp == unid_graph.timestamp
            &&& g.nodes@ == attributed_nodes(unid_graph.nodes@, outcomes@)
            &&& lists_view(g.edges@) == live_edges(g.nodes@, lists_view(unid_graph.edges@))
        }),
        match last_failure(unid_graph.nodes@, outcomes@, unid_graph.nodes@.len() as int) {
            None => r is Ok,
            Some(m) => r matches Err((e, _)) && e@ == m,
        },
{
    let ghost nodes = unid_graph.nodes@;
    let mut output = Graph { nodes: Vec::new(), edges: unid_graph.edges, timestamp: unid_graph.timestamp };
    let mut err: Option<String> = None;
    let mut i: usize = 0;
    while i < unid_graph.nodes.len()
        invariant
            i <= unid_graph.nodes.len(),
            nodes == unid_graph.nodes@,
            outcomes@.len() == nodes.len(),
            no_inbound_attributed(nodes, outcomes@),
            output.wf(),
            output.timestamp == unid_graph.timestamp,
            output.edges@ == unid_graph.edges@,
            output.nodes@ == attributed_nodes(nodes.take(i as int), outcomes@),
            match last_failure(nodes, outcomes@, i as int) {
                None => err is None,
                Some(m) => err matches Some(e) && e@ == m,
            },
        decreases unid_graph.nodes.len() - i,
    {
        let n = &unid_graph.nodes[i];
        assert(nodes.take(i + 1).drop_last() =~= nodes.take(i as int));
        assert(nodes.take(i + 1)[i as int] == nodes[i as int]);
        if !requires_asset_attribution(n) {
            output.add_node(n.clone());
        } else {
            match &outcomes[i] {
                AssetAttribution::Attributed(a) => {
                    let mut m = n.clone();
                    m.set_asset_id(a.clone());
                    output.add_node(m);
                },
                AssetAttribution::Failed(e) => {
                    err = Some(e.clone());
                },
            }
        }
        i = i + 1;
    }
    assert(nodes.take(nodes.len() as int) =~= nodes);
    remove_dead_edges(&mut output);
    match err {
        None => Ok(output),
        Some(e) => Err((e, output)),
    }
}

// ---------------------------------------------------------------------------
// Node key identification

/// What identifying one node came to.
pub enum NodeOutcome {
    /// The node was identified before; it is skipped.
    CacheHit,
    /// The node with its stable key.
    Identified(Node),
    /// Identification failed.
    Failed,
}

/// The identified nodes, added in order.
pub open spec fn identified_nodes(outcomes: Seq<NodeOutcome>) -> Seq<Node>
    decreases outcomes.len(),
{
    if outcomes.len() == 0 {
        Seq::empty()
    } else {
        let acc = identified_nodes(outcomes.drop_last());
        match outcomes.last() {
            NodeOutcome::Identified(n) => insert_node(acc, n),
            _ => acc,
        }
    }
}

/// Old node key to new node key, for the identified nodes.
pub open spec fn identity_map(nodes: Seq<Node>, outcomes: Seq<NodeOutcome>) -> Map<Seq<char>, String>
    decreases outcomes.len(),
{
    if outcomes.len() == 0 {
        Map::empty()
    } else {
        let i = outcomes.len() - 1;
        let acc = identity_map(nodes, outcomes.drop_last());
        match outcomes[i] {
            NodeOutcome::Identified(n) => acc.insert(nodes[i].node_key@, n.node_key),
            _ => acc,
        }
    }
}

/// The old keys of the identified nodes, in order.
pub open spec fn identities(nodes: Seq<Node>, outcomes: Seq<NodeOutcome>) -> Seq<Seq<char>>
    decreases outcomes.len(),
{
    if outcomes.len() == 0 {
        Seq::empty()
    } else {
        let i = outcomes.len() - 1;
        let acc = identities(nodes, outcomes.drop_last());
        match outcomes[i] {
            NodeOutcome::Identified(_) => acc.push(nodes[i].node_key@),
            _ => acc,
        }
    }
}

/// The keys of the nodes whose identification failed.
pub open spec fn dead_keys(nodes: Seq<Node>, outcomes: Seq<NodeOutcome>) -> Set<Seq<char>>
    decreases outcomes.len(),
{
    if outcomes.len() == 0 {
        Set::empty()
    } else {
        let i = outcomes.len() - 1;
        let acc = dead_keys(nodes, outcomes.drop_last());
        match outcomes[i] {
            NodeOutcome::Failed => acc.insert(nodes[i].node_key@),
            _ => acc,
        }
    }
}

/// Some identification failed.
pub open spec fn any_failed(outcomes: Seq<NodeOutcome>) -> bool {
    exists|i: int| 0 <= i < outcomes.len() && #[trigger] outcomes[i] is Failed
}

/// Adds the edges of one old edge list whose both ends were identified,
/// renamed to the new keys.
pub open spec fn add_mapped_edges(acc: ListsView, edges: Seq<Edge>, m: Map<Seq<char>, String>) -> ListsView
    decreases edges.len(),
{
    if edges.len() == 0 {
        acc
    } else {
        let prev = add_mapped_edges(acc, edges.drop_last(), m);
        let e = edges.last();
        if m.contains_key(e.from@) && m.contains_key(e.to@) {
            append_to_list(prev, m[e.from@]@, seq![Edge { from: m[e.from@], to: m[e.to@], edge_name: e.edge_name }])
        } else {
            prev
        }
    }
}

/// The edge lists of the identified graph: the renamed edges of the old edge
/// lists whose key is not dead.
pub open spec fn identified_lists(lists: ListsView, m: Map<Seq<char>, String>, dead: Set<Seq<char>>) -> ListsView
    decreases lists.len(),
{
    if lists.len() == 0 {
        Seq::empty()
    } else {
        let acc = identified_lists(lists.drop_last(), m, dead);
        if dead.contains(lists.last().0) {
            acc
        } else {
            add_mapped_edges(acc, lists.last().1, m)
        }
    }
}

/// `s` is the new key of some identified node.
pub open spec fn is_new_key(m: Map<Seq<char>, String>, s: String) -> bool {
    exists|k: Seq<char>| m.contains_key(k) && m[k] == s
}

/// Every edge of `ls` has property `p`.
pub open spec fn all_edges(ls: ListsView, p: spec_fn(Edge) -> bool) -> bool {
    forall|i: int, j: int| 0 <= i < ls.len() && 0 <= j < ls[i].1.len() ==> p(#[trigger] ls[i].1[j])
}

proof fn lemma_append_all_edges(acc: ListsView, k: Seq<char>, edges: Seq<Edge>, p: spec_fn(Edge) -> bool)
    requires
        all_edges(acc, p),
        forall|j: int| 0 <= j < edges.len() ==> p(#[trigger] edges[j]),
    ensures
        all_edges(append_to_list(acc, k, edges), p),
{
    let keys = acc.map_values(|e: (Seq<char>, Seq<Edge>)| e.0);
    crate::graph::lemma_index_of_key(keys, k);
    let i = index_of_key(keys, k);
    let r = append_to_list(acc, k, edges);
    assert forall|a: int, b: int| 0 <= a < r.len() && 0 <= b < r[a].1.len() implies p(#[trigger] r[a].1[b]) by {
        if i < 0 {
            if a < acc.len() {
                assert(r[a] == acc[a]);
            } else {
                assert(r[a].1 == edges);
            }
        } else if a == i {
            assert(r[a].1 == acc[i].1 + edges);
            if b < acc[i].1.len() {
                assert(r[a].1[b] == acc[i].1[b]);
            } else {
                assert(r[a].1[b] == edges[b - acc[i].1.len()]);
            }
        } else {
            assert(r[a] == acc[a]);
        }
    }
}

proof fn lemma_mapped_edges_new_keys(acc: ListsView, edges: Seq<Edge>, m: Map<Seq<char>, String>)
    requires
        all_edges(acc, |e: Edge| is_new_key(m, e.from) && is_new_key(m, e.to)),
    ensures
        all_edges(add_mapped_edges(acc, edges, m), |e: Edge| is_new_key(m, e.from) && is_new_key(m, e.to)),
    decreases edges.len(),
{
    if edges.len() > 0 {
        lemma_mapped_edges_new_keys(acc, edges.drop_last(), m);
        let prev = add_mapped_edges(acc, edges.drop_last(), m);
        let e = edges.last();
        if m.contains_key(e.from@) && m.contains_key(e.to@) {
            let ne = Edge { from: m[e.from@], to: m[e.to@], edge_name: e.edge_name };
            assert(is_new_key(m, ne.from));
            assert(is_new_key(m, ne.to));
            lemma_append_all_edges(prev, m[e.from@]@, seq![ne], |e: Edge| is_new_key(m, e.from) && is_new_key(m, e.to));
        }
    }
}

/// Every edge of the identified graph joins the new keys of identified nodes.
pub proof fn lemma_identified_edges_join_identified_nodes(lists: ListsView, m: Map<Seq<char>, String>, dead: Set<Seq<char>>)
    ensures
        all_edges(identified_lists(lists, m, dead), |e: Edge| is_new_key(m, e.from) && is_new_key(m, e.to)),
    decreases lists.len(),
{
    if lists.len() > 0 {
        lemma_identified_edges_join_identified_nodes(lists.drop_last(), m, dead);
        if !dead.contains(lists.last().0) {
            lemma_mapped_edges_new_keys(identified_lists(lists.drop_last(), m, dead), lists.last().1, m);
        }
    }
}

/// The result of identifying a batch: the identified subgraphs, or the
/// identified subgraphs together with the error of a partial success, or the
/// error alone.
pub type IdentifiedSubgraphs = Result<GeneratedSubgraphs, Result<(GeneratedSubgraphs, NodeIdentifierError), NodeIdentifierError>>;

/// The graph the result carries, if any.
pub open spec fn result_graphs(r: IdentifiedSubgraphs) -> Option<Seq<Graph>> {
    match r {
        Ok(s) => Some(s.subgraphs@),
        Err(Ok((s, _))) => Some(s.subgraphs@),
        Err(Err(_)) => None,
    }
}

/// What building the identified graph of `output_subgraph` from `outcomes`
/// gives: the old keys of the identified nodes and the identified batch, or
/// the error where nothing was identified; see [`assemble_identified_graph`].
pub open spec fn identification_result(
    output_subgraph: Graph,
    outcomes: Seq<NodeOutcome>,
    prior_failure: bool,
    r: (Vec<String>, IdentifiedSubgraphs),
) -> bool {
    let ns = identified_nodes(outcomes);
    let m = identity_map(output_subgraph.nodes@, outcomes);
    let ls = identified_lists(lists_view(output_subgraph.edges@), m, dead_keys(output_subgraph.nodes@, outcomes));
    if ns.len() == 0 && ls.len() == 0 {
        &&& r.1 == IdentifiedSubgraphs::Err(Err(NodeIdentifierError::Unexpected))
        &&& r.0@.len() == 0
    } else {
        &&& r.1 is Ok <==> !(prior_failure || any_failed(outcomes))
        &&& r.1 matches Err(Ok((_, e))) ==> e == NodeIdentifierError::Unexpected
        &&& result_graphs(r.1) matches Some(gs) && gs.len() == 1 && gs[0].wf() && gs[0].nodes@ == ns && lists_view(
            gs[0].edges@,
        ) == ls && gs[0].timestamp == output_subgraph.timestamp
        &&& r.0@.map_values(|s: String| s@) == identities(output_subgraph.nodes@, outcomes)
    }
}

/// Builds the identified graph: `outcomes[i]` is what identifying
/// `output_subgraph.nodes[i]` came to. Identified nodes are added under their
/// new keys; edges are kept, renamed, where both ends were identified and the
/// list they stand in is not kept under a failed node's key. An empty result
/// is an error; a failure here or before (`prior_failure`) makes the result a
/// partial success. Also returns the old keys of the identified nodes, which
/// the caller records as done unless the result is an error.
pub fn assemble_identified_graph(output_subgraph: &Graph, outcomes: &Vec<NodeOutcome>, prior_failure: bool) -> (r: (
    Vec<String>,
    IdentifiedSubgraphs,
))
    requires
        output_subgraph.wf(),
        outcomes@.len() == output_subgraph.nodes@.len(),
    ensures
        identification_result(*output_subgraph, outcomes@, prior_failure, r),
{
    let ghost nodes = output_subgraph.nodes@;
    let mut identified = Graph::new(output_subgraph.timestamp);
    let mut unid_id_map = KeyMap::new();
    let mut dead = KeySet::new();
    let mut keys: Vec<String> = Vec::new();
    let mut failed = false;
    let mut i: usize = 0;
    while i < outcomes.len()
        invariant
            i <= outcomes.len(),
            outcomes@.len() == nodes.len(),
            nodes == output_subgraph.nodes@,
            identified.wf(),
            identified.timestamp == output_subgraph.timestamp,
            identified.edges@.len() == 0,
            identified.nodes@ == identified_nodes(outcomes@.take(i as int)),
            unid_id_map@ == identity_map(nodes, outcomes@.take(i as int)),
            dead@ == dead_keys(nodes, outcomes@.take(i as int)),
            keys@.map_values(|s: String| s@) == identities(nodes, outcomes@.take(i as int)),
            failed == any_failed(outcomes@.take(i as int)),
        decreases outcomes.len() - i,
    {
        let ghost prev = outcomes@.take(i as int);
        assert(outcomes@.take(i + 1).drop_last() =~= prev);
        assert(outcomes@.take(i + 1)[i as int] == outcomes@[i as int]);
        let old_key = &output_subgraph.nodes[i].node_key;
        match &outcomes[i] {
            NodeOutcome::CacheHit => {},
            NodeOutcome::Failed => {
                dead.insert(old_key.clone());
                failed = true;
            },
            NodeOutcome::Identified(n) => {
                unid_id_map.insert(old_key.clone(), n.node_key.clone());
                keys.push(old_key.clone());
                identified.add_node(n.clone());
                assert(keys@.map_values(|s: String| s@) =~= identities(nodes, prev).push(old_key@));
            },
        }
        proof {
            let next = outcomes@.take(i + 1);
            if any_failed(next) {
                let j = choose|j: int| 0 <= j < next.len() && #[trigger] next[j] is Failed;
                if j < i {
                    assert(prev[j] is Failed);
                }
            }
            if any_failed(prev) {
                let j = choose|j: int| 0 <= j < prev.len() && #[trigger] prev[j] is Failed;
                assert(next[j] is Failed);
            }
        }
        i = i + 1;
    }
    assert(outcomes@.take(outcomes@.len() as int) =~= outcomes@);
    let ghost m = unid_id_map@;
    let ghost dk = dead@;
    let ghost lists = lists_view(output_subgraph.edges@);
    let mut k: usize = 0;
    while k < output_subgraph.edges.len()
        invariant
            k <= output_subgraph.edges.len(),
            lists == lists_view(output_subgraph.edges@),
            unid_id_map@ == m,
            dead@ == dk,
            identified.wf(),
            identified.timestamp == output_subgraph.timestamp,
            identified.nodes@ == identified_nodes(outcomes@),
            lists_view(identified.edges@) == identified_lists(lists.take(k as int), m, dk),
        decreases output_subgraph.edges.len() - k,
    {
        assert(lists.take(k + 1).drop_last() =~= lists.take(k as int));
        let ghost before = lists_view(identified.edges@);
        if !dead.contains(output_subgraph.edges[k].0.as_str()) {
            let edges = &output_subgraph.edges[k].1.edges;
            let mut j: usize = 0;
            while j < edges.len()
                invariant
                    j <= edges.len(),
                    k < output_subgraph.edges.len(),
                    lists == lists_view(output_subgraph.edges@),
                    edges@ == lists[k as int].1,
                    unid_id_map@ == m,
                    dead@ == dk,
                    identified.wf(),
                    identified.timestamp == output_subgraph.timestamp,
                    identified.nodes@ == identified_nodes(outcomes@),
                    lists_view(identified.edges@) == add_mapped_edges(before, edges@.take(j as int), m),
                decreases edges.len() - j,
            {
                assert(edges@.take(j + 1).drop_last() =~= edges@.take(j as int));
                let e = &edges[j];
                let from_key = unid_id_map.get(e.from.as_str());
                let to_key = unid_id_map.get(e.to.as_str());
                match (from_key, to_key) {
                    (Some(f), Some(t)) => {
                        identified.add_edge(e.edge_name.clone(), f.clone(), t.clone());
                    },
                    _ => {},
                }
                j = j + 1;
            }
            assert(edges@.take(edges@.len() as int) =~= edges@);
        }
        k = k + 1;
    }
    assert(lists.take(lists.len() as int) =~= lists);
    if identified.is_empty() {
        return (Vec::new(), Err(Err(NodeIdentifierError::Unexpected)));
    }
    let mut out: Vec<Graph> = Vec::new();
    out.push(identified);
    if failed || prior_failure {
        (keys, Err(Ok((GeneratedSubgraphs::new(out), NodeIdentifierError::Unexpected))))
    } else {
        (keys, Ok(GeneratedSubgraphs::new(out)))
    }
}

/// IP addresses, IP ports, network and IP connections never need an asset id
/// attributed; processes, files, connections of processes and assets always
/// do; a dynamic node does as it says.
pub proof fn lemma_asset_attribution_kinds(n: Node)
    ensures
        n.which_node == Some(NodeKind::IpAddress) || n.which_node == Some(NodeKind::IpPort) || n.which_node == Some(
            NodeKind::NetworkConnection,
        ) || n.which_node == Some(NodeKind::IpConnection) ==> !needs_asset_attribution(n),
        n.which_node == Some(NodeKind::Process) || n.which_node == Some(NodeKind::File) || n.which_node == Some(
            NodeKind::ProcessOutboundConnection,
        ) || n.which_node == Some(NodeKind::ProcessInboundConnection) || n.which_node == Some(NodeKind::Asset)
            ==> needs_asset_attribution(n),
        n.which_node == Some(NodeKind::Dynamic) ==> (needs_asset_attribution(n) <==> n.requires_asset_identification),
{
}

/// Where no node needs an asset id attributed, attribution keeps every node
/// as it is, in order, and reports no failure, whatever the outcomes say.
pub proof fn lemma_attribution_keeps_nodes_needing_none(nodes: Seq<Node>, outcomes: Seq<AssetAttribution>)
    requires
        no_dup(node_keys(nodes)),
        forall|i: int| 0 <= i < nodes.len() ==> !needs_asset_attribution(#[trigger] nodes[i]),
    ensures
        attributed_nodes(nodes, outcomes) == nodes,
        last_failure(nodes, outcomes, nodes.len() as int) is None,
    decreases nodes.len(),
{
    if nodes.len() > 0 {
        let t = nodes.drop_last();
        let n = nodes.last();
        assert(node_keys(t) =~= node_keys(nodes).drop_last());
        assert forall|i: int| 0 <= i < t.len() implies !needs_asset_attribution(#[trigger] t[i]) by {
            assert(t[i] == nodes[i]);
        }
        lemma_attribution_keeps_nodes_needing_none(t, outcomes);
        crate::graph::lemma_index_of_key(node_keys(t), n.node_key@);
        if node_keys(t).contains(n.node_key@) {
            let j = choose|j: int| 0 <= j < node_keys(t).len() && node_keys(t)[j] == n.node_key@;
            assert(node_keys(nodes)[j] == node_keys(nodes)[nodes.len() - 1]);
        }
        assert(t.push(n) =~= nodes);
        assert(!needs_asset_attribution(nodes[nodes.len() - 1]));
        lemma_last_failure_prefix(nodes, outcomes, nodes.len() - 1);
    }
}

/// The last failure among the first `k` nodes of `nodes` is that among the
/// first `k` of any sequence that starts with the same `k` nodes.
proof fn lemma_last_failure_prefix(nodes: Seq<Node>, outcomes: Seq<AssetAttribution>, k: int)
    requires
        0 <= k < nodes.len(),
    ensures
        last_failure(nodes, outcomes, k) == last_failure(nodes.drop_last(), outcomes, k),
    decreases k,
{
    if k > 0 {
        assert(nodes[k - 1] == nodes.drop_last()[k - 1]);
        lemma_last_failure_prefix(nodes, outcomes, k - 1);
    }
}

/// A process, file, connection of a process or asset that carries both an
/// asset id and a hostname implies the mapping from that asset id to that
/// hostname as of its creation time. A node lacking either, or of any other
/// kind, implies none.
pub proof fn lemma_mapping_of(n: Node)
    ensures
        (n.which_node == Some(NodeKind::Process) || n.which_node == Some(NodeKind::File) || n.which_node == Some(
            NodeKind::ProcessOutboundConnection,
        ) || n.which_node == Some(NodeKind::ProcessInboundConnection) || n.which_node == Some(NodeKind::Asset))
            && n.asset_id is Some && n.hostname is Some ==> mapping_of(n) == Some(
            (n.asset_id->0@, n.hostname->0@, n.created_timestamp),
        ),
        n.asset_id is None || n.hostname is None ==> mapping_of(n) is None,
        !(n.which_node == Some(NodeKind::Process) || n.which_node == Some(NodeKind::File) || n.which_node == Some(
            NodeKind::ProcessOutboundConnection,
        ) || n.which_node == Some(NodeKind::ProcessInboundConnection) || n.which_node == Some(NodeKind::Asset))
            ==> mapping_of(n) is None,
{
}

/// The mappings of a sequence of nodes are those of its first part followed
/// by those of the rest: each node contributes its own mapping, in order.
pub proof fn lemma_mappings_of_append(a: Seq<Node>, b: Seq<Node>)
    ensures
        mappings_of(a + b) == mappings_of(a) + mappings_of(b),
    decreases b.len(),
{
    if b.len() == 0 {
        assert(a + b =~= a);
        assert(mappings_of(a) + mappings_of(b) =~= mappings_of(a));
    } else {
        assert((a + b).drop_last() =~= a + b.drop_last());
        assert((a + b).last() == b.last());
        lemma_mappings_of_append(a, b.drop_last());
        match mapping_of(b.last()) {
            Some(m) => {
                assert(mappings_of(a) + mappings_of(b) =~= (mappings_of(a) + mappings_of(b.drop_last())).push(m));
            },
            None => {},
        }
    }
}

/// A single node implies exactly its own mapping, if any.
pub proof fn lemma_mappings_of_one(n: Node)
    ensures
        mappings_of(seq![n]) == match mapping_of(n) {
            Some(m) => seq![m],
            None => Seq::<(Seq<char>, Seq<char>, u64)>::empty(),
        },
{
    let one = seq![n];
    assert(one.len() == 1);
    assert(one.drop_last() =~= Seq::<Node>::empty());
    assert(one.last() == n);
    assert(mappings_of(Seq::<Node>::empty()) =~= Seq::<(Seq<char>, Seq<char>, u64)>::empty());
    match mapping_of(n) {
        Some(m) => {
            assert(Seq::<(Seq<char>, Seq<char>, u64)>::empty().push(m) =~= seq![m]);
        },
        None => {},
    }
}

/// What attribution keeps holds no key twice, and only keys of the nodes it
/// was given.
proof fn lemma_attributed_nodes_keys(nodes: Seq<Node>, outcomes: Seq<AssetAttribution>)
    ensures
        no_dup(node_keys(attributed_nodes(nodes, outcomes))),
        forall|k: Seq<char>| #[trigger] node_at(attributed_nodes(nodes, outcomes), k) is Some ==> node_keys(nodes).contains(k),
    decreases nodes.len(),
{
    if nodes.len() > 0 {
        let i: int = nodes.len() - 1;
        let t = nodes.drop_last();
        let acc = attributed_nodes(t, outcomes);
        lemma_attributed_nodes_keys(t, outcomes);
        let n = nodes[i];
        let m = if !needs_asset_attribution(n) {
            n
        } else {
            match outcomes[i] {
                AssetAttribution::Attributed(a) => Node { asset_id: Some(a), ..n },
                AssetAttribution::Failed(_) => n,
            }
        };
        let kept = !needs_asset_attribution(n) || outcomes[i] is Attributed;
        if kept {
            crate::graph::lemma_insert_node_keys(acc, m);
            assert(attributed_nodes(nodes, outcomes) == insert_node(acc, m));
        }
        assert forall|k: Seq<char>| #[trigger] node_at(attributed_nodes(nodes, outcomes), k) is Some implies node_keys(
            nodes,
        ).contains(k) by {
            if kept {
                crate::graph::lemma_insert_node_lookup(acc, m, k);
            }
            if k == n.node_key@ {
                assert(node_keys(nodes)[i] == k);
            } else {
                assert(node_at(acc, k) is Some);
                let j = choose|j: int| 0 <= j < node_keys(t).len() && node_keys(t)[j] == k;
                assert(node_keys(nodes)[j] == k);
            }
        }
    }
}

/// Asset attribution of nodes with distinct keys keeps a node that needs no
/// asset id as it is; keeps a node whose asset id was found, with that asset
/// id; and drops a node whose attribution failed.
pub proof fn lemma_attribution_outcome(nodes: Seq<Node>, outcomes: Seq<AssetAttribution>, i: int)
    requires
        no_dup(node_keys(nodes)),
        0 <= i < nodes.len(),
    ensures
        ({
            let kept = node_at(attributed_nodes(nodes, outcomes), nodes[i].node_key@);
            if !needs_asset_attribution(nodes[i]) {
                kept == Some(nodes[i])
            } else {
                match outcomes[i] {
                    AssetAttribution::Attributed(a) => kept == Some(Node { asset_id: Some(a), ..nodes[i] }),
                    AssetAttribution::Failed(_) => kept is None,
                }
            }
        }),
    decreases nodes.len(),
{
    let last: int = nodes.len() - 1;
    let t = nodes.drop_last();
    let acc = attributed_nodes(t, outcomes);
    let n = nodes[last];
    assert(node_keys(t) =~= node_keys(nodes).drop_last());
    lemma_attributed_nodes_keys(t, outcomes);
    let m = if !needs_asset_attribution(n) {
        n
    } else {
        match outcomes[last] {
            AssetAttribution::Attributed(a) => Node { asset_id: Some(a), ..n },
            AssetAttribution::Failed(_) => n,
        }
    };
    let kept = !needs_asset_attribution(n) || outcomes[last] is Attributed;
    if kept {
        assert(attributed_nodes(nodes, outcomes) == insert_node(acc, m));
        crate::graph::lemma_insert_node_lookup(acc, m, nodes[i].node_key@);
    } else {
        assert(attributed_nodes(nodes, outcomes) == acc);
    }
    if i == last {
        if node_at(acc, n.node_key@) is Some {
            let j = choose|j: int| 0 <= j < node_keys(t).len() && node_keys(t)[j] == n.node_key@;
            assert(node_keys(nodes)[j] == node_keys(nodes)[last]);
        }
    } else {
        assert(t[i] == nodes[i]);
        assert(node_keys(nodes)[i] != node_keys(nodes)[last]);
        lemma_attribution_outcome(t, outcomes, i);
    }
}

} // verus!
