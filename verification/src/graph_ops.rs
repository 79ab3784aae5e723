use vstd::hash_map::StringHashMap;
use vstd::hash_set::StringHashSet;
use vstd::prelude::*;

use crate::graph::{
    find_node, index_of_key, lemma_index_of_key, lemma_no_dup_push, list_keys,
    lists_view, merge_node, no_dup, node_keys, Edge, EdgeList, Graph, Node, NodeKind,
};

verus! {

/// A map from node keys to node keys.
pub struct KeyMap {
    m: StringHashMap<String>,
}

impl View for KeyMap {
    type V = Map<Seq<char>, String>;

    closed spec fn view(&self) -> Map<Seq<char>, String> {
        self.m@
    }
}

impl KeyMap {
    pub fn new() -> (r: KeyMap)
        ensures
            r@ == Map::<Seq<char>, String>::empty(),
    {
        KeyMap { m: StringHashMap::new() }
    }

    pub fn insert(&mut self, k: String, v: String)
        ensures
            final(self)@ == old(self)@.insert(k@, v),
    {
        self.m.insert(k, v);
    }

    pub fn get(&self, k: &str) -> (r: Option<&String>)
        ensures
            match r {
                Some(v) => self@.contains_key(k@) && *v == self@[k@],
                None => !self@.contains_key(k@),
            },
    {
        self.m.get(k)
    }
}

/// A set of node keys.
pub struct KeySet {
    s: StringHashSet,
}

impl View for KeySet {
    type V = Set<Seq<char>>;

    closed spec fn view(&self) -> Set<Seq<char>> {
        self.s@
    }
}

impl KeySet {
    pub fn new() -> (r: KeySet)
        ensures
            r@ == Set::<Seq<char>>::empty(),
    {
        KeySet { s: StringHashSet::new() }
    }

    pub fn insert(&mut self, k: String)
        ensures
            final(self)@ == old(self)@.insert(k@),
    {
        self.s.insert(k);
    }

    pub fn contains(&self, k: &str) -> (r: bool)
        ensures
            r == self@.contains(k@),
    {
        self.s.contains(k)
    }

    pub fn is_empty(&self) -> (r: bool)
        ensures
            r == (self@ == Set::<Seq<char>>::empty()),
    {
        let e = self.s.is_empty();
        proof {
            if e {
                assert(self@ =~= Set::<Seq<char>>::empty());
            }
        }
        e
    }
}

/// Filtering keeps keys apart, and keeps only what was there.
pub proof fn lemma_filter_no_dup<A>(s: Seq<A>, key: spec_fn(A) -> Seq<char>, p: spec_fn(A) -> bool)
    requires
        no_dup(s.map_values(key)),
    ensures
        no_dup(s.filter(p).map_values(key)),
        forall|x: A| s.filter(p).contains(x) ==> s.contains(x),
    decreases s.len(),
{
    reveal(Seq::filter);
    if s.len() > 0 {
        let t = s.drop_last();
        let last = s.last();
        assert(t.map_values(key) =~= s.map_values(key).drop_last());
        assert(no_dup(t.map_values(key)));
        lemma_filter_no_dup(t, key, p);
        assert(s =~= t.push(last));
        t.lemma_filter_push(last, p);
        assert forall|x: A| s.filter(p).contains(x) implies s.contains(x) by {
            let f = t.filter(p);
            let sf = s.filter(p);
            let j = choose|j: int| 0 <= j < sf.len() && sf[j] == x;
            if p(last) && j == f.len() {
                assert(sf == f.push(last));
                assert(s[s.len() - 1] == x);
            } else {
                assert(f[j] == x);
                assert(f.contains(x));
                assert(t.contains(x));
                let m = choose|m: int| 0 <= m < t.len() && t[m] == x;
                assert(s[m] == x);
            }
        }
        if p(last) {
            let f = t.filter(p);
            assert(!f.map_values(key).contains(key(last))) by {
                if f.map_values(key).contains(key(last)) {
                    let j = choose|j: int| 0 <= j < f.len() && f.map_values(key)[j] == key(last);
                    assert(f.contains(f[j]));
                    assert(t.contains(f[j]));
                    let m = choose|m: int| 0 <= m < t.len() && t[m] == f[j];
                    assert(s.map_values(key)[m] == s.map_values(key)[s.len() - 1]);
                }
            }
            assert(s.filter(p).map_values(key) =~= f.map_values(key).push(key(last)));
            lemma_no_dup_push(f.map_values(key), key(last));
        }
    }
}

/// A node is dead when its key is in `dead`.
pub open spec fn is_live_node(dead: Set<Seq<char>>) -> spec_fn(Node) -> bool {
    |n: Node| !dead.contains(n.node_key@)
}

pub open spec fn is_live_list(dead: Set<Seq<char>>) -> spec_fn((Seq<char>, Seq<Edge>)) -> bool {
    |e: (Seq<char>, Seq<Edge>)| !dead.contains(e.0)
}

/// Drops the nodes whose keys are in `dead`, and the edge lists kept under
/// those keys.
pub fn remove_dead_nodes(graph: &mut Graph, dead: &KeySet)
    requires
        old(graph).wf(),
    ensures
        final(graph).wf(),
        final(graph).nodes@ == old(graph).nodes@.filter(is_live_node(dead@)),
        lists_view(final(graph).edges@) == lists_view(old(graph).edges@).filter(is_live_list(dead@)),
        final(graph).timestamp == old(graph).timestamp,
{
    let ghost old_nodes = graph.nodes@;
    let ghost old_lists = graph.edges@;
    let mut nodes: Vec<Node> = Vec::new();
    let mut i: usize = 0;
    while i < graph.nodes.len()
        invariant
            i <= graph.nodes.len(),
            graph.nodes@ == old_nodes,
            nodes@ == old_nodes.take(i as int).filter(is_live_node(dead@)),
        decreases graph.nodes.len() - i,
    {
        proof {
            old_nodes.take(i as int).lemma_filter_push(old_nodes[i as int], is_live_node(dead@));
            assert(old_nodes.take(i + 1) =~= old_nodes.take(i as int).push(old_nodes[i as int]));
        }
        if !dead.contains(graph.nodes[i].node_key.as_str()) {
            nodes.push(graph.nodes[i].clone());
        }
        i = i + 1;
    }
    assert(old_nodes.take(old_nodes.len() as int) =~= old_nodes);
    let mut lists: Vec<(String, EdgeList)> = Vec::new();
    let mut k: usize = 0;
    while k < graph.edges.len()
        invariant
            k <= graph.edges.len(),
            graph.edges@ == old_lists,
            lists_view(lists@) == lists_view(old_lists).take(k as int).filter(is_live_list(dead@)),
        decreases graph.edges.len() - k,
    {
        proof {
            lists_view(old_lists).take(k as int).lemma_filter_push(lists_view(old_lists)[k as int], is_live_list(dead@));
            assert(lists_view(old_lists).take(k + 1) =~= lists_view(old_lists).take(k as int).push(lists_view(old_lists)[k as int]));
        }
        if !dead.contains(graph.edges[k].0.as_str()) {
            let key = graph.edges[k].0.clone();
            let list = graph.edges[k].1.clone();
            lists.push((key, list));
            assert(lists_view(lists@) =~= lists_view(old_lists).take(k as int).filter(is_live_list(dead@)).push(lists_view(old_lists)[k as int]));
        }
        k = k + 1;
    }
    assert(lists_view(old_lists).take(old_lists.len() as int) =~= lists_view(old_lists));
    proof {
        let nk = |n: Node| n.node_key@;
        assert(old_nodes.map_values(nk) =~= node_keys(old_nodes));
        lemma_filter_no_dup(old_nodes, nk, is_live_node(dead@));
        assert(nodes@.map_values(nk) =~= node_keys(nodes@));
        let lk = |e: (Seq<char>, Seq<Edge>)| e.0;
        assert(lists_view(old_lists).map_values(lk) =~= list_keys(old_lists));
        lemma_filter_no_dup(lists_view(old_lists), lk, is_live_list(dead@));
        assert(lists_view(lists@).map_values(lk) =~= list_keys(lists@));
    }
    graph.nodes = nodes;
    graph.edges = lists;
}

/// An edge is live when both of its ends are nodes of the graph.
pub open spec fn is_live_edge(nodes: Seq<Node>) -> spec_fn(Edge) -> bool {
    |e: Edge| node_keys(nodes).contains(e.to@) && node_keys(nodes).contains(e.from@)
}

/// Keeps, in each edge list, only the edges whose both ends are nodes.
pub open spec fn live_edges(nodes: Seq<Node>, lists: Seq<(Seq<char>, Seq<Edge>)>) -> Seq<(Seq<char>, Seq<Edge>)> {
    lists.map_values(|l: (Seq<char>, Seq<Edge>)| (l.0, l.1.filter(is_live_edge(nodes))))
}

/// After dead edges are removed, every edge leads between nodes of the graph,
/// no edge list is lost, and removing them again changes nothing.
pub proof fn lemma_live_edges_closed(nodes: Seq<Node>, lists: Seq<(Seq<char>, Seq<Edge>)>)
    ensures
        live_edges(nodes, lists).len() == lists.len(),
        forall|i: int, j: int| 0 <= i < lists.len() && 0 <= j < live_edges(nodes, lists)[i].1.len() ==> {
            let e = #[trigger] live_edges(nodes, lists)[i].1[j];
            node_keys(nodes).contains(e.from@) && node_keys(nodes).contains(e.to@)
        },
        live_edges(nodes, live_edges(nodes, lists)) == live_edges(nodes, lists),
{
    assert forall|i: int, j: int| 0 <= i < lists.len() && 0 <= j < live_edges(nodes, lists)[i].1.len() implies {
        let e = #[trigger] live_edges(nodes, lists)[i].1[j];
        node_keys(nodes).contains(e.from@) && node_keys(nodes).contains(e.to@)
    } by {
        let f = lists[i].1.filter(is_live_edge(nodes));
        lists[i].1.lemma_filter_pred(is_live_edge(nodes), j);
    }
    assert forall|i: int| 0 <= i < lists.len() implies #[trigger] live_edges(nodes, lists)[i].1.filter(is_live_edge(nodes))
        == live_edges(nodes, lists)[i].1 by {
        let f = lists[i].1.filter(is_live_edge(nodes));
        lemma_filter_all(f, is_live_edge(nodes));
    }
    assert(live_edges(nodes, live_edges(nodes, lists)) =~= live_edges(nodes, lists));
}

/// Filtering a sequence whose every element passes keeps it whole.
proof fn lemma_filter_all<A>(s: Seq<A>, p: spec_fn(A) -> bool)
    requires
        forall|i: int| 0 <= i < s.len() ==> p(#[trigger] s[i]),
    ensures
        s.filter(p) == s,
    decreases s.len(),
{
    reveal(Seq::filter);
    if s.len() > 0 {
        lemma_filter_all(s.drop_last(), p);
        assert(s.drop_last().push(s.last()) =~= s);
    }
}

/// After dead nodes are removed, no node or edge list is kept under a dead key,
/// and every node with a live key is kept.
pub proof fn lemma_removed_nodes(nodes: Seq<Node>, lists: Seq<(Seq<char>, Seq<Edge>)>, dead: Set<Seq<char>>)
    ensures
        forall|i: int| 0 <= i < nodes.filter(is_live_node(dead)).len()
            ==> !dead.contains(#[trigger] nodes.filter(is_live_node(dead))[i].node_key@),
        forall|i: int| 0 <= i < lists.filter(is_live_list(dead)).len()
            ==> !dead.contains(#[trigger] lists.filter(is_live_list(dead))[i].0),
        forall|i: int| 0 <= i < nodes.len() && !dead.contains(nodes[i].node_key@)
            ==> nodes.filter(is_live_node(dead)).contains(#[trigger] nodes[i]),
{
    assert forall|i: int| 0 <= i < nodes.filter(is_live_node(dead)).len()
        implies !dead.contains(#[trigger] nodes.filter(is_live_node(dead))[i].node_key@) by {
        nodes.lemma_filter_pred(is_live_node(dead), i);
    }
    assert forall|i: int| 0 <= i < lists.filter(is_live_list(dead)).len()
        implies !dead.contains(#[trigger] lists.filter(is_live_list(dead))[i].0) by {
        lists.lemma_filter_pred(is_live_list(dead), i);
    }
    assert forall|i: int| 0 <= i < nodes.len() && !dead.contains(nodes[i].node_key@)
        implies nodes.filter(is_live_node(dead)).contains(#[trigger] nodes[i]) by {
        nodes.lemma_filter_contains(is_live_node(dead), i);
    }
}

fn has_node(nodes: &Vec<Node>, key: &String) -> (r: bool)
    requires
        no_dup(node_keys(nodes@)),
    ensures
        r == node_keys(nodes@).contains(key@),
{
    proof {
        lemma_index_of_key(node_keys(nodes@), key@);
    }
    find_node(nodes, key).is_some()
}

/// Removes the edges that lead from or to a node the graph does not hold.
pub fn remove_dead_edges(graph: &mut Graph)
    requires
        old(graph).wf(),
    ensures
        final(graph).wf(),
        final(graph).nodes@ == old(graph).nodes@,
        lists_view(final(graph).edges@) == live_edges(old(graph).nodes@, lists_view(old(graph).edges@)),
        final(graph).timestamp == old(graph).timestamp,
{
    let ghost old_lists = graph.edges@;
    let mut lists: Vec<(String, EdgeList)> = Vec::new();
    let mut k: usize = 0;
    while k < graph.edges.len()
        invariant
            k <= graph.edges.len(),
            graph.edges@ == old_lists,
            no_dup(node_keys(graph.nodes@)),
            lists_view(lists@) == live_edges(graph.nodes@, lists_view(old_lists)).take(k as int),
            list_keys(lists@) == list_keys(old_lists).take(k as int),
            lists@.len() == k,
        decreases graph.edges.len() - k,
    {
        let edges = &graph.edges[k].1.edges;
        let mut live: Vec<Edge> = Vec::new();
        let mut j: usize = 0;
        while j < edges.len()
            invariant
                j <= edges.len(),
                k < graph.edges.len(),
                graph.edges@ == old_lists,
                edges == &old_lists[k as int].1.edges,
                no_dup(node_keys(graph.nodes@)),
                lists_view(lists@) == live_edges(graph.nodes@, lists_view(old_lists)).take(k as int),
                list_keys(lists@) == list_keys(old_lists).take(k as int),
                lists@.len() == k,
                live@ == edges@.take(j as int).filter(is_live_edge(graph.nodes@)),
            decreases edges.len() - j,
        {
            proof {
                edges@.take(j as int).lemma_filter_push(edges@[j as int], is_live_edge(graph.nodes@));
                assert(edges@.take(j + 1) =~= edges@.take(j as int).push(edges@[j as int]));
            }
            if has_node(&graph.nodes, &edges[j].to) && has_node(&graph.nodes, &edges[j].from) {
                live.push(edges[j].clone());
            }
            j = j + 1;
        }
        assert(edges@.take(edges@.len() as int) =~= edges@);
        let key = graph.edges[k].0.clone();
        let ghost before = lists@;
        lists.push((key, EdgeList { edges: live }));
        assert(lists@ == before.push((key, EdgeList { edges: live })));
        assert(lists_view(lists@)[k as int] == (old_lists[k as int].0@, old_lists[k as int].1.edges@.filter(is_live_edge(graph.nodes@))));
        assert(live_edges(graph.nodes@, lists_view(old_lists))[k as int] == (old_lists[k as int].0@, old_lists[k as int].1.edges@.filter(is_live_edge(graph.nodes@))));
        assert(lists_view(lists@) =~= live_edges(graph.nodes@, lists_view(old_lists)).take(k + 1));
        assert(list_keys(lists@) =~= list_keys(old_lists).take(k + 1));
        k = k + 1;
    }
    assert(live_edges(graph.nodes@, lists_view(old_lists)).take(old_lists.len() as int) =~= live_edges(graph.nodes@, lists_view(old_lists)));
    assert(list_keys(old_lists).take(old_lists.len() as int) =~= list_keys(old_lists));
    graph.edges = lists;
}

/// The edge with both ends renamed through `m`, where `m` knows both ends;
/// otherwise the edge unchanged.
pub open spec fn remap_edge(e: Edge, m: Map<Seq<char>, String>) -> Edge {
    if m.contains_key(e.from@) && m.contains_key(e.to@) {
        Edge { from: m[e.from@], to: m[e.to@], edge_name: e.edge_name }
    } else {
        e
    }
}

pub open spec fn remap_list(l: (Seq<char>, Seq<Edge>), m: Map<Seq<char>, String>) -> (Seq<char>, Seq<Edge>) {
    (l.0, l.1.map_values(|e: Edge| remap_edge(e, m)))
}

/// Renames the ends of every edge through `unid_id_map`; edges with an end the
/// map does not know keep both ends. The keys of the edge lists stay.
pub fn remap_edges(graph: &mut Graph, unid_id_map: &KeyMap)
    requires
        old(graph).wf(),
    ensures
        final(graph).wf(),
        final(graph).nodes@ == old(graph).nodes@,
        lists_view(final(graph).edges@) == lists_view(old(graph).edges@).map_values(
            |l: (Seq<char>, Seq<Edge>)| remap_list(l, unid_id_map@),
        ),
        final(graph).timestamp == old(graph).timestamp,
{
    let ghost old_lists = graph.edges@;
    let ghost target = lists_view(old_lists).map_values(|l: (Seq<char>, Seq<Edge>)| remap_list(l, unid_id_map@));
    let mut lists: Vec<(String, EdgeList)> = Vec::new();
    let mut k: usize = 0;
    while k < graph.edges.len()
        invariant
            k <= graph.edges.len(),
            graph.edges@ == old_lists,
            target == lists_view(old_lists).map_values(|l: (Seq<char>, Seq<Edge>)| remap_list(l, unid_id_map@)),
            lists_view(lists@) == target.take(k as int),
            list_keys(lists@) == list_keys(old_lists).take(k as int),
            lists@.len() == k,
        decreases graph.edges.len() - k,
    {
        let edges = &graph.edges[k].1.edges;
        let mut out: Vec<Edge> = Vec::new();
        let mut j: usize = 0;
        while j < edges.len()
            invariant
                j <= edges.len(),
                k < graph.edges.len(),
                graph.edges@ == old_lists,
                edges == &old_lists[k as int].1.edges,
                target == lists_view(old_lists).map_values(|l: (Seq<char>, Seq<Edge>)| remap_list(l, unid_id_map@)),
                lists_view(lists@) == target.take(k as int),
                list_keys(lists@) == list_keys(old_lists).take(k as int),
                lists@.len() == k,
                out@ == edges@.take(j as int).map_values(|e: Edge| remap_edge(e, unid_id_map@)),
            decreases edges.len() - j,
        {
            let e = &edges[j];
            let from = unid_id_map.get(e.from.as_str());
            let to = unid_id_map.get(e.to.as_str());
            match (from, to) {
                (Some(f), Some(t)) => {
                    out.push(Edge { from: f.clone(), to: t.clone(), edge_name: e.edge_name.clone() });
                },
                _ => {
                    out.push(e.clone());
                },
            }
            assert(out@ =~= edges@.take(j + 1).map_values(|e: Edge| remap_edge(e, unid_id_map@)));
            j = j + 1;
        }
        assert(edges@.take(edges@.len() as int) =~= edges@);
        let key = graph.edges[k].0.clone();
        lists.push((key, EdgeList { edges: out }));
        assert(lists_view(lists@)[k as int] == remap_list(lists_view(old_lists)[k as int], unid_id_map@));
        assert(lists_view(lists@) =~= target.take(k + 1));
        assert(list_keys(lists@) =~= list_keys(old_lists).take(k + 1));
        k = k + 1;
    }
    assert(target.take(old_lists.len() as int) =~= target);
    assert(list_keys(old_lists).take(old_lists.len() as int) =~= list_keys(old_lists));
    graph.edges = lists;
}

/// Places `n` under its key: a node already there is merged into `n`.
pub open spec fn place_node(acc: Seq<Node>, n: Node) -> Seq<Node> {
    let i = index_of_key(node_keys(acc), n.node_key@);
    if i < 0 {
        acc.push(n)
    } else {
        acc.update(i, merge_node(n, acc[i]).0)
    }
}

/// What renaming one node through `m` contributes: dynamic nodes keep their
/// key, nodes `m` knows take their new key, other nodes are dropped.
pub open spec fn remap_node_step(acc: Seq<Node>, n: Node, m: Map<Seq<char>, String>) -> Seq<Node> {
    if n.which_node == Some(NodeKind::Dynamic) {
        place_node(acc, n)
    } else if m.contains_key(n.node_key@) {
        place_node(acc, Node { node_key: m[n.node_key@], ..n })
    } else {
        acc
    }
}

/// The nodes of `nodes` renamed through `m`, in order.
pub open spec fn remap_nodes_spec(nodes: Seq<Node>, m: Map<Seq<char>, String>) -> Seq<Node>
    decreases nodes.len(),
{
    if nodes.len() == 0 {
        Seq::empty()
    } else {
        remap_node_step(remap_nodes_spec(nodes.drop_last(), m), nodes.last(), m)
    }
}

pub proof fn lemma_place_node_keys(acc: Seq<Node>, n: Node)
    requires
        no_dup(node_keys(acc)),
    ensures
        no_dup(node_keys(place_node(acc, n))),
{
    lemma_index_of_key(node_keys(acc), n.node_key@);
    let i = index_of_key(node_keys(acc), n.node_key@);
    if i < 0 {
        assert(node_keys(acc.push(n)) =~= node_keys(acc).push(n.node_key@));
        lemma_no_dup_push(node_keys(acc), n.node_key@);
    } else {
        assert(merge_node(n, acc[i]).0.node_key == n.node_key);
        assert(node_keys(acc.update(i, merge_node(n, acc[i]).0)) =~= node_keys(acc));
    }
}

fn place(acc: &mut Vec<Node>, n: Node)
    requires
        no_dup(node_keys(old(acc)@)),
    ensures
        no_dup(node_keys(final(acc)@)),
        final(acc)@ == place_node(old(acc)@, n),
{
    proof {
        lemma_place_node_keys(acc@, n);
        lemma_index_of_key(node_keys(acc@), n.node_key@);
    }
    match find_node(acc, &n.node_key) {
        None => {
            acc.push(n);
        },
        Some(j) => {
            let mut m = n;
            m.merge(&acc[j]);
            acc.set(j, m);
        },
    }
}

/// Renames the nodes through `unid_id_map`. Dynamic nodes keep their key;
/// other nodes the map knows take their new key, and the rest are dropped.
/// Nodes that land on the same key are merged.
pub fn remap_nodes(graph: &mut Graph, unid_id_map: &KeyMap)
    requires
        old(graph).wf(),
    ensures
        final(graph).wf(),
        final(graph).nodes@ == remap_nodes_spec(old(graph).nodes@, unid_id_map@),
        final(graph).edges@ == old(graph).edges@,
        final(graph).timestamp == old(graph).timestamp,
{
    let ghost old_nodes = graph.nodes@;
    let mut nodes: Vec<Node> = Vec::new();
    let mut i: usize = 0;
    while i < graph.nodes.len()
        invariant
            i <= graph.nodes.len(),
            graph.nodes@ == old_nodes,
            no_dup(node_keys(nodes@)),
            nodes@ == remap_nodes_spec(old_nodes.take(i as int), unid_id_map@),
        decreases graph.nodes.len() - i,
    {
        assert(old_nodes.take(i + 1).drop_last() =~= old_nodes.take(i as int));
        let node = &graph.nodes[i];
        if node.which_node == Some(NodeKind::Dynamic) {
            place(&mut nodes, node.clone());
        } else {
            match unid_id_map.get(node.node_key.as_str()) {
                Some(new_key) => {
                    let mut renamed = node.clone();
                    renamed.set_node_key(new_key.clone());
                    place(&mut nodes, renamed);
                },
                None => {},
            }
        }
        i = i + 1;
    }
    assert(old_nodes.take(old_nodes.len() as int) =~= old_nodes);
    graph.nodes = nodes;
}

} // verus!
