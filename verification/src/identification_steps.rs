use vstd::prelude::*;

use crate::graph::{insert_node, lists_view, node_keys, GeneratedSubgraphs, Graph, Node, NodeKind};
use crate::graph_ops::live_edges;
use crate::identification::{
    assemble_asset_attribution, assemble_identified_graph, asset_id_mappings, attributed_nodes, first_unknown,
    identification_result, last_failure, mapping_view, mappings_of, merge_batch, merged_view, needs_asset_attribution,
    requires_asset_attribution, all_wf, no_inbound_attributed, AssetAttribution, AssetIdMapping, IdentifiedSubgraphs, NodeIdentifierError,
    NodeOutcome,
};
use crate::node_identifier::{
    lacks_required_asset_id, plan_node_key_attribution, planned_attribution, unid_panics, NodeKeyAttribution,
    SessionTable, UnidSession,
};

verus! {

/// Where the identification of a batch stands, between two pieces of outside
/// work. The merged graph goes through three phases: its asset-id mappings
/// are recorded, the asset ids of its nodes are attributed, and the nodes of
/// the attributed graph get their stable keys.
pub enum IdentificationState {
    /// Recording the asset-id mappings of `graph`: the first `written` are
    /// recorded. `unknown` tells that a node of unknown kind stops the work
    /// once they are.
    Mapping { graph: Graph, mappings: Vec<AssetIdMapping>, written: usize, unknown: bool },
    /// Attributing asset ids: `outcomes[i]` is what attributing the asset id
    /// of `graph.nodes[i]` came to.
    Attributing { graph: Graph, outcomes: Vec<AssetAttribution> },
    /// Identifying the nodes of the attributed `graph`: `outcomes[i]` is what
    /// identifying `graph.nodes[i]` came to. `prior_failure` tells that an
    /// attribution failed.
    Identifying { graph: Graph, prior_failure: bool, outcomes: Vec<NodeOutcome> },
    /// As `Identifying`, waiting for the stable key of the session of the
    /// next node.
    AwaitingSession { graph: Graph, prior_failure: bool, outcomes: Vec<NodeOutcome> },
    /// As `Identifying`, waiting for the next node, a dynamic node, to be
    /// identified by its own strategy.
    AwaitingDynamic { graph: Graph, prior_failure: bool, outcomes: Vec<NodeOutcome> },
    /// Identification is over; its result went out with the last action.
    Finished,
}

/// The outside work a state asks for.
pub enum IdentificationAction {
    /// Record this asset-id mapping; answered by `MappingWritten`.
    WriteMapping(AssetIdMapping),
    /// Find the asset id of this node; answered by `AssetIdAttributed`.
    AttributeAssetId(Node),
    /// Tell whether the node with this key was identified before; answered by
    /// `CacheChecked`.
    CheckCache(String),
    /// Resolve this session in this history table to its stable key; answered
    /// by `SessionResolved`.
    ResolveSession(SessionTable, UnidSession),
    /// Identify this dynamic node; answered by `DynamicIdentified`.
    IdentifyDynamic(Node),
    /// Nothing outside to do; answered by `Continued`.
    Continue,
    /// Identification is over: the old keys of the identified nodes, to record
    /// as done unless the result is an error, and the result.
    Finish(Vec<String>, IdentifiedSubgraphs),
}

/// What the outside work came to.
pub enum IdentificationEvent {
    /// Whether the mapping was recorded.
    MappingWritten(bool),
    /// The asset id found, or the message of the failure.
    AssetIdAttributed(Result<String, String>),
    /// Whether the node was identified before.
    CacheChecked(bool),
    /// The stable key of the session, or `None` where resolving failed.
    SessionResolved(Option<String>),
    /// The identified dynamic node, or `None` where identifying failed.
    DynamicIdentified(Option<Node>),
    /// Nothing was done.
    Continued,
}

impl IdentificationState {
    /// The positions a state reads are within its graph.
    pub open spec fn wf(self) -> bool {
        match self {
            IdentificationState::Mapping { graph, mappings, written, .. } => graph.wf() && written <= mappings@.len(),
            IdentificationState::Attributing { graph, outcomes } => graph.wf() && outcomes@.len() <= graph.nodes@.len()
                && no_inbound_attributed(graph.nodes@, outcomes@),
            IdentificationState::Identifying { graph, outcomes, .. } => graph.wf() && outcomes@.len()
                <= graph.nodes@.len(),
            IdentificationState::AwaitingSession { graph, outcomes, .. } => graph.wf() && outcomes@.len()
                < graph.nodes@.len(),
            IdentificationState::AwaitingDynamic { graph, outcomes, .. } => graph.wf() && outcomes@.len()
                < graph.nodes@.len(),
            IdentificationState::Finished => true,
        }
    }
}

/// The action `state` asks for: the next mapping to record; the next node
/// to attribute, where it needs attribution; the key of the next node to look
/// up in the cache; the dynamic node to identify; otherwise nothing.
pub open spec fn demands(state: IdentificationState, action: IdentificationAction) -> bool {
    match state {
        IdentificationState::Mapping { mappings, written, .. } => if written < mappings@.len() {
            action matches IdentificationAction::WriteMapping(m) && m == mappings@[written as int]
        } else {
            action is Continue
        },
        IdentificationState::Attributing { graph, outcomes } => {
            let i: int = outcomes@.len() as int;
            if i < graph.nodes@.len() && needs_asset_attribution(graph.nodes@[i]) {
                action matches IdentificationAction::AttributeAssetId(n) && n == graph.nodes@[i]
            } else {
                action is Continue
            }
        },
        IdentificationState::Identifying { graph, outcomes, .. } => {
            let i: int = outcomes@.len() as int;
            if i < graph.nodes@.len() {
                action matches IdentificationAction::CheckCache(k) && k == graph.nodes@[i].node_key
            } else {
                action is Continue
            }
        },
        IdentificationState::AwaitingSession { .. } => action is ResolveSession,
        IdentificationState::AwaitingDynamic { graph, outcomes, .. } => action matches IdentificationAction::IdentifyDynamic(
            n,
        ) && n == graph.nodes@[outcomes@.len() as int],
        IdentificationState::Finished => action is Finish,
    }
}

/// Whether `event` answers the action that `state` asks for.
pub open spec fn answers(state: IdentificationState, event: IdentificationEvent) -> bool {
    match state {
        IdentificationState::Mapping { mappings, written, .. } => if written < mappings@.len() {
            event is MappingWritten
        } else {
            event is Continued
        },
        IdentificationState::Attributing { graph, outcomes } => {
            let i: int = outcomes@.len() as int;
            if i < graph.nodes@.len() && needs_asset_attribution(graph.nodes@[i]) {
                event is AssetIdAttributed
            } else {
                event is Continued
            }
        },
        IdentificationState::Identifying { graph, outcomes, .. } => if outcomes@.len() < graph.nodes@.len() {
            event is CacheChecked
        } else {
            event is Continued
        },
        IdentificationState::AwaitingSession { .. } => event is SessionResolved,
        IdentificationState::AwaitingDynamic { .. } => event is DynamicIdentified,
        IdentificationState::Finished => false,
    }
}

/// Stepping panics where an asset id is found for an inbound-connection
/// node, which holds none, and where a node missed in the cache is a session
/// that needs an asset id it does not have.
pub open spec fn step_panics(state: IdentificationState, event: IdentificationEvent) -> bool {
    ||| {
        &&& state matches IdentificationState::Attributing { graph, outcomes }
        &&& outcomes@.len() < graph.nodes@.len()
        &&& graph.nodes@[outcomes@.len() as int].which_node == Some(NodeKind::ProcessInboundConnection)
        &&& event matches IdentificationEvent::AssetIdAttributed(Ok(_))
    }
    ||| {
        &&& state matches IdentificationState::Identifying { graph, outcomes, .. }
        &&& outcomes@.len() < graph.nodes@.len()
        &&& event == IdentificationEvent::CacheChecked(false)
        &&& unid_panics(graph.nodes@[outcomes@.len() as int])
    }
}

/// Identification ends, with the error alone and no keys.
pub open spec fn gives_up(next: IdentificationState, action: IdentificationAction) -> bool {
    &&& next is Finished
    &&& action matches IdentificationAction::Finish(keys, res) && keys@.len() == 0 && res == IdentifiedSubgraphs::Err(
        Err(NodeIdentifierError::Unexpected),
    )
}

/// Identification of `graph` goes on with `outcome` recorded for its next node.
pub open spec fn records(
    graph: Graph,
    prior_failure: bool,
    outcomes: Seq<NodeOutcome>,
    outcome: NodeOutcome,
    next: IdentificationState,
    action: IdentificationAction,
) -> bool {
    &&& next matches IdentificationState::Identifying { graph: g, prior_failure: p, outcomes: o } && g == graph && p
        == prior_failure && o@ == outcomes.push(outcome)
    &&& demands(next, action)
}

/// Attribution of `graph` goes on with the outcomes `outcomes`.
pub open spec fn attributes(
    graph: Graph,
    outcomes: Seq<AssetAttribution>,
    next: IdentificationState,
    action: IdentificationAction,
) -> bool {
    &&& next matches IdentificationState::Attributing { graph: g, outcomes: o } && g == graph && o@ == outcomes
    &&& demands(next, action)
}

/// The attributed graph `g` of `unid`, given the attribution outcomes;
/// `failed` tells whether an attribution failed.
pub open spec fn attribution_result(unid: Graph, outcomes: Seq<AssetAttribution>, g: Graph, failed: bool) -> bool {
    &&& g.wf()
    &&& g.timestamp == unid.timestamp
    &&& g.nodes@ == attributed_nodes(unid.nodes@, outcomes)
    &&& lists_view(g.edges@) == live_edges(g.nodes@, lists_view(unid.edges@))
    &&& failed == (last_failure(unid.nodes@, outcomes, unid.nodes@.len() as int) is Some)
}

/// What follows the plan `p` for the next node of `graph`: a failed plan or
/// an identified node is recorded; a session is resolved in its table; a
/// dynamic node is identified by its own strategy.
pub open spec fn follows_plan(
    p: Result<NodeKeyAttribution, crate::node_identifier::IdentificationError>,
    graph: Graph,
    prior_failure: bool,
    outcomes: Seq<NodeOutcome>,
    next: IdentificationState,
    action: IdentificationAction,
) -> bool {
    match p {
        Err(_) => records(graph, prior_failure, outcomes, NodeOutcome::Failed, next, action),
        Ok(NodeKeyAttribution::Identified(n)) => records(graph, prior_failure, outcomes, NodeOutcome::Identified(n), next, action),
        Ok(NodeKeyAttribution::Session { table, session, .. }) => {
            &&& next matches IdentificationState::AwaitingSession { graph: g, prior_failure: pf, outcomes: o } && g == graph
                && pf == prior_failure && o@ == outcomes
            &&& action matches IdentificationAction::ResolveSession(t, s) && t == table && s == session
        },
        Ok(NodeKeyAttribution::Dynamic(_)) => {
            &&& next matches IdentificationState::AwaitingDynamic { graph: g, prior_failure: pf, outcomes: o } && g == graph
                && pf == prior_failure && o@ == outcomes
            &&& demands(next, action)
        },
    }
}

/// One step of identification: from `state`, on `event`, to `next`, asking
/// for `action`.
pub open spec fn steps_to(
    state: IdentificationState,
    event: IdentificationEvent,
    next: IdentificationState,
    action: IdentificationAction,
) -> bool {
    match state {
        IdentificationState::Mapping { graph, mappings, written, unknown } => if written < mappings@.len() {
            if event == IdentificationEvent::MappingWritten(true) {
                &&& next == (IdentificationState::Mapping { graph, mappings, written: (written + 1) as usize, unknown })
                &&& demands(next, action)
            } else {
                gives_up(next, action)
            }
        } else if unknown {
            gives_up(next, action)
        } else {
            attributes(graph, Seq::empty(), next, action)
        },
        IdentificationState::Attributing { graph, outcomes } => {
            let i: int = outcomes@.len() as int;
            if i < graph.nodes@.len() && needs_asset_attribution(graph.nodes@[i]) {
                match event {
                    IdentificationEvent::AssetIdAttributed(Ok(a)) => attributes(
                        graph,
                        outcomes@.push(AssetAttribution::Attributed(a)),
                        next,
                        action,
                    ),
                    IdentificationEvent::AssetIdAttributed(Err(e)) => attributes(
                        graph,
                        outcomes@.push(AssetAttribution::Failed(e)),
                        next,
                        action,
                    ),
                    _ => false,
                }
            } else if i < graph.nodes@.len() {
                &&& next matches IdentificationState::Attributing { outcomes: o, .. } && o@.len() == i + 1 && (o@[i] matches AssetAttribution::Failed(
                    m,
                ) && m@.len() == 0) && attributes(graph, o@, next, action)
            } else {
                &&& next matches IdentificationState::Identifying { graph: g, prior_failure: p, outcomes: o } && o@.len() == 0
                    && attribution_result(graph, outcomes@, g, p)
                &&& demands(next, action)
            }
        },
        IdentificationState::Identifying { graph, prior_failure, outcomes } => {
            let i: int = outcomes@.len() as int;
            if i < graph.nodes@.len() {
                match event {
                    IdentificationEvent::CacheChecked(true) => records(
                        graph,
                        prior_failure,
                        outcomes@,
                        NodeOutcome::CacheHit,
                        next,
                        action,
                    ),
                    IdentificationEvent::CacheChecked(false) => exists|
                        p: Result<NodeKeyAttribution, crate::node_identifier::IdentificationError>,
                    |
                        #[trigger] planned_attribution(graph.nodes@[i], p) && follows_plan(
                            p,
                            graph,
                            prior_failure,
                            outcomes@,
                            next,
                            action,
                        ),
                    _ => false,
                }
            } else {
                &&& next is Finished
                &&& action matches IdentificationAction::Finish(keys, res) && identification_result(
                    graph,
                    outcomes@,
                    prior_failure,
                    (keys, res),
                )
            }
        },
        IdentificationState::AwaitingSession { graph, prior_failure, outcomes } => {
            let node = graph.nodes@[outcomes@.len() as int];
            match event {
                IdentificationEvent::SessionResolved(Some(key)) => records(
                    graph,
                    prior_failure,
                    outcomes@,
                    NodeOutcome::Identified(Node { node_key: key, ..node }),
                    next,
                    action,
                ),
                IdentificationEvent::SessionResolved(None) => records(
                    graph,
                    prior_failure,
                    outcomes@,
                    NodeOutcome::Failed,
                    next,
                    action,
                ),
                _ => false,
            }
        },
        IdentificationState::AwaitingDynamic { graph, prior_failure, outcomes } => match event {
            IdentificationEvent::DynamicIdentified(Some(n)) => records(
                graph,
                prior_failure,
                outcomes@,
                NodeOutcome::Identified(n),
                next,
                action,
            ),
            IdentificationEvent::DynamicIdentified(None) => records(
                graph,
                prior_failure,
                outcomes@,
                NodeOutcome::Failed,
                next,
                action,
            ),
            _ => false,
        },
        IdentificationState::Finished => false,
    }
}

/// The steps left before identification is over, at most: every step
/// takes one off, so identification always comes to an end.
pub open spec fn work_left(state: IdentificationState) -> int {
    match state {
        IdentificationState::Mapping { graph, mappings, written, .. } => (mappings@.len() - written) + 1
            + attribution_work(graph.nodes@.len() as int, 0),
        IdentificationState::Attributing { graph, outcomes } => attribution_work(
            graph.nodes@.len() as int,
            outcomes@.len() as int,
        ),
        IdentificationState::Identifying { graph, outcomes, .. } => 2 * (graph.nodes@.len() - outcomes@.len()) + 1,
        IdentificationState::AwaitingSession { graph, outcomes, .. } => 2 * (graph.nodes@.len() - outcomes@.len()),
        IdentificationState::AwaitingDynamic { graph, outcomes, .. } => 2 * (graph.nodes@.len() - outcomes@.len()),
        IdentificationState::Finished => 0,
    }
}

/// The steps left in attributing `len` nodes, `done` of them attributed,
/// and in identifying the nodes that attribution keeps.
pub open spec fn attribution_work(len: int, done: int) -> int {
    (len - done) + 1 + 2 * len + 1
}

proof fn lemma_insert_node_len(nodes: Seq<Node>, n: Node)
    ensures
        insert_node(nodes, n).len() <= nodes.len() + 1,
{
    crate::graph::lemma_index_of_key(node_keys(nodes), n.node_key@);
}

/// Attribution keeps at most the nodes it was given.
proof fn lemma_attributed_nodes_len(nodes: Seq<Node>, outcomes: Seq<AssetAttribution>)
    ensures
        attributed_nodes(nodes, outcomes).len() <= nodes.len(),
    decreases nodes.len(),
{
    if nodes.len() > 0 {
        let i: int = nodes.len() - 1;
        let acc = attributed_nodes(nodes.drop_last(), outcomes);
        lemma_attributed_nodes_len(nodes.drop_last(), outcomes);
        let n = nodes[i];
        lemma_insert_node_len(acc, n);
        match outcomes[i] {
            AssetAttribution::Attributed(a) => lemma_insert_node_len(acc, Node { asset_id: Some(a), ..n }),
            AssetAttribution::Failed(_) => {},
        }
    }
}

fn demand(state: &IdentificationState) -> (a: IdentificationAction)
    requires
        state.wf(),
        !(state is AwaitingSession),
        !(state is Finished),
    ensures
        demands(*state, a),
{
    match state {
        IdentificationState::Mapping { mappings, written, .. } => {
            if *written < mappings.len() {
                IdentificationAction::WriteMapping(mappings[*written].clone())
            } else {
                IdentificationAction::Continue
            }
        },
        IdentificationState::Attributing { graph, outcomes } => {
            let i: usize = outcomes.len();
            if i < graph.nodes.len() && requires_asset_attribution(&graph.nodes[i]) {
                IdentificationAction::AttributeAssetId(graph.nodes[i].clone())
            } else {
                IdentificationAction::Continue
            }
        },
        IdentificationState::Identifying { graph, outcomes, .. } => {
            let i: usize = outcomes.len();
            if i < graph.nodes.len() {
                IdentificationAction::CheckCache(graph.nodes[i].node_key.clone())
            } else {
                IdentificationAction::Continue
            }
        },
        IdentificationState::AwaitingDynamic { graph, outcomes, .. } => {
            IdentificationAction::IdentifyDynamic(graph.nodes[outcomes.len()].clone())
        },
        _ => vstd::pervasive::unreached(),
    }
}

fn give_up() -> (r: (IdentificationState, IdentificationAction))
    ensures
        r.0.wf(),
        gives_up(r.0, r.1),
{
    (IdentificationState::Finished, IdentificationAction::Finish(Vec::new(), Err(Err(NodeIdentifierError::Unexpected))))
}

fn record(graph: Graph, prior_failure: bool, outcomes: Vec<NodeOutcome>, outcome: NodeOutcome) -> (r: (
    IdentificationState,
    IdentificationAction,
))
    requires
        graph.wf(),
        outcomes@.len() < graph.nodes@.len(),
    ensures
        r.0.wf(),
        records(graph, prior_failure, outcomes@, outcome, r.0, r.1),
{
    let mut outcomes = outcomes;
    outcomes.push(outcome);
    let state = IdentificationState::Identifying { graph, prior_failure, outcomes };
    let action = demand(&state);
    (state, action)
}

fn attribute(graph: Graph, outcomes: Vec<AssetAttribution>) -> (r: (IdentificationState, IdentificationAction))
    requires
        graph.wf(),
        outcomes@.len() <= graph.nodes@.len(),
        no_inbound_attributed(graph.nodes@, outcomes@),
    ensures
        r.0.wf(),
        attributes(graph, outcomes@, r.0, r.1),
{
    let state = IdentificationState::Attributing { graph, outcomes };
    let action = demand(&state);
    (state, action)
}

/// Starts identifying a batch: merges it, and asks for its first asset-id
/// mapping to be recorded. A batch that merges into nothing is done at once,
/// with an empty result.
pub fn start_identification(batch: &GeneratedSubgraphs) -> (r: (IdentificationState, IdentificationAction))
    requires
        all_wf(batch.subgraphs@),
    ensures
        r.0.wf(),
        ({
            let v = merged_view(batch.subgraphs@);
            if batch.subgraphs@.len() == 0 || (v.0.len() == 0 && v.1.len() == 0) {
                &&& r.0 is Finished
                &&& r.1 matches IdentificationAction::Finish(keys, res) && keys@.len() == 0 && (res matches Ok(s)
                    && s.subgraphs@.len() == 0)
            } else {
                &&& r.0 matches IdentificationState::Mapping { graph, mappings, written, unknown } && graph.wf()
                    && graph.timestamp == 0 && (graph.nodes@, lists_view(graph.edges@)) == v && written == 0
                    && mappings@.map_values(|m: AssetIdMapping| mapping_view(m)) == mappings_of(
                    graph.nodes@.take(first_unknown(graph.nodes@)),
                ) && unknown == (first_unknown(graph.nodes@) < graph.nodes@.len())
                &&& demands(r.0, r.1)
            }
        }),
{
    let graph = match merge_batch(batch) {
        Some(g) => g,
        None => {
            return (
                IdentificationState::Finished,
                IdentificationAction::Finish(Vec::new(), Ok(GeneratedSubgraphs::new(Vec::new()))),
            );
        },
    };
    let (mappings, unknown) = asset_id_mappings(&graph);
    let state = IdentificationState::Mapping { graph, mappings, written: 0, unknown: unknown.is_some() };
    let action = demand(&state);
    (state, action)
}

/// Takes identification one step on: records what the outside work asked
/// for came to, and asks for the next. A failed mapping write, or a node of
/// unknown kind once the mappings are recorded, ends identification with an
/// error. Nodes that need no asset id are passed over in attribution; nodes
/// found in the cache are passed over in identification; a session that
/// resolves takes the key it resolved to.
pub fn identification_step(state: IdentificationState, event: IdentificationEvent) -> (r: (
    IdentificationState,
    IdentificationAction,
))
    requires
        state.wf(),
        answers(state, event),
        !step_panics(state, event),
    ensures
        r.0.wf(),
        steps_to(state, event, r.0, r.1),
        0 <= work_left(r.0) < work_left(state),
{
    match state {
        IdentificationState::Mapping { graph, mappings, written, unknown } => {
            if written < mappings.len() {
                let ok: bool = match event {
                    IdentificationEvent::MappingWritten(ok) => ok,
                    _ => vstd::pervasive::unreached(),
                };
                if ok {
                    let next = IdentificationState::Mapping { graph, mappings, written: written + 1, unknown };
                    let action = demand(&next);
                    (next, action)
                } else {
                    give_up()
                }
            } else if unknown {
                give_up()
            } else {
                attribute(graph, Vec::new())
            }
        },
        IdentificationState::Attributing { graph, outcomes } => {
            let i: usize = outcomes.len();
            if i < graph.nodes.len() && requires_asset_attribution(&graph.nodes[i]) {
                let outcome = match event {
                    IdentificationEvent::AssetIdAttributed(Ok(a)) => AssetAttribution::Attributed(a),
                    IdentificationEvent::AssetIdAttributed(Err(e)) => AssetAttribution::Failed(e),
                    _ => vstd::pervasive::unreached(),
                };
                let mut outcomes = outcomes;
                outcomes.push(outcome);
                attribute(graph, outcomes)
            } else if i < graph.nodes.len() {
                let mut outcomes = outcomes;
                outcomes.push(AssetAttribution::Failed(String::new()));
                attribute(graph, outcomes)
            } else {
                proof {
                    lemma_attributed_nodes_len(graph.nodes@, outcomes@);
                }
                let (attributed, prior_failure) = match assemble_asset_attribution(graph, &outcomes) {
                    Ok(g) => (g, false),
                    Err((_, g)) => (g, true),
                };
                let next = IdentificationState::Identifying { graph: attributed, prior_failure, outcomes: Vec::new() };
                let action = demand(&next);
                (next, action)
            }
        },
        IdentificationState::Identifying { graph, prior_failure, outcomes } => {
            let i: usize = outcomes.len();
            if i < graph.nodes.len() {
                let hit: bool = match event {
                    IdentificationEvent::CacheChecked(hit) => hit,
                    _ => vstd::pervasive::unreached(),
                };
                if hit {
                    record(graph, prior_failure, outcomes, NodeOutcome::CacheHit)
                } else {
                    let plan = plan_node_key_attribution(graph.nodes[i].clone());
                    let ghost p = plan;
                    assert(planned_attribution(graph.nodes@[i as int], p));
                    match plan {
                        Err(_) => record(graph, prior_failure, outcomes, NodeOutcome::Failed),
                        Ok(NodeKeyAttribution::Identified(n)) => record(
                            graph,
                            prior_failure,
                            outcomes,
                            NodeOutcome::Identified(n),
                        ),
                        Ok(NodeKeyAttribution::Session { table, session, .. }) => (
                            IdentificationState::AwaitingSession { graph, prior_failure, outcomes },
                            IdentificationAction::ResolveSession(table, session),
                        ),
                        Ok(NodeKeyAttribution::Dynamic(n)) => (
                            IdentificationState::AwaitingDynamic { graph, prior_failure, outcomes },
                            IdentificationAction::IdentifyDynamic(n),
                        ),
                    }
                }
            } else {
                let (keys, result) = assemble_identified_graph(&graph, &outcomes, prior_failure);
                (IdentificationState::Finished, IdentificationAction::Finish(keys, result))
            }
        },
        IdentificationState::AwaitingSession { graph, prior_failure, outcomes } => {
            let key = match event {
                IdentificationEvent::SessionResolved(key) => key,
                _ => vstd::pervasive::unreached(),
            };
            match key {
                Some(key) => {
                    let mut node = graph.nodes[outcomes.len()].clone();
                    node.set_node_key(key);
                    record(graph, prior_failure, outcomes, NodeOutcome::Identified(node))
                },
                None => record(graph, prior_failure, outcomes, NodeOutcome::Failed),
            }
        },
        IdentificationState::AwaitingDynamic { graph, prior_failure, outcomes } => {
            let identified = match event {
                IdentificationEvent::DynamicIdentified(n) => n,
                _ => vstd::pervasive::unreached(),
            };
            match identified {
                Some(n) => record(graph, prior_failure, outcomes, NodeOutcome::Identified(n)),
                None => record(graph, prior_failure, outcomes, NodeOutcome::Failed),
            }
        },
        IdentificationState::Finished => vstd::pervasive::unreached(),
    }
}

/// Whether `event` answers the action that `state` asks for; see [`answers`].
pub fn is_answer(state: &IdentificationState, event: &IdentificationEvent) -> (r: bool)
    requires
        state.wf(),
    ensures
        r == answers(*state, *event),
{
    match state {
        IdentificationState::Mapping { mappings, written, .. } => {
            if *written < mappings.len() {
                matches!(event, IdentificationEvent::MappingWritten(_))
            } else {
                matches!(event, IdentificationEvent::Continued)
            }
        },
        IdentificationState::Attributing { graph, outcomes } => {
            let i: usize = outcomes.len();
            if i < graph.nodes.len() && requires_asset_attribution(&graph.nodes[i]) {
                matches!(event, IdentificationEvent::AssetIdAttributed(_))
            } else {
                matches!(event, IdentificationEvent::Continued)
            }
        },
        IdentificationState::Identifying { graph, outcomes, .. } => {
            if outcomes.len() < graph.nodes.len() {
                matches!(event, IdentificationEvent::CacheChecked(_))
            } else {
                matches!(event, IdentificationEvent::Continued)
            }
        },
        IdentificationState::AwaitingSession { .. } => matches!(event, IdentificationEvent::SessionResolved(_)),
        IdentificationState::AwaitingDynamic { .. } => matches!(event, IdentificationEvent::DynamicIdentified(_)),
        IdentificationState::Finished => false,
    }
}

/// Whether taking `state` on with `event` would set an asset id on an
/// inbound-connection node, or meet a session node that needs an asset id it
/// does not have; see [`step_panics`].
pub fn would_panic(state: &IdentificationState, event: &IdentificationEvent) -> (r: bool)
    requires
        state.wf(),
    ensures
        r == step_panics(*state, *event),
{
    match (state, event) {
        (IdentificationState::Attributing { graph, outcomes }, IdentificationEvent::AssetIdAttributed(Ok(_))) => {
            outcomes.len() < graph.nodes.len() && matches!(
                graph.nodes[outcomes.len()].which_node,
                Some(NodeKind::ProcessInboundConnection)
            )
        },
        (IdentificationState::Identifying { graph, outcomes, .. }, IdentificationEvent::CacheChecked(false)) => {
            outcomes.len() < graph.nodes.len() && lacks_required_asset_id(&graph.nodes[outcomes.len()])
        },
        _ => false,
    }
}

} // verus!
