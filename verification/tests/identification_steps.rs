use grapl_pipeline::graph::{GeneratedSubgraphs, Graph, Node, NodeKind};
use grapl_pipeline::identification::{IdentifiedSubgraphs, NodeIdentifierError};
use grapl_pipeline::identification_steps::{
    identification_step, is_answer, start_identification, would_panic, IdentificationAction, IdentificationEvent,
    IdentificationState,
};
use grapl_pipeline::node_identifier::SessionTable;

fn node(kind: NodeKind, key: &str) -> Node {
    Node::new(Some(kind), key.to_string())
}

fn describe(action: &IdentificationAction) -> String {
    match action {
        IdentificationAction::WriteMapping(m) => format!("write {} {} {}", m.asset_id, m.hostname, m.timestamp),
        IdentificationAction::AttributeAssetId(n) => format!("attribute {}", n.node_key),
        IdentificationAction::CheckCache(k) => format!("cache {}", k),
        IdentificationAction::ResolveSession(t, s) => {
            format!("session {:?} {} {} {}", t, s.pseudo_key, s.timestamp, s.is_creation)
        }
        IdentificationAction::IdentifyDynamic(n) => format!("dynamic {}", n.node_key),
        IdentificationAction::Continue => "continue".to_string(),
        IdentificationAction::Finish(keys, _) => format!("finish {}", keys.join(",")),
    }
}

/// Runs identification to the end, answering each action with `respond`.
fn run(
    batch: &GeneratedSubgraphs,
    mut respond: impl FnMut(&IdentificationAction) -> IdentificationEvent,
) -> (Vec<String>, Vec<String>, IdentifiedSubgraphs) {
    let (mut state, mut action) = start_identification(batch);
    let mut trace = Vec::new();
    loop {
        trace.push(describe(&action));
        if let IdentificationAction::Finish(keys, result) = action {
            assert!(matches!(state, IdentificationState::Finished));
            return (trace, keys, result);
        }
        let event = respond(&action);
        assert!(is_answer(&state, &event));
        assert!(!would_panic(&state, &event));
        let (s, a) = identification_step(state, event);
        state = s;
        action = a;
    }
}

fn sample_batch() -> GeneratedSubgraphs {
    let mut p = node(NodeKind::Process, "p");
    p.asset_id = Some("a1".to_string());
    p.hostname = Some("host".to_string());
    p.process_id = 42;
    p.created_timestamp = 1;
    let mut ip = node(NodeKind::IpAddress, "ip");
    ip.ip_address = "10.0.0.1".to_string();
    let mut g = Graph::new(7);
    g.add_node(p);
    g.add_node(ip);
    g.add_edge("connected".to_string(), "p".to_string(), "ip".to_string());
    GeneratedSubgraphs::new(vec![g])
}

fn cooperative(action: &IdentificationAction) -> IdentificationEvent {
    match action {
        IdentificationAction::WriteMapping(_) => IdentificationEvent::MappingWritten(true),
        IdentificationAction::AttributeAssetId(_) => IdentificationEvent::AssetIdAttributed(Ok("a1".to_string())),
        IdentificationAction::CheckCache(_) => IdentificationEvent::CacheChecked(false),
        IdentificationAction::ResolveSession(_, _) => IdentificationEvent::SessionResolved(Some("stable-p".to_string())),
        IdentificationAction::IdentifyDynamic(n) => {
            let mut n = n.clone();
            n.node_key = format!("stable-{}", n.node_key);
            IdentificationEvent::DynamicIdentified(Some(n))
        }
        _ => IdentificationEvent::Continued,
    }
}

#[test]
fn empty_batch_finishes_at_once_with_an_empty_result() {
    let (state, action) = start_identification(&GeneratedSubgraphs::new(vec![]));
    assert!(matches!(state, IdentificationState::Finished));
    match action {
        IdentificationAction::Finish(keys, Ok(s)) => {
            assert!(keys.is_empty());
            assert!(s.subgraphs.is_empty());
        }
        _ => panic!("expected an empty result"),
    }
}

#[test]
fn a_batch_is_identified_step_by_step() {
    let (trace, keys, result) = run(&sample_batch(), cooperative);
    assert_eq!(
        trace,
        vec![
            "write a1 host 1",
            "continue",
            "attribute p",
            "continue",
            "continue",
            "cache p",
            "session ProcessHistory a142 1 true",
            "cache ip",
            "continue",
            "finish p,ip",
        ]
    );
    // One mapping and two nodes leave at most (1 + 1) + (2 + 1 + 2 * 2 + 1) steps.
    assert!(trace.len() - 1 <= 10);
    assert_eq!(keys, vec!["p".to_string(), "ip".to_string()]);
    let out = match result {
        Ok(out) => out,
        _ => panic!("expected a full success"),
    };
    assert_eq!(out.subgraphs.len(), 1);
    let g = &out.subgraphs[0];
    assert_eq!(g.timestamp, 0);
    let node_keys: Vec<String> = g.nodes.iter().map(|n| n.node_key.clone()).collect();
    assert_eq!(node_keys, vec!["stable-p".to_string(), "10.0.0.1".to_string()]);
    assert_eq!(g.edges.len(), 1);
    assert_eq!(g.edges[0].0, "stable-p");
    assert_eq!(g.edges[0].1.edges[0].to, "10.0.0.1");
    assert_eq!(g.edges[0].1.edges[0].edge_name, "connected");
}

#[test]
fn a_failed_mapping_write_ends_identification_with_an_error() {
    let (trace, keys, result) = run(&sample_batch(), |a| match a {
        IdentificationAction::WriteMapping(_) => IdentificationEvent::MappingWritten(false),
        other => cooperative(other),
    });
    assert_eq!(trace, vec!["write a1 host 1", "finish "]);
    assert!(keys.is_empty());
    assert!(matches!(result, Err(Err(NodeIdentifierError::Unexpected))));
}

#[test]
fn a_node_of_unknown_kind_stops_after_the_mappings_before_it() {
    let mut batch = sample_batch();
    batch.subgraphs[0].add_node(Node::new(None, "mystery".to_string()));
    let (trace, keys, result) = run(&batch, cooperative);
    assert_eq!(trace, vec!["write a1 host 1", "continue", "finish "]);
    assert!(keys.is_empty());
    assert!(matches!(result, Err(Err(NodeIdentifierError::Unexpected))));
}

#[test]
fn cached_nodes_are_passed_over() {
    let (trace, keys, result) = run(&sample_batch(), |a| match a {
        IdentificationAction::CheckCache(k) if k == "p" => IdentificationEvent::CacheChecked(true),
        other => cooperative(other),
    });
    assert_eq!(trace[5], "cache p");
    assert_eq!(trace[6], "cache ip");
    assert_eq!(keys, vec!["ip".to_string()]);
    match result {
        Ok(out) => {
            let g = &out.subgraphs[0];
            assert_eq!(g.nodes.len(), 1);
            assert_eq!(g.nodes[0].node_key, "10.0.0.1");
            assert!(g.edges.is_empty());
        }
        _ => panic!("expected a full success"),
    }
}

#[test]
fn all_nodes_cached_is_an_error() {
    let (_, keys, result) = run(&sample_batch(), |a| match a {
        IdentificationAction::CheckCache(_) => IdentificationEvent::CacheChecked(true),
        other => cooperative(other),
    });
    assert!(keys.is_empty());
    assert!(matches!(result, Err(Err(NodeIdentifierError::Unexpected))));
}

#[test]
fn a_failed_session_makes_a_partial_success() {
    let (_, keys, result) = run(&sample_batch(), |a| match a {
        IdentificationAction::ResolveSession(_, _) => IdentificationEvent::SessionResolved(None),
        other => cooperative(other),
    });
    assert_eq!(keys, vec!["ip".to_string()]);
    match result {
        Err(Ok((out, NodeIdentifierError::Unexpected))) => {
            assert_eq!(out.subgraphs[0].nodes.len(), 1);
            assert_eq!(out.subgraphs[0].nodes[0].node_key, "10.0.0.1");
        }
        _ => panic!("expected a partial success"),
    }
}

#[test]
fn a_failed_asset_attribution_drops_the_node_and_makes_a_partial_success() {
    let (trace, keys, result) = run(&sample_batch(), |a| match a {
        IdentificationAction::AttributeAssetId(_) => IdentificationEvent::AssetIdAttributed(Err("no asset".to_string())),
        other => cooperative(other),
    });
    assert_eq!(trace[5], "cache ip");
    assert_eq!(keys, vec!["ip".to_string()]);
    assert!(matches!(result, Err(Ok((_, NodeIdentifierError::Unexpected)))));
}

#[test]
fn dynamic_nodes_are_identified_by_their_own_strategy() {
    let mut g = Graph::new(3);
    g.add_node(node(NodeKind::Dynamic, "d"));
    let (trace, keys, result) = run(&GeneratedSubgraphs::new(vec![g]), cooperative);
    assert_eq!(trace, vec!["continue", "continue", "continue", "cache d", "dynamic d", "continue", "finish d"]);
    assert_eq!(keys, vec!["d".to_string()]);
    match result {
        Ok(out) => assert_eq!(out.subgraphs[0].nodes[0].node_key, "stable-d"),
        _ => panic!("expected a full success"),
    }
}

#[test]
fn an_asset_id_found_for_an_inbound_connection_would_panic() {
    let mut inbound = node(NodeKind::ProcessInboundConnection, "in");
    inbound.state = 1;
    let mut g = Graph::new(3);
    g.add_node(inbound);
    let (mut state, mut action) = start_identification(&GeneratedSubgraphs::new(vec![g]));
    loop {
        match &action {
            IdentificationAction::AttributeAssetId(n) => {
                assert_eq!(n.node_key, "in");
                let found = IdentificationEvent::AssetIdAttributed(Ok("a9".to_string()));
                assert!(would_panic(&state, &found));
                let failed = IdentificationEvent::AssetIdAttributed(Err("none".to_string()));
                assert!(!would_panic(&state, &failed));
                return;
            }
            IdentificationAction::Continue => {}
            _ => panic!("unexpected action {}", describe(&action)),
        }
        let (s, a) = identification_step(state, IdentificationEvent::Continued);
        state = s;
        action = a;
    }
}

#[test]
fn an_inbound_connection_without_asset_id_is_dropped() {
    let mut inbound = node(NodeKind::ProcessInboundConnection, "in");
    inbound.state = 1;
    let mut g = Graph::new(3);
    g.add_node(inbound);
    let (trace, keys, result) = run(&GeneratedSubgraphs::new(vec![g]), |a| match a {
        IdentificationAction::AttributeAssetId(_) => IdentificationEvent::AssetIdAttributed(Err("none".to_string())),
        other => cooperative(other),
    });
    assert_eq!(trace, vec!["continue", "attribute in", "continue", "continue", "finish "]);
    assert!(keys.is_empty());
    assert!(matches!(result, Err(Err(NodeIdentifierError::Unexpected))));
}

#[test]
fn events_that_do_not_answer_are_told_apart() {
    let (state, action) = start_identification(&sample_batch());
    assert!(matches!(action, IdentificationAction::WriteMapping(_)));
    assert!(is_answer(&state, &IdentificationEvent::MappingWritten(true)));
    assert!(!is_answer(&state, &IdentificationEvent::Continued));
    assert!(!is_answer(&state, &IdentificationEvent::CacheChecked(false)));
    let _ = SessionTable::ProcessHistory;
}
