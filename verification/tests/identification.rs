use grapl_pipeline::graph::{Edge, EdgeList, GeneratedSubgraphs, Graph, Node, NodeKind};
use grapl_pipeline::graph_ops::{remap_edges, remap_nodes, remove_dead_edges, remove_dead_nodes, KeyMap, KeySet};
use grapl_pipeline::identification::{
    asset_id_mappings, assemble_asset_attribution, assemble_identified_graph, merge_batch, merge_subgraphs,
    requires_asset_attribution, AssetAttribution, NodeIdentifierError, NodeOutcome,
};
use grapl_pipeline::node_identifier::{
    into_unid_session, lacks_required_asset_id, plan_node_key_attribution, IdentificationError, NodeKeyAttribution,
    SessionTable,
};

fn node(kind: NodeKind, key: &str) -> Node {
    Node::new(Some(kind), key.to_string())
}

fn edge(from: &str, to: &str, name: &str) -> Edge {
    Edge { from: from.to_string(), to: to.to_string(), edge_name: name.to_string() }
}

fn keys(g: &Graph) -> Vec<String> {
    g.nodes.iter().map(|n| n.node_key.clone()).collect()
}

fn edges_of(g: &Graph, key: &str) -> Vec<(String, String, String)> {
    for (k, list) in g.edges.iter() {
        if k == key {
            return list.edges.iter().map(|e| (e.from.clone(), e.to.clone(), e.edge_name.clone())).collect();
        }
    }
    Vec::new()
}

fn process(key: &str, asset: Option<&str>, pid: u64) -> Node {
    let mut n = node(NodeKind::Process, key);
    n.asset_id = asset.map(|a| a.to_string());
    n.process_id = pid;
    n
}

#[test]
fn process_session_prefers_creation_time() {
    let mut n = process("p", Some("asset1"), 1234);
    n.created_timestamp = 10;
    n.terminated_timestamp = 20;
    n.last_seen_timestamp = 30;
    let s = into_unid_session(&n).unwrap().unwrap();
    assert_eq!(s.pseudo_key, "asset11234");
    assert_eq!(s.timestamp, 10);
    assert!(s.is_creation);

    n.created_timestamp = 0;
    let s = into_unid_session(&n).unwrap().unwrap();
    assert_eq!(s.timestamp, 20);
    assert!(!s.is_creation);

    n.terminated_timestamp = 0;
    let s = into_unid_session(&n).unwrap().unwrap();
    assert_eq!(s.timestamp, 30);
    assert!(!s.is_creation);

    n.last_seen_timestamp = 0;
    assert!(matches!(into_unid_session(&n), Err(IdentificationError::MissingTimestamp)));
}

#[test]
fn process_id_zero_and_large_in_pseudo_key() {
    let mut n = process("p", Some("a"), 0);
    n.created_timestamp = 1;
    assert_eq!(into_unid_session(&n).unwrap().unwrap().pseudo_key, "a0");
    n.process_id = u64::MAX;
    assert_eq!(into_unid_session(&n).unwrap().unwrap().pseudo_key, "a18446744073709551615");
}

#[test]
fn file_and_connection_sessions() {
    let mut f = node(NodeKind::File, "f");
    f.asset_id = Some("host".to_string());
    f.file_path = "/tmp/x".to_string();
    f.state = 1;
    f.created_timestamp = 5;
    f.last_seen_timestamp = 9;
    let s = into_unid_session(&f).unwrap().unwrap();
    assert_eq!(s.pseudo_key, "host/tmp/x");
    assert!(s.is_creation);
    assert_eq!(s.timestamp, 5);
    f.state = 3;
    let s = into_unid_session(&f).unwrap().unwrap();
    assert!(!s.is_creation);
    assert_eq!(s.timestamp, 9);
    f.state = 4;
    assert!(matches!(into_unid_session(&f), Err(IdentificationError::InvalidState(NodeKind::File, 4))));

    let mut o = node(NodeKind::ProcessOutboundConnection, "o");
    o.asset_id = Some("a".to_string());
    o.port = 443;
    o.state = 2;
    o.last_seen_timestamp = 7;
    let s = into_unid_session(&o).unwrap().unwrap();
    assert_eq!(s.pseudo_key, "a443outbound");
    assert_eq!(s.timestamp, 7);

    let mut nc = node(NodeKind::NetworkConnection, "n");
    nc.src_port = 1;
    nc.src_ip_address = "10.0.0.1".to_string();
    nc.dst_port = 22;
    nc.dst_ip_address = "10.0.0.2".to_string();
    nc.protocol = "tcp".to_string();
    nc.state = 1;
    nc.created_timestamp = 3;
    let s = into_unid_session(&nc).unwrap().unwrap();
    assert_eq!(s.pseudo_key, "110.0.0.12210.0.0.2tcpnetwork_connection");
    assert!(s.is_creation);

    let mut ic = node(NodeKind::IpConnection, "i");
    ic.src_ip_address = "1.1.1.1".to_string();
    ic.dst_ip_address = "2.2.2.2".to_string();
    ic.protocol = "udp".to_string();
    ic.state = 2;
    ic.last_seen_timestamp = 11;
    let s = into_unid_session(&ic).unwrap().unwrap();
    assert_eq!(s.pseudo_key, "1.1.1.12.2.2.2udpip_network_connection");
    assert_eq!(s.timestamp, 11);
}

#[test]
fn non_sessions_and_unknown_nodes() {
    assert!(into_unid_session(&node(NodeKind::IpAddress, "x")).unwrap().is_none());
    assert!(into_unid_session(&node(NodeKind::Asset, "x")).unwrap().is_none());
    assert!(into_unid_session(&node(NodeKind::IpPort, "x")).unwrap().is_none());
    assert!(into_unid_session(&node(NodeKind::Dynamic, "x")).unwrap().is_none());
    let unknown = Node::new(None, "x".to_string());
    assert!(matches!(into_unid_session(&unknown), Err(IdentificationError::UnknownNodeVariant)));
    assert!(matches!(plan_node_key_attribution(unknown), Err(IdentificationError::UnknownNodeVariant)));
}

#[test]
fn missing_asset_ids_are_detected_before_identification() {
    let mut p = process("p", None, 1);
    assert!(!lacks_required_asset_id(&p));
    p.created_timestamp = 1;
    assert!(lacks_required_asset_id(&p));
    let mut inbound = node(NodeKind::ProcessInboundConnection, "c");
    inbound.asset_id = Some("a".to_string());
    inbound.state = 1;
    assert!(lacks_required_asset_id(&inbound));
    inbound.state = 9;
    assert!(!lacks_required_asset_id(&inbound));
    assert!(matches!(
        into_unid_session(&inbound),
        Err(IdentificationError::InvalidState(NodeKind::ProcessInboundConnection, 9))
    ));
}

#[test]
fn ip_ports_differing_only_in_address_get_different_keys() {
    let key_of = |address: &str| {
        let mut port = node(NodeKind::IpPort, "old");
        port.ip_address = address.to_string();
        port.port = 80;
        port.protocol = "tcp".to_string();
        match plan_node_key_attribution(port).unwrap() {
            NodeKeyAttribution::Identified(n) => n.node_key,
            _ => panic!("expected identification"),
        }
    };
    let first = key_of("10.0.0.1");
    let second = key_of("10.0.0.2");
    assert_eq!(second, "8bd8c366d06450766d2e68f32987a41266530d733d350964a87cf8ca72961606");
    assert_ne!(first, second);
}

#[test]
fn attribution_plans() {
    let mut p = process("p", Some("a"), 42);
    p.created_timestamp = 1;
    match plan_node_key_attribution(p).unwrap() {
        NodeKeyAttribution::Session { table, session, node } => {
            assert_eq!(table, SessionTable::ProcessHistory);
            assert_eq!(session.pseudo_key, "a42");
            assert_eq!(node.node_key, "p");
        }
        _ => panic!("expected a session"),
    }

    let mut asset = node(NodeKind::Asset, "old");
    asset.asset_id = Some("asset-7".to_string());
    match plan_node_key_attribution(asset).unwrap() {
        NodeKeyAttribution::Identified(n) => assert_eq!(n.node_key, "asset-7"),
        _ => panic!("expected identification"),
    }
    assert!(matches!(
        plan_node_key_attribution(node(NodeKind::Asset, "old")),
        Err(IdentificationError::MissingAssetId)
    ));

    let mut ip = node(NodeKind::IpAddress, "old");
    ip.ip_address = "192.168.0.1".to_string();
    match plan_node_key_attribution(ip).unwrap() {
        NodeKeyAttribution::Identified(n) => assert_eq!(n.node_key, "192.168.0.1"),
        _ => panic!("expected identification"),
    }

    let mut port = node(NodeKind::IpPort, "old");
    port.ip_address = "10.0.0.1".to_string();
    port.port = 80;
    port.protocol = "tcp".to_string();
    match plan_node_key_attribution(port).unwrap() {
        NodeKeyAttribution::Identified(n) => {
            assert_eq!(n.node_key, "748b0da7f308026f57de61b35937e916754a99540f0e4afb7f075586339b35cc");
            assert_eq!(n.port, 80);
            assert_eq!(n.ip_address, "10.0.0.1");
        }
        _ => panic!("expected identification"),
    }
    let mut port = node(NodeKind::IpPort, "old");
    port.ip_address = "192.168.1.5".to_string();
    port.port = 443;
    port.protocol = "udp".to_string();
    match plan_node_key_attribution(port).unwrap() {
        NodeKeyAttribution::Identified(n) => {
            assert_eq!(n.node_key, "9d68723bd5a79a6076d4460199c2ff29a6318078ad07709a926f304e679bba89")
        }
        _ => panic!("expected identification"),
    }

    match plan_node_key_attribution(node(NodeKind::Dynamic, "d")).unwrap() {
        NodeKeyAttribution::Dynamic(n) => assert_eq!(n.node_key, "d"),
        _ => panic!("expected a dynamic node"),
    }

    let mut nc = node(NodeKind::NetworkConnection, "n");
    nc.state = 2;
    match plan_node_key_attribution(nc).unwrap() {
        NodeKeyAttribution::Session { table, .. } => assert_eq!(table, SessionTable::NetworkConnectionHistory),
        _ => panic!("expected a session"),
    }
}

#[test]
fn graph_add_node_replaces_and_add_edge_appends() {
    let mut g = Graph::new(3);
    assert!(g.is_empty());
    let mut a = node(NodeKind::Process, "a");
    a.process_id = 1;
    g.add_node(a);
    g.add_node(node(NodeKind::File, "b"));
    let mut a2 = node(NodeKind::Process, "a");
    a2.process_id = 2;
    g.add_node(a2);
    assert_eq!(keys(&g), vec!["a".to_string(), "b".to_string()]);
    assert_eq!(g.nodes[0].process_id, 2);
    g.add_edge("child".to_string(), "a".to_string(), "b".to_string());
    g.add_edge("file".to_string(), "a".to_string(), "c".to_string());
    assert_eq!(
        edges_of(&g, "a"),
        vec![
            ("a".to_string(), "b".to_string(), "child".to_string()),
            ("a".to_string(), "c".to_string(), "file".to_string())
        ]
    );
    assert!(!g.is_empty());
    assert_eq!(g.timestamp, 3);
}

#[test]
fn graph_merge_merges_nodes_and_appends_edges() {
    let mut g1 = Graph::new(0);
    let mut a = node(NodeKind::Process, "a");
    a.created_timestamp = 10;
    g1.add_node(a);
    g1.add_edge("e1".to_string(), "a".to_string(), "b".to_string());
    let mut g2 = Graph::new(9);
    let mut a_other = node(NodeKind::Process, "a");
    a_other.created_timestamp = 5;
    a_other.hostname = Some("h".to_string());
    g2.add_node(a_other);
    g2.add_node(node(NodeKind::File, "b"));
    g2.add_edge("e2".to_string(), "a".to_string(), "c".to_string());
    g2.add_edge("e3".to_string(), "b".to_string(), "a".to_string());
    g1.merge(&g2);
    assert_eq!(keys(&g1), vec!["a".to_string(), "b".to_string()]);
    assert_eq!(g1.nodes[0].created_timestamp, 5);
    assert_eq!(g1.nodes[0].hostname, Some("h".to_string()));
    assert_eq!(edges_of(&g1, "a").len(), 2);
    assert_eq!(edges_of(&g1, "b").len(), 1);
    assert_eq!(g1.timestamp, 0);
}

#[test]
fn merge_batch_of_nothing_is_nothing() {
    assert!(merge_batch(&GeneratedSubgraphs::new(vec![])).is_none());
    assert!(merge_batch(&GeneratedSubgraphs::new(vec![Graph::new(1), Graph::new(2)])).is_none());
    let mut g = Graph::new(4);
    g.add_node(node(NodeKind::Asset, "x"));
    let merged = merge_batch(&GeneratedSubgraphs::new(vec![Graph::new(1), g])).unwrap();
    assert_eq!(keys(&merged), vec!["x".to_string()]);
    assert_eq!(merged.timestamp, 0);
    let merged = merge_subgraphs(&vec![]);
    assert!(merged.is_empty());
}

#[test]
fn removing_dead_nodes_and_edges() {
    let mut g = Graph::new(0);
    g.add_node(node(NodeKind::Process, "a"));
    g.add_node(node(NodeKind::Process, "b"));
    g.add_node(node(NodeKind::Process, "c"));
    g.add_edge("x".to_string(), "a".to_string(), "b".to_string());
    g.add_edge("y".to_string(), "a".to_string(), "c".to_string());
    g.add_edge("z".to_string(), "b".to_string(), "a".to_string());
    let mut dead = KeySet::new();
    dead.insert("b".to_string());
    assert!(!dead.is_empty());
    remove_dead_nodes(&mut g, &dead);
    assert_eq!(keys(&g), vec!["a".to_string(), "c".to_string()]);
    assert!(edges_of(&g, "b").is_empty());
    assert_eq!(edges_of(&g, "a").len(), 2);
    remove_dead_edges(&mut g);
    assert_eq!(edges_of(&g, "a"), vec![("a".to_string(), "c".to_string(), "y".to_string())]);
    // Removing again changes nothing.
    remove_dead_edges(&mut g);
    assert_eq!(edges_of(&g, "a"), vec![("a".to_string(), "c".to_string(), "y".to_string())]);
}

#[test]
fn remapping_edges_and_nodes() {
    let mut g = Graph::new(0);
    let mut p1 = node(NodeKind::Process, "u1");
    p1.created_timestamp = 10;
    let mut p2 = node(NodeKind::Process, "u2");
    p2.created_timestamp = 4;
    g.add_node(p1);
    g.add_node(p2);
    g.add_node(node(NodeKind::File, "u3"));
    g.add_node(node(NodeKind::Dynamic, "d"));
    g.add_edge("e".to_string(), "u1".to_string(), "u3".to_string());
    g.add_edge("f".to_string(), "u3".to_string(), "u1".to_string());
    let mut m = KeyMap::new();
    m.insert("u1".to_string(), "P".to_string());
    m.insert("u2".to_string(), "P".to_string());
    m.insert("u3".to_string(), "F".to_string());
    assert_eq!(m.get("u1"), Some(&"P".to_string()));
    assert_eq!(m.get("zz"), None);

    remap_edges(&mut g, &m);
    assert_eq!(edges_of(&g, "u1"), vec![("P".to_string(), "F".to_string(), "e".to_string())]);
    assert_eq!(edges_of(&g, "u3"), vec![("F".to_string(), "P".to_string(), "f".to_string())]);

    let mut partial = KeyMap::new();
    partial.insert("u1".to_string(), "P".to_string());
    let mut g2 = Graph::new(0);
    g2.add_edge("e".to_string(), "u1".to_string(), "u3".to_string());
    remap_edges(&mut g2, &partial);
    assert_eq!(edges_of(&g2, "u1"), vec![("u1".to_string(), "u3".to_string(), "e".to_string())]);

    remap_nodes(&mut g, &m);
    assert_eq!(keys(&g), vec!["P".to_string(), "F".to_string(), "d".to_string()]);
    // The two sessions that map to the same key were merged.
    assert_eq!(g.nodes[0].created_timestamp, 4);

    let mut g3 = Graph::new(0);
    g3.add_node(node(NodeKind::Process, "unknown"));
    remap_nodes(&mut g3, &m);
    assert!(g3.nodes.is_empty());
}

#[test]
fn asset_id_mappings_stop_at_unknown_nodes() {
    let mut g = Graph::new(0);
    let mut p = process("p", Some("a1"), 1);
    p.hostname = Some("h1".to_string());
    p.created_timestamp = 5;
    g.add_node(p);
    g.add_node(process("q", Some("a2"), 2));
    let mut asset = node(NodeKind::Asset, "as");
    asset.asset_id = Some("a3".to_string());
    asset.hostname = Some("h3".to_string());
    asset.created_timestamp = 8;
    g.add_node(asset);
    let mut ip = node(NodeKind::IpAddress, "ip");
    ip.asset_id = Some("a4".to_string());
    ip.hostname = Some("h4".to_string());
    g.add_node(ip);
    let (maps, err) = asset_id_mappings(&g);
    assert!(err.is_none());
    let seen: Vec<(String, String, u64)> =
        maps.iter().map(|m| (m.asset_id.clone(), m.hostname.clone(), m.timestamp)).collect();
    assert_eq!(seen, vec![("a1".to_string(), "h1".to_string(), 5), ("a3".to_string(), "h3".to_string(), 8)]);

    let mut g2 = Graph::new(0);
    let mut p = process("p", Some("a1"), 1);
    p.hostname = Some("h1".to_string());
    g2.add_node(p);
    g2.add_node(Node::new(None, "weird".to_string()));
    let mut later = process("r", Some("a9"), 1);
    later.hostname = Some("h9".to_string());
    g2.add_node(later);
    let (maps, err) = asset_id_mappings(&g2);
    assert_eq!(maps.len(), 1);
    assert_eq!(err, Some(IdentificationError::UnknownNodeVariant));
}

#[test]
fn asset_attribution_keeps_successes_and_reports_the_last_failure() {
    let mut g = Graph::new(12);
    g.add_node(process("p1", None, 1));
    g.add_node(node(NodeKind::IpAddress, "ip"));
    g.add_node(process("p2", None, 2));
    g.add_node(process("p3", None, 3));
    g.add_edge("e".to_string(), "p1".to_string(), "ip".to_string());
    g.add_edge("f".to_string(), "p1".to_string(), "p2".to_string());
    assert!(requires_asset_attribution(&g.nodes[0]));
    assert!(!requires_asset_attribution(&g.nodes[1]));
    let outcomes = vec![
        AssetAttribution::Attributed("A1".to_string()),
        AssetAttribution::Failed("unused".to_string()),
        AssetAttribution::Failed("first".to_string()),
        AssetAttribution::Failed("second".to_string()),
    ];
    match assemble_asset_attribution(g, &outcomes) {
        Err((e, out)) => {
            assert_eq!(e, "second");
            assert_eq!(keys(&out), vec!["p1".to_string(), "ip".to_string()]);
            assert_eq!(out.nodes[0].asset_id, Some("A1".to_string()));
            assert_eq!(edges_of(&out, "p1"), vec![("p1".to_string(), "ip".to_string(), "e".to_string())]);
            assert_eq!(out.timestamp, 12);
        }
        Ok(_) => panic!("expected a partial failure"),
    }

    let mut g = Graph::new(1);
    g.add_node(process("p1", None, 1));
    let mut dynamic = node(NodeKind::Dynamic, "d");
    dynamic.requires_asset_identification = false;
    g.add_node(dynamic);
    let out = assemble_asset_attribution(
        g,
        &vec![AssetAttribution::Attributed("A".to_string()), AssetAttribution::Failed("x".to_string())],
    )
    .ok()
    .unwrap();
    assert_eq!(keys(&out), vec!["p1".to_string(), "d".to_string()]);
}

#[test]
fn identified_graph_assembly() {
    let mut g = Graph::new(77);
    g.add_node(node(NodeKind::Process, "u1"));
    g.add_node(node(NodeKind::Process, "u2"));
    g.add_node(node(NodeKind::File, "u3"));
    g.add_node(node(NodeKind::File, "u4"));
    g.add_edge("e".to_string(), "u1".to_string(), "u3".to_string());
    g.add_edge("f".to_string(), "u1".to_string(), "u4".to_string());
    g.add_edge("g".to_string(), "u2".to_string(), "u3".to_string());
    let outcomes = vec![
        NodeOutcome::Identified(node(NodeKind::Process, "P1")),
        NodeOutcome::Failed,
        NodeOutcome::Identified(node(NodeKind::File, "F3")),
        NodeOutcome::CacheHit,
    ];
    let (identities, result) = assemble_identified_graph(&g, &outcomes, false);
    assert_eq!(identities, vec!["u1".to_string(), "u3".to_string()]);
    match result {
        Err(Ok((batch, e))) => {
            assert_eq!(e, NodeIdentifierError::Unexpected);
            assert_eq!(batch.subgraphs.len(), 1);
            let out = &batch.subgraphs[0];
            assert_eq!(keys(out), vec!["P1".to_string(), "F3".to_string()]);
            assert_eq!(edges_of(out, "P1"), vec![("P1".to_string(), "F3".to_string(), "e".to_string())]);
            assert_eq!(out.edges.len(), 1);
            assert_eq!(out.timestamp, 77);
        }
        _ => panic!("expected a partial success"),
    }

    let outcomes = vec![
        NodeOutcome::Identified(node(NodeKind::Process, "P1")),
        NodeOutcome::Identified(node(NodeKind::Process, "P2")),
        NodeOutcome::Identified(node(NodeKind::File, "F3")),
        NodeOutcome::Identified(node(NodeKind::File, "F4")),
    ];
    let (identities, result) = assemble_identified_graph(&g, &outcomes, false);
    assert_eq!(identities.len(), 4);
    let batch = result.ok().unwrap();
    assert_eq!(batch.subgraphs[0].nodes.len(), 4);
    assert_eq!(edges_of(&batch.subgraphs[0], "P1").len(), 2);
    assert_eq!(edges_of(&batch.subgraphs[0], "P2").len(), 1);

    let (_, result) = assemble_identified_graph(&g, &outcomes, true);
    assert!(matches!(result, Err(Ok(_))));

    let none = vec![NodeOutcome::CacheHit, NodeOutcome::CacheHit, NodeOutcome::Failed, NodeOutcome::CacheHit];
    let (identities, result) = assemble_identified_graph(&g, &none, false);
    assert!(identities.is_empty());
    assert!(matches!(result, Err(Err(NodeIdentifierError::Unexpected))));
}

#[test]
fn edge_lists_of_failed_nodes_are_dropped() {
    let mut g = Graph::new(0);
    g.add_node(node(NodeKind::Process, "u1"));
    g.add_node(node(NodeKind::Process, "u2"));
    g.add_edge("e".to_string(), "u2".to_string(), "u1".to_string());
    let outcomes = vec![NodeOutcome::Identified(node(NodeKind::Process, "P1")), NodeOutcome::Failed];
    let (_, result) = assemble_identified_graph(&g, &outcomes, false);
    match result {
        Err(Ok((batch, _))) => assert!(batch.subgraphs[0].edges.is_empty()),
        _ => panic!("expected a partial success"),
    }
    let _unused = EdgeList { edges: vec![edge("a", "b", "c")] };
}
