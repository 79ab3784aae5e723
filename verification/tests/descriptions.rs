use grapl_pipeline::graph::{Node, NodeKind};
use grapl_pipeline::model_plugin_deployer::{DeployModelRequest, ModelPluginDeployer, SchemaType, StatusCode};
use grapl_pipeline::process_inbound_connection::{
    GraphDescriptionError, ProcessInboundConnection, ProcessInboundConnectionState,
};
use std::convert::TryFrom;

fn connection(node_key: &str, ip: &str) -> ProcessInboundConnection {
    ProcessInboundConnection {
        node_key: node_key.to_string(),
        ip_address: ip.to_string(),
        asset_id: None,
        hostname: None,
        created_timestamp: 0,
        terminated_timestamp: 0,
        last_seen_timestamp: 0,
        port: 80,
        state: 1,
    }
}

#[test]
fn test_error_if_schema_type_not_defined() {
    let service_instance = ModelPluginDeployer::new();
    let inner_request = DeployModelRequest::default();
    let response = service_instance.handle_deploy_model(inner_request);
    match response {
        Ok(_) => panic!("Unexpected OK"),
        Err(status) => {
            assert_eq!(status.code, StatusCode::InvalidArgument);
            assert_eq!(status.message, "Unhandled schema type");
        }
    }
}

#[test]
fn graphql_schema_is_deployed() {
    let service = ModelPluginDeployer::new();
    assert!(service.handle_deploy_model(DeployModelRequest { schema_type: 1 }).is_ok());
    assert!(service.handle_deploy_model(DeployModelRequest { schema_type: 7 }).is_err());
}

#[test]
fn schema_type_codes() {
    assert_eq!(SchemaType::from_i32(0), Some(SchemaType::Unspecified));
    assert_eq!(SchemaType::from_i32(1), Some(SchemaType::Graphql));
    assert_eq!(SchemaType::from_i32(2), None);
    assert_eq!(SchemaType::from_i32(-1), None);
}

#[test]
fn inbound_state_codes() {
    assert_eq!(u32::from(ProcessInboundConnectionState::Bound), 1);
    assert_eq!(u32::from(ProcessInboundConnectionState::Closed), 2);
    assert_eq!(u32::from(ProcessInboundConnectionState::Existing), 3);
    assert_eq!(ProcessInboundConnectionState::try_from(1u32), Ok(ProcessInboundConnectionState::Bound));
    assert_eq!(ProcessInboundConnectionState::try_from(2u32), Ok(ProcessInboundConnectionState::Closed));
    assert_eq!(ProcessInboundConnectionState::try_from(3u32), Ok(ProcessInboundConnectionState::Existing));
    assert_eq!(
        ProcessInboundConnectionState::try_from(0u32),
        Err(GraphDescriptionError::InvalidProcessInboundConnectionState(0))
    );
    assert_eq!(
        ProcessInboundConnectionState::try_from(4u32),
        Err(GraphDescriptionError::InvalidProcessInboundConnectionState(4))
    );
}

#[test]
fn inbound_state_roundtrip() {
    for s in [
        ProcessInboundConnectionState::Bound,
        ProcessInboundConnectionState::Existing,
        ProcessInboundConnectionState::Closed,
    ] {
        assert_eq!(ProcessInboundConnectionState::try_from(u32::from(s)), Ok(s));
    }
}

#[test]
fn new_connection_gets_random_uuid_key() {
    let a = ProcessInboundConnection::new(
        Some("asset".to_string()),
        None,
        ProcessInboundConnectionState::Closed,
        8080,
        "10.0.0.1".to_string(),
        5,
        6,
        7,
    );
    let b = ProcessInboundConnection::new(
        None,
        Some("host".to_string()),
        ProcessInboundConnectionState::Bound,
        22,
        "10.0.0.2".to_string(),
        1,
        2,
        3,
    );
    assert_eq!(a.node_key.len(), 36);
    let chars: Vec<char> = a.node_key.chars().collect();
    for (i, c) in chars.iter().enumerate() {
        if i == 8 || i == 13 || i == 18 || i == 23 {
            assert_eq!(*c, '-');
        } else {
            assert!(c.is_ascii_hexdigit() && !c.is_ascii_uppercase());
        }
    }
    assert_eq!(chars[14], '4');
    assert_ne!(a.node_key, b.node_key);
    assert_eq!(a.port, 8080);
    assert_eq!(a.state, 2);
    assert_eq!(a.asset_id, Some("asset".to_string()));
    assert_eq!(a.created_timestamp, 5);
    assert_eq!(a.terminated_timestamp, 6);
    assert_eq!(a.last_seen_timestamp, 7);
    assert_eq!(b.state, 1);
    assert_eq!(b.hostname, Some("host".to_string()));
}

#[test]
fn connection_has_no_asset_id() {
    let mut c = connection("k", "1.2.3.4");
    c.asset_id = Some("a".to_string());
    assert_eq!(c.get_asset_id(), None);
    assert_eq!(c.get_node_key(), "k");
    c.set_node_key("other".to_string());
    assert_eq!(c.get_node_key(), "other");
}

#[test]
fn merge_widens_the_connection_lifetime() {
    let mut a = connection("k", "1.2.3.4");
    a.created_timestamp = 10;
    a.terminated_timestamp = 20;
    a.last_seen_timestamp = 15;
    let mut b = connection("k", "1.2.3.4");
    b.created_timestamp = 5;
    b.terminated_timestamp = 30;
    b.last_seen_timestamp = 25;
    b.asset_id = Some("asset".to_string());
    b.hostname = Some("host".to_string());
    assert!(a.merge(&b));
    assert_eq!(a.created_timestamp, 5);
    assert_eq!(a.terminated_timestamp, 30);
    assert_eq!(a.last_seen_timestamp, 25);
    assert_eq!(a.asset_id, Some("asset".to_string()));
    assert_eq!(a.hostname, Some("host".to_string()));
    // Merging the same connection again moves nothing.
    assert!(!a.merge(&b));
}

#[test]
fn merge_keeps_known_values_and_zero_timestamps() {
    let mut a = connection("k", "1.2.3.4");
    a.asset_id = Some("mine".to_string());
    let mut b = connection("k", "1.2.3.4");
    b.asset_id = Some("theirs".to_string());
    b.created_timestamp = 3;
    b.last_seen_timestamp = 9;
    assert!(!a.merge(&b));
    assert_eq!(a.asset_id, Some("mine".to_string()));
    assert_eq!(a.created_timestamp, 0);
    assert_eq!(a.last_seen_timestamp, 0);
}

#[test]
fn merge_refuses_other_keys_and_addresses() {
    let mut a = connection("k", "1.2.3.4");
    a.created_timestamp = 10;
    let mut b = connection("j", "1.2.3.4");
    b.created_timestamp = 1;
    assert!(!a.merge(&b));
    assert_eq!(a.created_timestamp, 10);
    let mut c = connection("k", "9.9.9.9");
    c.created_timestamp = 1;
    assert!(!a.merge_into(c));
    assert_eq!(a.created_timestamp, 10);
}

#[test]
fn merge_with_itself_is_no_change() {
    let mut a = connection("k", "1.2.3.4");
    a.created_timestamp = 10;
    a.terminated_timestamp = 20;
    let b = connection("k", "1.2.3.4");
    let mut same = connection("k", "1.2.3.4");
    same.created_timestamp = 10;
    same.terminated_timestamp = 20;
    assert!(!a.merge(&same));
    assert_eq!(a.created_timestamp, 10);
    assert_eq!(a.terminated_timestamp, 20);
    // A zero creation time on the other side still moves a set one.
    assert!(a.merge(&b));
    assert_eq!(a.created_timestamp, 0);
}

#[test]
fn connection_becomes_graph_node() {
    let mut c = connection("k", "1.2.3.4");
    c.hostname = Some("h".to_string());
    let n = Node::from_inbound(c);
    assert_eq!(n.which_node, Some(NodeKind::ProcessInboundConnection));
    assert_eq!(n.node_key, "k");
    assert_eq!(n.ip_address, "1.2.3.4");
    assert_eq!(n.hostname, Some("h".to_string()));
    assert_eq!(n.port, 80);
    assert_eq!(n.state, 1);
}
