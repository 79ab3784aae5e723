use vstd::prelude::*;
use vstd::string::StringExecFns;

use crate::decimal::{decimal, decimal_bytes, push_decimal, push_decimal_bytes};
use crate::digest::{hex_encode, hex_lower, sha256, sha256_digest};
use crate::graph::{Node, NodeKind};
use crate::process_inbound_connection::{inbound_state_of_code, ProcessInboundConnectionState};

verus! {

/// A session that still has to be resolved to a stable node key: the key it is
/// known by before identification, when it was seen, and whether it was seen
/// being created.
pub struct UnidSession {
    pub pseudo_key: String,
    pub timestamp: u64,
    pub is_creation: bool,
}

/// Why a node could not be identified.
#[derive(Debug, Clone, Copy, PartialEq, Eq, Structural)]
pub enum IdentificationError {
    /// A process node has none of its timestamps set.
    MissingTimestamp,
    /// The node's state code is not one its kind defines.
    InvalidState(NodeKind, u32),
    /// The node's kind is unknown.
    UnknownNodeVariant,
    /// A session-like node yielded no session.
    Unidentifiable(NodeKind),
    /// An asset node has no asset id.
    MissingAssetId,
}

/// The history table in which sessions of each kind are kept.
#[derive(Debug, Clone, Copy, PartialEq, Eq, Structural)]
pub enum SessionTable {
    ProcessHistory,
    FileHistory,
    InboundConnectionHistory,
    OutboundConnectionHistory,
    NetworkConnectionHistory,
    IpConnectionHistory,
}

/// Whether a node seen in state `state` was seen being created, and when it
/// was seen; per kind. Files, outbound connections, network and IP
/// connections use code 1 for creation, 2 and 3 for the other states.
pub open spec fn lifecycle(node: Node) -> Result<(bool, u64), IdentificationError> {
    match node.which_node {
        Some(NodeKind::Process) => {
            if node.created_timestamp != 0 {
                Ok((true, node.created_timestamp))
            } else if node.terminated_timestamp != 0 {
                Ok((false, node.terminated_timestamp))
            } else if node.last_seen_timestamp != 0 {
                Ok((false, node.last_seen_timestamp))
            } else {
                Err(IdentificationError::MissingTimestamp)
            }
        },
        Some(NodeKind::ProcessInboundConnection) => {
            match inbound_state_of_code(node.state) {
                Ok(ProcessInboundConnectionState::Bound) => Ok((true, node.created_timestamp)),
                Ok(_) => Ok((false, node.last_seen_timestamp)),
                Err(_) => Err(IdentificationError::InvalidState(NodeKind::ProcessInboundConnection, node.state)),
            }
        },
        Some(k) => {
            if node.state == 1 {
                Ok((true, node.created_timestamp))
            } else if node.state == 2 || node.state == 3 {
                Ok((false, node.last_seen_timestamp))
            } else {
                Err(IdentificationError::InvalidState(k, node.state))
            }
        },
        None => Err(IdentificationError::UnknownNodeVariant),
    }
}

/// Kinds of node that are sessions.
pub open spec fn is_session_kind(k: NodeKind) -> bool {
    match k {
        NodeKind::Process | NodeKind::File | NodeKind::ProcessOutboundConnection
        | NodeKind::ProcessInboundConnection | NodeKind::NetworkConnection | NodeKind::IpConnection => true,
        _ => false,
    }
}

/// Turning this node into a session needs an asset id that the node does not
/// offer. An inbound connection node never offers one.
pub open spec fn unid_panics(node: Node) -> bool {
    match node.which_node {
        Some(NodeKind::Process) | Some(NodeKind::File) | Some(NodeKind::ProcessOutboundConnection) =>
            lifecycle(node) is Ok && node.asset_id is None,
        Some(NodeKind::ProcessInboundConnection) => lifecycle(node) is Ok,
        _ => false,
    }
}

/// The key a session-like node is known by before identification.
pub open spec fn pseudo_key(node: Node) -> Seq<char> {
    match node.which_node {
        Some(NodeKind::Process) => node.asset_id->0@ + decimal(node.process_id as nat),
        Some(NodeKind::File) => node.asset_id->0@ + node.file_path@,
        Some(NodeKind::ProcessOutboundConnection) => node.asset_id->0@ + decimal(node.port as nat) + "outbound"@,
        Some(NodeKind::NetworkConnection) => decimal(node.src_port as nat) + node.src_ip_address@ + decimal(node.dst_port as nat)
            + node.dst_ip_address@ + node.protocol@ + "network_connection"@,
        Some(NodeKind::IpConnection) => node.src_ip_address@ + node.dst_ip_address@ + node.protocol@ + "ip_network_connection"@,
        _ => Seq::empty(),
    }
}

/// The session of a node as (pseudo key, timestamp, is_creation), `None` for
/// kinds that are not sessions, or the error that stops it.
pub open spec fn unid_session_of(node: Node) -> Result<Option<(Seq<char>, u64, bool)>, IdentificationError> {
    match node.which_node {
        None => Err(IdentificationError::UnknownNodeVariant),
        Some(k) => if is_session_kind(k) {
            match lifecycle(node) {
                Ok((is_creation, timestamp)) => Ok(Some((pseudo_key(node), timestamp, is_creation))),
                Err(e) => Err(e),
            }
        } else {
            Ok(None)
        },
    }
}

fn lifecycle_exec(node: &Node) -> (r: Result<(bool, u64), IdentificationError>)
    requires
        node.which_node is Some,
    ensures
        r == lifecycle(*node),
{
    match node.which_node {
        Some(NodeKind::Process) => {
            if node.created_timestamp != 0 {
                Ok((true, node.created_timestamp))
            } else if node.terminated_timestamp != 0 {
                Ok((false, node.terminated_timestamp))
            } else if node.last_seen_timestamp != 0 {
                Ok((false, node.last_seen_timestamp))
            } else {
                Err(IdentificationError::MissingTimestamp)
            }
        },
        Some(NodeKind::ProcessInboundConnection) => {
            match ProcessInboundConnectionState::try_from(node.state) {
                Ok(ProcessInboundConnectionState::Bound) => Ok((true, node.created_timestamp)),
                Ok(_) => Ok((false, node.last_seen_timestamp)),
                Err(_) => Err(IdentificationError::InvalidState(NodeKind::ProcessInboundConnection, node.state)),
            }
        },
        Some(k) => {
            if node.state == 1 {
                Ok((true, node.created_timestamp))
            } else if node.state == 2 || node.state == 3 {
                Ok((false, node.last_seen_timestamp))
            } else {
                Err(IdentificationError::InvalidState(k, node.state))
            }
        },
        None => Err(IdentificationError::UnknownNodeVariant),
    }
}

/// Whether turning `node` into a session would need an asset id it does not
/// offer; see [`unid_panics`].
pub fn lacks_required_asset_id(node: &Node) -> (r: bool)
    ensures
        r == unid_panics(*node),
{
    match node.which_node {
        Some(NodeKind::Process) | Some(NodeKind::File) | Some(NodeKind::ProcessOutboundConnection) =>
            lifecycle_exec(node).is_ok() && node.asset_id.is_none(),
        Some(NodeKind::ProcessInboundConnection) => lifecycle_exec(node).is_ok(),
        _ => false,
    }
}

/// Computes the session by which a node is identified: `None` for nodes that
/// are not sessions (IP addresses, assets, IP ports, dynamic nodes). Session
/// nodes other than network and IP connections need an asset id.
pub fn into_unid_session(node: &Node) -> (r: Result<Option<UnidSession>, IdentificationError>)
    requires
        !unid_panics(*node),
    ensures
        match unid_session_of(*node) {
            Err(e) => r == Err::<Option<UnidSession>, IdentificationError>(e),
            Ok(None) => r matches Ok(None),
            Ok(Some(s)) => r matches Ok(Some(u)) && (u.pseudo_key@, u.timestamp, u.is_creation) == s,
        },
{
    proof {
        reveal_strlit("outbound");
        reveal_strlit("network_connection");
        reveal_strlit("ip_network_connection");
    }
    let kind = match node.which_node {
        Some(k) => k,
        None => return Err(IdentificationError::UnknownNodeVariant),
    };
    match kind {
        NodeKind::IpAddress | NodeKind::Asset | NodeKind::IpPort | NodeKind::Dynamic => {
            return Ok(None);
        },
        _ => {},
    }
    let (is_creation, timestamp) = match lifecycle_exec(node) {
        Ok(p) => p,
        Err(e) => return Err(e),
    };
    let mut key = String::new();
    match kind {
        NodeKind::Process => {
            match &node.asset_id {
                Some(a) => key.append(a.as_str()),
                None => return Err(IdentificationError::MissingAssetId),
            }
            push_decimal(&mut key, node.process_id);
        },
        NodeKind::File => {
            match &node.asset_id {
                Some(a) => key.append(a.as_str()),
                None => return Err(IdentificationError::MissingAssetId),
            }
            key.append(node.file_path.as_str());
        },
        NodeKind::ProcessOutboundConnection => {
            match &node.asset_id {
                Some(a) => key.append(a.as_str()),
                None => return Err(IdentificationError::MissingAssetId),
            }
            push_decimal(&mut key, node.port as u64);
            key.append("outbound");
        },
        NodeKind::NetworkConnection => {
            push_decimal(&mut key, node.src_port as u64);
            key.append(node.src_ip_address.as_str());
            push_decimal(&mut key, node.dst_port as u64);
            key.append(node.dst_ip_address.as_str());
            key.append(node.protocol.as_str());
            key.append("network_connection");
        },
        NodeKind::IpConnection => {
            key.append(node.src_ip_address.as_str());
            key.append(node.dst_ip_address.as_str());
            key.append(node.protocol.as_str());
            key.append("ip_network_connection");
        },
        _ => {
            // An inbound connection node offers no asset id.
            return Err(IdentificationError::MissingAssetId);
        },
    }
    assert(key@ =~= pseudo_key(*node));
    Ok(Some(UnidSession { pseudo_key: key, timestamp, is_creation }))
}

/// The history table that holds sessions of a session kind.
pub open spec fn table_for(k: NodeKind) -> SessionTable {
    match k {
        NodeKind::Process => SessionTable::ProcessHistory,
        NodeKind::File => SessionTable::FileHistory,
        NodeKind::ProcessInboundConnection => SessionTable::InboundConnectionHistory,
        NodeKind::ProcessOutboundConnection => SessionTable::OutboundConnectionHistory,
        NodeKind::NetworkConnection => SessionTable::NetworkConnectionHistory,
        _ => SessionTable::IpConnectionHistory,
    }
}

/// What identifying a node takes.
pub enum NodeKeyAttribution {
    /// Look the session up in `table`; the key found there becomes the node's key.
    Session { table: SessionTable, session: UnidSession, node: Node },
    /// The node is identified already.
    Identified(Node),
    /// A dynamic node, identified by its own strategy.
    Dynamic(Node),
}

/// UTF-8 bytes of a character sequence.
pub open spec fn utf8_of(s: Seq<char>) -> Seq<u8> {
    vstd::utf8::encode_utf8(s)
}

/// What planning the key attribution of `node` gives: the error of its
/// session, the history-table lookup of a session, or the key of a node that
/// is not a session; see [`plan_node_key_attribution`].
pub open spec fn planned_attribution(node: Node, r: Result<NodeKeyAttribution, IdentificationError>) -> bool {
    &&& unid_session_of(node) matches Err(e) ==> r == Err::<NodeKeyAttribution, IdentificationError>(e)
    &&& unid_session_of(node) matches Ok(Some(s)) ==> (r matches Ok(NodeKeyAttribution::Session { table, session, node: n })
        && table == table_for(node.which_node->0) && n == node
        && (session.pseudo_key@, session.timestamp, session.is_creation) == s)
    &&& unid_session_of(node) is Ok ==> match node.which_node {
        Some(NodeKind::Asset) => match node.asset_id {
            None => r == Err::<NodeKeyAttribution, IdentificationError>(IdentificationError::MissingAssetId),
            Some(a) => r matches Ok(NodeKeyAttribution::Identified(n)) && n == (Node { node_key: a, ..node }),
        },
        Some(NodeKind::IpAddress) => r matches Ok(NodeKeyAttribution::Identified(n))
            && n == (Node { node_key: node.ip_address, ..node }),
        Some(NodeKind::IpPort) => r matches Ok(NodeKeyAttribution::Identified(n))
            && n == (Node { node_key: n.node_key, ..node })
            && n.node_key@ == hex_lower(sha256(utf8_of(node.ip_address@) + decimal_bytes(node.port as nat) + utf8_of(node.protocol@))),
        Some(NodeKind::Dynamic) => r matches Ok(NodeKeyAttribution::Dynamic(n)) && n == node,
        _ => true,
    }
}

/// Decides how `node` gets its stable node key. Sessions are looked up in the
/// history table of their kind; an asset takes its asset id as key, an IP
/// address its address, an IP port the hash of its address, port and
/// protocol; dynamic nodes have their own identification.
pub fn plan_node_key_attribution(node: Node) -> (r: Result<NodeKeyAttribution, IdentificationError>)
    requires
        !unid_panics(node),
    ensures
        planned_attribution(node, r),
{
    let unid = match into_unid_session(&node) {
        Ok(u) => u,
        Err(e) => return Err(e),
    };
    let kind = match node.which_node {
        Some(k) => k,
        None => return Err(IdentificationError::UnknownNodeVariant),
    };
    match kind {
        NodeKind::Asset => {
            let asset_id = match node.clone_asset_id() {
                Some(a) => a,
                None => return Err(IdentificationError::MissingAssetId),
            };
            let mut n = node;
            n.set_node_key(asset_id);
            Ok(NodeKeyAttribution::Identified(n))
        },
        NodeKind::IpAddress => {
            let key = node.ip_address.clone();
            let mut n = node;
            n.set_node_key(key);
            Ok(NodeKeyAttribution::Identified(n))
        },
        NodeKind::IpPort => {
            let mut input: Vec<u8> = Vec::new();
            let ip_bytes = node.ip_address.as_str().as_bytes();
            let mut j: usize = 0;
            while j < ip_bytes.len()
                invariant
                    j <= ip_bytes@.len(),
                    input@ == ip_bytes@.take(j as int),
                decreases ip_bytes@.len() - j,
            {
                input.push(ip_bytes[j]);
                assert(ip_bytes@.take(j + 1) =~= ip_bytes@.take(j as int).push(ip_bytes@[j as int]));
                j = j + 1;
            }
            assert(ip_bytes@.take(ip_bytes@.len() as int) =~= ip_bytes@);
            let ghost prefix: Seq<u8> = input@;
            push_decimal_bytes(&mut input, node.port as u64);
            let protocol_bytes = node.protocol.as_str().as_bytes();
            let mut i: usize = 0;
            while i < protocol_bytes.len()
                invariant
                    i <= protocol_bytes@.len(),
                    input@ == prefix + decimal_bytes(node.port as nat) + protocol_bytes@.take(i as int),
                decreases protocol_bytes@.len() - i,
            {
                input.push(protocol_bytes[i]);
                assert(protocol_bytes@.take(i + 1) =~= protocol_bytes@.take(i as int).push(protocol_bytes@[i as int]));
                i = i + 1;
            }
            assert(protocol_bytes@.take(protocol_bytes@.len() as int) =~= protocol_bytes@);
            let digest = sha256_digest(input.as_slice());
            let key = hex_encode(digest.as_slice());
            let mut n = node;
            n.set_node_key(key);
            Ok(NodeKeyAttribution::Identified(n))
        },
        NodeKind::Dynamic => Ok(NodeKeyAttribution::Dynamic(node)),
        _ => {
            let session = match unid {
                Some(s) => s,
                None => return Err(IdentificationError::Unidentifiable(kind)),
            };
            let table = match kind {
                NodeKind::Process => SessionTable::ProcessHistory,
                NodeKind::File => SessionTable::FileHistory,
                NodeKind::ProcessInboundConnection => SessionTable::InboundConnectionHistory,
                NodeKind::ProcessOutboundConnection => SessionTable::OutboundConnectionHistory,
                NodeKind::NetworkConnection => SessionTable::NetworkConnectionHistory,
                _ => SessionTable::IpConnectionHistory,
            };
            Ok(NodeKeyAttribution::Session { table, session, node })
        },
    }
}

/// Each kind of session is resolved in a history table of its own: no two
/// session kinds share one.
pub proof fn lemma_session_tables_distinct(a: NodeKind, b: NodeKind)
    requires
        is_session_kind(a),
        is_session_kind(b),
        a != b,
    ensures
        table_for(a) != table_for(b),
{
}

/// Where planning gives a session lookup, the table is the history of the
/// node's own kind: processes in the process history, files in the file
/// history, inbound and outbound connections in the inbound and outbound
/// connection histories, network and IP connections in theirs. Only nodes of
/// those kinds are looked up at all.
pub proof fn lemma_session_lookup_table(node: Node, r: Result<NodeKeyAttribution, IdentificationError>)
    requires
        planned_attribution(node, r),
        r matches Ok(NodeKeyAttribution::Session { .. }),
    ensures
        r matches Ok(NodeKeyAttribution::Session { table, .. }) && match node.which_node {
            Some(NodeKind::Process) => table == SessionTable::ProcessHistory,
            Some(NodeKind::File) => table == SessionTable::FileHistory,
            Some(NodeKind::ProcessInboundConnection) => table == SessionTable::InboundConnectionHistory,
            Some(NodeKind::ProcessOutboundConnection) => table == SessionTable::OutboundConnectionHistory,
            Some(NodeKind::NetworkConnection) => table == SessionTable::NetworkConnectionHistory,
            Some(NodeKind::IpConnection) => table == SessionTable::IpConnectionHistory,
            _ => false,
        },
{
}

/// A session seen being created carries the node's creation time. One seen
/// otherwise carries the time the node was last seen, or, for a process that
/// ended, the time it ended. A process counts as created exactly where its
/// creation time is set, and has no session time only where none of its
/// times is set.
pub proof fn lemma_lifecycle_times(node: Node)
    ensures
        lifecycle(node) matches Ok((true, t)) ==> t == node.created_timestamp,
        lifecycle(node) matches Ok((false, t)) ==> t == node.last_seen_timestamp || (node.which_node == Some(
            NodeKind::Process,
        ) && t == node.terminated_timestamp),
        node.which_node == Some(NodeKind::Process) ==> ((lifecycle(node) matches Ok((true, _)))
            <==> node.created_timestamp != 0),
        node.which_node == Some(NodeKind::Process) ==> (lifecycle(node) is Err <==> (node.created_timestamp == 0
            && node.terminated_timestamp == 0 && node.last_seen_timestamp == 0)),
        node.which_node is None ==> lifecycle(node) == Err::<(bool, u64), IdentificationError>(
            IdentificationError::UnknownNodeVariant,
        ),
{
}

/// For files, connections of processes, network and IP connections, state
/// code 1 means the node was seen being created, at its creation time; codes
/// 2 and 3 mean it was seen later, at its last-seen time; any other code is
/// an invalid state of that kind.
pub proof fn lemma_lifecycle_states(node: Node, k: NodeKind)
    requires
        node.which_node == Some(k),
        k == NodeKind::File || k == NodeKind::ProcessOutboundConnection || k == NodeKind::ProcessInboundConnection
            || k == NodeKind::NetworkConnection || k == NodeKind::IpConnection,
    ensures
        node.state == 1 ==> lifecycle(node) == Ok::<(bool, u64), IdentificationError>((true, node.created_timestamp)),
        node.state == 2 || node.state == 3 ==> lifecycle(node) == Ok::<(bool, u64), IdentificationError>(
            (false, node.last_seen_timestamp),
        ),
        !(1 <= node.state <= 3) ==> lifecycle(node) == Err::<(bool, u64), IdentificationError>(
            IdentificationError::InvalidState(k, node.state),
        ),
{
}

/// The session of a node seen being created is stamped with its creation time.
pub proof fn lemma_created_session_time(node: Node)
    ensures
        unid_session_of(node) matches Ok(Some((_, t, is_creation))) ==> (is_creation ==> t == node.created_timestamp),
{
    lemma_lifecycle_times(node);
}

/// Exactly the session kinds are identified through a session: a node of
/// another known kind has none, and a node of unknown kind is an error.
pub proof fn lemma_sessions_are_of_session_kinds(node: Node)
    ensures
        node.which_node matches Some(k) ==> (is_session_kind(k) <==> !(unid_session_of(node) matches Ok(None))),
        node.which_node is None ==> unid_session_of(node) == Err::<Option<(Seq<char>, u64, bool)>, IdentificationError>(
            IdentificationError::UnknownNodeVariant,
        ),
        is_session_kind(NodeKind::Process) && is_session_kind(NodeKind::File) && is_session_kind(
            NodeKind::ProcessOutboundConnection,
        ) && is_session_kind(NodeKind::ProcessInboundConnection) && is_session_kind(NodeKind::NetworkConnection)
            && is_session_kind(NodeKind::IpConnection),
        !is_session_kind(NodeKind::Asset) && !is_session_kind(NodeKind::IpAddress) && !is_session_kind(
            NodeKind::IpPort,
        ) && !is_session_kind(NodeKind::Dynamic),
{
}

/// The pseudo key of a session names what the session is of: a process by
/// its asset id and process id, a file by its asset id and path, an outbound
/// connection by its asset id and port, marked as outbound; a network
/// connection by its ports, addresses and protocol, and an IP connection by
/// its addresses and protocol, each marked with its kind.
pub proof fn lemma_pseudo_keys(node: Node, a: Seq<char>)
    requires
        node.asset_id matches Some(s) && s@ == a,
    ensures
        node.which_node == Some(NodeKind::Process) ==> pseudo_key(node) == a + decimal(node.process_id as nat),
        node.which_node == Some(NodeKind::File) ==> pseudo_key(node) == a + node.file_path@,
        node.which_node == Some(NodeKind::ProcessOutboundConnection) ==> pseudo_key(node) == a + decimal(
            node.port as nat,
        ) + "outbound"@,
        node.which_node == Some(NodeKind::NetworkConnection) ==> pseudo_key(node) == decimal(node.src_port as nat)
            + node.src_ip_address@ + decimal(node.dst_port as nat) + node.dst_ip_address@ + node.protocol@
            + "network_connection"@,
        node.which_node == Some(NodeKind::IpConnection) ==> pseudo_key(node) == node.src_ip_address@
            + node.dst_ip_address@ + node.protocol@ + "ip_network_connection"@,
{
}

/// A node identified without a lookup keeps every field but its key: an
/// asset takes its asset id as key, an IP address its address, and an IP
/// port the hex SHA-256 of its address, port and protocol. An asset without
/// an asset id is an error; a dynamic node is handed on as it is.
pub proof fn lemma_direct_keys(node: Node, r: Result<NodeKeyAttribution, IdentificationError>)
    requires
        planned_attribution(node, r),
    ensures
        node.which_node == Some(NodeKind::Asset) ==> match node.asset_id {
            Some(a) => r matches Ok(NodeKeyAttribution::Identified(n)) && n.node_key == a && n == (Node {
                node_key: n.node_key,
                ..node
            }),
            None => r == Err::<NodeKeyAttribution, IdentificationError>(IdentificationError::MissingAssetId),
        },
        node.which_node == Some(NodeKind::IpAddress) ==> (r matches Ok(NodeKeyAttribution::Identified(n))
            && n.node_key == node.ip_address && n == (Node { node_key: n.node_key, ..node })),
        node.which_node == Some(NodeKind::IpPort) ==> (r matches Ok(NodeKeyAttribution::Identified(n))
            && n.node_key@ == hex_lower(sha256(utf8_of(node.ip_address@) + decimal_bytes(node.port as nat) + utf8_of(
            node.protocol@,
        ))) && n == (Node { node_key: n.node_key, ..node })),
        node.which_node == Some(NodeKind::Dynamic) ==> r == Ok::<NodeKeyAttribution, IdentificationError>(
            NodeKeyAttribution::Dynamic(node),
        ),
        node.which_node is None ==> r == Err::<NodeKeyAttribution, IdentificationError>(
            IdentificationError::UnknownNodeVariant,
        ),
{
}

} // verus!
