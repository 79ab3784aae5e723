use vstd::prelude::*;
use vstd::std_specs::convert::FromSpecImpl;
use vstd::std_specs::convert::TryFromSpecImpl;

verus! {

/// Lifecycle state of an inbound connection held by a process.
#[derive(Debug, Clone, Copy, PartialEq, Eq, Structural)]
pub enum ProcessInboundConnectionState {
    Bound,
    Existing,
    Closed,
}

/// Errors raised while decoding graph descriptions.
#[derive(Debug, Clone, Copy, PartialEq, Eq, Structural)]
pub enum GraphDescriptionError {
    InvalidProcessInboundConnectionState(u32),
}

/// The wire code of a state.
pub open spec fn inbound_state_code(p: ProcessInboundConnectionState) -> u32 {
    match p {
        ProcessInboundConnectionState::Bound => 1,
        ProcessInboundConnectionState::Closed => 2,
        ProcessInboundConnectionState::Existing => 3,
    }
}

/// The state a wire code stands for, or the error for an unknown code.
pub open spec fn inbound_state_of_code(p: u32) -> Result<ProcessInboundConnectionState, GraphDescriptionError> {
    if p == 1 {
        Ok(ProcessInboundConnectionState::Bound)
    } else if p == 2 {
        Ok(ProcessInboundConnectionState::Closed)
    } else if p == 3 {
        Ok(ProcessInboundConnectionState::Existing)
    } else {
        Err(GraphDescriptionError::InvalidProcessInboundConnectionState(p))
    }
}

impl From<ProcessInboundConnectionState> for u32 {
    fn from(p: ProcessInboundConnectionState) -> (r: u32) {
        match p {
            ProcessInboundConnectionState::Bound => 1,
            ProcessInboundConnectionState::Closed => 2,
            ProcessInboundConnectionState::Existing => 3,
        }
    }
}

impl FromSpecImpl<ProcessInboundConnectionState> for u32 {
    open spec fn obeys_from_spec() -> bool {
        true
    }

    open spec fn from_spec(v: ProcessInboundConnectionState) -> u32 {
        inbound_state_code(v)
    }
}

impl TryFrom<u32> for ProcessInboundConnectionState {
    type Error = GraphDescriptionError;

    fn try_from(p: u32) -> (r: Result<ProcessInboundConnectionState, GraphDescriptionError>) {
        match p {
            1 => Ok(ProcessInboundConnectionState::Bound),
            2 => Ok(ProcessInboundConnectionState::Closed),
            3 => Ok(ProcessInboundConnectionState::Existing),
            _ => Err(GraphDescriptionError::InvalidProcessInboundConnectionState(p)),
        }
    }
}

impl TryFromSpecImpl<u32> for ProcessInboundConnectionState {
    open spec fn obeys_try_from_spec() -> bool {
        true
    }

    open spec fn try_from_spec(v: u32) -> Result<ProcessInboundConnectionState, GraphDescriptionError> {
        inbound_state_of_code(v)
    }
}

/// Every state survives the trip through its wire code, and every accepted
/// code is the code of the state it decodes to.
pub proof fn lemma_inbound_state_code_roundtrip(s: ProcessInboundConnectionState, p: u32)
    ensures
        inbound_state_of_code(inbound_state_code(s)) == Ok::<ProcessInboundConnectionState, GraphDescriptionError>(s),
        inbound_state_of_code(p) matches Ok(t) ==> inbound_state_code(t) == p,
{
}

/// A node describing an inbound connection accepted by a process.
pub struct ProcessInboundConnection {
    pub node_key: String,
    pub ip_address: String,
    pub asset_id: Option<String>,
    pub hostname: Option<String>,
    pub created_timestamp: u64,
    pub terminated_timestamp: u64,
    pub last_seen_timestamp: u64,
    pub port: u32,
    pub state: u32,
}

/// The characters a lowercase hexadecimal digit may be.
pub open spec fn is_lower_hex_char(c: char) -> bool {
    ('0' <= c && c <= '9') || ('a' <= c && c <= 'f')
}

/// The text of a version-4 UUID in its hyphenated lowercase form
/// (`xxxxxxxx-xxxx-4xxx-xxxx-xxxxxxxxxxxx`).
pub open spec fn is_hyphenated_v4_uuid(s: Seq<char>) -> bool {
    &&& s.len() == 36
    &&& forall|i: int| 0 <= i < 36 ==> (#[trigger] s[i] == '-' <==> (i == 8 || i == 13 || i == 18 || i == 23))
    &&& forall|i: int| 0 <= i < 36 && i != 8 && i != 13 && i != 18 && i != 23 ==> is_lower_hex_char(#[trigger] s[i])
    &&& s[14] == '4'
}

/// Draws a fresh random version-4 UUID (`uuid::Uuid::new_v4`) and renders it
/// with `Display`, which writes the hyphenated lowercase form. Which UUID comes
/// out is left open: it depends on the random number generator.
#[verifier::external_body]
fn random_uuid_string() -> (r: String)
    ensures
        is_hyphenated_v4_uuid(r@),
{
    uuid::Uuid::new_v4().to_string()
}

/// Copies an optional string.
pub fn clone_opt_string(s: &Option<String>) -> (r: Option<String>)
    ensures
        r == *s,
{
    match s {
        Some(v) => Some(v.clone()),
        None => None,
    }
}

/// What merging `other` into `node` yields: the merged node and whether any
/// timestamp moved.
pub open spec fn merge_inbound(node: ProcessInboundConnection, other: ProcessInboundConnection) -> (ProcessInboundConnection, bool) {
    if node.node_key@ != other.node_key@ || node.ip_address@ != other.ip_address@ {
        (node, false)
    } else {
        let created_moves = node.created_timestamp != 0 && node.created_timestamp > other.created_timestamp;
        let terminated_moves = node.terminated_timestamp != 0 && node.terminated_timestamp < other.terminated_timestamp;
        let last_seen_moves = node.last_seen_timestamp != 0 && node.last_seen_timestamp < other.last_seen_timestamp;
        (ProcessInboundConnection {
            asset_id: if node.asset_id is None && other.asset_id is Some { other.asset_id } else { node.asset_id },
            hostname: if node.hostname is None && other.hostname is Some { other.hostname } else { node.hostname },
            created_timestamp: if created_moves { other.created_timestamp } else { node.created_timestamp },
            terminated_timestamp: if terminated_moves { other.terminated_timestamp } else { node.terminated_timestamp },
            last_seen_timestamp: if last_seen_moves { other.last_seen_timestamp } else { node.last_seen_timestamp },
            ..node
        }, created_moves || terminated_moves || last_seen_moves)
    }
}

/// Merging a connection with itself changes nothing and moves no timestamp.
pub proof fn lemma_merge_inbound_self(a: ProcessInboundConnection)
    ensures
        merge_inbound(a, a) == (a, false),
{
}

/// Merging keeps key and address, fills in but never replaces the asset id and
/// hostname, moves the creation time only earlier and the termination and
/// last-seen times only later, and reports a move exactly when a timestamp changed.
pub proof fn lemma_merge_inbound_monotone(a: ProcessInboundConnection, b: ProcessInboundConnection)
    ensures
        ({
            let (m, moved) = merge_inbound(a, b);
            &&& m.node_key == a.node_key
            &&& m.ip_address == a.ip_address
            &&& m.port == a.port
            &&& m.state == a.state
            &&& (a.asset_id is Some ==> m.asset_id == a.asset_id)
            &&& (a.hostname is Some ==> m.hostname == a.hostname)
            &&& m.created_timestamp <= a.created_timestamp
            &&& m.terminated_timestamp >= a.terminated_timestamp
            &&& m.last_seen_timestamp >= a.last_seen_timestamp
            &&& moved == (m.created_timestamp != a.created_timestamp || m.terminated_timestamp != a.terminated_timestamp
                || m.last_seen_timestamp != a.last_seen_timestamp)
        }),
{
}

/// Merging the same connection a second time changes nothing more.
pub proof fn lemma_merge_inbound_idempotent(a: ProcessInboundConnection, b: ProcessInboundConnection)
    ensures
        merge_inbound(merge_inbound(a, b).0, b) == (merge_inbound(a, b).0, false),
{
}

impl ProcessInboundConnection {
    /// Builds a connection node under a fresh random node key.
    /// At least one of `asset_id` and `hostname` must be given.
    pub fn new(
        asset_id: Option<String>,
        hostname: Option<String>,
        state: ProcessInboundConnectionState,
        port: u16,
        ip_address: String,
        created_timestamp: u64,
        terminated_timestamp: u64,
        last_seen_timestamp: u64,
    ) -> (r: Self)
        requires
            asset_id is Some || hostname is Some,
        ensures
            is_hyphenated_v4_uuid(r.node_key@),
            r.ip_address == ip_address,
            r.asset_id == asset_id,
            r.hostname == hostname,
            r.created_timestamp == created_timestamp,
            r.terminated_timestamp == terminated_timestamp,
            r.last_seen_timestamp == last_seen_timestamp,
            r.port == port as u32,
            r.state == inbound_state_code(state),
    {
        Self {
            node_key: random_uuid_string(),
            ip_address,
            asset_id,
            hostname,
            created_timestamp,
            terminated_timestamp,
            last_seen_timestamp,
            port: port as u32,
            state: u32::from(state),
        }
    }

    /// Connection nodes carry no asset id of their own.
    pub fn get_asset_id(&self) -> (r: Option<&str>)
        ensures
            r is None,
    {
        None
    }

    pub fn get_node_key(&self) -> (r: &str)
        ensures
            r@ == self.node_key@,
    {
        self.node_key.as_str()
    }

    pub fn set_node_key(&mut self, node_key: String)
        ensures
            *final(self) == (ProcessInboundConnection { node_key, ..*old(self) }),
    {
        self.node_key = node_key;
    }

    /// Merges what `other` knows of the same connection into `self`: missing
    /// asset id and hostname are filled in, the creation time can only move
    /// earlier, termination and last-seen times only later. Nodes with other
    /// keys or addresses are left alone. Returns whether a timestamp moved.
    pub fn merge(&mut self, other: &Self) -> (merged: bool)
        ensures
            (*final(self), merged) == merge_inbound(*old(self), *other),
    {
        if self.node_key != other.node_key {
            return false;
        }
        if self.ip_address != other.ip_address {
            return false;
        }
        let mut merged = false;
        if self.asset_id.is_none() && other.asset_id.is_some() {
            self.asset_id = clone_opt_string(&other.asset_id);
        }
        if self.hostname.is_none() && other.hostname.is_some() {
            self.hostname = clone_opt_string(&other.hostname);
        }
        if self.created_timestamp != 0 && self.created_timestamp > other.created_timestamp {
            self.created_timestamp = other.created_timestamp;
            merged = true;
        }
        if self.terminated_timestamp != 0 && self.terminated_timestamp < other.terminated_timestamp {
            self.terminated_timestamp = other.terminated_timestamp;
            merged = true;
        }
        if self.last_seen_timestamp != 0 && self.last_seen_timestamp < other.last_seen_timestamp {
            self.last_seen_timestamp = other.last_seen_timestamp;
            merged = true;
        }
        merged
    }

    pub fn merge_into(&mut self, other: Self) -> (merged: bool)
        ensures
            (*final(self), merged) == merge_inbound(*old(self), other),
    {
        self.merge(&other)
    }
}

} // verus!
