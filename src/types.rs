//! Identity and addressing of kernel nodes in a cluster.

use vstd::prelude::*;

verus! {

/// A lowercase hexadecimal digit.
pub open spec fn is_lower_hex(c: char) -> bool {
    ('0' <= c && c <= '9') || ('a' <= c && c <= 'f')
}

/// The hyphenated lowercase text of a random (version 4, RFC 4122 variant)
/// UUID: 8-4-4-4-12 hex digits, version digit `4`, variant digit 8, 9, a or b.
pub open spec fn is_v4_text(s: Seq<char>) -> bool {
    &&& s.len() == 36
    &&& forall|i: int|
        0 <= i < 36 ==> if i == 8 || i == 13 || i == 18 || i == 23 {
            s[i] == '-'
        } else {
            is_lower_hex(#[trigger] s[i])
        }
    &&& s[14] == '4'
    &&& (s[19] == '8' || s[19] == '9' || s[19] == 'a' || s[19] == 'b')
}

/// Relies on uuid::Uuid::new_v4, which sets the version and variant bits of
/// a random value, and on its `Display`, the hyphenated lowercase form.
#[verifier::external_body]
pub(crate) fn random_uuid_text() -> (r: String)
    ensures
        is_v4_text(r@),
{
    uuid::Uuid::new_v4().to_string()
}

/// Unique identifier of a kernel node; compared and hashed by value.
#[derive(Debug, Clone, PartialEq, Eq, Hash)]
pub struct NodeId(pub String);

impl NodeId {
    /// A fresh random identifier.
    pub fn new() -> (r: NodeId)
        ensures
            is_v4_text(r.0@),
    {
        NodeId(random_uuid_text())
    }

    /// The identifier as text.
    pub fn to_string(&self) -> (r: String)
        ensures
            r@ == self.0@,
    {
        self.0.clone()
    }
}

impl From<String> for NodeId {
    fn from(s: String) -> (r: NodeId)
        ensures
            r.0@ == s@,
    {
        NodeId(s)
    }
}

impl vstd::std_specs::convert::FromSpecImpl<String> for NodeId {
    open spec fn obeys_from_spec() -> bool {
        true
    }

    open spec fn from_spec(s: String) -> NodeId {
        NodeId(s)
    }
}

/// Network address of a node's mesh transport endpoint.
#[derive(Debug, Clone, PartialEq)]
pub struct NodeAddress(pub String);

impl NodeAddress {
    /// The address as text.
    pub fn to_string(&self) -> (r: String)
        ensures
            r@ == self.0@,
    {
        self.0.clone()
    }
}

/// What is known of a node: its identity, where it listens, what it serves
/// and when it was last heard from.
#[derive(Debug, Clone)]
pub struct NodeInfo {
    pub id: NodeId,
    pub address: NodeAddress,
    pub capabilities: Vec<String>,
    pub last_seen: u64,
}

/// This node's own identity, listen address and bootstrap peers.
#[derive(Debug, Clone)]
pub struct MeshConfig {
    pub node_id: String,
    pub listen_address: String,
    pub bootstrap_nodes: Vec<String>,
}

/// Whether `node` lists `capability` among what it serves.
pub open spec fn node_serves(node: NodeInfo, capability: Seq<char>) -> bool {
    exists|i: int|
        0 <= i < node.capabilities@.len() && (#[trigger] node.capabilities@[i])@ == capability
}

impl NodeInfo {
    /// Whether this node lists `capability` among what it serves.
    pub fn serves(&self, capability: &str) -> (r: bool)
        ensures
            r == node_serves(*self, capability@),
    {
        let wanted = capability.to_owned();
        let mut i: usize = 0;
        while i < self.capabilities.len()
            invariant
                i <= self.capabilities@.len(),
                wanted@ == capability@,
                forall|j: int| 0 <= j < i ==> (#[trigger] self.capabilities@[j])@ != capability@,
            decreases self.capabilities@.len() - i,
        {
            if self.capabilities[i] == wanted {
                return true;
            }
            i += 1;
        }
        false
    }

    /// Whether the node was last heard from more than `ttl` time units
    /// before `now`; such an entry is due for eviction.
    pub fn is_stale(&self, now: u64, ttl: u64) -> (r: bool)
        ensures
            r == (now as int - self.last_seen as int > ttl as int),
    {
        now > self.last_seen && now - self.last_seen > ttl
    }
}

} // verus!
