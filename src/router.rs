//! The local dispatch table and the routing decision for a call.

use vstd::prelude::*;
use crate::mesh::MeshError;
use crate::mesh::{outcome_of, Delivery, Payload};
use crate::table::NamedTable;
use crate::types::{node_serves, NodeInfo};

verus! {

/// Where a call goes: to a local endpoint, or to a peer node.
pub enum Route<L> {
    Local(L),
    Remote(NodeInfo),
}

/// The route for `target` given the table and the membership answer `peer`;
/// `None` when there is none.
pub open spec fn route_spec<E>(table: Map<Seq<char>, E>, target: Seq<char>, peer: Option<NodeInfo>) -> Option<Route<E>> {
    if table.contains_key(target) {
        Some(Route::Local(table[target]))
    } else {
        match peer {
            Some(n) => if node_serves(n, target) {
                Some(Route::Remote(n))
            } else {
                None
            },
            None => None,
        }
    }
}

/// Dispatch table from component id to the endpoint that receives its calls.
/// The router is generic over the endpoint: anything that takes a call.
pub struct MeshRouter<E> {
    table: NamedTable<E>,
}

impl<E> MeshRouter<E> {
    pub closed spec fn wf(&self) -> bool {
        self.table.wf()
    }

    pub closed spec fn view(&self) -> Map<Seq<char>, E> {
        self.table@
    }

    pub fn new() -> (r: Self)
        ensures
            r.wf(),
            r@ == Map::<Seq<char>, E>::empty(),
    {
        MeshRouter { table: NamedTable::new() }
    }

    /// Installs `endpoint` for `id`; a later registration of the same id
    /// replaces it.
    pub fn register(&mut self, id: String, endpoint: E)
        requires
            old(self).wf(),
        ensures
            final(self).wf(),
            final(self)@ == old(self)@.insert(id@, endpoint),
    {
        self.table.insert(id, endpoint);
    }

    /// The endpoint registered for `target`.
    pub fn lookup(&self, target: &str) -> (r: Option<&E>)
        requires
            self.wf(),
        ensures
            match r {
                Some(e) => self@.contains_key(target@) && *e == self@[target@],
                None => !self@.contains_key(target@),
            },
    {
        self.table.get(target)
    }

    /// Number of registered components.
    pub fn len(&self) -> (r: usize)
        requires
            self.wf(),
        ensures
            r as nat == self@.dom().len(),
    {
        self.table.len()
    }

    /// Decides where a call to `target` goes: the local endpoint when one is
    /// registered; else `peer`, the node that cluster membership named, when
    /// it serves `target`; else the target is not found.
    pub fn route(&self, target: &str, peer: Option<NodeInfo>) -> (r: Result<Route<&E>, MeshError>)
        requires
            self.wf(),
        ensures
            match r {
                Ok(Route::Local(e)) => route_spec(self@, target@, peer) == Some(Route::Local(*e)),
                Ok(Route::Remote(n)) => route_spec(self@, target@, peer) == Some(
                    Route::<E>::Remote(n),
                ),
                Err(err) => route_spec(self@, target@, peer) is None && (err matches MeshError::TargetNotFound(s) && s@ == target@),
            },
    {
        match self.table.get(target) {
            Some(e) => Ok(Route::Local(e)),
            None => match peer {
                Some(n) => {
                    if n.serves(target) {
                        Ok(Route::Remote(n))
                    } else {
                        Err(MeshError::TargetNotFound(target.to_owned()))
                    }
                },
                None => Err(MeshError::TargetNotFound(target.to_owned())),
            },
        }
    }
}

/// A call to a component goes to the endpoint registered last under its id,
/// and the caller gets back exactly the reply that component sent.
pub proof fn registered_call_gets_reply<E>(
    table: Map<Seq<char>, E>,
    id: String,
    endpoint: E,
    peer: Option<NodeInfo>,
    reply: Payload,
)
    ensures
        route_spec(table.insert(id@, endpoint), id@, peer) == Some(Route::Local(endpoint)),
        outcome_of(id, Delivery::Replied(Ok(reply))) == Ok::<Payload, MeshError>(reply),
{
}

/// A call to an id that is neither registered locally nor served by the
/// peer that membership named finds no route.
pub proof fn unregistered_call_not_found<E>(table: Map<Seq<char>, E>, target: Seq<char>, peer: Option<NodeInfo>)
    requires
        !table.contains_key(target),
        peer is None || !node_serves(peer.unwrap(), target),
    ensures
        route_spec(table, target, peer) is None,
{
}

} // verus!
