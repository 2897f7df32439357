//! What a controller of the simulation works out before it gives its orders:
//! the id of a new drone, the drones that a change of the topology concerns,
//! and the drone that an event is logged for.

use vstd::prelude::*;
use crate::drone::DroneEvent;
use crate::error::position;
use crate::packet::NodeId;

verus! {

/// Says of a node whether it is one of `ids`.
pub open spec fn among(ids: Seq<NodeId>) -> spec_fn(NodeId) -> bool {
    |node: NodeId| ids.contains(node)
}

/// The least id that none of `taken` has, if there is one left.
pub fn generate_id(taken: &Vec<NodeId>) -> (id: Option<NodeId>)
    ensures
        match id {
            Some(free) => {
                &&& !taken@.contains(free)
                &&& forall|k: NodeId| k < free ==> taken@.contains(k)
            },
            None => forall|k: NodeId| taken@.contains(k),
        },
{
    let mut k: NodeId = 0;
    loop
        invariant
            forall|j: NodeId| j < k ==> taken@.contains(j),
        decreases NodeId::MAX - k,
    {
        //If k is not taken, it is the one.
        if position(taken, k).is_none() {
            return Some(k);
        }
        if k == NodeId::MAX {
            return None;
        }
        k += 1;
    }
}

/// Those of `nodes` that `connections` names, in the order of `nodes`.
///
/// These are the drones that are told of a new neighbour, the neighbours a
/// new drone gets links to, and the drones that are told to forget a
/// neighbour that crashes.
pub fn connected(nodes: &Vec<NodeId>, connections: &Vec<NodeId>) -> (named: Vec<NodeId>)
    ensures
        named@ == nodes@.filter(among(connections@)),
{
    let mut named: Vec<NodeId> = Vec::new();
    let mut i: usize = 0;
    proof {
        reveal(Seq::filter);
    }
    assert(nodes@.take(0) =~= Seq::empty());
    while i < nodes.len()
        invariant
            i <= nodes.len(),
            named@ == nodes@.take(i as int).filter(among(connections@)),
        decreases nodes.len() - i,
    {
        let node = nodes[i];
        proof {
            reveal(Seq::filter);
            let next = nodes@.take(i + 1);
            assert(next.drop_last() == nodes@.take(i as int));
            assert(next.last() == node);
        }
        if position(connections, node).is_some() {
            named.push(node);
        }
        i += 1;
    }
    assert(nodes@.take(i as int) == nodes@);
    named
}

/// The drone that an event is logged for: the last hop of the path of the
/// packet it reports. There is none where the path is empty.
pub fn logged_drone(event: &DroneEvent) -> (drone: Option<NodeId>)
    ensures
        drone == match event@ {
            crate::drone::DroneEventView::PacketSent(packet)
            | crate::drone::DroneEventView::PacketDropped(packet)
            | crate::drone::DroneEventView::ControllerShortcut(packet) => if packet.hops().len()
                > 0 {
                Some(packet.hops().last())
            } else {
                None
            },
        },
{
    let hops = match event {
        DroneEvent::PacketSent(packet) => &packet.routing_header.hops,
        DroneEvent::PacketDropped(packet) => &packet.routing_header.hops,
        DroneEvent::ControllerShortcut(packet) => &packet.routing_header.hops,
    };
    if hops.len() > 0 {
        Some(hops[hops.len() - 1])
    } else {
        None
    }
}

} // verus!
