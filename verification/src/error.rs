//! Building the negative acknowledgement that walks a packet's path back.

use vstd::prelude::*;
use crate::packet::{
    Nack, NackType, NodeId, Packet, PacketType, PacketTypeView, PacketView, Route,
    SourceRoutingHeader,
};

verus! {

/// `i` is where `id` stands first in `hops`.
pub open spec fn is_first_index(hops: Seq<NodeId>, id: NodeId, i: int) -> bool {
    &&& 0 <= i < hops.len()
    &&& hops[i] == id
    &&& forall|j: int| 0 <= j < i ==> hops[j] != id
}

/// Where `id` stands first in `hops`; meaningful when `hops` contains `id`.
pub open spec fn first_index(hops: Seq<NodeId>, id: NodeId) -> int {
    choose|i: int| is_first_index(hops, id, i)
}

/// The way back from `start`: the path up to and including the first
/// occurrence of `start`, reversed, so that it begins at `start` and ends at
/// the packet's origin.
pub open spec fn return_path(hops: Seq<NodeId>, start: NodeId) -> Seq<NodeId> {
    hops.take(first_index(hops, start) + 1).reverse()
}

/// The fragment index a negative acknowledgement of `packet` carries: that of
/// the fragment, and 0 for every other packet.
pub open spec fn nacked_fragment(packet: PacketView) -> u64 {
    match packet.pack_type {
        PacketTypeView::MsgFragment(f) => f.fragment_index,
        _ => 0,
    }
}

/// The negative acknowledgement of `packet` that `start` sends back for the
/// reason `nack_type`. Its cursor stands on `start` itself, so that the node
/// that submits it to its own checks sends it one hop back.
pub open spec fn nack_for(start: NodeId, packet: PacketView, nack_type: NackType) -> PacketView {
    PacketView {
        pack_type: PacketTypeView::Nack(
            Nack { fragment_index: nacked_fragment(packet), nack_type },
        ),
        routing_header: Route { hop_index: 0, hops: return_path(packet.hops(), start) },
        session_id: packet.session_id,
    }
}

/// Any index that is a first occurrence is the first index.
pub proof fn first_index_unique(hops: Seq<NodeId>, id: NodeId, i: int)
    requires
        is_first_index(hops, id, i),
    ensures
        first_index(hops, id) == i,
{
    let j = first_index(hops, id);
    assert(is_first_index(hops, id, j));
    if j < i {
        assert(hops[j] != id);
    } else if i < j {
        assert(hops[i] != id);
    }
}

/// A path that contains `id` has a first occurrence of it.
pub proof fn first_index_exists(hops: Seq<NodeId>, id: NodeId)
    requires
        hops.contains(id),
    ensures
        is_first_index(hops, id, first_index(hops, id)),
    decreases hops.len(),
{
    let k = choose|k: int| 0 <= k < hops.len() && hops[k] == id;
    least_occurrence(hops, id, k);
}

proof fn least_occurrence(hops: Seq<NodeId>, id: NodeId, k: int)
    requires
        0 <= k < hops.len(),
        hops[k] == id,
    ensures
        exists|i: int| is_first_index(hops, id, i),
    decreases k,
{
    if forall|j: int| 0 <= j < k ==> hops[j] != id {
        assert(is_first_index(hops, id, k));
    } else {
        let j = choose|j: int| 0 <= j < k && hops[j] == id;
        least_occurrence(hops, id, j);
    }
}

/// The return path is never empty, begins at `start` and is no longer than
/// the path it comes from.
pub proof fn return_path_shape(hops: Seq<NodeId>, start: NodeId)
    requires
        hops.contains(start),
    ensures
        return_path(hops, start).len() == first_index(hops, start) + 1,
        1 <= return_path(hops, start).len() <= hops.len(),
        return_path(hops, start)[0] == start,
        forall|k: int|
            0 <= k < return_path(hops, start).len() ==> #[trigger] return_path(hops, start)[k]
                == hops[first_index(hops, start) - k],
{
    first_index_exists(hops, start);
}

/// Where `id` stands first in `hops`.
pub fn position(hops: &Vec<NodeId>, id: NodeId) -> (r: Option<usize>)
    ensures
        match r {
            Some(i) => is_first_index(hops@, id, i as int) && first_index(hops@, id) == i,
            None => !hops@.contains(id),
        },
{
    let mut i: usize = 0;
    while i < hops.len()
        invariant
            i <= hops.len(),
            forall|j: int| 0 <= j < i ==> hops@[j] != id,
        decreases hops.len() - i,
    {
        if hops[i] == id {
            proof {
                first_index_unique(hops@, id, i as int);
            }
            return Some(i);
        }
        i += 1;
    }
    None
}

/// The first `count` entries of `hops`, last first.
pub fn reversed_prefix(hops: &Vec<NodeId>, count: usize) -> (r: Vec<NodeId>)
    requires
        count <= hops.len(),
    ensures
        r@ == hops@.take(count as int).reverse(),
{
    let mut r: Vec<NodeId> = Vec::new();
    let mut left: usize = count;
    while left > 0
        invariant
            left <= count <= hops.len(),
            r@.len() == count - left,
            forall|k: int| 0 <= k < r@.len() ==> r@[k] == hops@[count - 1 - k],
        decreases left,
    {
        left -= 1;
        r.push(hops[left]);
    }
    assert(r@ =~= hops@.take(count as int).reverse());
    r
}

/// Builds the negative acknowledgement of `packet` that `starting_id` sends
/// back along the path the packet has travelled.
///
/// The path is cut after the first occurrence of `starting_id` and reversed;
/// the cursor is set to its first entry. The fragment index is that of the
/// fragment, and 0 when `packet` is no fragment. The session is kept.
pub fn create_error(starting_id: NodeId, packet: Packet, nack_type: NackType) -> (nack: Packet)
    requires
        packet@.hops().contains(starting_id),
    ensures
        nack@ == nack_for(starting_id, packet@, nack_type),
{
    let mut fragment_index: u64 = 0;
    if let PacketType::MsgFragment(msg_fragment) = &packet.pack_type {
        fragment_index = msg_fragment.fragment_index;
    }
    let hops = match position(&packet.routing_header.hops, starting_id) {
        Some(position) => reversed_prefix(&packet.routing_header.hops, position + 1),
        None => Vec::new(),
    };
    Packet {
        pack_type: PacketType::Nack(Nack { fragment_index, nack_type }),
        routing_header: SourceRoutingHeader { hop_index: 0, hops },
        session_id: packet.session_id,
    }
}

} // verus!
