//! Topology discovery by flooding: the trace a request gathers, the copies
//! a drone hands on, and the answer that carries the trace back.

use vstd::prelude::*;
use crate::drone::{
    after_packet, answered, ends_flood, flooded, follow_up, request_of, sent, views, Action,
    ActionView, DroneState,
};
use crate::lifecycle::{stepped, InputView};
use crate::packet::{
    FloodRequest, FloodRequestView, FloodResponse, FloodResponseView, NodeId, NodeType, Packet,
    PacketType, PacketTypeView, PacketView, Route, SourceRoutingHeader,
};
use crate::relay::{at_hop, packet_travels, relayed, relays};

verus! {

/// The nodes of a trace, in order, without their kinds.
pub open spec fn trace_ids(trace: Seq<(NodeId, NodeType)>) -> Seq<NodeId> {
    trace.map_values(|entry: (NodeId, NodeType)| entry.0)
}

/// The request after the drone `id` has put itself at the end of the trace.
pub open spec fn spread(request: FloodRequestView, id: NodeId) -> FloodRequestView {
    FloodRequestView { path_trace: request.path_trace.push((id, NodeType::Drone)), ..request }
}

/// The answer to a flood request. It carries the trace as it stands; its
/// path is the trace backwards, with the cursor on the second entry; its
/// session is the flood's id.
pub open spec fn flood_response(request: FloodRequestView) -> PacketView {
    PacketView {
        pack_type: PacketTypeView::FloodResponse(
            FloodResponseView { flood_id: request.flood_id, path_trace: request.path_trace },
        ),
        routing_header: Route { hop_index: 1, hops: trace_ids(request.path_trace).reverse() },
        session_id: request.flood_id,
    }
}

/// Says of a neighbour whether it is another than `from`.
pub open spec fn other_than(from: NodeId) -> spec_fn(NodeId) -> bool {
    |to: NodeId| to != from
}

/// Makes the copy of `packet` that goes to a neighbour.
pub open spec fn copy_for(packet: PacketView) -> spec_fn(NodeId) -> ActionView {
    |to: NodeId| ActionView::Flood { to, packet }
}

/// The copies of a flood request that a drone hands on: one for every
/// neighbour but `from`, in the order of the links.
pub open spec fn broadcast(links: Seq<NodeId>, from: NodeId, packet: PacketView) -> Seq<
    ActionView,
> {
    links.filter(other_than(from)).map_values(copy_for(packet))
}

/// The nodes of a trace, last first.
pub fn reversed_ids(trace: &Vec<(NodeId, NodeType)>) -> (ids: Vec<NodeId>)
    ensures
        ids@ == trace_ids(trace@).reverse(),
{
    let mut ids: Vec<NodeId> = Vec::new();
    let mut left: usize = trace.len();
    while left > 0
        invariant
            left <= trace.len(),
            ids@.len() == trace.len() - left,
            forall|k: int| 0 <= k < ids@.len() ==> ids@[k] == trace@[trace.len() - 1 - k].0,
        decreases left,
    {
        left -= 1;
        ids.push(trace[left].0);
    }
    assert(ids@ =~= trace_ids(trace@).reverse());
    ids
}

/// Builds the answer to a flood request.
pub fn flood_response_packet(flood: FloodRequest) -> (resp: Packet)
    ensures
        resp@ == flood_response(flood@),
{
    let hops = reversed_ids(&flood.path_trace);
    Packet {
        pack_type: PacketType::FloodResponse(
            FloodResponse { flood_id: flood.flood_id, path_trace: flood.path_trace },
        ),
        routing_header: SourceRoutingHeader { hop_index: 1, hops },
        session_id: flood.flood_id,
    }
}

/// Makes the copies of a flood request that go to the neighbours `links`,
/// but not back to `from`.
pub fn copies(links: &Vec<NodeId>, from: NodeId, flood: &Packet) -> (actions: Vec<Action>)
    ensures
        views(actions@) == broadcast(links@, from, flood@),
{
    let mut actions: Vec<Action> = Vec::new();
    let mut i: usize = 0;
    assert(links@.take(0) =~= Seq::empty());
    proof {
        reveal(Seq::filter);
    }
    assert(views(actions@) =~= broadcast(links@.take(0), from, flood@));
    while i < links.len()
        invariant
            i <= links.len(),
            views(actions@) == broadcast(links@.take(i as int), from, flood@),
        decreases links.len() - i,
    {
        let to = links[i];
        proof {
            reveal(Seq::filter);
            let next = links@.take(i + 1);
            assert(next.drop_last() == links@.take(i as int));
            assert(next.last() == to);
        }
        let ghost before = actions@;
        if to != from {
            actions.push(Action::Flood { to, packet: flood.clone() });
            assert(views(actions@) =~= views(before).push(
                ActionView::Flood { to, packet: flood@ },
            ));
        }
        assert(views(actions@) =~= broadcast(links@.take(i + 1), from, flood@));
        i += 1;
    }
    assert(links@.take(i as int) == links@);
    actions
}

/// Whether the traces, taken together, name every node from 1 to 10.
pub fn are_path_discovered(dest_path: &Vec<Vec<(NodeId, NodeType)>>) -> (all: bool)
    ensures
        all == forall|node: NodeId| 1 <= node <= 10 ==> names(dest_path@, node),
{
    let mut node: NodeId = 1;
    while node <= 10
        invariant
            1 <= node <= 11,
            forall|n: NodeId| 1 <= n < node ==> names(dest_path@, n),
        decreases 11 - node,
    {
        if !is_named(dest_path, node) {
            return false;
        }
        node += 1;
    }
    true
}

/// Some trace of `paths` names `node`.
pub open spec fn names(paths: Seq<Vec<(NodeId, NodeType)>>, node: NodeId) -> bool {
    exists|p: int, k: int| 0 <= p < paths.len() && 0 <= k < paths[p]@.len() && paths[p]@[k].0 == node
}

/// Whether some trace of `paths` names `node`.
pub fn is_named(paths: &Vec<Vec<(NodeId, NodeType)>>, node: NodeId) -> (named: bool)
    ensures
        named == names(paths@, node),
{
    let mut p: usize = 0;
    while p < paths.len()
        invariant
            p <= paths.len(),
            forall|q: int, k: int|
                0 <= q < p && 0 <= k < paths@[q]@.len() ==> paths@[q]@[k].0 != node,
        decreases paths.len() - p,
    {
        let path = &paths[p];
        let mut k: usize = 0;
        while k < path.len()
            invariant
                p < paths.len(),
                path == paths@[p as int],
                k <= path.len(),
                forall|j: int| 0 <= j < k ==> path@[j].0 != node,
            decreases path.len() - k,
        {
            if path[k].0 == node {
                assert(paths@[p as int]@[k as int].0 == node);
                return true;
            }
            k += 1;
        }
        p += 1;
    }
    false
}

/// The request after it has passed through the drones of `path`, in order.
pub open spec fn spread_along(request: FloodRequestView, path: Seq<NodeId>) -> FloodRequestView
    decreases path.len(),
{
    if path.len() == 0 {
        request
    } else {
        spread(spread_along(request, path.drop_last()), path.last())
    }
}

/// A flood comes back the way it went.
///
/// A request that has passed through the drones of `path` names, in its
/// trace, the nodes it named before and then those drones, in the order in
/// which it passed them. The answer made from it carries that trace, and the
/// path of the answer, read backwards, is the way the request took.
pub proof fn flood_round_trip(request: FloodRequestView, path: Seq<NodeId>)
    ensures
        trace_ids(spread_along(request, path).path_trace) == trace_ids(request.path_trace) + path,
        spread_along(request, path).flood_id == request.flood_id,
        spread_along(request, path).initiator_id == request.initiator_id,
        flood_response(spread_along(request, path)).pack_type == PacketTypeView::FloodResponse(
            FloodResponseView {
                flood_id: request.flood_id,
                path_trace: spread_along(request, path).path_trace,
            },
        ),
        flood_response(spread_along(request, path)).hops().reverse() == trace_ids(
            request.path_trace,
        ) + path,
    decreases path.len(),
{
    let there = spread_along(request, path);
    if path.len() == 0 {
        assert(trace_ids(there.path_trace) =~= trace_ids(request.path_trace) + path);
    } else {
        let front = path.drop_last();
        flood_round_trip(request, front);
        assert(trace_ids(there.path_trace) =~= trace_ids(
            spread_along(request, front).path_trace,
        ).push(path.last()));
        assert(front.push(path.last()) =~= path);
        assert(trace_ids(there.path_trace) =~= trace_ids(request.path_trace) + path);
    }
    let ids = trace_ids(there.path_trace);
    assert(ids.reverse().reverse() =~= ids);
}

/// Every copy that a drone hands on goes to a neighbour other than the one
/// the request came from and carries `packet`; and every such neighbour gets
/// a copy.
pub proof fn broadcast_reaches_the_others(links: Seq<NodeId>, from: NodeId, packet: PacketView)
    ensures
        forall|k: int|
            0 <= k < broadcast(links, from, packet).len() ==> {
                &&& #[trigger] broadcast(links, from, packet)[k] matches ActionView::Flood {
                    to,
                    packet: copy,
                }
                &&& copy == packet
                &&& to != from
                &&& links.contains(to)
            },
        forall|to: NodeId|
            links.contains(to) && to != from ==> broadcast(links, from, packet).contains(
                ActionView::Flood { to, packet },
            ),
{
    let others = other_than(from);
    let kept = links.filter(others);
    let out = broadcast(links, from, packet);
    assert forall|k: int| 0 <= k < out.len() implies {
        &&& #[trigger] out[k] matches ActionView::Flood { to, packet: copy }
        &&& copy == packet
        &&& to != from
        &&& links.contains(to)
    } by {
        links.lemma_filter_pred(others, k);
        assert(kept.contains(kept[k]));
        links.lemma_filter_contains_rev(others, kept[k]);
    }
    assert forall|to: NodeId| links.contains(to) && to != from implies out.contains(
        ActionView::Flood { to, packet },
    ) by {
        let i = choose|i: int| 0 <= i < links.len() && links[i] == to;
        links.lemma_filter_contains(others, i);
        let k = choose|k: int| 0 <= k < kept.len() && kept[k] == to;
        assert(out[k] == ActionView::Flood { to, packet });
    }
}

/// A drone passes a flood on at most once.
///
/// Where a flood ends at a drone, because the drone has passed it on before
/// or has a single neighbour, the request is answered and no copy is handed
/// on. Where it does not, every copy carries the trace with the drone added,
/// and the flood is remembered. Either way the flood ends at the drone from
/// then on: a request of the same flood that arrives later, whatever its
/// trace, is answered and not handed on.
pub proof fn flood_is_passed_on_once(drone: DroneState, packet: PacketView, later: PacketView)
    requires
        packet.is_flood_request(),
        later.is_flood_request(),
        request_of(later).flood_id == request_of(packet).flood_id,
    ensures
        ends_flood(drone, request_of(packet).flood_id) ==> {
            &&& flooded(drone, packet) == answered(drone, spread(request_of(packet), drone.id))
            &&& forall|k: int|
                0 <= k < flooded(drone, packet).len() ==> !(#[trigger] flooded(drone, packet)[k]
                    is Flood)
        },
        !ends_flood(drone, request_of(packet).flood_id) ==> forall|k: int|
            0 <= k < flooded(drone, packet).len() ==> {
                &&& #[trigger] flooded(drone, packet)[k] matches ActionView::Flood {
                    to,
                    packet: copy,
                }
                &&& copy.pack_type == PacketTypeView::FloodRequest(
                    spread(request_of(packet), drone.id),
                )
                &&& to != request_of(packet).path_trace.last().0
                &&& drone.links.contains(to)
            },
        ends_flood(after_packet(drone, packet), request_of(later).flood_id),
        forall|k: int|
            0 <= k < flooded(after_packet(drone, packet), later).len() ==> !(#[trigger] flooded(
                after_packet(drone, packet),
                later,
            )[k] is Flood),
{
    let request = request_of(packet);
    if !ends_flood(drone, request.flood_id) {
        broadcast_reaches_the_others(
            drone.links,
            request.path_trace.last().0,
            PacketView {
                pack_type: PacketTypeView::FloodRequest(spread(request, drone.id)),
                ..packet
            },
        );
    }
}

/// The answer to a flood goes back the way the request came.
///
/// Let a flood end at `drone`, let `drone` have a link to the node the
/// request came from, and let `drones` be the drones on the way back between
/// that node and the node the trace begins with, each with a link to the
/// next and none of them crashing. Then `drone` hands the answer to the node
/// the request came from and to nobody else, and tells the controller once
/// that node has taken it; every drone on the way forwards the answer,
/// cursor moved on by one, whatever its drop rate and whatever number is
/// drawn; and the hop the answer reaches last is the node the trace begins
/// with.
pub proof fn flood_answer_goes_back(drone: DroneState, packet: PacketView, drones: Seq<DroneState>)
    requires
        packet.is_flood_request(),
        request_of(packet).path_trace.len() > 0,
        ends_flood(drone, request_of(packet).flood_id),
        drone.links.contains(request_of(packet).path_trace.last().0),
        drones.len() == request_of(packet).path_trace.len() - 1,
        forall|j: int|
            0 <= j < drones.len() ==> relays(
                #[trigger] drones[j],
                flood_response(spread(request_of(packet), drone.id)),
                1 + j,
            ),
    ensures
        ({
            let request = request_of(packet);
            let answer = flood_response(spread(request, drone.id));
            let from = request.path_trace.last().0;
            let first = ActionView::Reply { to: from, packet: answer };
            &&& answer.hops().len() == request.path_trace.len() + 1
            &&& answer.hops()[0] == drone.id
            &&& answer.hops()[1] == from
            &&& answer.hops().last() == request.path_trace[0].0
            &&& flooded(drone, packet) == seq![first]
            &&& follow_up(drone, first, true) == seq![sent(answer)]
            &&& forall|j: int, draw: u32|
                #![trigger stepped(drones[j], InputView::Packet(at_hop(answer, 1 + j)), draw)]
                0 <= j < drones.len() ==> stepped(
                    drones[j],
                    InputView::Packet(at_hop(answer, 1 + j)),
                    draw,
                ) == seq![relayed(answer, 1 + j)]
            &&& drones.len() > 0 ==> relayed(answer, drones.len() as int)->Forward_to
                == request.path_trace[0].0
        }),
{
    let request = request_of(packet);
    let answer = flood_response(spread(request, drone.id));
    assert(at_hop(answer, 1) == answer);
    packet_travels(drones, answer);
    assert forall|j: int, draw: u32|
        #![trigger stepped(drones[j], InputView::Packet(at_hop(answer, 1 + j)), draw)]
        0 <= j < drones.len() implies stepped(
        drones[j],
        InputView::Packet(at_hop(answer, 1 + j)),
        draw,
    ) == seq![relayed(answer, 1 + j)] by {
        assert(relays(drones[j], answer, 1 + j));
        assert(at_hop(answer, 1 + j).advanced() == at_hop(answer, 1 + j + 1));
    }
}

} // verus!
