//! A packet on its way: what a chain of drones does with it.

use vstd::prelude::*;
use crate::drone::{checked, follow_up, resubmitted, sent, ActionView, DroneState};
use crate::error::{nack_for, return_path, return_path_shape};
use crate::lifecycle::{after_input, stepped, InputView};
use crate::packet::{NackType, PacketView, Route};

verus! {

/// `packet` with its cursor on the hop `at`.
pub open spec fn at_hop(packet: PacketView, at: int) -> PacketView {
    PacketView { routing_header: Route { hop_index: at, hops: packet.hops() }, ..packet }
}

/// `drone` is the hop `at` of `packet` and can hand the packet on: it is not
/// crashing, it has a link to the hop after it, and it drops nothing if the
/// packet is a fragment.
pub open spec fn relays(drone: DroneState, packet: PacketView, at: int) -> bool {
    &&& 0 <= at < packet.hops().len() - 1
    &&& drone.id == packet.hops()[at]
    &&& !drone.crashing
    &&& packet.is_fragment() ==> drone.drop_rate == 0
    &&& drone.links.contains(packet.hops()[at + 1])
}

/// What the drone on the hop `at` is told to do with a packet that it can
/// hand on: to forward it to the next hop, with the cursor on that hop.
pub open spec fn relayed(packet: PacketView, at: int) -> ActionView {
    ActionView::Forward { to: packet.hops()[at + 1], packet: at_hop(packet, at + 1) }
}

/// A hop moves the cursor on by one and changes nothing else.
///
/// Whatever a drone's state and whatever number is drawn, a packet that
/// passes the checks comes out with the same path, payload and session, and
/// with its cursor one hop further.
pub proof fn hop_moves_the_cursor_once(drone: DroneState, packet: PacketView, draw: u32)
    ensures
        checked(drone, packet, draw) matches Ok(moved) ==> {
            &&& moved == packet.advanced()
            &&& moved.hop_index() == packet.hop_index() + 1
            &&& moved.hops() == packet.hops()
            &&& moved.pack_type == packet.pack_type
            &&& moved.session_id == packet.session_id
            &&& packet.hops()[packet.hop_index()] == drone.id
            &&& drone.links.contains(moved.hops()[moved.hop_index()])
        },
{
}

/// A packet travels along its path, hop by hop.
///
/// Let `packet` be a fragment, or any packet but a flood request, and let
/// `drones` be the drones on the hops from its cursor up to the last hop but
/// one, each with a link to the hop after it and, for a fragment, a drop
/// rate of 0. Then each of them, whatever number is drawn, forwards the
/// packet to the next hop with the cursor moved on by one and nothing else
/// changed, keeps its own state, and tells the controller once the
/// neighbour has taken the packet. The last of them hands the packet on
/// with the cursor on the last hop.
pub proof fn packet_travels(drones: Seq<DroneState>, packet: PacketView)
    requires
        !packet.is_flood_request(),
        0 <= packet.hop_index(),
        drones.len() == packet.hops().len() - 1 - packet.hop_index(),
        forall|j: int|
            0 <= j < drones.len() ==> relays(#[trigger] drones[j], packet, packet.hop_index() + j),
    ensures
        forall|j: int, draw: u32|
            #![trigger stepped(drones[j], InputView::Packet(at_hop(packet, packet.hop_index() + j)), draw)]
            0 <= j < drones.len() ==> {
                let at = packet.hop_index() + j;
                let arriving = InputView::Packet(at_hop(packet, at));
                &&& stepped(drones[j], arriving, draw) == seq![relayed(packet, at)]
                &&& after_input(drones[j], arriving) == drones[j]
                &&& follow_up(drones[j], relayed(packet, at), true) == seq![
                    sent(at_hop(packet, at + 1)),
                ]
            },
        drones.len() > 0 ==> relayed(packet, packet.hop_index() + drones.len() - 1)
            ->Forward_packet.hop_index() == packet.hops().len() - 1,
{
    assert forall|j: int, draw: u32|
        #![trigger stepped(drones[j], InputView::Packet(at_hop(packet, packet.hop_index() + j)), draw)]
        0 <= j < drones.len() implies {
        let at = packet.hop_index() + j;
        let arriving = InputView::Packet(at_hop(packet, at));
        &&& stepped(drones[j], arriving, draw) == seq![relayed(packet, at)]
        &&& after_input(drones[j], arriving) == drones[j]
        &&& follow_up(drones[j], relayed(packet, at), true) == seq![sent(at_hop(packet, at + 1))]
    } by {
        let at = packet.hop_index() + j;
        assert(relays(drones[j], packet, at));
        assert(at_hop(packet, at).advanced() == at_hop(packet, at + 1));
    }
}

/// A negative acknowledgement walks back the way the packet came.
///
/// Let `nack` be the negative acknowledgement of `packet` that the drone
/// `own` makes in its own name, let `own` have a link to the hop before it,
/// and let `drones` be the drones on the way back between that hop and the
/// packet's origin, each with a link to the next. Then `own`, submitting the
/// acknowledgement to its own checks, sends it one hop back; every drone on
/// the way forwards it, cursor moved on by one; and the hop it reaches last
/// is the first hop of the packet's path.
pub proof fn answer_walks_back(
    own: DroneState,
    drones: Seq<DroneState>,
    packet: PacketView,
    nack_type: NackType,
)
    requires
        packet.hops().contains(own.id),
        return_path(packet.hops(), own.id).len() >= 2,
        own.links.contains(return_path(packet.hops(), own.id)[1]),
        drones.len() == return_path(packet.hops(), own.id).len() - 2,
        forall|j: int|
            0 <= j < drones.len() ==> relays(
                #[trigger] drones[j],
                nack_for(own.id, packet, nack_type),
                1 + j,
            ),
    ensures
        ({
            let nack = nack_for(own.id, packet, nack_type);
            let back = return_path(packet.hops(), own.id);
            &&& nack.hops() == back
            &&& back[0] == own.id
            &&& back.last() == packet.hops()[0]
            &&& resubmitted(own, nack) == ActionView::Reply { to: back[1], packet: at_hop(nack, 1) }
            &&& forall|j: int, draw: u32|
                #![trigger stepped(drones[j], InputView::Packet(at_hop(nack, 1 + j)), draw)]
                0 <= j < drones.len() ==> stepped(
                    drones[j],
                    InputView::Packet(at_hop(nack, 1 + j)),
                    draw,
                ) == seq![relayed(nack, 1 + j)]
            &&& drones.len() > 0 ==> relayed(nack, drones.len() as int)->Forward_to
                == packet.hops()[0]
        }),
{
    let nack = nack_for(own.id, packet, nack_type);
    return_path_shape(packet.hops(), own.id);
    assert(nack.advanced() == at_hop(nack, 1));
    assert(at_hop(nack, 1).hop_index() == 1);
    packet_travels(drones, at_hop(nack, 1));
    assert forall|j: int, draw: u32|
        #![trigger stepped(drones[j], InputView::Packet(at_hop(nack, 1 + j)), draw)]
        0 <= j < drones.len() implies stepped(
        drones[j],
        InputView::Packet(at_hop(nack, 1 + j)),
        draw,
    ) == seq![relayed(nack, 1 + j)] by {
        assert(at_hop(at_hop(nack, 1), 1 + j) == at_hop(nack, 1 + j));
        assert(at_hop(at_hop(nack, 1), 1 + j + 1) == at_hop(nack, 1 + j + 1));
        assert(relays(drones[j], nack, 1 + j));
        assert(at_hop(nack, 1 + j).advanced() == at_hop(nack, 1 + j + 1));
    }
}

} // verus!
