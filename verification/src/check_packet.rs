//! The checks a packet has to pass before a drone hands it on.
//!
//! Each check either lets the packet pass or says what goes back in its
//! place: for a message fragment the negative acknowledgement, already built;
//! for every other packet the packet itself, as it was handed to the check.

use vstd::prelude::*;
use crate::drone::{
    after_command, after_packet, checked, draws, handled, handed_to, resubmitted,
    DroneCommand, DroneState, SkyLinkDrone,
};
use crate::error::{create_error, first_index_unique, nack_for, return_path, return_path_shape};
use crate::packet::{Nack, NackType, NodeId, Packet, PacketTypeView, PacketView};

verus! {

/// The model of what a check returns.
pub open spec fn verdict(r: Result<(), Packet>) -> Result<(), PacketView> {
    match r {
        Ok(()) => Ok(()),
        Err(packet) => Err(packet@),
    }
}

/// The cursor of `packet` points into its path.
pub open spec fn in_path(packet: PacketView) -> bool {
    0 <= packet.hop_index() < packet.hops().len()
}

/// `id` can answer `packet`: a fragment is answered along its path, so `id`
/// has to be on it. Other packets are never answered.
pub open spec fn answerable(id: NodeId, packet: PacketView) -> bool {
    packet.is_fragment() ==> packet.hops().contains(id)
}

/// The numbers that are drawn to decide on a loss lie under this bound, and
/// a drop rate counts its parts: hundredths.
pub const HUNDRED: u32 = 100;

/// The node `id` can check whether `packet` is meant for it: the cursor
/// points into the path, and a fragment that is meant for someone else has a
/// previous hop to be sent back to.
pub open spec fn routable(id: NodeId, packet: PacketView) -> bool {
    &&& in_path(packet)
    &&& packet.is_fragment() && packet.hops()[packet.hop_index()] != id ==> packet.hop_index()
        > 0
}

/// Is the packet at the node its path expects? If not, a fragment is
/// answered in the name of the previous hop.
pub open spec fn id_hop_match(id: NodeId, packet: PacketView) -> Result<(), PacketView> {
    if packet.hops()[packet.hop_index()] == id {
        Ok(())
    } else if packet.is_fragment() {
        Err(
            nack_for(
                packet.hops()[packet.hop_index() - 1],
                packet,
                NackType::UnexpectedRecipient(id),
            ),
        )
    } else {
        Err(packet)
    }
}

/// Does the path go on after this node? A drone is never a destination.
pub open spec fn final_destination(id: NodeId, packet: PacketView) -> Result<(), PacketView> {
    if packet.hop_index() < packet.hops().len() {
        Ok(())
    } else if packet.is_fragment() {
        Err(nack_for(id, packet, NackType::DestinationIsDrone))
    } else {
        Err(packet)
    }
}

/// Is the packet lost? Only a fragment can be, and it is when the number
/// drawn for it lies under the drop rate.
pub open spec fn drop_decision(drone: DroneState, packet: PacketView, draw: u32) -> Result<
    (),
    PacketView,
> {
    if packet.is_fragment() && draw < drone.drop_rate {
        Err(nack_for(drone.id, packet, NackType::Dropped))
    } else {
        Ok(())
    }
}

/// Is there a link to the hop under the cursor? If not, a fragment is
/// answered with the drone's own id as the place of the failure.
pub open spec fn next_hop(drone: DroneState, packet: PacketView) -> Result<(), PacketView> {
    if drone.links.contains(packet.hops()[packet.hop_index()]) {
        Ok(())
    } else if packet.is_fragment() {
        Err(nack_for(drone.id, packet, NackType::ErrorInRouting(drone.id)))
    } else {
        Err(packet)
    }
}

/// Checks that the hop under the cursor is this drone.
pub fn id_hop_match_check(drone: &SkyLinkDrone, packet: Packet) -> (r: Result<(), Packet>)
    requires
        routable(drone@.id, packet@),
    ensures
        verdict(r) == id_hop_match(drone@.id, packet@),
{
    let at = packet.routing_header.hop_index;
    if packet.routing_header.hops[at] == drone.id() {
        Ok(())
    } else if packet.is_fragment() {
        let previous = packet.routing_header.hops[at - 1];
        assert(packet@.hops()[at - 1] == previous);
        Err(create_error(previous, packet, NackType::UnexpectedRecipient(drone.id())))
    } else {
        Err(packet)
    }
}

/// Checks that the path does not end at this drone. The cursor is expected
/// to have been moved past the drone already.
pub fn final_destination_check(drone: &SkyLinkDrone, packet: Packet) -> (r: Result<(), Packet>)
    requires
        packet@.hop_index() >= packet@.hops().len() ==> answerable(drone@.id, packet@),
    ensures
        verdict(r) == final_destination(drone@.id, packet@),
{
    if packet.routing_header.hop_index < packet.routing_header.hops.len() {
        Ok(())
    } else if packet.is_fragment() {
        Err(create_error(drone.id(), packet, NackType::DestinationIsDrone))
    } else {
        Err(packet)
    }
}

/// Checks that the drone has a link to the hop under the cursor.
pub fn is_next_hop_check(drone: &SkyLinkDrone, packet: Packet) -> (r: Result<(), Packet>)
    requires
        in_path(packet@),
        !drone@.links.contains(packet@.hops()[packet@.hop_index()]) ==> answerable(
            drone@.id,
            packet@,
        ),
    ensures
        verdict(r) == next_hop(drone@, packet@),
{
    let next_hop = packet.routing_header.hops[packet.routing_header.hop_index];
    if drone.has_link(next_hop) {
        Ok(())
    } else if packet.is_fragment() {
        Err(create_error(drone.id(), packet, NackType::ErrorInRouting(drone.id())))
    } else {
        Err(packet)
    }
}

/// Draws a number with `fastrand::u32` from the range `0..bound`.
///
/// The generator is the thread's own and seeds itself, so nothing is said of
/// which number comes; the contract only repeats what `fastrand` promises of
/// a draw from a range, that the number lies in it. `fastrand` panics on an
/// empty range, so the bound has to be positive.
#[verifier::external_body]
pub(crate) fn draw_below(bound: u32) -> (draw: u32)
    requires
        bound > 0,
    ensures
        draw < bound,
{
    fastrand::u32(0..bound)
}

/// Decides for the number `draw` whether the packet is lost.
pub fn pdr_check_with(drone: &SkyLinkDrone, packet: Packet, draw: u32) -> (r: Result<(), Packet>)
    requires
        draw < drone@.drop_rate ==> answerable(drone@.id, packet@),
    ensures
        verdict(r) == drop_decision(drone@, packet@, draw),
{
    if packet.is_fragment() && draw < drone.pdr() {
        Err(create_error(drone.id(), packet, NackType::Dropped))
    } else {
        Ok(())
    }
}

/// Whether the number drawn makes no difference: the packet is no fragment,
/// or the drop rate is 0 or at least 100 hundredths.
pub open spec fn settled(drone: DroneState, packet: PacketView) -> bool {
    !packet.is_fragment() || drone.drop_rate == 0 || drone.drop_rate >= 100
}

/// Draws a number under 100 for a fragment and decides by it whether the
/// fragment is lost. No number is drawn for any other packet.
///
/// What comes back is what [`pdr_check_with`] gives for some number under
/// 100. Where the number makes no difference, it is what that function
/// gives for 0: every packet passes a drop rate of 0, every fragment is lost
/// to a drop rate of 100 hundredths or more, and no other packet is ever
/// lost.
pub fn pdr_check(drone: &SkyLinkDrone, packet: Packet) -> (r: Result<(), Packet>)
    requires
        drone@.drop_rate > 0 ==> answerable(drone@.id, packet@),
    ensures
        exists|draw: u32| draw < 100 && verdict(r) == #[trigger] drop_decision(
            drone@,
            packet@,
            draw,
        ),
        settled(drone@, packet@) ==> verdict(r) == drop_decision(drone@, packet@, 0),
{
    let draw: u32 = if packet.is_fragment() {
        draw_below(HUNDRED)
    } else {
        0
    };
    let r = pdr_check_with(drone, packet, draw);
    assert(verdict(r) == drop_decision(drone@, packet@, draw));
    r
}

/// A fragment that reaches a node its path does not expect goes back.
///
/// Whatever the drone's links and drop rate and whatever number is drawn,
/// the fragment is answered by a negative acknowledgement that names the
/// drone as the unexpected recipient and keeps the fragment's index and
/// session. Its path is the way back from the previous hop: the fragment's
/// path up to the first occurrence of that hop, reversed. Where the previous
/// hop occurs nowhere earlier, that is the whole path before the cursor,
/// reversed. The answer is handed to the previous hop.
pub proof fn wrong_recipient_is_answered(drone: DroneState, packet: PacketView, draw: u32)
    requires
        routable(drone.id, packet),
        packet.is_fragment(),
        packet.hops()[packet.hop_index()] != drone.id,
    ensures
        ({
            let previous = packet.hops()[packet.hop_index() - 1];
            let nack = nack_for(previous, packet, NackType::UnexpectedRecipient(drone.id));
            &&& id_hop_match(drone.id, packet) == Err::<(), PacketView>(nack)
            &&& checked(drone, packet, draw) == Err::<PacketView, PacketView>(nack)
            &&& handled(drone, packet, draw) == seq![handed_to(drone, previous, nack)]
            &&& nack.pack_type == PacketTypeView::Nack(
                Nack {
                    fragment_index: packet.pack_type->MsgFragment_0.fragment_index,
                    nack_type: NackType::UnexpectedRecipient(drone.id),
                },
            )
            &&& nack.session_id == packet.session_id
            &&& nack.hop_index() == 0
            &&& nack.hops() == return_path(packet.hops(), previous)
            &&& nack.hops()[0] == previous
            &&& (forall|j: int| 0 <= j < packet.hop_index() - 1 ==> packet.hops()[j] != previous)
                ==> nack.hops() == packet.hops().take(packet.hop_index()).reverse()
        }),
{
    let previous = packet.hops()[packet.hop_index() - 1];
    return_path_shape(packet.hops(), previous);
    if forall|j: int| 0 <= j < packet.hop_index() - 1 ==> packet.hops()[j] != previous {
        first_index_unique(packet.hops(), previous, packet.hop_index() - 1);
    }
}

/// The drop rate decides, and setting it twice is setting it once.
///
/// With the rate set to 100 hundredths, every fragment that comes as far as
/// the check of the drop rate is answered as dropped, whatever number under
/// 100 is drawn: the negative acknowledgement is made and submitted to the
/// drone's own checks. With the rate set to 0, no fragment is answered as
/// dropped, whatever is drawn. A packet leaves the rate as it is.
pub proof fn drop_rate_decides(before: DroneState, rate: u32, packet: PacketView, draw: u32)
    requires
        packet.is_fragment(),
    ensures
        after_command(
            after_command(before, DroneCommand::SetPacketDropRate(rate)),
            DroneCommand::SetPacketDropRate(rate),
        ) == after_command(before, DroneCommand::SetPacketDropRate(rate)),
        after_packet(after_command(before, DroneCommand::SetPacketDropRate(rate)), packet).drop_rate
            == rate,
        ({
            let all = after_command(before, DroneCommand::SetPacketDropRate(100));
            let dropped = nack_for(all.id, packet.advanced(), NackType::Dropped);
            draws(all, packet) && draw < 100 ==> {
                &&& checked(all, packet, draw) == Err::<PacketView, PacketView>(dropped)
                &&& handled(all, packet, draw) == seq![resubmitted(all, dropped)]
            }
        }),
        ({
            let none = after_command(before, DroneCommand::SetPacketDropRate(0));
            &&& drop_decision(none, packet.advanced(), draw) == Ok::<(), PacketView>(())
            &&& checked(none, packet, draw) matches Err(back) ==> {
                &&& back.pack_type matches PacketTypeView::Nack(nack)
                &&& nack.nack_type != NackType::Dropped
            }
        }),
{
}

} // verus!
