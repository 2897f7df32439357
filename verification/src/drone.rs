//! The drone: what it remembers, and what it decides for each command and
//! packet.

use vstd::prelude::*;
use std::collections::HashSet;
use crate::check_packet::{
    draw_below, drop_decision, final_destination, final_destination_check, id_hop_match,
    id_hop_match_check, in_path, is_next_hop_check, next_hop, pdr_check_with, routable, HUNDRED,
};
use crate::error::{create_error, nack_for, position, return_path_shape};
use crate::flood::{broadcast, flood_response, flood_response_packet, spread};
use crate::links::{
    distinct, lemma_distinct, lemma_linked, lemma_unlinked, linked, unlinked, LinkTable,
};
use crate::packet::{
    FloodRequest, NackType, NodeId, NodeType, Packet, PacketType, PacketTypeView, PacketView,
};

verus! {

/// A runtime order of the controller to a drone.
///
/// `AddSender` names the neighbour whose link the caller has just stored;
/// the link itself stays with the caller. The drop rate is given in
/// hundredths.
#[derive(Clone, Copy, Debug, PartialEq, Eq, Structural)]
pub enum DroneCommand {
    AddSender(NodeId),
    SetPacketDropRate(u32),
    Crash,
    RemoveSender(NodeId),
}

/// What a drone tells the controller.
#[derive(Debug, PartialEq, Eq)]
pub enum DroneEvent {
    /// The packet was handed to a neighbour.
    PacketSent(Packet),
    /// The packet was lost.
    PacketDropped(Packet),
    /// The packet could not be delivered by the network and is handed to the
    /// controller instead.
    ControllerShortcut(Packet),
}

/// The model of a [`DroneEvent`].
pub ghost enum DroneEventView {
    PacketSent(PacketView),
    PacketDropped(PacketView),
    ControllerShortcut(PacketView),
}

impl View for DroneEvent {
    type V = DroneEventView;

    open spec fn view(&self) -> DroneEventView {
        match *self {
            DroneEvent::PacketSent(p) => DroneEventView::PacketSent(p@),
            DroneEvent::PacketDropped(p) => DroneEventView::PacketDropped(p@),
            DroneEvent::ControllerShortcut(p) => DroneEventView::ControllerShortcut(p@),
        }
    }
}

impl Clone for DroneEvent {
    fn clone(&self) -> (r: Self)
        ensures
            r@ == self@,
    {
        match self {
            DroneEvent::PacketSent(p) => DroneEvent::PacketSent(p.clone()),
            DroneEvent::PacketDropped(p) => DroneEvent::PacketDropped(p.clone()),
            DroneEvent::ControllerShortcut(p) => DroneEvent::ControllerShortcut(p.clone()),
        }
    }
}

/// One thing for the caller to do on the drone's behalf.
///
/// The three deliveries differ in what follows when the neighbour does not
/// take the packet; [`SkyLinkDrone::after_send`] says what.
#[derive(Debug, PartialEq, Eq)]
pub enum Action {
    /// Hand a packet in transit to the neighbour `to`.
    Forward { to: NodeId, packet: Packet },
    /// Hand a packet that this drone has made to the neighbour `to`.
    Reply { to: NodeId, packet: Packet },
    /// Hand one copy of a flood request to the neighbour `to`.
    Flood { to: NodeId, packet: Packet },
    /// Tell the controller.
    Notify(DroneEvent),
}

/// The model of an [`Action`].
pub ghost enum ActionView {
    Forward { to: NodeId, packet: PacketView },
    Reply { to: NodeId, packet: PacketView },
    Flood { to: NodeId, packet: PacketView },
    Notify(DroneEventView),
}

impl View for Action {
    type V = ActionView;

    open spec fn view(&self) -> ActionView {
        match *self {
            Action::Forward { to, packet } => ActionView::Forward { to, packet: packet@ },
            Action::Reply { to, packet } => ActionView::Reply { to, packet: packet@ },
            Action::Flood { to, packet } => ActionView::Flood { to, packet: packet@ },
            Action::Notify(e) => ActionView::Notify(e@),
        }
    }
}

impl Clone for Action {
    fn clone(&self) -> (r: Self)
        ensures
            r@ == self@,
    {
        match self {
            Action::Forward { to, packet } => Action::Forward { to: *to, packet: packet.clone() },
            Action::Reply { to, packet } => Action::Reply { to: *to, packet: packet.clone() },
            Action::Flood { to, packet } => Action::Flood { to: *to, packet: packet.clone() },
            Action::Notify(e) => Action::Notify(e.clone()),
        }
    }
}

/// The models of a list of actions, in order.
pub open spec fn views(actions: Seq<Action>) -> Seq<ActionView> {
    actions.map_values(|a: Action| a@)
}

/// What a drone remembers.
pub ghost struct DroneState {
    pub id: NodeId,
    /// The neighbours this drone may hand packets to, in the order in which
    /// their links were added. No neighbour occurs twice.
    pub links: Seq<NodeId>,
    /// The drop rate, in hundredths.
    pub drop_rate: u32,
    /// The floods this drone has passed on.
    pub seen_floods: Set<u64>,
    pub crashing: bool,
}

impl DroneState {
    /// No neighbour occurs twice among the links. Every drone is in such a
    /// state, from its making on.
    pub open spec fn well_formed(self) -> bool {
        self.links.no_duplicates()
    }
}

/// The state in which a drone starts.
pub open spec fn initial_state(id: NodeId, neighbours: Seq<NodeId>, pdr: u32) -> DroneState {
    DroneState {
        id,
        links: distinct(neighbours),
        drop_rate: pdr,
        seen_floods: Set::empty(),
        crashing: false,
    }
}

/// The state after a command.
pub open spec fn after_command(state: DroneState, command: DroneCommand) -> DroneState {
    match command {
        DroneCommand::AddSender(id) => DroneState { links: linked(state.links, id), ..state },
        DroneCommand::SetPacketDropRate(pdr) => DroneState { drop_rate: pdr, ..state },
        DroneCommand::Crash => DroneState { crashing: true, ..state },
        DroneCommand::RemoveSender(id) => DroneState { links: unlinked(state.links, id), ..state },
    }
}

/// A command changes what it names and nothing else.
///
/// After `AddSender` the drone has a link to the neighbour named and to
/// every neighbour it had; after `RemoveSender` it has none to the neighbour
/// named and still one to every other; the drop rate is the one that was set
/// last; and a drone that was told to crash is crashing. No command touches
/// the id or the floods seen, and none takes a crashing drone back.
pub proof fn command_changes_what_it_names(state: DroneState, command: DroneCommand)
    requires
        state.well_formed(),
    ensures
        after_command(state, command).well_formed(),
        after_command(state, command).id == state.id,
        after_command(state, command).seen_floods == state.seen_floods,
        state.crashing ==> after_command(state, command).crashing,
        match command {
            DroneCommand::AddSender(id) => {
                &&& forall|n: NodeId|
                    after_command(state, command).links.contains(n) <==> (n == id
                        || state.links.contains(n))
                &&& after_command(state, command).drop_rate == state.drop_rate
                &&& after_command(state, command).crashing == state.crashing
            },
            DroneCommand::RemoveSender(id) => {
                &&& forall|n: NodeId|
                    after_command(state, command).links.contains(n) <==> (n != id
                        && state.links.contains(n))
                &&& after_command(state, command).drop_rate == state.drop_rate
                &&& after_command(state, command).crashing == state.crashing
            },
            DroneCommand::SetPacketDropRate(pdr) => {
                &&& after_command(state, command).drop_rate == pdr
                &&& after_command(state, command).links == state.links
                &&& after_command(state, command).crashing == state.crashing
            },
            DroneCommand::Crash => {
                &&& after_command(state, command).crashing
                &&& after_command(state, command).links == state.links
                &&& after_command(state, command).drop_rate == state.drop_rate
            },
        },
{
    match command {
        DroneCommand::AddSender(id) => lemma_linked(state.links, id),
        DroneCommand::RemoveSender(id) => lemma_unlinked(state.links, id),
        _ => {},
    }
}

/// The model of what the checks return.
pub open spec fn outcome(r: Result<Packet, Packet>) -> Result<PacketView, PacketView> {
    match r {
        Ok(packet) => Ok(packet@),
        Err(packet) => Err(packet@),
    }
}

/// The checks, in their fixed order: is the packet at the right node; the
/// cursor moves on; does the path go on; is the packet lost (`draw` is the
/// number drawn for it); is there a link to the next hop. The first check
/// that fails decides what goes back. A packet that passes comes out with
/// its cursor moved on by one.
pub open spec fn checked(drone: DroneState, packet: PacketView, draw: u32) -> Result<
    PacketView,
    PacketView,
> {
    let moved = packet.advanced();
    if let Err(back) = id_hop_match(drone.id, packet) {
        Err(back)
    } else if let Err(back) = final_destination(drone.id, moved) {
        Err(back)
    } else if let Err(back) = drop_decision(drone, moved, draw) {
        Err(back)
    } else if let Err(back) = next_hop(drone, moved) {
        Err(back)
    } else {
        Ok(moved)
    }
}

/// Whether a number is drawn for `packet`: it is a fragment that has come as
/// far as the check of the drop rate.
pub open spec fn draws(drone: DroneState, packet: PacketView) -> bool {
    &&& packet.is_fragment()
    &&& packet.hops()[packet.hop_index()] == drone.id
    &&& packet.hop_index() + 1 < packet.hops().len()
}

/// Whether the number drawn for `packet` makes no difference to what the
/// drone does: none is drawn, or the drop rate is 0 or at least 100
/// hundredths.
pub open spec fn decided(drone: DroneState, packet: PacketView) -> bool {
    !draws(drone, packet) || drone.drop_rate == 0 || drone.drop_rate >= 100
}

/// Telling the controller that `packet` was handed on.
pub open spec fn sent(packet: PacketView) -> ActionView {
    ActionView::Notify(DroneEventView::PacketSent(packet))
}

/// Handing `packet` to the controller, because the network cannot take it.
pub open spec fn shortcut(packet: PacketView) -> ActionView {
    ActionView::Notify(DroneEventView::ControllerShortcut(packet))
}

/// What is done with a packet of the drone's own making that is to go to the
/// neighbour `to` as it stands: it goes there if there is a link, and to the
/// controller if not.
pub open spec fn handed_to(drone: DroneState, to: NodeId, nack: PacketView) -> ActionView {
    if drone.links.contains(to) {
        ActionView::Reply { to, packet: nack }
    } else {
        shortcut(nack)
    }
}

/// What is done with a packet that the drone has made and submits to its own
/// checks, as if it had been received: it goes to its next hop if it passes,
/// and to the controller if not. It is not a fragment, so no number is drawn
/// and nothing is made in its place.
pub open spec fn resubmitted(drone: DroneState, made: PacketView) -> ActionView {
    match checked(drone, made, 0) {
        Ok(moved) => ActionView::Reply { to: moved.hops()[moved.hop_index()], packet: moved },
        Err(back) => shortcut(back),
    }
}

/// What is done with a packet that is no flood request.
///
/// A packet that passes the checks is forwarded. A fragment that fails is
/// answered: from the previous hop's place if it reached the wrong node,
/// else by a negative acknowledgement that the drone submits to its own
/// checks. Any other packet that fails goes to the controller as it stands.
pub open spec fn routed(drone: DroneState, packet: PacketView, draw: u32) -> Seq<ActionView> {
    match checked(drone, packet, draw) {
        Ok(moved) => seq![
            ActionView::Forward { to: moved.hops()[moved.hop_index()], packet: moved },
        ],
        Err(back) => if !packet.is_fragment() {
            seq![shortcut(back)]
        } else if packet.hops()[packet.hop_index()] != drone.id {
            seq![handed_to(drone, back.hops()[0], back)]
        } else {
            seq![resubmitted(drone, back)]
        },
    }
}

/// The flood request inside a packet.
pub open spec fn request_of(packet: PacketView) -> crate::packet::FloodRequestView
    recommends
        packet.is_flood_request(),
{
    packet.pack_type->FloodRequest_0
}

/// A flood ends at this drone: it has passed the flood on before, or it has a
/// single neighbour.
pub open spec fn ends_flood(drone: DroneState, flood_id: u64) -> bool {
    drone.seen_floods.contains(flood_id) || drone.links.len() == 1
}

/// What is done with the answer to a flood, made from a trace that ends
/// with this drone. The cursor of the answer stands on the second entry of
/// its path, the node the request came from, and that is where the answer
/// goes: by the link to that node, or to the controller where there is none.
/// The answer is no fragment, so the drop rate does not touch it.
pub open spec fn answered(drone: DroneState, request: crate::packet::FloodRequestView) -> Seq<
    ActionView,
> {
    seq![handed_to(drone, flood_response(request).hops()[1], flood_response(request))]
}

/// What is done with a flood request. The drone adds itself to the trace.
/// Where the flood ends here the request is answered; else one copy goes to
/// every neighbour but the one the request came from.
pub open spec fn flooded(drone: DroneState, packet: PacketView) -> Seq<ActionView> {
    let request = request_of(packet);
    let from = request.path_trace.last().0;
    let traced = spread(request, drone.id);
    if ends_flood(drone, request.flood_id) {
        answered(drone, traced)
    } else {
        broadcast(
            drone.links,
            from,
            PacketView { pack_type: PacketTypeView::FloodRequest(traced), ..packet },
        )
    }
}

/// The drone can handle `packet`: a flood request names who sent it, and any
/// other packet can be checked.
pub open spec fn accepts(drone: DroneState, packet: PacketView) -> bool {
    if packet.is_flood_request() {
        request_of(packet).path_trace.len() > 0
    } else {
        routable(drone.id, packet)
    }
}

/// What a drone that is not crashing does with a packet, where `draw` is the
/// number drawn for it.
pub open spec fn handled(drone: DroneState, packet: PacketView, draw: u32) -> Seq<ActionView> {
    if packet.is_flood_request() {
        flooded(drone, packet)
    } else {
        routed(drone, packet, draw)
    }
}

/// The state after a packet. Only a flood that is passed on leaves a mark.
pub open spec fn after_packet(drone: DroneState, packet: PacketView) -> DroneState {
    if packet.is_flood_request() && !ends_flood(drone, request_of(packet).flood_id) {
        DroneState {
            seen_floods: drone.seen_floods.insert(request_of(packet).flood_id),
            ..drone
        }
    } else {
        drone
    }
}

/// A crashing drone can handle `packet`: it is on the path of a fragment, so
/// that it can answer it, and any other packet but a flood request, which it
/// does not read, can be checked.
pub open spec fn accepts_crashing(drone: DroneState, packet: PacketView) -> bool {
    if packet.is_fragment() {
        packet.hops().contains(drone.id)
    } else if packet.is_flood_request() {
        true
    } else {
        routable(drone.id, packet)
    }
}

/// What a crashing drone does with a packet: a fragment is answered by a
/// negative acknowledgement that names the drone and is submitted to the
/// drone's own checks, a flood request is discarded, and everything else is
/// routed as before.
pub open spec fn drained(drone: DroneState, packet: PacketView) -> Seq<ActionView> {
    if packet.is_fragment() {
        seq![resubmitted(drone, nack_for(drone.id, packet, NackType::ErrorInRouting(drone.id)))]
    } else if packet.is_flood_request() {
        Seq::empty()
    } else {
        routed(drone, packet, 0)
    }
}

/// The drone can say what follows an attempt at `action`: it is on the path
/// of a packet it forwarded, so that it can answer it.
pub open spec fn follows(drone: DroneState, action: ActionView) -> bool {
    action matches ActionView::Forward { packet, .. } ==> packet.hops().contains(drone.id)
}

/// What follows an attempt at a delivery.
///
/// The controller is told of every packet that a neighbour took. Of those
/// that were not taken: a forwarded packet is answered by a negative
/// acknowledgement that names the neighbour and is submitted to the drone's
/// own checks, which send it one hop back; a packet that the drone made goes
/// to the controller; a copy of a flood request is forgotten.
pub open spec fn follow_up(drone: DroneState, action: ActionView, delivered: bool) -> Seq<
    ActionView,
> {
    match action {
        ActionView::Forward { to, packet } => if delivered {
            seq![sent(packet)]
        } else {
            seq![resubmitted(drone, nack_for(drone.id, packet, NackType::ErrorInRouting(to)))]
        },
        ActionView::Reply { to, packet } => if delivered {
            seq![sent(packet)]
        } else {
            seq![shortcut(packet)]
        },
        ActionView::Flood { to, packet } => if delivered {
            seq![sent(packet)]
        } else {
            Seq::empty()
        },
        ActionView::Notify(_) => Seq::empty(),
    }
}

/// One packet, one outcome, one correction.
///
/// A packet that is no flood request yields exactly one action, and that
/// action is never a second attempt at a packet that the drone has made: a
/// packet of the drone's own making goes out as a reply or to the
/// controller. An attempt that fails yields at most one action, which is a
/// reply or a word to the controller; a forwarded packet that fails yields
/// exactly one. What follows a reply, taken or not, is a word to the
/// controller and nothing else. So no delivery is tried again, and every
/// chain of actions ends after three steps.
pub proof fn one_correction(
    drone: DroneState,
    packet: PacketView,
    draw: u32,
    action: ActionView,
    delivered: bool,
    then: bool,
)
    ensures
        routed(drone, packet, draw).len() == 1,
        routed(drone, packet, draw)[0] is Forward ==> checked(drone, packet, draw) is Ok,
        !(resubmitted(drone, packet) is Forward),
        follow_up(drone, action, delivered).len() <= 1,
        action is Forward && !delivered ==> follow_up(drone, action, delivered).len() == 1,
        forall|k: int|
            0 <= k < follow_up(drone, action, delivered).len() ==> {
                let next = #[trigger] follow_up(drone, action, delivered)[k];
                &&& next is Reply || next is Notify
                &&& follow_up(drone, next, then).len() <= 1
                &&& forall|j: int|
                    0 <= j < follow_up(drone, next, then).len() ==> {
                        &&& #[trigger] follow_up(drone, next, then)[j] is Notify
                        &&& follow_up(drone, follow_up(drone, next, then)[j], then).len() == 0
                    }
            },
{
}

/// A list of one action.
fn single(action: Action) -> (actions: Vec<Action>)
    ensures
        views(actions@) == seq![action@],
{
    let mut actions: Vec<Action> = Vec::new();
    actions.push(action);
    assert(views(actions@) =~= seq![action@]);
    actions
}

/// A drone of the mesh.
pub struct SkyLinkDrone {
    id: NodeId,
    packet_send: LinkTable,
    pdr: u32,
    flood_ids: HashSet<u64>,
    crashing: bool,
}

impl View for SkyLinkDrone {
    type V = DroneState;

    closed spec fn view(&self) -> DroneState {
        DroneState {
            id: self.id,
            links: self.packet_send@,
            drop_rate: self.pdr,
            seen_floods: self.flood_ids@,
            crashing: self.crashing,
        }
    }
}

impl SkyLinkDrone {
    /// A drone that has the given neighbours and drop rate (in hundredths),
    /// has seen no flood and is not crashing. A neighbour named more than
    /// once is linked once.
    pub fn new(id: NodeId, packet_send: Vec<NodeId>, pdr: u32) -> (drone: SkyLinkDrone)
        ensures
            drone@ == initial_state(id, packet_send@, pdr),
            drone@.well_formed(),
            forall|node: NodeId| drone@.links.contains(node) <==> packet_send@.contains(node),
    {
        proof {
            lemma_distinct(packet_send@);
        }
        SkyLinkDrone {
            id,
            packet_send: LinkTable::new(&packet_send),
            pdr,
            flood_ids: HashSet::new(),
            crashing: false,
        }
    }

    /// The drone's own id.
    pub fn id(&self) -> (id: NodeId)
        ensures
            id == self@.id,
    {
        self.id
    }

    /// The drop rate, in hundredths.
    pub fn pdr(&self) -> (pdr: u32)
        ensures
            pdr == self@.drop_rate,
    {
        self.pdr
    }

    /// Whether the drone has been told to crash.
    pub fn is_crashing(&self) -> (crashing: bool)
        ensures
            crashing == self@.crashing,
    {
        self.crashing
    }

    /// Whether the drone has a link to `id`.
    pub fn has_link(&self, id: NodeId) -> (linked: bool)
        ensures
            linked == self@.links.contains(id),
    {
        self.packet_send.contains(id)
    }

    /// Does nothing when it runs; its contract recalls that the drone links
    /// no neighbour twice.
    pub fn recall_links(&self)
        ensures
            self@.well_formed(),
    {
        self.packet_send.no_repetition();
    }

    /// The neighbours, in the order in which their links were added.
    pub fn neighbours(&self) -> (ids: Vec<NodeId>)
        ensures
            ids@ == self@.links,
            self@.well_formed(),
    {
        self.packet_send.ids()
    }

    /// Whether the drone has passed on the flood `flood_id`.
    pub fn has_seen(&self, flood_id: u64) -> (seen: bool)
        ensures
            seen == self@.seen_floods.contains(flood_id),
    {
        broadcast use vstd::std_specs::hash::group_hash_axioms;

        self.flood_ids.contains(&flood_id)
    }

    /// Carries out a command of the controller. No command yields a packet.
    pub fn handle_command(&mut self, command: DroneCommand)
        ensures
            final(self)@ == after_command(old(self)@, command),
            final(self)@.well_formed(),
    {
        self.packet_send.no_repetition();
        match command {
            DroneCommand::AddSender(node_id) => {
                self.packet_send.insert(node_id);
            },
            DroneCommand::SetPacketDropRate(pdr) => {
                self.pdr = pdr;
            },
            DroneCommand::Crash => {
                self.crashing = true;
            },
            DroneCommand::RemoveSender(node_id) => {
                self.packet_send.remove(node_id);
            },
        }
    }

    /// Whether the drone can check that `packet` is meant for it.
    fn routable(&self, packet: &Packet) -> (ok: bool)
        ensures
            ok == routable(self@.id, packet@),
    {
        let at = packet.routing_header.hop_index;
        at < packet.routing_header.hops.len() && (!packet.is_fragment()
            || packet.routing_header.hops[at] == self.id || at > 0)
    }

    /// Whether a drone that is not crashing can handle `packet`: whether a
    /// flood request names the node it came from, and whether any other
    /// packet has its cursor in its path and, if it is a fragment meant for
    /// another node, a previous hop.
    pub fn accepts(&self, packet: &Packet) -> (ok: bool)
        ensures
            ok == accepts(self@, packet@),
    {
        match &packet.pack_type {
            PacketType::FloodRequest(request) => request.path_trace.len() > 0,
            _ => self.routable(packet),
        }
    }

    /// Whether a crashing drone can handle `packet`: whether the drone is on
    /// the path of a fragment, and whether any packet that is neither a
    /// fragment nor a flood request has its cursor in its path.
    pub fn accepts_crashing(&self, packet: &Packet) -> (ok: bool)
        ensures
            ok == accepts_crashing(self@, packet@),
    {
        if packet.is_fragment() {
            position(&packet.routing_header.hops, self.id).is_some()
        } else if packet.is_flood_request() {
            true
        } else {
            self.routable(packet)
        }
    }

    /// Whether the drone can say what follows an attempt at `action`:
    /// whether it is on the path of a packet that was to be forwarded.
    pub fn follows(&self, action: &Action) -> (ok: bool)
        ensures
            ok == follows(self@, action@),
    {
        match action {
            Action::Forward { to: _, packet } => position(
                &packet.routing_header.hops,
                self.id,
            ).is_some(),
            _ => true,
        }
    }

    /// Whether a number is drawn for `packet`.
    pub(crate) fn draws_for(&self, packet: &Packet) -> (drawn: bool)
        requires
            in_path(packet@),
        ensures
            drawn == draws(self@, packet@),
    {
        let at = packet.routing_header.hop_index;
        assert(at < packet.routing_header.hops.len());
        packet.is_fragment() && packet.routing_header.hops[at] == self.id && at + 1
            < packet.routing_header.hops.len()
    }

    /// Puts a packet through the checks, with `draw` as the number drawn for
    /// it.
    pub fn apply_checks_with(&self, packet: Packet, draw: u32) -> (r: Result<Packet, Packet>)
        requires
            routable(self@.id, packet@),
        ensures
            outcome(r) == checked(self@, packet@, draw),
    {
        let mut packet = packet;
        let ghost received = packet@;
        //Check if we're on the right hop.
        if let Err(back) = id_hop_match_check(self, packet.clone()) {
            return Err(back);
        }
        //Increase the index.
        assert(packet.routing_header.hop_index < packet.routing_header.hops.len());
        packet.routing_header.hop_index += 1;
        assert(packet@ == received.advanced());
        assert(packet@.hops()[received.hop_index()] == self@.id);
        //Check if we're a final destination.
        if let Err(back) = final_destination_check(self, packet.clone()) {
            return Err(back);
        }
        //Check if the packet is dropped (only when it is a fragment).
        if let Err(back) = pdr_check_with(self, packet.clone(), draw) {
            return Err(back);
        }
        //Check if the next hop exists.
        if let Err(back) = is_next_hop_check(self, packet.clone()) {
            return Err(back);
        }
        Ok(packet)
    }

    /// Puts a packet through the checks. A number under 100 is drawn for a
    /// fragment that comes as far as the check of the drop rate.
    ///
    /// What comes back is what [`SkyLinkDrone::apply_checks_with`] gives for
    /// some number under 100, and for 0 where the number makes no
    /// difference.
    pub fn apply_checks(&self, packet: Packet) -> (r: Result<Packet, Packet>)
        requires
            routable(self@.id, packet@),
        ensures
            exists|draw: u32| draw < 100 && outcome(r) == #[trigger] checked(self@, packet@, draw),
            decided(self@, packet@) ==> outcome(r) == checked(self@, packet@, 0),
    {
        let draw: u32 = if self.draws_for(&packet) {
            draw_below(HUNDRED)
        } else {
            0
        };
        let ghost received = packet@;
        let r = self.apply_checks_with(packet, draw);
        assert(outcome(r) == checked(self@, received, draw));
        r
    }

    /// Says how a packet of the drone's own making goes to the neighbour
    /// `index`: by the link to it, or to the controller where there is none.
    pub fn send_nack(&self, index: &NodeId, err: Packet) -> (action: Action)
        ensures
            action@ == handed_to(self@, *index, err@),
    {
        if self.packet_send.contains(*index) {
            Action::Reply { to: *index, packet: err }
        } else {
            Action::Notify(DroneEvent::ControllerShortcut(err))
        }
    }

    /// Submits a packet that the drone has made to the drone's own checks.
    fn resubmit(&self, made: Packet) -> (action: Action)
        requires
            routable(self@.id, made@),
            !made@.is_fragment(),
        ensures
            action@ == resubmitted(self@, made@),
    {
        match self.apply_checks_with(made, 0) {
            Ok(moved) => {
                let to = moved.routing_header.hops[moved.routing_header.hop_index];
                Action::Reply { to, packet: moved }
            },
            Err(back) => Action::Notify(DroneEvent::ControllerShortcut(back)),
        }
    }

    /// Decides what is done with a packet that is no flood request.
    fn route(&self, packet: Packet, draw: u32) -> (actions: Vec<Action>)
        requires
            routable(self@.id, packet@),
        ensures
            views(actions@) == routed(self@, packet@, draw),
    {
        let fragment = packet.is_fragment();
        let mine = packet.routing_header.hops[packet.routing_header.hop_index] == self.id;
        let ghost received = packet@;
        match self.apply_checks_with(packet, draw) {
            Ok(moved) => {
                let to = moved.routing_header.hops[moved.routing_header.hop_index];
                single(Action::Forward { to, packet: moved })
            },
            Err(back) => {
                if !fragment {
                    single(Action::Notify(DroneEvent::ControllerShortcut(back)))
                } else if !mine {
                    proof {
                        return_path_shape(
                            received.hops(),
                            received.hops()[received.hop_index() - 1],
                        );
                    }
                    let to = back.routing_header.hops[0];
                    single(self.send_nack(&to, back))
                } else {
                    proof {
                        return_path_shape(received.hops(), self@.id);
                    }
                    single(self.resubmit(back))
                }
            },
        }
    }

    /// Answers a flood request whose trace holds the node it came from and,
    /// after it, this drone: the answer goes to that node, by the link to it
    /// or to the controller where there is none. The drone stays as it is.
    pub fn send_flood_response(&mut self, flood: FloodRequest) -> (actions: Vec<Action>)
        requires
            flood@.path_trace.len() >= 2,
        ensures
            views(actions@) == answered(old(self)@, flood@),
            final(self)@ == old(self)@,
    {
        let resp = flood_response_packet(flood);
        let to = resp.routing_header.hops[1];
        single(self.send_nack(&to, resp))
    }

    /// Decides what is done with a packet, with `draw` as the number drawn
    /// for it.
    pub fn handle_packet_with(&mut self, packet: Packet, draw: u32) -> (actions: Vec<Action>)
        requires
            accepts(old(self)@, packet@),
        ensures
            views(actions@) == handled(old(self)@, packet@, draw),
            final(self)@ == after_packet(old(self)@, packet@),
            final(self)@.well_formed(),
    {
        broadcast use vstd::std_specs::hash::group_hash_axioms;

        self.packet_send.no_repetition();
        let Packet { pack_type, routing_header, session_id } = packet;
        match pack_type {
            PacketType::FloodRequest(flood_request) => {
                //First check if we're dealing with a flood request, since we ignore its header.
                let mut flood_request = flood_request;
                let prev = flood_request.path_trace[flood_request.path_trace.len() - 1].0;
                flood_request.path_trace.push((self.id, NodeType::Drone));
                assert(flood_request@ == spread(request_of(packet@), self@.id));
                if self.flood_ids.contains(&flood_request.flood_id) || self.packet_send.len() == 1 {
                    self.send_flood_response(flood_request)
                } else {
                    self.flood_ids.insert(flood_request.flood_id);
                    let flood = Packet {
                        pack_type: PacketType::FloodRequest(flood_request),
                        routing_header,
                        session_id,
                    };
                    let ids = self.packet_send.ids();
                    crate::flood::copies(&ids, prev, &flood)
                }
            },
            other => {
                let packet = Packet { pack_type: other, routing_header, session_id };
                self.route(packet, draw)
            },
        }
    }

    /// Decides what is done with a packet. A number under 100 is drawn for a
    /// fragment that comes as far as the check of the drop rate.
    ///
    /// What is done is what [`SkyLinkDrone::handle_packet_with`] does for
    /// some number under 100, and for 0 where the number makes no
    /// difference.
    pub fn handle_packet(&mut self, packet: Packet) -> (actions: Vec<Action>)
        requires
            accepts(old(self)@, packet@),
        ensures
            exists|draw: u32|
                draw < 100 && views(actions@) == #[trigger] handled(old(self)@, packet@, draw),
            packet@.is_flood_request() || decided(old(self)@, packet@) ==> views(actions@)
                == handled(old(self)@, packet@, 0),
            final(self)@ == after_packet(old(self)@, packet@),
            final(self)@.well_formed(),
    {
        let draw: u32 = if !packet.is_flood_request() && self.draws_for(&packet) {
            draw_below(HUNDRED)
        } else {
            0
        };
        let ghost received = packet@;
        let ghost before = self@;
        let actions = self.handle_packet_with(packet, draw);
        assert(views(actions@) == handled(before, received, draw));
        actions
    }

    /// Decides what a crashing drone does with a packet.
    pub fn crashing_handle_packet(&mut self, packet: Packet) -> (actions: Vec<Action>)
        requires
            accepts_crashing(old(self)@, packet@),
        ensures
            views(actions@) == drained(old(self)@, packet@),
            final(self)@ == old(self)@,
            final(self)@.well_formed(),
    {
        self.packet_send.no_repetition();
        if packet.is_fragment() {
            //If the message is a fragment, a negative acknowledgement goes back.
            proof {
                return_path_shape(packet@.hops(), self@.id);
            }
            let err = create_error(self.id, packet, NackType::ErrorInRouting(self.id));
            single(self.resubmit(err))
        } else if packet.is_flood_request() {
            let actions: Vec<Action> = Vec::new();
            assert(views(actions@) =~= Seq::empty());
            actions
        } else {
            //An Ack, a Nack or a FloodResponse is routed as before.
            self.handle_packet_with(packet, 0)
        }
    }

    /// Says what follows an attempt at a delivery: `delivered` tells whether
    /// the neighbour took the packet.
    pub fn after_send(&self, action: Action, delivered: bool) -> (actions: Vec<Action>)
        requires
            follows(self@, action@),
        ensures
            views(actions@) == follow_up(self@, action@, delivered),
    {
        let empty: Vec<Action> = Vec::new();
        assert(views(empty@) =~= Seq::empty());
        match action {
            Action::Forward { to, packet } => {
                if delivered {
                    single(Action::Notify(DroneEvent::PacketSent(packet)))
                } else {
                    proof {
                        return_path_shape(packet@.hops(), self@.id);
                    }
                    let err = create_error(self.id, packet, NackType::ErrorInRouting(to));
                    single(self.resubmit(err))
                }
            },
            Action::Reply { to, packet } => {
                if delivered {
                    single(Action::Notify(DroneEvent::PacketSent(packet)))
                } else {
                    single(Action::Notify(DroneEvent::ControllerShortcut(packet)))
                }
            },
            Action::Flood { to, packet } => {
                if delivered {
                    single(Action::Notify(DroneEvent::PacketSent(packet)))
                } else {
                    empty
                }
            },
            Action::Notify(_) => empty,
        }
    }
}

} // verus!
