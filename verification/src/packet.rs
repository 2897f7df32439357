//! The packets that travel between nodes, and their mathematical views.

use vstd::prelude::*;

verus! {

/// Identifier of a node of the network.
pub type NodeId = u8;

/// What kind of node an entry of a flood trace stands for.
#[derive(Clone, Copy, Debug, PartialEq, Eq, Structural, Hash)]
pub enum NodeType {
    Client,
    Drone,
    Server,
}

/// Why a fragment could not go on.
#[derive(Clone, Copy, Debug, PartialEq, Eq, Structural, Hash)]
pub enum NackType {
    /// The named node could not be reached.
    ErrorInRouting(NodeId),
    /// The path ends at a drone.
    DestinationIsDrone,
    /// The fragment was lost on purpose, by the drop rate.
    Dropped,
    /// The packet reached the named node, which the path does not expect here.
    UnexpectedRecipient(NodeId),
}

/// One piece of a message. The only packet subject to simulated loss.
#[derive(Clone, Copy, Debug, PartialEq, Eq)]
pub struct Fragment {
    pub fragment_index: u64,
    pub total_n_fragments: u64,
    pub length: u8,
    pub data: [u8; 128],
}

/// Acknowledgement of one fragment.
#[derive(Clone, Copy, Debug, PartialEq, Eq, Structural, Hash)]
pub struct Ack {
    pub fragment_index: u64,
}

/// Negative acknowledgement of one fragment.
#[derive(Clone, Copy, Debug, PartialEq, Eq, Structural, Hash)]
pub struct Nack {
    pub fragment_index: u64,
    pub nack_type: NackType,
}

/// The path of a packet, fixed by its sender, and a cursor into it.
#[derive(Debug, PartialEq, Eq)]
pub struct SourceRoutingHeader {
    /// Index into `hops` of the node that is to handle the packet next.
    pub hop_index: usize,
    pub hops: Vec<NodeId>,
}

/// The model of a [`SourceRoutingHeader`].
pub ghost struct Route {
    pub hop_index: int,
    pub hops: Seq<NodeId>,
}

impl View for SourceRoutingHeader {
    type V = Route;

    open spec fn view(&self) -> Route {
        Route { hop_index: self.hop_index as int, hops: self.hops@ }
    }
}

/// A topology-discovery broadcast. It ignores the routing header: where it
/// goes follows from `path_trace` and from who is adjacent to whom.
#[derive(Debug, PartialEq, Eq)]
pub struct FloodRequest {
    pub flood_id: u64,
    pub initiator_id: NodeId,
    pub path_trace: Vec<(NodeId, NodeType)>,
}

/// The model of a [`FloodRequest`].
pub ghost struct FloodRequestView {
    pub flood_id: u64,
    pub initiator_id: NodeId,
    pub path_trace: Seq<(NodeId, NodeType)>,
}

impl View for FloodRequest {
    type V = FloodRequestView;

    open spec fn view(&self) -> FloodRequestView {
        FloodRequestView {
            flood_id: self.flood_id,
            initiator_id: self.initiator_id,
            path_trace: self.path_trace@,
        }
    }
}

/// The answer to a [`FloodRequest`], carrying the trace back.
#[derive(Debug, PartialEq, Eq)]
pub struct FloodResponse {
    pub flood_id: u64,
    pub path_trace: Vec<(NodeId, NodeType)>,
}

/// The model of a [`FloodResponse`].
pub ghost struct FloodResponseView {
    pub flood_id: u64,
    pub path_trace: Seq<(NodeId, NodeType)>,
}

impl View for FloodResponse {
    type V = FloodResponseView;

    open spec fn view(&self) -> FloodResponseView {
        FloodResponseView { flood_id: self.flood_id, path_trace: self.path_trace@ }
    }
}

/// The payload of a packet.
#[derive(Debug, PartialEq, Eq)]
pub enum PacketType {
    MsgFragment(Fragment),
    Ack(Ack),
    Nack(Nack),
    FloodRequest(FloodRequest),
    FloodResponse(FloodResponse),
}

/// The model of a [`PacketType`].
pub ghost enum PacketTypeView {
    MsgFragment(Fragment),
    Ack(Ack),
    Nack(Nack),
    FloodRequest(FloodRequestView),
    FloodResponse(FloodResponseView),
}

impl View for PacketType {
    type V = PacketTypeView;

    open spec fn view(&self) -> PacketTypeView {
        match *self {
            PacketType::MsgFragment(f) => PacketTypeView::MsgFragment(f),
            PacketType::Ack(a) => PacketTypeView::Ack(a),
            PacketType::Nack(n) => PacketTypeView::Nack(n),
            PacketType::FloodRequest(r) => PacketTypeView::FloodRequest(r@),
            PacketType::FloodResponse(r) => PacketTypeView::FloodResponse(r@),
        }
    }
}

/// What nodes hand to each other.
#[derive(Debug, PartialEq, Eq)]
pub struct Packet {
    pub pack_type: PacketType,
    pub routing_header: SourceRoutingHeader,
    /// Ties the fragments of one message together; routing never reads it.
    pub session_id: u64,
}

/// The model of a [`Packet`].
pub ghost struct PacketView {
    pub pack_type: PacketTypeView,
    pub routing_header: Route,
    pub session_id: u64,
}

impl View for Packet {
    type V = PacketView;

    open spec fn view(&self) -> PacketView {
        PacketView {
            pack_type: self.pack_type@,
            routing_header: self.routing_header@,
            session_id: self.session_id,
        }
    }
}

impl PacketView {
    /// The path of the packet.
    pub open spec fn hops(self) -> Seq<NodeId> {
        self.routing_header.hops
    }

    /// The cursor into the path.
    pub open spec fn hop_index(self) -> int {
        self.routing_header.hop_index
    }

    /// Whether the packet is a message fragment.
    pub open spec fn is_fragment(self) -> bool {
        self.pack_type is MsgFragment
    }

    /// Whether the packet is a flood request.
    pub open spec fn is_flood_request(self) -> bool {
        self.pack_type is FloodRequest
    }

    /// The same packet with its cursor moved one hop on.
    pub open spec fn advanced(self) -> PacketView {
        PacketView {
            routing_header: Route { hop_index: self.hop_index() + 1, hops: self.hops() },
            ..self
        }
    }
}

impl Packet {
    /// Whether the packet is a message fragment.
    pub fn is_fragment(&self) -> (fragment: bool)
        ensures
            fragment == self@.is_fragment(),
    {
        match &self.pack_type {
            PacketType::MsgFragment(_) => true,
            _ => false,
        }
    }

    /// Whether the packet is a flood request.
    pub fn is_flood_request(&self) -> (request: bool)
        ensures
            request == self@.is_flood_request(),
    {
        match &self.pack_type {
            PacketType::FloodRequest(_) => true,
            _ => false,
        }
    }
}

impl Clone for SourceRoutingHeader {
    fn clone(&self) -> (r: Self)
        ensures
            r@ == self@,
    {
        SourceRoutingHeader { hop_index: self.hop_index, hops: copy_ids(&self.hops) }
    }
}

impl Clone for FloodRequest {
    fn clone(&self) -> (r: Self)
        ensures
            r@ == self@,
    {
        FloodRequest {
            flood_id: self.flood_id,
            initiator_id: self.initiator_id,
            path_trace: copy_trace(&self.path_trace),
        }
    }
}

impl Clone for FloodResponse {
    fn clone(&self) -> (r: Self)
        ensures
            r@ == self@,
    {
        FloodResponse { flood_id: self.flood_id, path_trace: copy_trace(&self.path_trace) }
    }
}

impl Clone for PacketType {
    fn clone(&self) -> (r: Self)
        ensures
            r@ == self@,
    {
        match self {
            PacketType::MsgFragment(f) => PacketType::MsgFragment(*f),
            PacketType::Ack(a) => PacketType::Ack(*a),
            PacketType::Nack(n) => PacketType::Nack(*n),
            PacketType::FloodRequest(r) => PacketType::FloodRequest(r.clone()),
            PacketType::FloodResponse(r) => PacketType::FloodResponse(r.clone()),
        }
    }
}

impl Clone for Packet {
    fn clone(&self) -> (r: Self)
        ensures
            r@ == self@,
    {
        Packet {
            pack_type: self.pack_type.clone(),
            routing_header: self.routing_header.clone(),
            session_id: self.session_id,
        }
    }
}

/// A copy of a list of node ids.
pub fn copy_ids(ids: &Vec<NodeId>) -> (r: Vec<NodeId>)
    ensures
        r@ == ids@,
{
    let mut r: Vec<NodeId> = Vec::new();
    let mut i: usize = 0;
    while i < ids.len()
        invariant
            i <= ids.len(),
            r@ == ids@.take(i as int),
        decreases ids.len() - i,
    {
        r.push(ids[i]);
        i += 1;
    }
    r
}

/// A copy of a flood trace.
pub fn copy_trace(trace: &Vec<(NodeId, NodeType)>) -> (r: Vec<(NodeId, NodeType)>)
    ensures
        r@ == trace@,
{
    let mut r: Vec<(NodeId, NodeType)> = Vec::new();
    let mut i: usize = 0;
    while i < trace.len()
        invariant
            i <= trace.len(),
            r@ == trace@.take(i as int),
        decreases trace.len() - i,
    {
        r.push(trace[i]);
        i += 1;
    }
    r
}

/// A fragment to try a drone with: the only fragment of session 1, full of
/// ones, on its way from node 0 by node 1 to node 2, with the cursor on
/// node 1.
pub fn create_sample_packet() -> (packet: Packet)
    ensures
        packet@.pack_type matches PacketTypeView::MsgFragment(fragment) && {
            &&& fragment.fragment_index == 1
            &&& fragment.total_n_fragments == 1
            &&& fragment.length == 128
            &&& forall|i: int| 0 <= i < 128 ==> fragment.data@[i] == 1
        },
        packet@.routing_header == (Route { hop_index: 1, hops: seq![0u8, 1u8, 2u8] }),
        packet@.session_id == 1,
{
    let mut hops: Vec<NodeId> = Vec::new();
    hops.push(0);
    hops.push(1);
    hops.push(2);
    assert(hops@ =~= seq![0u8, 1u8, 2u8]);
    Packet {
        pack_type: PacketType::MsgFragment(
            Fragment { fragment_index: 1, total_n_fragments: 1, length: 128, data: [1; 128] },
        ),
        routing_header: SourceRoutingHeader { hop_index: 1, hops },
        session_id: 1,
    }
}

} // verus!
