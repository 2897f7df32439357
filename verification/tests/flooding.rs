use skylink::drone::{Action, DroneCommand, DroneEvent, SkyLinkDrone};
use skylink::flood::{are_path_discovered, copies, flood_response_packet, is_named, reversed_ids};
use skylink::packet::{
    FloodRequest, FloodResponse, NodeType, Packet, PacketType, SourceRoutingHeader,
};

fn request(flood_id: u64, initiator_id: u8, path_trace: Vec<(u8, NodeType)>) -> Packet {
    Packet {
        pack_type: PacketType::FloodRequest(FloodRequest { flood_id, initiator_id, path_trace }),
        routing_header: SourceRoutingHeader { hop_index: 0, hops: vec![] },
        session_id: 0,
    }
}

fn response(flood_id: u64, path_trace: Vec<(u8, NodeType)>, hops: Vec<u8>) -> Packet {
    Packet {
        pack_type: PacketType::FloodResponse(FloodResponse { flood_id, path_trace }),
        routing_header: SourceRoutingHeader { hop_index: 1, hops },
        session_id: flood_id,
    }
}

fn shortcut(packet: Packet) -> Action {
    Action::Notify(DroneEvent::ControllerShortcut(packet))
}

fn sent(packet: Packet) -> Action {
    Action::Notify(DroneEvent::PacketSent(packet))
}

#[test]
fn reversed_ids_drops_the_kinds() {
    assert_eq!(
        reversed_ids(&vec![(0, NodeType::Client), (1, NodeType::Drone), (9, NodeType::Server)]),
        vec![9, 1, 0]
    );
    assert_eq!(reversed_ids(&vec![]), Vec::<u8>::new());
}

#[test]
fn flood_response_reverses_the_trace() {
    let trace = vec![(0, NodeType::Client), (1, NodeType::Drone), (2, NodeType::Drone)];
    let made = flood_response_packet(FloodRequest {
        flood_id: 7,
        initiator_id: 0,
        path_trace: trace.clone(),
    });
    assert_eq!(made, response(7, trace, vec![2, 1, 0]));
    assert_eq!(made.routing_header.hop_index, 1);
    assert_eq!(made.session_id, 7);
}

#[test]
fn copies_go_to_every_neighbour_but_the_sender() {
    let flood = request(3, 0, vec![(0, NodeType::Client), (1, NodeType::Drone)]);
    assert_eq!(
        copies(&vec![4, 0, 2, 7], 0, &flood),
        vec![
            Action::Flood { to: 4, packet: flood.clone() },
            Action::Flood { to: 2, packet: flood.clone() },
            Action::Flood { to: 7, packet: flood.clone() },
        ]
    );
    assert_eq!(copies(&vec![0], 0, &flood), vec![]);
    assert_eq!(copies(&vec![], 0, &flood), vec![]);
}

#[test]
fn flood_request_is_passed_on_with_the_drone_traced() {
    let mut drone = SkyLinkDrone::new(1, vec![2, 0, 3], 0);
    let actions = drone.handle_packet(request(5, 0, vec![(0, NodeType::Client)]));
    let traced = request(5, 0, vec![(0, NodeType::Client), (1, NodeType::Drone)]);
    assert_eq!(
        actions,
        vec![
            Action::Flood { to: 2, packet: traced.clone() },
            Action::Flood { to: 3, packet: traced.clone() },
        ]
    );
    assert!(drone.has_seen(5));
    assert!(!drone.has_seen(4));
    assert_eq!(drone.after_send(actions[0].clone(), true), vec![sent(traced)]);
    assert_eq!(drone.after_send(actions[1].clone(), false), vec![]);
}

#[test]
fn flood_request_keeps_its_header_and_session() {
    let mut drone = SkyLinkDrone::new(1, vec![2, 0], 100);
    let mut arriving = request(5, 0, vec![(0, NodeType::Client)]);
    arriving.routing_header = SourceRoutingHeader { hop_index: 3, hops: vec![9, 8] };
    arriving.session_id = 44;
    let mut traced = request(5, 0, vec![(0, NodeType::Client), (1, NodeType::Drone)]);
    traced.routing_header = SourceRoutingHeader { hop_index: 3, hops: vec![9, 8] };
    traced.session_id = 44;
    assert_eq!(drone.handle_packet(arriving), vec![Action::Flood { to: 2, packet: traced }]);
}

#[test]
fn seen_flood_is_answered_and_not_passed_on() {
    let mut drone = SkyLinkDrone::new(1, vec![2, 0, 3], 0);
    drone.handle_packet(request(5, 0, vec![(0, NodeType::Client)]));
    let again = drone.handle_packet(request(
        5,
        0,
        vec![(0, NodeType::Client), (2, NodeType::Drone), (3, NodeType::Drone)],
    ));
    let answer = response(
        5,
        vec![
            (0, NodeType::Client),
            (2, NodeType::Drone),
            (3, NodeType::Drone),
            (1, NodeType::Drone),
        ],
        vec![1, 3, 2, 0],
    );
    // The answer goes to the node the request came from, and to no other.
    assert_eq!(again, vec![Action::Reply { to: 3, packet: answer.clone() }]);
    assert_eq!(drone.after_send(again[0].clone(), true), vec![sent(answer.clone())]);
    assert_eq!(drone.after_send(again[0].clone(), false), vec![shortcut(answer)]);
    assert!(drone.has_seen(5));
}

#[test]
fn dead_end_answers_and_keeps_no_record() {
    let mut drone = SkyLinkDrone::new(3, vec![2], 0);
    let trace = vec![(0, NodeType::Client), (1, NodeType::Drone), (2, NodeType::Drone)];
    let actions = drone.handle_packet(request(1, 0, trace.clone()));
    let mut traced = trace.clone();
    traced.push((3, NodeType::Drone));
    let answer = response(1, traced, vec![3, 2, 1, 0]);
    assert_eq!(actions, vec![Action::Reply { to: 2, packet: answer.clone() }]);
    assert!(!drone.has_seen(1));
    // The same request once more: the same answer, and still no record.
    let again = drone.handle_packet(request(1, 0, trace));
    assert_eq!(again, vec![Action::Reply { to: 2, packet: answer }]);
    assert!(!drone.has_seen(1));
}

#[test]
fn dead_end_that_gets_a_second_link_passes_the_flood_on() {
    let mut drone = SkyLinkDrone::new(3, vec![2], 0);
    drone.handle_packet(request(1, 0, vec![(2, NodeType::Drone)]));
    drone.handle_command(DroneCommand::AddSender(4));
    let actions = drone.handle_packet(request(1, 0, vec![(2, NodeType::Drone)]));
    let traced = request(1, 0, vec![(2, NodeType::Drone), (3, NodeType::Drone)]);
    assert_eq!(actions, vec![Action::Flood { to: 4, packet: traced }]);
    assert!(drone.has_seen(1));
}

#[test]
fn answer_is_not_subject_to_the_drop_rate() {
    let mut drone = SkyLinkDrone::new(3, vec![2], 100);
    let trace = vec![(0, NodeType::Client), (2, NodeType::Drone)];
    for _ in 0..200 {
        let actions = drone.handle_packet(request(2, 0, trace.clone()));
        let answer = response(
            2,
            vec![(0, NodeType::Client), (2, NodeType::Drone), (3, NodeType::Drone)],
            vec![3, 2, 0],
        );
        assert_eq!(actions, vec![Action::Reply { to: 2, packet: answer }]);
    }
    // On its way back the answer passes a drone that drops every fragment.
    let mut on_the_way = SkyLinkDrone::new(2, vec![0, 3], 100);
    let answer = response(
        2,
        vec![(0, NodeType::Client), (2, NodeType::Drone), (3, NodeType::Drone)],
        vec![3, 2, 0],
    );
    let mut moved = answer.clone();
    moved.routing_header.hop_index = 2;
    assert_eq!(
        on_the_way.handle_packet(answer),
        vec![Action::Forward { to: 0, packet: moved }]
    );
}

#[test]
fn answer_without_a_link_back_goes_to_the_controller() {
    // The single neighbour is not the node the request came from.
    let mut drone = SkyLinkDrone::new(3, vec![7], 0);
    let actions = drone.handle_packet(request(2, 0, vec![(2, NodeType::Drone)]));
    let answer = response(2, vec![(2, NodeType::Drone), (3, NodeType::Drone)], vec![3, 2]);
    assert_eq!(actions, vec![shortcut(answer)]);
}

#[test]
fn drone_without_neighbours_takes_the_flood_and_hands_on_nothing() {
    let mut drone = SkyLinkDrone::new(3, vec![], 0);
    let actions = drone.handle_packet(request(6, 0, vec![(2, NodeType::Drone)]));
    assert_eq!(actions, vec![]);
    assert!(drone.has_seen(6));
}

#[test]
fn send_flood_response_leaves_the_drone_as_it_is() {
    let mut drone = SkyLinkDrone::new(3, vec![2, 4], 0);
    let trace = vec![(2, NodeType::Drone), (3, NodeType::Drone)];
    let actions = drone.send_flood_response(FloodRequest {
        flood_id: 8,
        initiator_id: 2,
        path_trace: trace.clone(),
    });
    let answer = response(8, trace, vec![3, 2]);
    assert_eq!(actions, vec![Action::Reply { to: 2, packet: answer }]);
    assert!(!drone.has_seen(8));
    assert_eq!(drone.neighbours(), vec![2, 4]);
}

#[test]
fn flood_travels_a_chain_and_comes_back_with_the_way_it_went() {
    // client 0 - drone 1 - drone 2 - drone 3
    let mut d1 = SkyLinkDrone::new(1, vec![2, 0], 0);
    let mut d2 = SkyLinkDrone::new(2, vec![1, 3], 0);
    let mut d3 = SkyLinkDrone::new(3, vec![2], 0);
    let at1 = d1.handle_packet(request(1, 0, vec![(0, NodeType::Client)]));
    assert_eq!(at1.len(), 1);
    let to2 = match &at1[0] {
        Action::Flood { to: 2, packet } => packet.clone(),
        other => panic!("{:?}", other),
    };
    let at2 = d2.handle_packet(to2);
    assert_eq!(at2.len(), 1);
    let to3 = match &at2[0] {
        Action::Flood { to: 3, packet } => packet.clone(),
        other => panic!("{:?}", other),
    };
    let at3 = d3.handle_packet(to3);
    let trace = vec![
        (0, NodeType::Client),
        (1, NodeType::Drone),
        (2, NodeType::Drone),
        (3, NodeType::Drone),
    ];
    let answer = response(1, trace.clone(), vec![3, 2, 1, 0]);
    assert_eq!(at3, vec![Action::Reply { to: 2, packet: answer.clone() }]);
    // The trace, reversed and without kinds, is the path of the answer.
    let mut back: Vec<u8> = trace.iter().map(|entry| entry.0).collect();
    back.reverse();
    assert_eq!(answer.routing_header.hops, back);
    // The answer goes back hop by hop, to the client.
    let mut at = answer;
    for (drone, next) in [(&mut d2, 1u8), (&mut d1, 0u8)] {
        let mut moved = at.clone();
        moved.routing_header.hop_index += 1;
        assert_eq!(
            drone.handle_packet(at),
            vec![Action::Forward { to: next, packet: moved.clone() }]
        );
        at = moved;
    }
    assert_eq!(at.routing_header.hop_index, 3);
}

#[test]
fn flood_in_a_triangle_is_passed_on_once_by_each_drone() {
    // client 0 - drone 1; drones 1, 2, 3 all linked to each other
    let mut d1 = SkyLinkDrone::new(1, vec![0, 2, 3], 0);
    let mut d2 = SkyLinkDrone::new(2, vec![1, 3], 0);
    let mut d3 = SkyLinkDrone::new(3, vec![1, 2], 0);
    let start = vec![(0, NodeType::Client)];
    let at1 = d1.handle_packet(request(9, 0, start));
    let from1 = request(9, 0, vec![(0, NodeType::Client), (1, NodeType::Drone)]);
    assert_eq!(
        at1,
        vec![
            Action::Flood { to: 2, packet: from1.clone() },
            Action::Flood { to: 3, packet: from1.clone() },
        ]
    );
    let at2 = d2.handle_packet(from1.clone());
    let from2 = request(
        9,
        0,
        vec![(0, NodeType::Client), (1, NodeType::Drone), (2, NodeType::Drone)],
    );
    assert_eq!(at2, vec![Action::Flood { to: 3, packet: from2.clone() }]);
    let at3 = d3.handle_packet(from1);
    let from3 = request(
        9,
        0,
        vec![(0, NodeType::Client), (1, NodeType::Drone), (3, NodeType::Drone)],
    );
    assert_eq!(at3, vec![Action::Flood { to: 2, packet: from3.clone() }]);
    // The second copies meet drones that have seen the flood.
    let late3 = d3.handle_packet(from2);
    let late2 = d2.handle_packet(from3);
    assert!(matches!(late3[..], [Action::Reply { to: 2, .. }]));
    assert!(matches!(late2[..], [Action::Reply { to: 3, .. }]));
}

#[test]
fn discovered_paths_must_name_all_ten_nodes() {
    let all: Vec<(u8, NodeType)> = (1..=10).map(|n| (n, NodeType::Drone)).collect();
    assert!(are_path_discovered(&vec![all.clone()]));
    let low: Vec<(u8, NodeType)> = (0..=5).map(|n| (n, NodeType::Drone)).collect();
    let high: Vec<(u8, NodeType)> = (6..=12).map(|n| (n, NodeType::Server)).collect();
    assert!(are_path_discovered(&vec![low.clone(), vec![], high.clone()]));
    assert!(!are_path_discovered(&vec![low.clone()]));
    assert!(!are_path_discovered(&vec![]));
    let gap: Vec<(u8, NodeType)> = (1..=9).map(|n| (n, NodeType::Drone)).collect();
    assert!(!are_path_discovered(&vec![gap, vec![(0, NodeType::Client)]]));
    assert!(is_named(&vec![low.clone(), high], 12));
    assert!(!is_named(&vec![low], 12));
}
