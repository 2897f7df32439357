use std::collections::{HashMap, VecDeque};

use skylink::drone::{Action, DroneEvent, SkyLinkDrone};
use skylink::flood::are_path_discovered;
use skylink::lifecycle::Input;
use skylink::packet::{FloodRequest, NodeType, Packet, PacketType, SourceRoutingHeader};

/// Floods a network of drones from the client 0, which is linked to drone 1,
/// and gives back the drones, how often each of them handed copies on, and
/// what the client received.
fn flood(topology: &[(u8, &[u8])]) -> (HashMap<u8, SkyLinkDrone>, HashMap<u8, usize>, Vec<Packet>) {
    let mut drones: HashMap<u8, SkyLinkDrone> = topology
        .iter()
        .map(|(id, neighbours)| (*id, SkyLinkDrone::new(*id, neighbours.to_vec(), 0)))
        .collect();
    let mut batches: HashMap<u8, usize> = HashMap::new();
    let mut events: Vec<DroneEvent> = Vec::new();
    let mut received = Vec::new();
    let mut in_flight = VecDeque::new();
    in_flight.push_back((
        1u8,
        Packet {
            pack_type: PacketType::FloodRequest(FloodRequest {
                flood_id: 1,
                initiator_id: 0,
                path_trace: vec![(0, NodeType::Client)],
            }),
            routing_header: SourceRoutingHeader { hop_index: 0, hops: vec![] },
            session_id: 0,
        },
    ));
    while let Some((to, packet)) = in_flight.pop_front() {
        let drone = drones.get_mut(&to).unwrap();
        let input = Input::Packet(packet);
        assert!(drone.can_take(&input));
        let actions = drone.step(input);
        if actions.iter().any(|action| matches!(action, Action::Flood { .. })) {
            *batches.entry(to).or_insert(0) += 1;
        }
        let mut todo: VecDeque<Action> = actions.into();
        while let Some(action) = todo.pop_front() {
            let delivered = match &action {
                Action::Forward { to, packet }
                | Action::Reply { to, packet }
                | Action::Flood { to, packet } => {
                    if drones.contains_key(to) {
                        in_flight.push_back((*to, packet.clone()));
                        true
                    } else if *to == 0 {
                        received.push(packet.clone());
                        true
                    } else {
                        false
                    }
                }
                Action::Notify(event) => {
                    events.push(event.clone());
                    continue;
                }
            };
            let drone = &drones[&to];
            assert!(drone.follows(&action));
            for next in drone.after_send(action, delivered).into_iter().rev() {
                todo.push_front(next);
            }
        }
    }
    // Nothing had to be handed to the controller in the network's place.
    for event in &events {
        assert!(matches!(event, DroneEvent::PacketSent(_)), "{:?}", event);
    }
    (drones, batches, received)
}

/// The traces of the answers that reached the client.
fn answered_traces(received: &[Packet]) -> Vec<Vec<(u8, NodeType)>> {
    let mut traces = Vec::new();
    for packet in received {
        if let PacketType::FloodResponse(response) = &packet.pack_type {
            let mut back: Vec<u8> = response.path_trace.iter().map(|e| e.0).collect();
            back.reverse();
            assert_eq!(packet.routing_header.hops, back);
            assert_eq!(packet.routing_header.hop_index, back.len() - 1);
            assert_eq!(response.flood_id, 1);
            traces.push(response.path_trace.clone());
        } else {
            panic!("{:?}", packet);
        }
    }
    traces
}

/// Every trace starts at the client and follows links of the topology.
fn follows_links(topology: &[(u8, &[u8])], trace: &[(u8, NodeType)]) -> bool {
    if trace.first() != Some(&(0, NodeType::Client)) || trace.get(1).map(|e| e.0) != Some(1) {
        return false;
    }
    trace[1..].windows(2).all(|pair| {
        pair[1].1 == NodeType::Drone
            && topology.iter().any(|(id, links)| *id == pair[0].0 && links.contains(&pair[1].0))
    })
}

fn check(topology: &[(u8, &[u8])]) -> Vec<Vec<(u8, NodeType)>> {
    let (drones, batches, received) = flood(topology);
    // No drone hands copies on more than once.
    for (id, drone) in &drones {
        let passed_on = batches.get(id).copied().unwrap_or(0);
        assert!(passed_on <= 1, "drone {} passed the flood on {} times", id, passed_on);
        assert_eq!(drone.has_seen(1), passed_on == 1 || drone.neighbours().len() != 1);
    }
    let traces = answered_traces(&received);
    assert!(!traces.is_empty());
    for trace in &traces {
        assert!(follows_links(topology, trace), "{:?}", trace);
    }
    traces
}

#[test]
fn test_flood() {
    let traces = check(&[(1, &[2, 0]), (2, &[1, 3]), (3, &[2])]);
    assert_eq!(
        traces,
        vec![vec![
            (0, NodeType::Client),
            (1, NodeType::Drone),
            (2, NodeType::Drone),
            (3, NodeType::Drone),
        ]]
    );
    assert!(!are_path_discovered(&traces));
}

#[test]
fn test_double_chain_flood() {
    let traces = check(&[
        (1, &[2, 0, 6]),
        (2, &[1, 3, 7]),
        (3, &[2, 4, 8]),
        (4, &[3, 5, 9]),
        (5, &[4, 10]),
        (6, &[1, 7]),
        (7, &[6, 8, 2]),
        (8, &[7, 9, 3]),
        (9, &[8, 10, 4]),
        (10, &[9, 5, 11]),
    ]);
    assert!(are_path_discovered(&traces));
}

#[test]
fn test_star_flood() {
    let traces = check(&[
        (1, &[4, 0, 8]),
        (2, &[5, 9]),
        (3, &[6, 10]),
        (4, &[7, 1]),
        (5, &[2, 8]),
        (6, &[3, 9]),
        (7, &[4, 10]),
        (8, &[5, 1]),
        (9, &[6, 2]),
        (10, &[3, 7]),
    ]);
    assert!(are_path_discovered(&traces));
}

#[test]
fn test_butterfly_flood() {
    let traces = check(&[
        (1, &[0, 5, 6]),
        (2, &[5, 6]),
        (3, &[7, 8]),
        (4, &[7, 8]),
        (5, &[9, 1, 2]),
        (6, &[10, 1, 2]),
        (7, &[4, 9, 3]),
        (8, &[4, 10, 3]),
        (9, &[10, 7, 5]),
        (10, &[8, 6, 9]),
    ]);
    assert!(are_path_discovered(&traces));
}

#[test]
fn test_tree_flood() {
    // Drone 1 under the client; two drones under each drone, three levels.
    let traces = check(&[
        (1, &[0, 2, 3]),
        (2, &[1, 4, 5]),
        (3, &[1, 6, 7]),
        (4, &[2]),
        (5, &[2]),
        (6, &[3]),
        (7, &[3]),
    ]);
    // One answer from every leaf, with the way from the root to it.
    let mut leaves: Vec<Vec<u8>> =
        traces.iter().map(|trace| trace.iter().map(|e| e.0).collect()).collect();
    leaves.sort();
    assert_eq!(
        leaves,
        vec![vec![0, 1, 2, 4], vec![0, 1, 2, 5], vec![0, 1, 3, 6], vec![0, 1, 3, 7]]
    );
}
