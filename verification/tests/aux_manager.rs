use artiq_firmware::drtioaux;
use artiq_firmware::gateware::Gateware;
use artiq_firmware::routing::{RoutingTable, INVALID_HOP, MAX_HOPS};
use artiq_firmware::satman::aux::{
    send, Action, AuxManager, Delivery, Error, Event, Service, UpstreamState,
};
use artiq_firmware::satman::packet::{Packet, Payload};

fn plain() -> Gateware {
    Gateware {
        drtio: false,
        drtio_routing: false,
        rtio_moninj: false,
        rtio_dma: false,
        rtio_analyzer: false,
        grabber: false,
        si5324: false,
        drtiorep: 0,
    }
}

fn routing(drtiorep: usize) -> Gateware {
    Gateware { drtio_routing: true, drtiorep, ..plain() }
}

fn packet(source: u8, destination: u8, transaction_id: u8, payload: Payload) -> Packet {
    Packet { source, destination, transaction_id, payload }
}

fn other(byte: u8) -> Payload {
    Payload::Other { kind: byte, length: 1, data: [byte; 504] }
}

fn link(transaction_id: u8, payload: Payload) -> Packet {
    packet(0, 0, transaction_id, payload)
}

/// What happens on the links in a pass.
struct Links {
    repeaters: Vec<Result<Option<Packet>, drtioaux::Error>>,
    repeaters_up: Vec<bool>,
    rx_up: bool,
    loaded: bool,
    received: Result<Option<Packet>, drtioaux::Error>,
    time: u64,
    results: Vec<Result<bool, drtioaux::Error>>,
}

fn quiet(gateware: &Gateware) -> Links {
    let n = gateware.repeaters();
    Links {
        repeaters: vec![Ok(None); n],
        repeaters_up: vec![true; n],
        rx_up: true,
        loaded: false,
        received: Ok(None),
        time: 0,
        results: vec![],
    }
}

/// Runs a pass, and returns all that was asked of the board.
fn pass(manager: &mut AuxManager, links: Links) -> Vec<Action> {
    let mut results = links.results.into_iter();
    let mut step = manager.begin_service();
    let mut all = Vec::new();
    loop {
        all.extend_from_slice(&step.actions);
        let event = match step.state {
            Service::Repeaters { repno } => Event::Serviced { received: links.repeaters[repno] },
            Service::Link => Event::Link { rx_up: links.rx_up },
            Service::Tsc => Event::Tsc { loaded: links.loaded },
            Service::Receive => Event::Received {
                received: links.received,
                repeaters_up: links.repeaters_up.clone(),
            },
            Service::Clock => Event::Time { time: links.time },
            Service::Routable { .. } | Service::Outgoing { .. } => {
                Event::Delivered { result: results.next().unwrap() }
            }
            Service::Done => {
                assert!(results.next().is_none());
                return all;
            }
        };
        step = manager.service(step.state, event);
    }
}

/// The packets that were sent, and which way.
fn delivered(actions: &[Action]) -> Vec<(Delivery, Packet)> {
    actions
        .iter()
        .filter_map(|action| match *action {
            Action::Deliver { way, packet, .. } => Some((way, packet)),
            _ => None,
        })
        .collect()
}

/// A manager whose uplink is up.
fn up(gateware: Gateware) -> AuxManager {
    let mut manager = AuxManager::new(gateware);
    let received = Ok(Some(link(0, Payload::RoutingSetRank { rank: 1 })));
    pass(&mut manager, Links { received, ..quiet(&gateware) });
    manager
}

fn set_path(manager: &mut AuxManager, gateware: &Gateware, destination: u8, hop: u8) {
    let mut hops = [0; MAX_HOPS];
    hops[1] = hop;
    let received = Ok(Some(link(0, Payload::RoutingSetPath { destination, hops })));
    pass(manager, Links { received, ..quiet(gateware) });
}

#[test]
fn a_new_manager_is_destination_one() {
    let mut manager = AuxManager::new(plain());
    assert_eq!(manager.self_destination(), 1);
    assert_eq!(manager.rank(), 1);
    assert_eq!(manager.routing_table().get_hop(9, 1), INVALID_HOP);
    assert_eq!(manager.get_incoming_packet(), None);
}

#[test]
fn transactions_are_numbered_in_turn() {
    let mut manager = AuxManager::new(plain());
    assert_eq!(manager.transact(5, Payload::EchoRequest, 0), Ok(1));
    assert_eq!(manager.transact(6, Payload::EchoRequest, 0), Ok(2));
    assert_eq!(manager.get_destination(1), 5);
    assert_eq!(manager.get_destination(2), 6);
    assert_eq!(manager.check_transaction(1), Ok(None));
}

#[test]
fn there_are_128_transactions_at_most() {
    let mut manager = AuxManager::new(plain());
    for i in 1..128 {
        assert_eq!(manager.transact(i, Payload::EchoRequest, 0), Ok(i));
    }
    assert_eq!(manager.transact(128, Payload::EchoRequest, 0), Ok(0));
    assert_eq!(
        manager.transact(129, Payload::EchoRequest, 0),
        Err(Error::TransactionLimitReached)
    );
    assert_eq!(manager.get_destination(0), 128);
    assert_eq!(manager.get_destination(127), 127);
}

#[test]
fn a_number_is_free_once_its_timeout_has_been_read() {
    let gateware = plain();
    let mut manager = AuxManager::new(gateware);
    for _ in 0..128 {
        assert!(manager.transact(9, Payload::EchoRequest, 0).is_ok());
    }
    pass(&mut manager, Links { time: 201, ..quiet(&gateware) });
    assert_eq!(manager.check_transaction(17), Err(Error::Timeout));
    assert_eq!(manager.check_transaction(17), Ok(None));
    assert_eq!(
        manager.transact(9, Payload::EchoRequest, 300),
        Err(Error::TransactionLimitReached)
    );
    pass(&mut manager, Links { time: 301, ..quiet(&gateware) });
    assert_eq!(manager.transact(9, Payload::EchoRequest, 300), Ok(17));
}

#[test]
fn nothing_is_sent_before_the_rank_is_known() {
    let gateware = plain();
    let mut manager = AuxManager::new(gateware);
    assert_eq!(manager.transact(0, Payload::EchoRequest, 0), Ok(1));
    let actions = pass(&mut manager, quiet(&gateware));
    assert_eq!(
        actions,
        vec![Action::ReadLink, Action::ReadTsc, Action::Receive, Action::ReadClock]
    );
    let received = Ok(Some(link(0, Payload::RoutingSetRank { rank: 3 })));
    let actions =
        pass(&mut manager, Links { received, results: vec![Ok(true)], time: 50, ..quiet(&gateware) });
    assert_eq!(
        actions,
        vec![
            Action::ReadLink,
            Action::ReadTsc,
            Action::Receive,
            Action::Reply { packet: link(0, Payload::RoutingAck) },
            Action::ReadClock,
            Action::Deliver {
                way: Delivery::Upstream,
                time: 50,
                packet: packet(1, 0, 1, Payload::EchoRequest),
            },
        ]
    );
    assert_eq!(manager.rank(), 3);
    assert_eq!(delivered(&pass(&mut manager, quiet(&gateware))), vec![]);
}

#[test]
fn one_transaction_is_sent_in_a_pass() {
    let gateware = plain();
    let mut manager = up(gateware);
    assert_eq!(manager.transact(4, other(1), 0), Ok(1));
    assert_eq!(manager.transact(5, other(2), 0), Ok(2));
    let first = pass(&mut manager, Links { results: vec![Ok(true)], ..quiet(&gateware) });
    assert_eq!(delivered(&first), vec![(Delivery::Upstream, packet(1, 4, 1, other(1)))]);
    let second = pass(&mut manager, Links { results: vec![Ok(true)], ..quiet(&gateware) });
    assert_eq!(delivered(&second), vec![(Delivery::Upstream, packet(1, 5, 2, other(2)))]);
    assert_eq!(delivered(&pass(&mut manager, quiet(&gateware))), vec![]);
}

#[test]
fn a_transaction_whose_link_failed_is_sent_again() {
    let gateware = plain();
    let mut manager = up(gateware);
    assert_eq!(manager.transact(4, other(1), 0), Ok(1));
    for result in [Ok(false), Err(drtioaux::Error::LinkDown), Ok(true)] {
        let actions = pass(&mut manager, Links { results: vec![result], ..quiet(&gateware) });
        assert_eq!(delivered(&actions).len(), 1);
    }
    assert_eq!(delivered(&pass(&mut manager, quiet(&gateware))), vec![]);
}

#[test]
fn a_lost_link_has_to_be_set_up_anew() {
    let gateware = plain();
    let mut manager = up(gateware);
    let actions = pass(&mut manager, Links { rx_up: false, ..quiet(&gateware) });
    assert_eq!(actions, vec![Action::ReadLink, Action::ReadClock]);
    assert_eq!(manager.transact(0, other(1), 0), Ok(1));
    assert_eq!(delivered(&pass(&mut manager, quiet(&gateware))), vec![]);
    let received = Ok(Some(link(0, Payload::RoutingSetRank { rank: 1 })));
    let actions = pass(&mut manager, Links { received, results: vec![Ok(true)], ..quiet(&gateware) });
    assert_eq!(delivered(&actions).len(), 1);
}

#[test]
fn packets_arrive_by_transaction_then_source() {
    let gateware = plain();
    let mut manager = up(gateware);
    for (source, transaction_id) in [(9, 2), (4, 2), (7, 1)] {
        let received = Ok(Some(packet(source, 1, transaction_id, other(source))));
        pass(&mut manager, Links { received, ..quiet(&gateware) });
    }
    assert_eq!(manager.get_incoming_packet(), Some((1, 7, other(7))));
    assert_eq!(manager.get_incoming_packet(), Some((2, 4, other(4))));
    assert_eq!(manager.get_incoming_packet(), Some((2, 9, other(9))));
    assert_eq!(manager.get_incoming_packet(), None);
}

#[test]
fn a_packet_replaces_one_of_the_same_transaction_and_source() {
    let gateware = plain();
    let mut manager = up(gateware);
    for byte in [1, 2] {
        let received = Ok(Some(packet(6, 1, 3, other(byte))));
        pass(&mut manager, Links { received, ..quiet(&gateware) });
    }
    assert_eq!(manager.get_incoming_packet(), Some((3, 6, other(2))));
    assert_eq!(manager.get_incoming_packet(), None);
    pass(&mut manager, quiet(&gateware));
    assert_eq!(manager.get_incoming_packet(), None);
    let received = Ok(Some(packet(6, 1, 3, other(4))));
    pass(&mut manager, Links { received, ..quiet(&gateware) });
    assert_eq!(manager.get_incoming_packet(), Some((3, 6, other(4))));
}

#[test]
fn nothing_arrives_during_the_set_up() {
    let gateware = plain();
    let mut manager = AuxManager::new(gateware);
    let received = Ok(Some(packet(6, 1, 3, other(1))));
    pass(&mut manager, Links { received, ..quiet(&gateware) });
    assert_eq!(manager.get_incoming_packet(), None);
}

#[test]
fn replies_go_to_the_source() {
    let gateware = plain();
    let mut manager = up(gateware);
    manager.respond(5, 9, &Payload::EchoReply);
    let actions = pass(&mut manager, Links { results: vec![Ok(true)], ..quiet(&gateware) });
    assert_eq!(
        delivered(&actions),
        vec![(Delivery::Upstream, packet(1, 9, 0x85, Payload::EchoReply))]
    );
}

#[test]
fn echo_requests_are_answered() {
    let gateware = plain();
    let mut manager = AuxManager::new(gateware);
    let received = Ok(Some(link(4, Payload::EchoRequest)));
    let actions = pass(&mut manager, Links { received, ..quiet(&gateware) });
    assert_eq!(
        actions,
        vec![
            Action::ReadLink,
            Action::ReadTsc,
            Action::Receive,
            Action::Reply { packet: link(0, Payload::EchoReply) },
            Action::ReadClock,
        ]
    );
    assert_eq!(manager.get_incoming_packet(), None);
}

#[test]
fn paths_are_taken_over_and_handed_on() {
    let gateware = routing(2);
    let mut manager = AuxManager::new(gateware);
    let hops = [7; MAX_HOPS];
    let received = Ok(Some(link(0, Payload::RoutingSetPath { destination: 20, hops })));
    let actions = pass(&mut manager, Links { received, ..quiet(&gateware) });
    assert_eq!(
        actions,
        vec![
            Action::ServiceRepeater { repno: 0 },
            Action::ServiceRepeater { repno: 1 },
            Action::ReadLink,
            Action::ReadTsc,
            Action::Receive,
            Action::SetPath { repno: 0, destination: 20, hops },
            Action::SetPath { repno: 1, destination: 20, hops },
            Action::Reply { packet: link(0, Payload::RoutingAck) },
            Action::ReadClock,
        ]
    );
    assert_eq!(manager.routing_table().get_hop(20, 31), 7);
    assert_eq!(manager.routing_table().get_hop(21, 31), INVALID_HOP);
}

#[test]
fn paths_are_only_acknowledged_without_routing() {
    let gateware = plain();
    let mut manager = AuxManager::new(gateware);
    set_path(&mut manager, &gateware, 20, 3);
    assert_eq!(manager.routing_table().get_hop(20, 1), INVALID_HOP);
}

#[test]
fn the_rank_is_taken_over_and_handed_on() {
    let gateware = routing(2);
    let mut manager = AuxManager::new(gateware);
    let received = Ok(Some(link(0, Payload::RoutingSetRank { rank: 5 })));
    let actions = pass(&mut manager, Links { received, ..quiet(&gateware) });
    assert_eq!(
        actions[5..],
        [
            Action::EnableInterconnect { rank: 5 },
            Action::SetRank { repno: 0, rank: 6 },
            Action::SetRank { repno: 1, rank: 6 },
            Action::Reply { packet: link(0, Payload::RoutingAck) },
            Action::ReadClock,
        ]
    );
    assert_eq!(manager.rank(), 5);
}

#[test]
fn a_reset_is_carried_out_and_arrives() {
    let gateware = routing(1);
    let mut manager = up(gateware);
    let received = Ok(Some(packet(0, 1, 9, Payload::ResetRequest)));
    let actions = pass(&mut manager, Links { received, ..quiet(&gateware) });
    assert_eq!(
        actions[4..],
        [
            Action::ResetRtio,
            Action::ResetRepeater { repno: 0 },
            Action::Reply { packet: link(0x89, Payload::ResetAck) },
            Action::ReadClock,
        ]
    );
    assert_eq!(manager.get_incoming_packet(), Some((9, 0, Payload::ResetRequest)));
}

#[test]
fn the_status_of_what_is_behind_a_repeater_that_is_down_is_answered() {
    let gateware = routing(2);
    let mut manager = up(gateware);
    set_path(&mut manager, &gateware, 20, 2);
    let received = Ok(Some(packet(3, 20, 5, Payload::DestinationStatusRequest)));
    let links = Links {
        received,
        repeaters_up: vec![true, false],
        results: vec![Ok(true)],
        ..quiet(&gateware)
    };
    assert_eq!(
        delivered(&pass(&mut manager, links)),
        vec![(Delivery::Upstream, packet(1, 5, 0x83, Payload::DestinationDownReply))]
    );
}

#[test]
fn the_status_of_what_is_behind_a_repeater_that_is_up_is_passed_on() {
    let gateware = routing(2);
    let mut manager = up(gateware);
    set_path(&mut manager, &gateware, 20, 1);
    let request = packet(3, 20, 5, Payload::DestinationStatusRequest);
    let links = Links {
        received: Ok(Some(request)),
        repeaters_up: vec![true, false],
        results: vec![Ok(true)],
        ..quiet(&gateware)
    };
    assert_eq!(
        delivered(&pass(&mut manager, links)),
        vec![(Delivery::Repeater { repno: 0 }, request)]
    );
}

#[test]
fn a_status_request_for_the_device_arrives() {
    let gateware = routing(1);
    let mut manager = up(gateware);
    let received = Ok(Some(packet(0, 1, 5, Payload::DestinationStatusRequest)));
    pass(&mut manager, Links { received, ..quiet(&gateware) });
    assert_eq!(
        manager.get_incoming_packet(),
        Some((5, 0, Payload::DestinationStatusRequest))
    );
}

#[test]
fn a_loaded_time_is_handed_on() {
    let gateware = routing(2);
    let mut manager = up(gateware);
    let actions = pass(&mut manager, Links { loaded: true, ..quiet(&gateware) });
    assert_eq!(
        actions[2..],
        [
            Action::ReadLink,
            Action::ReadTsc,
            Action::SyncTsc { repno: 0 },
            Action::SyncTsc { repno: 1 },
            Action::Notify { packet: link(0, Payload::TSCAck) },
            Action::Receive,
            Action::ReadClock,
        ]
    );
}

#[test]
fn packets_that_pass_through_stay_until_taken() {
    let gateware = routing(1);
    let mut manager = up(gateware);
    for byte in [1, 2, 3] {
        let links = Links {
            repeaters: vec![Ok(Some(packet(5, 0, byte, other(byte))))],
            results: vec![Ok(false); byte as usize],
            ..quiet(&gateware)
        };
        pass(&mut manager, links);
    }
    let links = Links {
        results: vec![Ok(true), Ok(false), Err(drtioaux::Error::LinkDown)],
        ..quiet(&gateware)
    };
    let tried: Vec<u8> =
        delivered(&pass(&mut manager, links)).iter().map(|(_, p)| p.transaction_id).collect();
    assert_eq!(tried, vec![1, 2, 3]);
    let links = Links { results: vec![Ok(true)], ..quiet(&gateware) };
    assert_eq!(
        delivered(&pass(&mut manager, links)),
        vec![(Delivery::Upstream, packet(5, 0, 2, other(2)))]
    );
    assert_eq!(delivered(&pass(&mut manager, quiet(&gateware))), vec![]);
}

#[test]
fn packets_for_other_devices_are_dropped_without_routing() {
    let gateware = plain();
    let mut manager = up(gateware);
    let received = Ok(Some(packet(0, 20, 1, other(1))));
    let actions = pass(&mut manager, Links { received, ..quiet(&gateware) });
    assert_eq!(delivered(&actions), vec![]);
    assert_eq!(manager.get_incoming_packet(), None);
}

#[test]
fn failures_to_receive_are_passed_over() {
    let gateware = routing(1);
    let mut manager = up(gateware);
    let links = Links {
        repeaters: vec![Err(drtioaux::Error::LinkDown)],
        received: Err(drtioaux::Error::CorruptedPacket),
        ..quiet(&gateware)
    };
    let actions = pass(&mut manager, links);
    assert_eq!(
        actions,
        vec![
            Action::ServiceRepeater { repno: 0 },
            Action::ReadLink,
            Action::ReadTsc,
            Action::Receive,
            Action::ReadClock,
        ]
    );
}

#[test]
fn packets_that_cannot_be_dealt_with_are_told() {
    let gateware = routing(2);
    let mut manager = up(gateware);
    let status = packet(0, 20, 1, Payload::DestinationStatusRequest);
    assert!(!manager.can_receive(&status));
    set_path(&mut manager, &gateware, 20, 2);
    assert!(manager.can_receive(&status));
    set_path(&mut manager, &gateware, 20, 3);
    assert!(!manager.can_receive(&status));
    set_path(&mut manager, &gateware, 20, 0);
    assert!(!manager.can_receive(&status));
    let rank = |rank| link(0, Payload::RoutingSetRank { rank });
    assert!(manager.can_receive(&rank(31)));
    assert!(!manager.can_receive(&rank(32)));
    assert!(AuxManager::new(plain()).can_receive(&rank(32)));
    assert!(manager.can_receive(&packet(3, 1, 0x81, other(0))));
}

#[test]
fn a_reply_from_upstream_reaches_its_transaction() {
    let gateware = plain();
    let mut manager = up(gateware);
    assert_eq!(manager.transact(5, other(1), 0), Ok(1));
    pass(&mut manager, Links { results: vec![Ok(true)], ..quiet(&gateware) });
    assert_eq!(manager.check_transaction(1), Ok(None));
    let received = Ok(Some(packet(5, 1, 0x81, other(2))));
    pass(&mut manager, Links { received, ..quiet(&gateware) });
    pass(&mut manager, Links { time: 5000, ..quiet(&gateware) });
    assert_eq!(manager.get_incoming_packet(), None);
    assert_eq!(manager.check_transaction(1), Ok(Some(other(2))));
    assert_eq!(manager.check_transaction(1), Ok(None));
}

#[test]
fn a_reply_from_a_repeater_reaches_its_transaction() {
    let gateware = routing(1);
    let mut manager = up(gateware);
    assert_eq!(manager.transact(5, other(1), 0), Ok(1));
    assert_eq!(manager.transact(6, other(3), 0), Ok(2));
    for _ in 0..2 {
        pass(&mut manager, Links { results: vec![Ok(true)], ..quiet(&gateware) });
    }
    let repeaters = vec![Ok(Some(packet(6, 1, 0x82, other(4))))];
    pass(&mut manager, Links { repeaters, ..quiet(&gateware) });
    assert_eq!(manager.check_transaction(1), Ok(None));
    assert_eq!(manager.check_transaction(2), Ok(Some(other(4))));
}

#[test]
fn the_reply_of_another_device_is_read() {
    let gateware = plain();
    let mut asker = up(gateware);
    assert_eq!(asker.transact(0, Payload::EchoRequest, 0), Ok(1));
    let mut replier = up(gateware);
    replier.respond(1, asker.self_destination(), &other(7));
    let sent = delivered(&pass(&mut replier, Links { results: vec![Ok(true)], ..quiet(&gateware) }));
    assert_eq!(sent.len(), 1);
    asker.route_packet(&sent[0].1);
    assert_eq!(asker.check_transaction(1), Ok(Some(other(7))));
}

#[test]
fn a_reply_to_no_transaction_is_dropped() {
    let gateware = plain();
    let mut manager = up(gateware);
    assert_eq!(manager.transact(5, other(1), 0), Ok(1));
    for transaction_id in [0x80, 0x82, 0xff] {
        manager.route_packet(&packet(5, 1, transaction_id, other(2)));
    }
    assert_eq!(manager.get_incoming_packet(), None);
    assert_eq!(manager.check_transaction(1), Ok(None));
    let actions = pass(&mut manager, Links { results: vec![Ok(true)], ..quiet(&gateware) });
    assert_eq!(delivered(&actions), vec![(Delivery::Upstream, packet(1, 5, 1, other(1)))]);
}

#[test]
fn dropped_packets_are_told() {
    let mut manager = up(plain());
    assert_eq!(manager.transact(5, other(1), 0), Ok(1));
    assert!(!manager.is_dropped(&packet(5, 1, 0x81, other(2))));
    assert!(manager.is_dropped(&packet(5, 1, 0x82, other(2))));
    assert!(!manager.is_dropped(&packet(5, 1, 2, other(2))));
    assert!(manager.is_dropped(&packet(5, 9, 1, other(2))));
    assert!(!up(routing(1)).is_dropped(&packet(5, 9, 1, other(2))));
}

#[test]
fn packets_from_upstream_are_routed_once_the_uplink_is_up() {
    let gateware = routing(2);
    let mut manager = AuxManager::new(gateware);
    let repeaters_up = vec![true, false];
    let through = packet(5, 9, 1, other(2));
    pass(&mut manager, quiet(&gateware));
    assert!(!manager.is_routed(&through, &repeaters_up));
    let mut manager = up(gateware);
    set_path(&mut manager, &gateware, 20, 2);
    set_path(&mut manager, &gateware, 21, 1);
    let status = |destination| packet(0, destination, 1, Payload::DestinationStatusRequest);
    assert!(manager.is_routed(&through, &repeaters_up));
    assert!(manager.is_routed(&packet(0, 1, 1, Payload::ResetRequest), &repeaters_up));
    assert!(manager.is_routed(&status(1), &repeaters_up));
    assert!(manager.is_routed(&status(21), &repeaters_up));
    assert!(!manager.is_routed(&status(20), &repeaters_up));
    assert!(!manager.is_routed(&link(0, Payload::EchoRequest), &repeaters_up));
    assert!(!manager.is_routed(&link(0, Payload::RoutingSetRank { rank: 1 }), &repeaters_up));
}

#[test]
fn set_up_packets_are_consumed() {
    let gateware = routing(2);
    let mut manager = up(gateware);
    set_path(&mut manager, &gateware, 20, 2);
    set_path(&mut manager, &gateware, 21, 1);
    let repeaters_up = vec![true, false];
    let hops = [0; MAX_HOPS];
    for (packet, consumed, actions) in [
        (link(0, Payload::EchoRequest), true, 1),
        (link(0, Payload::RoutingSetPath { destination: 30, hops }), true, 3),
        (link(0, Payload::RoutingSetRank { rank: 1 }), true, 4),
        (packet(0, 20, 1, Payload::DestinationStatusRequest), true, 0),
        (packet(0, 21, 1, Payload::DestinationStatusRequest), false, 0),
        (packet(0, 1, 1, Payload::DestinationStatusRequest), false, 0),
        (packet(0, 1, 1, Payload::ResetRequest), false, 4),
        (packet(0, 1, 1, Payload::EchoReply), false, 0),
        (packet(0, 1, 1, other(1)), false, 0),
    ] {
        let setup = manager.handle_setup_packet(&packet, &repeaters_up);
        assert_eq!(setup.consumed, consumed);
        assert_eq!(setup.actions.len(), actions);
    }
    assert_eq!(manager.get_incoming_packet(), None);
}

#[test]
fn packets_take_the_link_of_the_routing_table() {
    let gateware = routing(3);
    let mut table = RoutingTable::default_empty();
    for (destination, hop) in [(10, 0), (11, 1), (12, 2), (13, 3)] {
        let mut hops = [0; MAX_HOPS];
        hops[4] = hop;
        table.set_path(destination, hops);
    }
    let way = |state, force, destination| {
        send(&gateware, &table, 4, state, force, &packet(1, destination, 0, other(0)))
    };
    assert_eq!(way(UpstreamState::Up, None, 10), Delivery::Upstream);
    assert_eq!(way(UpstreamState::Up, None, 11), Delivery::Repeater { repno: 0 });
    assert_eq!(way(UpstreamState::Down, None, 12), Delivery::Repeater { repno: 1 });
    assert_eq!(way(UpstreamState::Up, None, 13), Delivery::Upstream);
    assert_eq!(way(UpstreamState::SettingUp, None, 13), Delivery::Hold);
    assert_eq!(way(UpstreamState::Down, None, 10), Delivery::Hold);
    assert_eq!(way(UpstreamState::Up, Some(2), 11), Delivery::Repeater { repno: 1 });
    assert_eq!(way(UpstreamState::Up, Some(0), 11), Delivery::Upstream);
    let without = Gateware { drtio_routing: false, ..gateware };
    assert_eq!(
        send(&without, &table, 4, UpstreamState::Up, None, &packet(1, 11, 0, other(0))),
        Delivery::Upstream
    );
}
