//! What holds of the manager of the auxiliary channel over several calls.

use vstd::prelude::*;

use crate::drtioaux;
use crate::satman::aux::{
    Action, AuxView, Delivery, Event, Service, MAX_TRANSACTIONS, REPLY_BIT,
};
use crate::satman::packet::{Packet, Payload};
use crate::satman::transaction::{Error, DEFAULT_TIMEOUT};

verus! {

/// The number that a transaction gets is determined by the manager.
pub proof fn law_the_next_number_is_determined(view: AuxView, a: u8, b: u8)
    requires
        view.wf(),
        view.is_next_free(a),
        view.is_next_free(b),
    ensures
        a == b,
{
    let offset_a = choose|offset: int|
        {
            &&& 1 <= offset <= MAX_TRANSACTIONS
            &&& a == #[trigger] view.slot_at(offset)
            &&& view.outgoing[a as int] is None
            &&& forall|nearer: int|
                1 <= nearer < offset ==> view.outgoing[#[trigger] view.slot_at(nearer)] is Some
        };
    let offset_b = choose|offset: int|
        {
            &&& 1 <= offset <= MAX_TRANSACTIONS
            &&& b == #[trigger] view.slot_at(offset)
            &&& view.outgoing[b as int] is None
            &&& forall|nearer: int|
                1 <= nearer < offset ==> view.outgoing[#[trigger] view.slot_at(nearer)] is Some
        };
    if offset_a < offset_b {
        assert(view.outgoing[view.slot_at(offset_a)] is Some);
    } else if offset_b < offset_a {
        assert(view.outgoing[view.slot_at(offset_b)] is Some);
    }
}

/// Transactions that are under way at the same time have different numbers,
/// and starting one leaves the others as they are.
pub proof fn law_transactions_have_their_own_numbers(
    view: AuxView,
    transaction_id: u8,
    destination: u8,
    payload: Payload,
    now: u64,
    other: u8,
)
    requires
        view.wf(),
        view.is_next_free(transaction_id),
        other < MAX_TRANSACTIONS,
        view.outgoing[other as int] is Some,
    ensures
        transaction_id != other,
        view.after_transact(transaction_id, destination, payload, now).outgoing[transaction_id as int]
            is Some,
        view.after_transact(transaction_id, destination, payload, now).outgoing[other as int]
            == view.outgoing[other as int],
{
}

/// A packet for the device that has been routed, and is no reply, waits to be
/// handed out with what it says.
pub proof fn law_routed_packets_arrive(view: AuxView, packet: Packet)
    requires
        packet.destination == view.self_destination,
        packet.transaction_id < MAX_TRANSACTIONS,
    ensures
        crate::satman::inbox::is_waiting(
            view.after_route(packet).incoming,
            (packet.transaction_id, packet.source),
        ),
        view.after_route(packet).incoming[(packet.transaction_id, packet.source)].payload
            == packet.payload,
{
}

/// The reply that another device leaves to be sent for a transaction reaches the
/// transaction: once it has been routed, the next reading of the transaction
/// yields what the reply says. Nothing else changes.
pub proof fn law_replies_reach_their_transaction(
    view: AuxView,
    replier: AuxView,
    transaction_id: u8,
    response: Payload,
    other: int,
)
    requires
        view.wf(),
        transaction_id < MAX_TRANSACTIONS,
        view.outgoing[transaction_id as int] is Some,
        0 <= other < MAX_TRANSACTIONS,
        other != transaction_id,
    ensures
        ({
            let reply = replier.after_respond(
                transaction_id,
                view.self_destination,
                response,
            ).routable.last();
            let after = view.after_route(reply);
            &&& after.outgoing[transaction_id as int] is Some
            &&& after.outgoing[transaction_id as int]->0.reading() == Ok::<Option<Payload>, Error>(
                Some(response),
            )
            &&& after.outgoing[other] == view.outgoing[other]
            &&& after == (AuxView { outgoing: after.outgoing, ..view })
        }),
{
    law_replies_go_to_the_source(replier, transaction_id, view.self_destination, response);
}

/// A packet that is dropped changes nothing. Any other that is routed is where
/// it belongs: at the transaction that it replies to, among the packets that
/// have arrived, or among those that wait to be sent on.
pub proof fn law_packets_are_dropped_or_kept(view: AuxView, packet: Packet)
    requires
        view.wf(),
    ensures
        ({
            let after = view.after_route(packet);
            if view.drops(packet) {
                after == view
            } else if packet.destination != view.self_destination {
                after.routable == view.routable.push(packet)
            } else if packet.transaction_id >= REPLY_BIT {
                let entry = after.outgoing[packet.transaction_id - REPLY_BIT];
                entry is Some && entry->0.reading() == Ok::<Option<Payload>, Error>(
                    Some(packet.payload),
                )
            } else {
                &&& crate::satman::inbox::is_waiting(
                    after.incoming,
                    (packet.transaction_id, packet.source),
                )
                &&& after.incoming[(packet.transaction_id, packet.source)].payload
                    == packet.payload
            }
        }),
{
}

/// The event brings a packet from a repeater or from upstream.
pub open spec fn brings_a_packet(event: Event) -> bool {
    ||| event matches Event::Serviced { received: Ok(Some(_)) }
    ||| event matches Event::Received { received: Ok(Some(_)), .. }
}

/// A reply that has come in waits to be read: whatever a pass does, only
/// another reply to the transaction takes its place.
pub proof fn law_replies_wait_to_be_read(
    view: AuxView,
    state: Service,
    event: Event,
    slot: int,
)
    requires
        view.wf(),
        view.routable.len() <= usize::MAX,
        view.is_at(state),
        view.can_take(state, event),
        0 <= slot < MAX_TRANSACTIONS,
        view.outgoing[slot] is Some,
        view.outgoing[slot]->0.state is Received,
    ensures
        ({
            let after = view.serve(state, event).view;
            &&& after.outgoing[slot] is Some
            &&& after.outgoing[slot]->0.state is Received
            &&& !brings_a_packet(event) ==> after.outgoing[slot] == view.outgoing[slot]
        }),
{
}

/// Echo requests, paths and the rank are consumed by the set-up, as is a request
/// for the status of a destination behind a repeater that is down, and nothing
/// else is. What is not consumed, and is no request for a reset, leads to
/// nothing and changes nothing.
pub proof fn law_set_up_packets_are_consumed(
    view: AuxView,
    packet: Packet,
    repeaters_up: Seq<bool>,
)
    ensures
        ({
            let setup = view.set_up(packet, repeaters_up);
            &&& setup.consumed <==> {
                ||| packet.payload is EchoRequest
                ||| packet.payload is RoutingSetPath
                ||| packet.payload is RoutingSetRank
                ||| packet.payload is DestinationStatusRequest && view.is_way_down(
                    packet,
                    repeaters_up,
                )
            }
            &&& !setup.consumed ==> setup.view == view
            &&& !setup.consumed && !(packet.payload is ResetRequest) ==> setup.actions == Seq::<
                Action,
            >::empty()
        }),
{
}

/// A packet that has been handed out is not handed out again, and those that
/// wait go on waiting as they are.
pub proof fn law_packets_are_handed_out_once(
    before: AuxView,
    after: AuxView,
    transaction_id: u8,
    source: u8,
    payload: Payload,
    other: (u8, u8),
)
    requires
        crate::satman::inbox::handed_out(
            before.incoming,
            after.incoming,
            Some((transaction_id, source, payload)),
        ),
        other != (transaction_id, source),
    ensures
        crate::satman::inbox::is_waiting(before.incoming, (transaction_id, source)),
        !crate::satman::inbox::is_waiting(after.incoming, (transaction_id, source)),
        crate::satman::inbox::is_waiting(after.incoming, other)
            == crate::satman::inbox::is_waiting(before.incoming, other),
        crate::satman::inbox::is_waiting(before.incoming, other) ==> after.incoming[other]
            == before.incoming[other],
{
}

/// The end of a pass forgets the packets that have been handed out and no
/// others.
pub proof fn law_waiting_packets_are_kept(view: AuxView, key: (u8, u8))
    ensures
        view.finish().view.incoming.contains_key(key) == crate::satman::inbox::is_waiting(
            view.incoming,
            key,
        ),
        crate::satman::inbox::is_waiting(view.incoming, key) ==> view.finish().view.incoming[key]
            == view.incoming[key],
{
}

/// A pass forgets a transaction only when its end has been read, and starts
/// none. Whatever it keeps has the packet, the time and the link that it had.
pub proof fn law_only_read_transactions_are_forgotten(
    view: AuxView,
    state: Service,
    event: Event,
    slot: int,
)
    requires
        view.wf(),
        view.routable.len() <= usize::MAX,
        view.is_at(state),
        view.can_take(state, event),
        0 <= slot < MAX_TRANSACTIONS,
    ensures
        ({
            let before = view.outgoing[slot];
            let after = view.serve(state, event).view.outgoing[slot];
            &&& before is None ==> after is None
            &&& before is Some && !(before->0.state is BeenRead) ==> after is Some
            &&& after is Some ==> {
                &&& after->0.packet == before->0.packet
                &&& after->0.max_time == before->0.max_time
                &&& after->0.force_linkno == before->0.force_linkno
            }
        }),
{
}

/// A transaction that stays without a reply beyond its time fails with a
/// timeout, once a pass comes to it.
pub proof fn law_late_transactions_time_out(view: AuxView, time: u64, slot: int)
    requires
        view.wf(),
        0 <= slot < view.first_due(time, 0),
        slot < MAX_TRANSACTIONS,
        view.outgoing[slot] is Some,
        view.outgoing[slot]->0.is_pending(),
        view.outgoing[slot]->0.max_time < time,
    ensures
        view.after_sweep(time).outgoing[slot]->0.reading() == Err::<Option<Payload>, Error>(
            Error::Timeout,
        ),
{
}

/// How far a step of a pass is from the end.
pub open spec fn phases_left(state: Service) -> nat {
    match state {
        Service::Repeaters { .. } => 7,
        Service::Link => 6,
        Service::Tsc => 5,
        Service::Receive => 4,
        Service::Clock => 3,
        Service::Routable { .. } => 2,
        Service::Outgoing { .. } => 1,
        Service::Done => 0,
    }
}

/// How much is left to do in a phase of a pass.
pub open spec fn left_in_phase(view: AuxView, state: Service) -> int {
    match state {
        Service::Repeaters { repno } => view.gateware.repeaters_spec() - repno,
        Service::Routable { index, .. } => view.routable.len() - index,
        _ => 0,
    }
}

/// Every pass ends: each step brings it to a later phase, or leaves less to do
/// in the one that it is in.
pub proof fn law_passes_end(view: AuxView, state: Service, event: Event)
    requires
        view.wf(),
        view.routable.len() <= usize::MAX,
        view.is_at(state),
        view.can_take(state, event),
    ensures
        ({
            let step = view.serve(state, event);
            ||| phases_left(step.state) < phases_left(state)
            ||| phases_left(step.state) == phases_left(state) && 0 <= left_in_phase(
                step.view,
                step.state,
            ) < left_in_phase(view, state)
        }),
{
    match (state, event) {
        (Service::Clock, Event::Time { .. }) => {
            view.lemma_next_routable(0);
        },
        (Service::Routable { index, .. }, Event::Delivered { result }) => {
            let after = view.after_offer(index as nat, result);
            after.lemma_next_routable(index as nat);
            if result == Ok::<bool, drtioaux::Error>(false) {
                after.lemma_next_routable((index + 1) as nat);
            }
        },
        _ => {},
    }
}

/// A pass sends at most one transaction: once one has been offered to its
/// link, the pass is over.
pub proof fn law_one_transaction_is_sent_in_a_pass(
    view: AuxView,
    slot: usize,
    result: Result<bool, drtioaux::Error>,
)
    ensures
        view.serve(Service::Outgoing { slot }, Event::Delivered { result }).state is Done,
        view.serve(Service::Outgoing { slot }, Event::Delivered { result }).actions.len() == 0,
{
}

/// A transaction that has been started is sent by the next pass, with the packet
/// that it was started with, if none before it is due and there is a way for it.
pub proof fn law_started_transactions_are_sent(
    view: AuxView,
    transaction_id: u8,
    destination: u8,
    payload: Payload,
    now: u64,
    time: u64,
)
    requires
        view.wf(),
        view.is_next_free(transaction_id),
        now + DEFAULT_TIMEOUT <= u64::MAX,
        time <= now + DEFAULT_TIMEOUT,
        forall|slot: int|
            0 <= slot < transaction_id ==> !crate::satman::aux::is_slot_due(
                #[trigger] view.outgoing[slot],
                time,
            ),
        !(view.way(
            None,
            Packet { source: view.self_destination, destination, transaction_id, payload },
        ) is Hold),
    ensures
        ({
            let packet = Packet {
                source: view.self_destination,
                destination,
                transaction_id,
                payload,
            };
            let started = view.after_transact(transaction_id, destination, payload, now);
            let step = started.serve_outgoing(time);
            &&& step.state == (Service::Outgoing { slot: transaction_id as usize })
            &&& step.actions == seq![
                Action::Deliver { way: view.way(None, packet), time, packet },
            ]
        }),
{
    let started = view.after_transact(transaction_id, destination, payload, now);
    started.lemma_first_due(time, 0);
    let first = started.first_due(time, 0);
    assert(crate::satman::aux::is_slot_due(started.outgoing[transaction_id as int], time));
    if first < transaction_id {
        assert(started.outgoing[first as int] == view.outgoing[first as int]);
    }
}

/// A transaction counts as sent only once its link has taken the packet.
pub proof fn law_only_taken_packets_count_as_sent(
    view: AuxView,
    slot: usize,
    result: Result<bool, drtioaux::Error>,
    other: int,
)
    requires
        slot < view.outgoing.len(),
        view.outgoing[slot as int] is Some,
        0 <= other < view.outgoing.len(),
        other != slot,
    ensures
        ({
            let after = view.serve(Service::Outgoing { slot }, Event::Delivered { result }).view;
            &&& after.outgoing[slot as int] == if result == Ok::<bool, drtioaux::Error>(true) {
                Some(view.outgoing[slot as int]->0.after_sending())
            } else {
                view.outgoing[slot as int]
            }
            &&& after.outgoing[other] == view.outgoing[other]
        }),
{
}

/// Upstream sends the device a path.
pub open spec fn sets_path(event: Event) -> bool {
    event matches Event::Received { received: Ok(Some(packet)), .. } && packet.payload
        is RoutingSetPath
}

/// Upstream tells the device its rank.
pub open spec fn sets_rank(event: Event) -> bool {
    event matches Event::Received { received: Ok(Some(packet)), .. } && packet.payload
        is RoutingSetRank
}

/// Only upstream sets the paths and the rank, each by a packet of its own. The
/// destination that the device is, its gateware and the number that was given
/// out last do not change in a pass.
pub proof fn law_only_upstream_sets_the_routing(view: AuxView, state: Service, event: Event)
    requires
        view.can_take(state, event),
    ensures
        ({
            let after = view.serve(state, event).view;
            &&& !sets_path(event) ==> after.paths == view.paths
            &&& !sets_rank(event) ==> after.rank == view.rank
            &&& after.self_destination == view.self_destination
            &&& after.gateware == view.gateware
            &&& after.next_id == view.next_id
        }),
{
}

/// The uplink comes up only when upstream tells the device its rank.
pub proof fn law_the_rank_brings_the_uplink_up(view: AuxView, state: Service, event: Event)
    requires
        view.can_take(state, event),
        !(view.upstream_state is Up),
        view.serve(state, event).view.upstream_state is Up,
    ensures
        sets_rank(event),
{
}

/// No packet is sent upstream on behalf of a transaction or another device
/// while the uplink is not up.
pub proof fn law_nothing_is_sent_before_the_uplink_is_up(
    view: AuxView,
    state: Service,
    event: Event,
    i: int,
    way: Delivery,
    time: u64,
    packet: Packet,
)
    requires
        view.wf(),
        view.is_at(state),
        view.can_take(state, event),
        0 <= i < view.serve(state, event).actions.len(),
        view.serve(state, event).actions[i] == (Action::Deliver { way, time, packet }),
    ensures
        way is Upstream ==> view.serve(state, event).view.upstream_state is Up,
        !(way is Hold),
{
    match (state, event) {
        (Service::Clock, Event::Time { .. }) => {
            view.lemma_next_routable(0);
        },
        (Service::Routable { index, .. }, Event::Delivered { result }) => {
            let after = view.after_offer(index as nat, result);
            after.lemma_next_routable(index as nat);
            if result == Ok::<bool, drtioaux::Error>(false) {
                after.lemma_next_routable((index + 1) as nat);
            }
        },
        _ => {},
    }
}

/// When the receiver of the uplink is down, the uplink is down, and with it up
/// again the device has to be told its rank anew before packets are sent.
pub proof fn law_a_lost_link_is_set_up_anew(view: AuxView)
    ensures
        view.after_link(false).upstream_state is Down,
        view.after_link(false).after_link(true).upstream_state is SettingUp,
{
}

/// While the uplink is being set up, nothing that comes from upstream arrives
/// at the device or at one of its transactions.
pub proof fn law_nothing_arrives_during_the_set_up(
    view: AuxView,
    packet: Packet,
    repeaters_up: Seq<bool>,
)
    requires
        view.upstream_state is SettingUp,
    ensures
        view.receive(packet, repeaters_up).view.incoming == view.incoming,
        view.receive(packet, repeaters_up).view.outgoing == view.outgoing,
{
}

/// A reply goes to the source of the transaction, under its number with the
/// reply bit set.
pub proof fn law_replies_go_to_the_source(
    view: AuxView,
    transaction_id: u8,
    source: u8,
    response: Payload,
)
    requires
        transaction_id < MAX_TRANSACTIONS,
    ensures
        ({
            let reply = view.after_respond(transaction_id, source, response).routable.last();
            &&& reply.source == view.self_destination
            &&& reply.destination == source
            &&& reply.transaction_id == transaction_id + REPLY_BIT
            &&& reply.payload == response
        }),
{
    assert(transaction_id < 128 ==> transaction_id | 0x80 == transaction_id + 0x80)
        by (bit_vector);
}

/// What a pass comes to with the answers to its offers of packets that pass
/// through.
pub open spec fn offered(
    view: AuxView,
    state: Service,
    results: Seq<Result<bool, drtioaux::Error>>,
) -> AuxView
    decreases results.len(),
{
    if state is Routable && results.len() > 0 {
        let step = view.serve(state, Event::Delivered { result: results.first() });
        offered(step.view, step.state, results.drop_first())
    } else {
        view
    }
}

/// The packets that pass through after a number of offers, from an index on.
spec fn after_offers(
    view: AuxView,
    index: nat,
    results: Seq<Result<bool, drtioaux::Error>>,
) -> AuxView
    decreases results.len(),
{
    let next = view.next_routable(index);
    if next < view.routable.len() && results.len() > 0 {
        after_offers(
            view.after_offer(next, results.first()),
            if results.first() == Ok::<bool, drtioaux::Error>(false) {
                next + 1
            } else {
                next
            },
            results.drop_first(),
        )
    } else {
        view
    }
}

/// Of the packets, those that stay: a packet without a way to take, and one
/// that its link did not take but may later. A packet whose link failed is
/// dropped, as one that was sent.
pub open spec fn staying(
    view: AuxView,
    packets: Seq<Packet>,
    results: Seq<Result<bool, drtioaux::Error>>,
) -> Seq<Packet>
    decreases packets.len(),
{
    if packets.len() == 0 {
        seq![]
    } else if view.way(None, packets.first()) is Hold {
        seq![packets.first()] + staying(view, packets.drop_first(), results)
    } else if results.len() == 0 {
        packets
    } else if results.first() == Ok::<bool, drtioaux::Error>(false) {
        seq![packets.first()] + staying(view, packets.drop_first(), results.drop_first())
    } else {
        staying(view, packets.drop_first(), results.drop_first())
    }
}

/// Whatever the links answer, a pass leaves the packets that stay, in their
/// order, and no others of those that passed through.
pub proof fn law_a_pass_keeps_what_stays(
    view: AuxView,
    time: u64,
    results: Seq<Result<bool, drtioaux::Error>>,
)
    requires
        view.routable.len() <= usize::MAX,
    ensures
        ({
            let step = view.serve(Service::Clock, Event::Time { time });
            offered(step.view, step.state, results).routable == staying(
                view,
                view.routable,
                results,
            )
        }),
{
    lemma_offers_are_served(view, time, 0, results);
    lemma_offers_keep_what_stays(view, 0, results);
    assert(view.routable.skip(0) =~= view.routable);
    assert(view.routable.take(0) + staying(view, view.routable, results) =~= staying(
        view,
        view.routable,
        results,
    ));
}

proof fn lemma_offers_are_served(
    view: AuxView,
    time: u64,
    index: nat,
    results: Seq<Result<bool, drtioaux::Error>>,
)
    requires
        index <= view.routable.len() <= usize::MAX,
    ensures
        ({
            let step = view.serve_routable(time, index);
            offered(step.view, step.state, results).routable == after_offers(
                view,
                index,
                results,
            ).routable
        }),
    decreases results.len(),
{
    view.lemma_next_routable(index);
    let next = view.next_routable(index);
    if next < view.routable.len() && results.len() > 0 {
        let after = view.after_offer(next, results.first());
        if results.first() == Ok::<bool, drtioaux::Error>(false) {
            lemma_offers_are_served(after, time, next + 1, results.drop_first());
        } else {
            lemma_offers_are_served(after, time, next, results.drop_first());
        }
    }
}

proof fn lemma_offers_keep_what_stays(
    view: AuxView,
    index: nat,
    results: Seq<Result<bool, drtioaux::Error>>,
)
    requires
        index <= view.routable.len(),
    ensures
        after_offers(view, index, results) == (AuxView {
            routable: view.routable.take(index as int) + staying(
                view,
                view.routable.skip(index as int),
                results,
            ),
            ..view
        }),
    decreases view.routable.len() - index,
{
    let packets = view.routable.skip(index as int);
    let done = view.routable.take(index as int);
    if index == view.routable.len() {
        assert(done + seq![] =~= view.routable);
        assert(packets =~= seq![]);
    } else {
        let packet = view.routable[index as int];
        assert(packets.first() == packet);
        assert(packets.drop_first() =~= view.routable.skip(index as int + 1));
        assert(view.routable.take(index as int + 1) =~= done + seq![packet]);
        if view.way(None, packet) is Hold {
            lemma_offers_keep_what_stays(view, index + 1, results);
            assert(view.next_routable(index) == view.next_routable(index + 1));
            assert(after_offers(view, index, results) == after_offers(view, index + 1, results));
            let rest = staying(view, packets.drop_first(), results);
            assert(done + seq![packet] + rest =~= done + (seq![packet] + rest));
        } else if results.len() == 0 {
            assert(done + packets =~= view.routable);
        } else if results.first() == Ok::<bool, drtioaux::Error>(false) {
            lemma_offers_keep_what_stays(view, index + 1, results.drop_first());
            let rest = staying(view, packets.drop_first(), results.drop_first());
            assert(done + seq![packet] + rest =~= done + (seq![packet] + rest));
        } else {
            let after = view.after_offer(index, results.first());
            lemma_offers_keep_what_stays(after, index, results.drop_first());
            assert(after.routable.take(index as int) =~= done);
            assert(after.routable.skip(index as int) =~= packets.drop_first());
            lemma_staying_depends_on_ways(
                view,
                after,
                packets.drop_first(),
                results.drop_first(),
            );
        }
    }
}

proof fn lemma_staying_depends_on_ways(
    a: AuxView,
    b: AuxView,
    packets: Seq<Packet>,
    results: Seq<Result<bool, drtioaux::Error>>,
)
    requires
        b == (AuxView { routable: b.routable, ..a }),
    ensures
        staying(a, packets, results) == staying(b, packets, results),
    decreases packets.len(),
{
    if packets.len() > 0 {
        lemma_staying_depends_on_ways(a, b, packets.drop_first(), results);
        if results.len() > 0 {
            lemma_staying_depends_on_ways(a, b, packets.drop_first(), results.drop_first());
        }
    }
}

} // verus!
