//! What holds of each step of the manager of the auxiliary channel: which way a
//! packet takes, what a packet sets up, and what a pass does next.

use vstd::prelude::*;

use crate::drtioaux;
use crate::gateware::Gateware;
use crate::routing::{DEST_COUNT, MAX_HOPS};
use crate::satman::aux::{
    Action, AuxView, Delivery, Event, Service, ServiceView, UpstreamState, MAX_TRANSACTIONS,
};
use crate::satman::packet::{Packet, Payload};
use crate::satman::transaction::{
    IncomingTransaction, IncomingTransactionState, OutgoingTransaction, TransactionState,
};

verus! {

/// Number of repeaters that are driven.
pub open spec fn driven(gateware: Gateware) -> int {
    if gateware.drtio_routing {
        gateware.drtiorep as int
    } else {
        0
    }
}

/// The way of a packet depends on nothing of the packet but its destination.
pub proof fn law_ways_depend_on_the_destination_alone(
    gateware: Gateware,
    paths: Seq<[u8; MAX_HOPS]>,
    rank: u8,
    upstream_state: UpstreamState,
    force_linkno: Option<u8>,
    a: Packet,
    b: Packet,
)
    requires
        a.destination == b.destination,
    ensures
        crate::satman::aux::delivery(gateware, paths, rank, upstream_state, force_linkno, a)
            == crate::satman::aux::delivery(
            gateware,
            paths,
            rank,
            upstream_state,
            force_linkno,
            b,
        ),
{
}

/// With routing, a packet leaves through a repeater just if the link that it is
/// forced to, or else the one that the table holds for its destination at the
/// rank of the device, lies strictly between 0 and the number of repeaters; and
/// then through the repeater of that link, counted from 1, be it a request or a
/// reply, and whatever the uplink does. Any other packet leaves through the
/// uplink just if it is up, and otherwise stays.
pub proof fn law_packets_leave_through_the_link_of_the_table(
    gateware: Gateware,
    paths: Seq<[u8; MAX_HOPS]>,
    rank: u8,
    upstream_state: UpstreamState,
    force_linkno: Option<u8>,
    packet: Packet,
)
    ensures
        ({
            let link: u8 = if force_linkno is Some {
                force_linkno->0
            } else {
                paths[packet.destination as int]@[rank as int]
            };
            let below = gateware.drtio_routing && 0 < link < gateware.drtiorep;
            let way = crate::satman::aux::delivery(
                gateware,
                paths,
                rank,
                upstream_state,
                force_linkno,
                packet,
            );
            &&& below <==> way is Repeater
            &&& way matches Delivery::Repeater { repno } ==> repno + 1 == link
            &&& way is Upstream <==> !below && upstream_state is Up
            &&& way is Hold <==> !below && !(upstream_state is Up)
        }),
{
}

/// The manager sends by its own gateware, table, rank and uplink.
pub proof fn law_the_manager_sends_by_its_own_table(
    view: AuxView,
    force_linkno: Option<u8>,
    packet: Packet,
)
    ensures
        view.way(force_linkno, packet) == crate::satman::aux::delivery(
            view.gateware,
            view.paths,
            view.rank,
            view.upstream_state,
            force_linkno,
            packet,
        ),
{
}

/// A packet goes to just one place. For the device, a number with the reply bit
/// is a reply to the transaction of the number without it, which takes it in if
/// there is one; any other arrives, in place of one of the same number and
/// source. A packet for another device waits to be sent on, as the last, if
/// there is routing. Nothing else changes.
pub proof fn law_a_routed_packet_goes_to_one_place(
    view: AuxView,
    packet: Packet,
    key: (u8, u8),
    slot: int,
)
    requires
        view.wf(),
        0 <= slot < MAX_TRANSACTIONS,
    ensures
        ({
            let after = view.after_route(packet);
            let here = packet.destination == view.self_destination;
            let reply = here && packet.transaction_id >= 128;
            let arrives = here && packet.transaction_id < 128;
            let arrived = (packet.transaction_id, packet.source);
            &&& after == (AuxView {
                incoming: after.incoming,
                outgoing: after.outgoing,
                routable: after.routable,
                ..view
            })
            &&& !here && view.gateware.drtio_routing ==> after.routable == view.routable.push(
                packet,
            )
            &&& here || !view.gateware.drtio_routing ==> after.routable == view.routable
            &&& !arrives ==> after.incoming == view.incoming
            &&& arrives ==> after.incoming.contains_key(arrived) && after.incoming[arrived] == (
            IncomingTransaction {
                payload: packet.payload,
                state: IncomingTransactionState::Received,
            })
            &&& arrives && key != arrived ==> after.incoming.contains_key(key)
                == view.incoming.contains_key(key) && after.incoming[key] == view.incoming[key]
            &&& after.outgoing.len() == view.outgoing.len()
            &&& reply && slot == packet.transaction_id - 128 ==> (
            after.outgoing[slot] is Some <==> view.outgoing[slot] is Some) && (
            view.outgoing[slot] is Some ==> after.outgoing[slot]->0 == (OutgoingTransaction {
                state: TransactionState::Received(packet.payload),
                ..view.outgoing[slot]->0
            }))
            &&& !(reply && slot == packet.transaction_id - 128) ==> after.outgoing[slot]
                == view.outgoing[slot]
        }),
{
}

/// A packet is dropped when it is routed just if nothing of the manager changes
/// by it whatever the packet says.
pub proof fn law_dropped_packets_leave_no_mark(view: AuxView, packet: Packet)
    requires
        view.wf(),
    ensures
        view.drops(packet) <==> (forall|payload: Payload|
            #[trigger] view.after_route(Packet { payload, ..packet }) == view),
{
    if !view.drops(packet) {
        let a = Packet { payload: Payload::EchoReply, ..packet };
        let b = Packet { payload: Payload::EchoRequest, ..packet };
        if view.after_route(a) == view && view.after_route(b) == view {
            if packet.destination != view.self_destination {
                assert(view.after_route(a).routable.len() == view.routable.len() + 1);
            } else if packet.transaction_id >= 128 {
                let slot = packet.transaction_id - 128;
                assert(view.after_route(a).outgoing[slot]->0.state == TransactionState::Received(
                    Payload::EchoReply,
                ));
                assert(view.after_route(b).outgoing[slot]->0.state == TransactionState::Received(
                    Payload::EchoRequest,
                ));
            } else {
                let key = (packet.transaction_id, packet.source);
                assert(view.after_route(a).incoming[key].payload == Payload::EchoReply);
                assert(view.after_route(b).incoming[key].payload == Payload::EchoRequest);
            }
        }
    }
}

/// The action sends upstream, on the link itself, a packet of this number that
/// says this.
pub open spec fn replies(action: Action, transaction_id: u8, payload: Payload) -> bool {
    action matches Action::Reply { packet } && packet.source == 0 && packet.destination == 0
        && packet.transaction_id == transaction_id && packet.payload == payload
}

/// An echo is answered, and nothing else is done about it.
pub proof fn law_echoes_are_answered(view: AuxView, packet: Packet, repeaters_up: Seq<bool>)
    requires
        packet.payload is EchoRequest,
    ensures
        ({
            let setup = view.set_up(packet, repeaters_up);
            &&& setup.consumed
            &&& setup.view == view
            &&& setup.actions.len() == 1
            &&& replies(setup.actions[0], 0, Payload::EchoReply)
        }),
{
}

/// A path is handed on to every repeater that is driven, once each and
/// unchanged, and then acknowledged. With routing it is entered, and no other
/// path changes; without, none does.
pub proof fn law_a_path_is_entered_and_handed_on(
    view: AuxView,
    packet: Packet,
    repeaters_up: Seq<bool>,
    destination: u8,
    hops: [u8; MAX_HOPS],
    repno: int,
    other: u8,
)
    requires
        view.paths.len() == DEST_COUNT,
        packet.payload == (Payload::RoutingSetPath { destination, hops }),
    ensures
        ({
            let setup = view.set_up(packet, repeaters_up);
            let n = driven(view.gateware);
            &&& setup.consumed
            &&& setup.actions.len() == n + 1
            &&& 0 <= repno < n ==> (setup.actions[repno] matches Action::SetPath {
                repno: told,
                destination: to,
                hops: path,
            } && told == repno && to == destination && path == hops)
            &&& replies(setup.actions[n], 0, Payload::RoutingAck)
            &&& setup.view == (AuxView { paths: setup.view.paths, ..view })
            &&& setup.view.paths.len() == view.paths.len()
            &&& view.gateware.drtio_routing ==> setup.view.paths[destination as int] == hops
            &&& other != destination || !view.gateware.drtio_routing
                ==> setup.view.paths[other as int] == view.paths[other as int]
        }),
{
}

/// The rank is taken over and brings the uplink up. With routing the
/// interconnect is set up for it, and every repeater that is driven is told the
/// rank below, once each. Then it is acknowledged.
pub proof fn law_the_rank_is_taken_and_handed_on(
    view: AuxView,
    packet: Packet,
    repeaters_up: Seq<bool>,
    rank: u8,
    repno: int,
)
    requires
        packet.payload == (Payload::RoutingSetRank { rank }),
        rank < MAX_HOPS,
    ensures
        ({
            let setup = view.set_up(packet, repeaters_up);
            let n = driven(view.gateware);
            let k: int = if view.gateware.drtio_routing {
                1
            } else {
                0
            };
            &&& setup.consumed
            &&& setup.view.rank == rank
            &&& setup.view.upstream_state is Up
            &&& setup.view == (AuxView { rank, upstream_state: UpstreamState::Up, ..view })
            &&& setup.actions.len() == k + n + 1
            &&& view.gateware.drtio_routing ==> setup.actions[0] == (Action::EnableInterconnect {
                rank,
            })
            &&& 0 <= repno < n ==> (setup.actions[k + repno] matches Action::SetRank {
                repno: told,
                rank: below,
            } && told == repno && below == rank + 1)
            &&& replies(setup.actions[k + n], 0, Payload::RoutingAck)
        }),
{
}

/// Whatever the gateware, a request for a reset resets the RTIO core first and
/// every repeater that is driven once, and is then acknowledged under its number
/// with the reply bit set. The request itself goes on to whom it is for, and the
/// manager stays as it is.
pub proof fn law_a_reset_reaches_everything(
    view: AuxView,
    packet: Packet,
    repeaters_up: Seq<bool>,
    repno: int,
)
    requires
        packet.payload is ResetRequest,
    ensures
        ({
            let setup = view.set_up(packet, repeaters_up);
            let n = driven(view.gateware);
            &&& !setup.consumed
            &&& setup.view == view
            &&& setup.actions.len() == n + 2
            &&& setup.actions[0] is ResetRtio
            &&& 0 <= repno < n ==> (setup.actions[1 + repno] matches Action::ResetRepeater {
                repno: reset,
            } && reset == repno)
            &&& replies(setup.actions[n + 1], packet.transaction_id | 0x80, Payload::ResetAck)
        }),
{
}

/// A request for the status of a destination is consumed just if there is
/// routing, the destination is another device, and the repeater behind its link
/// is down. Then one packet more waits to be sent on, as the last, which says
/// that the destination is down. Otherwise nothing changes. Nothing is done at
/// once in either case.
pub proof fn law_only_ways_that_are_down_are_answered_for(
    view: AuxView,
    packet: Packet,
    repeaters_up: Seq<bool>,
)
    requires
        packet.payload is DestinationStatusRequest,
    ensures
        ({
            let setup = view.set_up(packet, repeaters_up);
            let link = view.paths[packet.destination as int]@[view.rank as int];
            let down = view.gateware.drtio_routing && packet.destination != view.self_destination
                && !repeaters_up[link - 1];
            &&& setup.consumed <==> down
            &&& setup.actions.len() == 0
            &&& !down ==> setup.view == view
            &&& down ==> setup.view == (AuxView { routable: setup.view.routable, ..view })
            &&& down ==> setup.view.routable == view.routable.push(
                Packet {
                    source: view.self_destination,
                    destination: packet.transaction_id,
                    transaction_id: packet.source | 0x80,
                    payload: Payload::DestinationDownReply,
                },
            )
        }),
{
}

/// What is no packet of the set-up leads to nothing, and changes nothing.
pub proof fn law_other_packets_set_nothing_up(
    view: AuxView,
    packet: Packet,
    repeaters_up: Seq<bool>,
)
    requires
        !(packet.payload is EchoRequest || packet.payload is RoutingSetPath || packet.payload
            is RoutingSetRank || packet.payload is DestinationStatusRequest || packet.payload
            is ResetRequest),
    ensures
        ({
            let setup = view.set_up(packet, repeaters_up);
            &&& !setup.consumed
            &&& setup.view == view
            &&& setup.actions.len() == 0
        }),
{
}

/// Every packet can be received, but with routing a rank that is beyond the
/// table, and a request for the status of another device without a repeater
/// behind its link.
pub proof fn law_what_can_be_received(view: AuxView, packet: Packet)
    ensures
        !view.gateware.drtio_routing ==> view.can_set_up(packet),
        packet.payload matches Payload::RoutingSetRank { rank } ==> (rank < MAX_HOPS
            ==> view.can_set_up(packet)),
        packet.payload is DestinationStatusRequest && (packet.destination == view.self_destination
            || 1 <= view.paths[packet.destination as int]@[view.rank as int]
            <= view.gateware.drtiorep) ==> view.can_set_up(packet),
        !(packet.payload is RoutingSetRank || packet.payload is DestinationStatusRequest)
            ==> view.can_set_up(packet),
{
}

/// Every answer of the board to what a pass asks for can be gone on with, but
/// for a packet from upstream that cannot be received.
pub proof fn law_every_answer_is_taken(view: AuxView, state: Service, event: Event)
    ensures
        state is Repeaters && event is Serviced ==> view.can_take(state, event),
        state is Link && event is Link ==> view.can_take(state, event),
        state is Tsc && event is Tsc ==> view.can_take(state, event),
        state is Clock && event is Time ==> view.can_take(state, event),
        (state is Routable || state is Outgoing) && event is Delivered ==> view.can_take(
            state,
            event,
        ),
        state is Receive ==> (event matches Event::Received { received, repeaters_up } ==> (
        repeaters_up@.len() == driven(view.gateware) && (received matches Ok(Some(packet))
            ==> view.can_set_up(packet)) ==> view.can_take(state, event))),
{
}

/// The step lets the repeater of a number do its work, or reads the receiver of
/// the uplink once all that are driven have done theirs.
pub open spec fn turns_to(step: ServiceView, gateware: Gateware, repno: int) -> bool {
    if repno < driven(gateware) {
        &&& step.state matches Service::Repeaters { repno: next } && next == repno
        &&& step.actions.len() == 1
        &&& step.actions[0] matches Action::ServiceRepeater { repno: served } && served == repno
    } else {
        step.state is Link && step.actions.len() == 1 && step.actions[0] is ReadLink
    }
}

/// A pass begins with the first repeater that is driven.
pub proof fn law_a_pass_begins_with_the_repeaters(view: AuxView)
    ensures
        turns_to(view.serve_repeaters(0), view.gateware, 0),
        view.serve_repeaters(0).view == view,
{
}

/// What a repeater has received is routed, and the next repeater has its turn. A
/// failure of the repeater changes nothing.
pub proof fn law_what_repeaters_receive_is_routed(
    view: AuxView,
    repno: usize,
    received: Result<Option<Packet>, drtioaux::Error>,
)
    requires
        repno < driven(view.gateware),
    ensures
        ({
            let step = view.serve(Service::Repeaters { repno }, Event::Serviced { received });
            &&& turns_to(step, view.gateware, repno + 1)
            &&& received matches Ok(Some(packet)) ==> step.view == view.after_route(packet)
            &&& !(received is Ok && received->Ok_0 is Some) ==> step.view == view
        }),
{
}

/// The uplink is down without its receiver. With it, an uplink that was down has
/// to be set up, and any other stays as it is; and a loaded time is looked for,
/// for which there is no use otherwise. Nothing else changes.
pub proof fn law_the_uplink_follows_its_receiver(view: AuxView, rx_up: bool)
    ensures
        ({
            let step = view.serve(Service::Link, Event::Link { rx_up });
            &&& step.view == (AuxView { upstream_state: step.view.upstream_state, ..view })
            &&& step.actions.len() == 1
            &&& !rx_up ==> step.view.upstream_state is Down && step.state is Clock
                && step.actions[0] is ReadClock
            &&& rx_up ==> step.state is Tsc && step.actions[0] is ReadTsc
            &&& rx_up && view.upstream_state is Down ==> step.view.upstream_state is SettingUp
            &&& rx_up && !(view.upstream_state is Down) ==> step.view.upstream_state
                == view.upstream_state
        }),
{
}

/// A loaded time is handed on to every repeater that is driven, once each, and
/// upstream is told so. Then, as without one, a packet is received. Nothing
/// changes.
pub proof fn law_a_loaded_time_reaches_everything(view: AuxView, loaded: bool, repno: int)
    ensures
        ({
            let step = view.serve(Service::Tsc, Event::Tsc { loaded });
            let n = driven(view.gateware);
            &&& step.view == view
            &&& step.state is Receive
            &&& !loaded ==> step.actions.len() == 1
            &&& loaded ==> step.actions.len() == n + 2
            &&& loaded && 0 <= repno < n ==> (step.actions[repno] matches Action::SyncTsc {
                repno: synced,
            } && synced == repno)
            &&& loaded ==> (step.actions[n] matches Action::Notify { packet } && packet.source == 0
                && packet.destination == 0 && packet.transaction_id == 0 && packet.payload
                is TSCAck)
            &&& step.actions.last() is Receive
        }),
{
}

/// What a packet from upstream sets up is done first. What is not consumed by it
/// is then routed, unless the uplink is being set up. Without a packet, or with
/// a failure, nothing is done and nothing changes. The clock is read last.
pub proof fn law_what_upstream_sends_is_dealt_with(
    view: AuxView,
    received: Result<Option<Packet>, drtioaux::Error>,
    repeaters_up: Vec<bool>,
)
    ensures
        ({
            let step = view.serve(Service::Receive, Event::Received { received, repeaters_up });
            &&& step.state is Clock
            &&& step.actions.len() > 0 && step.actions.last() is ReadClock
            &&& received matches Ok(Some(packet)) ==> {
                let setup = view.set_up(packet, repeaters_up@);
                let routed = !setup.consumed && !(setup.view.upstream_state is SettingUp);
                &&& step.actions.drop_last() == setup.actions
                &&& routed ==> step.view == setup.view.after_route(packet)
                &&& !routed ==> step.view == setup.view
                &&& view.routes(packet, repeaters_up@) == routed
            }
            &&& !(received is Ok && received->Ok_0 is Some) ==> step.view == view
                && step.actions.len() == 1
        }),
{
    if let Ok(Some(packet)) = received {
        let setup = view.set_up(packet, repeaters_up@);
        assert(setup.actions.push(Action::ReadClock).drop_last() =~= setup.actions);
    }
}

/// The step offers a packet that passes through to its link, with the time: the
/// one of the index, which has a way to take.
pub open spec fn offers(view: AuxView, step: ServiceView, time: u64, index: int) -> bool {
    &&& step.state matches Service::Routable { time: then, index: at } && then == time && at
        == index
    &&& step.view == view
    &&& step.actions.len() == 1
    &&& step.actions[0] matches Action::Deliver { way, time: when, packet } && when == time
        && packet == view.routable[index] && way == view.way(None, packet) && !(way is Hold)
}

/// No packet that passes through has a way to take, from an index on.
pub open spec fn none_has_a_way(view: AuxView, index: int) -> bool {
    forall|i: int|
        index <= i < view.routable.len() ==> view.way(None, #[trigger] view.routable[i]) is Hold
}

/// The step offers a packet that passes through at or before an index, if that
/// one has a way to take: the first that has one, from another index on.
pub open spec fn offers_the_first(
    view: AuxView,
    step: ServiceView,
    time: u64,
    from: int,
    i: int,
) -> bool {
    exists|next: int|
        from <= next <= i && #[trigger] offers(view, step, time, next) && forall|j: int|
            from <= j < next ==> view.way(None, #[trigger] view.routable[j]) is Hold
}

proof fn lemma_the_first_is_offered(view: AuxView, time: u64, from: nat, i: int)
    requires
        from <= view.routable.len() <= usize::MAX,
    ensures
        from <= i < view.routable.len() && !(view.way(None, view.routable[i]) is Hold)
            ==> offers_the_first(view, view.serve_routable(time, from), time, from as int, i),
        none_has_a_way(view, from as int) ==> view.serve_routable(time, from)
            == view.serve_outgoing(time),
{
    view.lemma_next_routable(from);
    let next = view.next_routable(from) as int;
    if from <= i < view.routable.len() && !(view.way(None, view.routable[i]) is Hold) {
        assert(offers(view, view.serve_routable(time, from), time, next));
    }
}

/// Of the packets that pass through, the first that has a way to take is offered
/// to its link when the clock has been read, whatever it says and wherever it
/// comes from. If none has a way, the transactions have their turn.
pub proof fn law_the_first_packet_with_a_way_is_offered(view: AuxView, time: u64, i: int)
    requires
        view.routable.len() <= usize::MAX,
    ensures
        ({
            let step = view.serve(Service::Clock, Event::Time { time });
            &&& 0 <= i < view.routable.len() && !(view.way(None, view.routable[i]) is Hold)
                ==> offers_the_first(view, step, time, 0, i)
            &&& none_has_a_way(view, 0) ==> step == view.serve_outgoing(time)
        }),
{
    lemma_the_first_is_offered(view, time, 0, i);
}

/// A packet that its link did not take stays where it is, and the first behind
/// it that has a way to take is offered. If none has, the transactions have
/// their turn.
pub proof fn law_packets_that_were_not_taken_stay(
    view: AuxView,
    time: u64,
    index: usize,
    i: int,
)
    requires
        index < view.routable.len() <= usize::MAX,
    ensures
        ({
            let step = view.serve(
                Service::Routable { time, index },
                Event::Delivered { result: Ok(false) },
            );
            &&& index < i < view.routable.len() && !(view.way(None, view.routable[i]) is Hold)
                ==> offers_the_first(view, step, time, index + 1, i)
            &&& none_has_a_way(view, index + 1) ==> step == view.serve_outgoing(time)
        }),
{
    lemma_the_first_is_offered(view, time, (index + 1) as nat, i);
}

/// A packet that its link took, or whose link failed, is gone; the others keep
/// their order, and the first behind it that has a way to take is offered. If
/// none has, the transactions have their turn.
pub proof fn law_packets_that_were_taken_are_gone(
    view: AuxView,
    time: u64,
    index: usize,
    result: Result<bool, drtioaux::Error>,
    i: int,
)
    requires
        index < view.routable.len() <= usize::MAX,
        result is Ok ==> result->Ok_0,
    ensures
        ({
            let step = view.serve(
                Service::Routable { time, index },
                Event::Delivered { result },
            );
            let after = AuxView { routable: view.routable.remove(index as int), ..view };
            &&& index <= i < after.routable.len() && !(after.way(None, after.routable[i]) is Hold)
                ==> offers_the_first(after, step, time, index as int, i)
            &&& none_has_a_way(after, index as int) ==> step == after.serve_outgoing(time)
        }),
{
    let after = AuxView { routable: view.routable.remove(index as int), ..view };
    assert(result != Ok::<bool, drtioaux::Error>(false));
    assert(view.after_offer(index as nat, result) == after);
    lemma_the_first_is_offered(after, time, index as nat, i);
}

/// The transaction in a slot is unsent, and its time is not over.
pub open spec fn has_to_be_sent(slot: Option<OutgoingTransaction>, time: u64) -> bool {
    slot matches Some(transaction) && transaction.state is Unsent && time <= transaction.max_time
}

/// What becomes of a slot when its time is looked at: a transaction whose end
/// has been read is forgotten, one that is pending beyond its time times out,
/// and any other stays as it is.
pub open spec fn is_looked_at(
    before: Option<OutgoingTransaction>,
    after: Option<OutgoingTransaction>,
    time: u64,
) -> bool {
    match before {
        None => after is None,
        Some(transaction) => {
            let late = (transaction.state is Unsent || transaction.state is Sent) && time
                > transaction.max_time;
            &&& transaction.state is BeenRead ==> after is None
            &&& late ==> after == Some(
                OutgoingTransaction { state: TransactionState::TimedOut, ..transaction },
            )
            &&& !(transaction.state is BeenRead) && !late ==> after == before
        },
    }
}

/// The pass is over, and the packets that have been handed out are forgotten.
pub open spec fn ends_the_pass(before: AuxView, step: ServiceView) -> bool {
    &&& step.state is Done
    &&& step.actions.len() == 0
    &&& step.view == (AuxView { incoming: step.view.incoming, ..before })
    &&& forall|key: (u8, u8)| #[trigger]
        step.view.incoming.contains_key(key) <==> (before.incoming.contains_key(key)
            && before.incoming[key].state is Received)
    &&& forall|key: (u8, u8)| #[trigger]
        step.view.incoming.contains_key(key) ==> step.view.incoming[key] == before.incoming[key]
}

/// A pass that is over has forgotten just the packets that have been handed out.
pub proof fn law_the_end_of_a_pass_forgets_handled_packets(view: AuxView)
    ensures
        ends_the_pass(view, view.finish()),
{
}

/// The first transaction that has to be sent is offered, with the packet that it
/// was started with, to the link that it is forced to or that the table names;
/// if there is no way for it, the pass is over. The time of those before it is
/// looked at, and those from it on stay as they are.
pub proof fn law_the_first_transaction_to_send_is_offered(
    view: AuxView,
    time: u64,
    slot: int,
    other: int,
)
    requires
        view.wf(),
        0 <= slot < MAX_TRANSACTIONS,
        0 <= other < MAX_TRANSACTIONS,
        has_to_be_sent(view.outgoing[slot], time),
        forall|i: int| 0 <= i < slot ==> !has_to_be_sent(#[trigger] view.outgoing[i], time),
    ensures
        ({
            let step = view.serve_outgoing(time);
            let transaction = view.outgoing[slot]->0;
            let way = view.way(transaction.force_linkno, transaction.packet);
            let looked = AuxView { outgoing: step.view.outgoing, ..view };
            &&& step.view.outgoing.len() == view.outgoing.len()
            &&& other < slot ==> is_looked_at(
                view.outgoing[other],
                step.view.outgoing[other],
                time,
            )
            &&& other >= slot ==> step.view.outgoing[other] == view.outgoing[other]
            &&& way is Hold ==> ends_the_pass(looked, step)
            &&& !(way is Hold) ==> {
                &&& step.view == looked
                &&& step.state matches Service::Outgoing { slot: at } && at == slot
                &&& step.actions.len() == 1
                &&& step.actions[0] == (Action::Deliver { way, time, packet: transaction.packet })
            }
        }),
{
    view.lemma_first_due(time, 0);
    let first = view.first_due(time, 0) as int;
    if first < slot {
        assert(has_to_be_sent(view.outgoing[first], time));
    } else if slot < first {
        assert(!crate::satman::aux::is_slot_due(view.outgoing[slot], time));
    }
}

/// If no transaction has to be sent, the time of all of them is looked at, and
/// the pass is over.
pub proof fn law_a_pass_without_transactions_to_send_is_over(
    view: AuxView,
    time: u64,
    other: int,
)
    requires
        view.wf(),
        0 <= other < MAX_TRANSACTIONS,
        forall|i: int|
            0 <= i < MAX_TRANSACTIONS ==> !has_to_be_sent(#[trigger] view.outgoing[i], time),
    ensures
        ({
            let step = view.serve_outgoing(time);
            &&& step.view.outgoing.len() == view.outgoing.len()
            &&& is_looked_at(view.outgoing[other], step.view.outgoing[other], time)
            &&& ends_the_pass((AuxView { outgoing: step.view.outgoing, ..view }), step)
        }),
{
    view.lemma_first_due(time, 0);
    let first = view.first_due(time, 0) as int;
    if first < MAX_TRANSACTIONS {
        assert(has_to_be_sent(view.outgoing[first], time));
    }
}

/// A transaction that was unsent is sent once its link has taken the packet, and
/// stays as it is otherwise. No other changes, and the pass is over.
pub proof fn law_a_transaction_is_sent_when_it_is_taken(
    view: AuxView,
    slot: usize,
    result: Result<bool, drtioaux::Error>,
    other: int,
)
    requires
        slot < view.outgoing.len(),
        view.outgoing[slot as int] is Some,
        0 <= other < view.outgoing.len(),
    ensures
        ({
            let step = view.serve(Service::Outgoing { slot }, Event::Delivered { result });
            let transaction = view.outgoing[slot as int]->0;
            let sent = result is Ok && result->Ok_0 && transaction.state is Unsent;
            &&& step.view.outgoing.len() == view.outgoing.len()
            &&& other == slot && sent ==> step.view.outgoing[other] == Some(
                OutgoingTransaction { state: TransactionState::Sent, ..transaction },
            )
            &&& other != slot || !sent ==> step.view.outgoing[other] == view.outgoing[other]
            &&& ends_the_pass((AuxView { outgoing: step.view.outgoing, ..view }), step)
        }),
{
    assert((result is Ok && result->Ok_0) <==> result == Ok::<bool, drtioaux::Error>(true));
    let after = view.after_outgoing(slot as nat, result);
    assert(after == (AuxView { outgoing: after.outgoing, ..view }));
}

/// How far a slot is after another, going round.
pub open spec fn distance(from: int, to: int) -> int {
    (to - from - 1) % 128
}

/// The number that a transaction gets is that of a free slot, with none free
/// between the one that was given out last and it, going round; and there is one
/// as long as any slot is free.
pub proof fn law_the_nearest_free_number_is_given(view: AuxView, transaction_id: u8, slot: int)
    requires
        view.wf(),
        0 <= slot < MAX_TRANSACTIONS,
        view.outgoing[slot] is None,
    ensures
        view.is_next_free(transaction_id) ==> {
            &&& transaction_id < MAX_TRANSACTIONS
            &&& view.outgoing[transaction_id as int] is None
            &&& distance(view.next_id as int, transaction_id as int) <= distance(
                view.next_id as int,
                slot,
            )
        },
        exists|id: u8| #[trigger] view.is_next_free(id),
{
    let far = distance(view.next_id as int, slot) + 1;
    assert(view.slot_at(far) == slot);
    lemma_a_free_number_is_near(view, 1, far);
    if view.is_next_free(transaction_id) {
        let offset = choose|offset: int|
            {
                &&& 1 <= offset <= MAX_TRANSACTIONS
                &&& transaction_id == #[trigger] view.slot_at(offset)
                &&& view.outgoing[transaction_id as int] is None
                &&& forall|nearer: int|
                    1 <= nearer < offset ==> view.outgoing[#[trigger] view.slot_at(nearer)] is Some
            };
        assert(distance(view.next_id as int, transaction_id as int) + 1 == offset);
        if far < offset {
            assert(view.outgoing[view.slot_at(far)] is Some);
        }
    }
}

proof fn lemma_a_free_number_is_near(view: AuxView, near: int, far: int)
    requires
        view.wf(),
        1 <= near <= far <= MAX_TRANSACTIONS,
        view.outgoing[view.slot_at(far)] is None,
        forall|nearer: int|
            1 <= nearer < near ==> view.outgoing[#[trigger] view.slot_at(nearer)] is Some,
    ensures
        exists|id: u8| #[trigger] view.is_next_free(id),
    decreases far - near,
{
    let id = view.slot_at(near) as u8;
    if view.outgoing[view.slot_at(near)] is None {
        assert(id == view.slot_at(near));
        assert(view.is_next_free(id));
    } else {
        lemma_a_free_number_is_near(view, near + 1, far);
    }
}

/// A transaction is started unsent, under its number, from the device to its
/// destination, with what it says, and waits until 200 milliseconds from now. No
/// other transaction changes, nor anything else but the number given out last.
pub proof fn law_a_transaction_starts_unsent(
    view: AuxView,
    transaction_id: u8,
    destination: u8,
    payload: Payload,
    now: u64,
    other: int,
)
    requires
        view.wf(),
        transaction_id < MAX_TRANSACTIONS,
        now + 200 <= u64::MAX,
        0 <= other < MAX_TRANSACTIONS,
        other != transaction_id,
    ensures
        ({
            let after = view.after_transact(transaction_id, destination, payload, now);
            let started = after.outgoing[transaction_id as int];
            &&& started is Some
            &&& started->0.packet.source == view.self_destination
            &&& started->0.packet.destination == destination
            &&& started->0.packet.transaction_id == transaction_id
            &&& started->0.packet.payload == payload
            &&& started->0.max_time == now + 200
            &&& started->0.state is Unsent
            &&& started->0.force_linkno is None
            &&& after.outgoing[other] == view.outgoing[other]
            &&& after.next_id == transaction_id
            &&& after == (AuxView { outgoing: after.outgoing, next_id: after.next_id, ..view })
        }),
{
}

/// A reply waits to be sent on, as the last, from the device to the source of
/// the transaction, under its number with the reply bit set, with what it says.
/// Nothing else changes.
pub proof fn law_a_reply_waits_to_be_sent(
    view: AuxView,
    transaction_id: u8,
    source: u8,
    response: Payload,
)
    ensures
        ({
            let after = view.after_respond(transaction_id, source, response);
            let reply = after.routable.last();
            &&& after == (AuxView { routable: after.routable, ..view })
            &&& after.routable.len() == view.routable.len() + 1
            &&& after.routable.drop_last() == view.routable
            &&& reply.source == view.self_destination
            &&& reply.destination == source
            &&& reply.transaction_id == transaction_id | 0x80
            &&& reply.payload == response
        }),
{
    let after = view.after_respond(transaction_id, source, response);
    assert(after.routable.drop_last() =~= view.routable);
}

} // verus!
