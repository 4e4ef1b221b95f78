//! The manager of the auxiliary channel: the transactions of the device, the
//! packets that pass through it, and the state of its uplink.
//!
//! The board is driven from outside. A pass of [`AuxManager::service`] asks it
//! for one thing after the other and is continued with what came of each.

use vstd::prelude::*;

use crate::drtioaux;
use crate::gateware::Gateware;
use crate::routing::{RoutingTable, MAX_HOPS};
use crate::satman::inbox::Inbox;
use crate::satman::packet::{Packet, Payload};

pub use crate::satman::sliceable::{SliceMeta, Sliceable};
pub use crate::satman::transaction::{
    Error, IncomingTransaction, IncomingTransactionState, OutgoingTransaction, TransactionState,
    DEFAULT_TIMEOUT,
};

verus! {

/// The number of a transaction of this device.
pub type TransactionHandle = u8;

/// How long a link is left to settle, in milliseconds.
pub const LINK_COOLDOWN: u64 = 5;

/// How many transactions the device can have started at a time.
pub const MAX_TRANSACTIONS: usize = 128;

/// The bit that tells a reply from the start of a transaction.
pub const REPLY_BIT: u8 = 0x80;

/// How far the uplink has come.
#[derive(Clone, Copy, Debug, PartialEq, Eq, Structural)]
pub enum UpstreamState {
    /// There is no link.
    Down,
    /// There is a link, but upstream has not told the device its rank.
    SettingUp,
    /// Packets can be sent.
    Up,
}

/// The way that a packet takes.
#[derive(Clone, Copy, Debug, PartialEq, Eq, Structural)]
pub enum Delivery {
    /// Through a repeater.
    Repeater { repno: usize },
    /// Through the uplink.
    Upstream,
    /// None for now.
    Hold,
}

/// What the board is asked to do.
#[derive(Clone, Copy, Debug, PartialEq, Eq)]
pub enum Action {
    /// Let a repeater do its work. Answered by [`Event::Serviced`].
    ServiceRepeater { repno: usize },
    /// Read whether the receiver of the uplink is up. Answered by [`Event::Link`].
    ReadLink,
    /// Read, and clear, whether upstream has loaded the time. Answered by
    /// [`Event::Tsc`].
    ReadTsc,
    /// Hand the time on to a repeater.
    SyncTsc { repno: usize },
    /// Send a packet upstream; a failure is only reported.
    Notify { packet: Packet },
    /// Receive a packet from upstream. Answered by [`Event::Received`].
    Receive,
    /// Send a packet upstream; a failure is fatal.
    Reply { packet: Packet },
    /// Tell a repeater the path to a destination.
    SetPath { repno: usize, destination: u8, hops: [u8; MAX_HOPS] },
    /// Set the interconnect up for a rank.
    EnableInterconnect { rank: u8 },
    /// Tell a repeater its rank.
    SetRank { repno: usize, rank: u8 },
    /// Reset the RTIO core.
    ResetRtio,
    /// Reset the RTIO of a repeater.
    ResetRepeater { repno: usize },
    /// Read the clock. Answered by [`Event::Time`].
    ReadClock,
    /// Send a packet. Answered by [`Event::Delivered`].
    Deliver { way: Delivery, time: u64, packet: Packet },
}

/// What came of the last action.
#[derive(Debug)]
pub enum Event {
    /// What a repeater received, if anything.
    Serviced { received: Result<Option<Packet>, drtioaux::Error> },
    Link { rx_up: bool },
    Tsc { loaded: bool },
    /// What the uplink received, if anything, and which repeaters are up.
    Received { received: Result<Option<Packet>, drtioaux::Error>, repeaters_up: Vec<bool> },
    Time { time: u64 },
    /// Whether the packet was taken.
    Delivered { result: Result<bool, drtioaux::Error> },
}

/// How far a pass of the service has come: what it waits for.
#[derive(Clone, Copy, Debug, PartialEq, Eq, Structural)]
pub enum Service {
    /// A repeater does its work.
    Repeaters { repno: usize },
    /// The receiver of the uplink is read.
    Link,
    /// The notice of a loaded time is read.
    Tsc,
    /// A packet is received.
    Receive,
    /// The clock is read.
    Clock,
    /// A packet that passes through is sent.
    Routable { time: u64, index: usize },
    /// The packet of a transaction is sent.
    Outgoing { slot: usize },
    /// The pass is over.
    Done,
}

/// A step of a pass: what it waits for next, and what is to be done until then.
/// The last action is the one whose answer continues the pass.
#[derive(Debug)]
pub struct ServiceStep {
    pub state: Service,
    pub actions: Vec<Action>,
}

/// What a packet that sets the device up leads to.
#[derive(Debug)]
pub struct Setup {
    /// Nothing else is to be done with the packet.
    pub consumed: bool,
    pub actions: Vec<Action>,
}

/// The manager of the auxiliary channel.
#[derive(Debug)]
pub struct AuxManager {
    incoming_transactions: Inbox,
    outgoing_transactions: Vec<Option<OutgoingTransaction>>,
    routable_packets: Vec<Packet>,
    next_id: TransactionHandle,
    self_destination: u8,
    rank: u8,
    routing_table: RoutingTable,
    upstream_state: UpstreamState,
    gateware: Gateware,
}

/// What the manager holds.
#[verifier::ext_equal]
pub struct AuxView {
    /// Packets that have arrived, by transaction and source.
    pub incoming: Map<(u8, u8), IncomingTransaction>,
    /// Transactions that the device has started, by number.
    pub outgoing: Seq<Option<OutgoingTransaction>>,
    /// Packets that wait to be sent on.
    pub routable: Seq<Packet>,
    /// The number that was given out last.
    pub next_id: u8,
    pub self_destination: u8,
    pub rank: u8,
    /// The paths of the routing table.
    pub paths: Seq<[u8; MAX_HOPS]>,
    pub upstream_state: UpstreamState,
    pub gateware: Gateware,
}

/// What a packet that sets the device up leads to.
#[verifier::ext_equal]
pub struct SetupView {
    pub view: AuxView,
    pub consumed: bool,
    pub actions: Seq<Action>,
}

/// What a step of the service leads to.
#[verifier::ext_equal]
pub struct ServiceView {
    pub view: AuxView,
    pub state: Service,
    pub actions: Seq<Action>,
}

/// A repeater is told its rank.
pub open spec fn set_rank(repno: int, rank: u8) -> Action {
    Action::SetRank { repno: repno as usize, rank }
}

/// A repeater is reset.
pub open spec fn reset_repeater(repno: int) -> Action {
    Action::ResetRepeater { repno: repno as usize }
}

/// A packet between the two ends of one link.
pub open spec fn link_packet(transaction_id: u8, payload: Payload) -> Packet {
    Packet { source: 0, destination: 0, transaction_id, payload }
}

/// The way that a packet takes: the link that it is forced to or that the table
/// names, if this is one of the repeaters below the last; else the uplink, once
/// it is up.
pub open spec fn delivery(
    gateware: Gateware,
    paths: Seq<[u8; MAX_HOPS]>,
    rank: u8,
    upstream_state: UpstreamState,
    force_linkno: Option<u8>,
    packet: Packet,
) -> Delivery {
    let hop = match force_linkno {
        Some(linkno) => linkno,
        None => crate::routing::hop_of(paths, packet.destination, rank),
    };
    if gateware.drtio_routing && 0 < hop < gateware.drtiorep {
        Delivery::Repeater { repno: (hop - 1) as usize }
    } else if upstream_state is Up {
        Delivery::Upstream
    } else {
        Delivery::Hold
    }
}

/// A slot of the transactions once its time has been looked at: a transaction
/// whose end has been read is forgotten.
pub open spec fn swept(slot: Option<OutgoingTransaction>, time: u64) -> Option<
    OutgoingTransaction,
> {
    match slot {
        Some(transaction) if !(transaction.at_time(time).state is BeenRead) => Some(
            transaction.at_time(time),
        ),
        _ => None,
    }
}

/// The transaction in the slot has to be sent.
pub open spec fn is_slot_due(slot: Option<OutgoingTransaction>, time: u64) -> bool {
    slot is Some && slot->0.is_due(time)
}

impl AuxView {
    /// There is a slot for every transaction, and the rank is one that the
    /// routing table knows.
    pub open spec fn wf(self) -> bool {
        &&& self.outgoing.len() == MAX_TRANSACTIONS
        &&& self.next_id < MAX_TRANSACTIONS
        &&& self.paths.len() == crate::routing::DEST_COUNT
        &&& self.gateware.drtio_routing ==> self.rank < MAX_HOPS
    }

    /// The slot is the first free one after the one that was given out last,
    /// going round.
    pub open spec fn is_next_free(self, slot: u8) -> bool {
        exists|offset: int|
            {
                &&& 1 <= offset <= MAX_TRANSACTIONS
                &&& slot == #[trigger] self.slot_at(offset)
                &&& self.outgoing[slot as int] is None
                &&& forall|nearer: int|
                    1 <= nearer < offset ==> self.outgoing[#[trigger] self.slot_at(nearer)] is Some
            }
    }

    /// The slot at some distance after the one that was given out last, going
    /// round.
    pub open spec fn slot_at(self, offset: int) -> int {
        (self.next_id + offset) % (MAX_TRANSACTIONS as int)
    }

    /// The manager once a transaction has been started in a slot.
    pub open spec fn after_transact(
        self,
        slot: u8,
        destination: u8,
        payload: Payload,
        now: u64,
    ) -> AuxView {
        AuxView {
            next_id: slot,
            outgoing: self.outgoing.update(
                slot as int,
                Some(
                    OutgoingTransaction {
                        packet: Packet {
                            source: self.self_destination,
                            destination,
                            transaction_id: slot,
                            payload,
                        },
                        max_time: (now + DEFAULT_TIMEOUT) as u64,
                        state: TransactionState::Unsent,
                        force_linkno: None,
                    },
                ),
            ),
            ..self
        }
    }

    /// The manager once a reply waits to be sent.
    pub open spec fn after_respond(
        self,
        transaction_id: u8,
        source: u8,
        response: Payload,
    ) -> AuxView {
        AuxView {
            routable: self.routable.push(
                Packet {
                    source: self.self_destination,
                    destination: source,
                    transaction_id: transaction_id | REPLY_BIT,
                    payload: response,
                },
            ),
            ..self
        }
    }

    /// The manager once a packet has been routed. A packet for the device is a
    /// reply to one of its transactions, which takes it in, or has arrived; a
    /// reply to none is dropped. Any other packet waits to be sent on, or is
    /// dropped without routing.
    pub open spec fn after_route(self, packet: Packet) -> AuxView {
        if packet.destination == self.self_destination {
            if packet.transaction_id >= REPLY_BIT {
                self.after_reply((packet.transaction_id - REPLY_BIT) as u8, packet.payload)
            } else {
                AuxView {
                    incoming: self.incoming.insert(
                        (packet.transaction_id, packet.source),
                        IncomingTransaction {
                            payload: packet.payload,
                            state: IncomingTransactionState::Received,
                        },
                    ),
                    ..self
                }
            }
        } else if self.gateware.drtio_routing {
            AuxView { routable: self.routable.push(packet), ..self }
        } else {
            self
        }
    }

    /// The manager once a reply to the transaction of a number has come in, if
    /// there is one.
    pub open spec fn after_reply(self, transaction_id: u8, response: Payload) -> AuxView {
        match self.outgoing[transaction_id as int] {
            Some(transaction) => AuxView {
                outgoing: self.outgoing.update(
                    transaction_id as int,
                    Some(transaction.after_response(response)),
                ),
                ..self
            },
            None => self,
        }
    }

    /// The packet is dropped when it is routed: it is a reply to a transaction
    /// that there is not, or for another device and there is no routing.
    pub open spec fn drops(self, packet: Packet) -> bool {
        if packet.destination == self.self_destination {
            packet.transaction_id >= REPLY_BIT && self.outgoing[packet.transaction_id - REPLY_BIT]
                is None
        } else {
            !self.gateware.drtio_routing
        }
    }

    /// The packet can set the device up: with routing, a rank that it sets is
    /// one that the routing table knows, and there is a repeater on the way to
    /// a destination that it asks the status of.
    pub open spec fn can_set_up(self, packet: Packet) -> bool {
        self.gateware.drtio_routing ==> match packet.payload {
            Payload::RoutingSetRank { rank } => rank < MAX_HOPS,
            Payload::DestinationStatusRequest => packet.destination != self.self_destination ==> 1
                <= crate::routing::hop_of(self.paths, packet.destination, self.rank)
                <= self.gateware.drtiorep,
            _ => true,
        }
    }

    /// The repeater on the way to the destination of the packet is down.
    pub open spec fn is_way_down(self, packet: Packet, repeaters_up: Seq<bool>) -> bool {
        &&& self.gateware.drtio_routing
        &&& packet.destination != self.self_destination
        &&& !repeaters_up[crate::routing::hop_of(self.paths, packet.destination, self.rank) - 1]
    }

    /// What a packet from upstream leads to that may set the device up. Echo
    /// requests are answered, paths and the rank are taken over and handed on,
    /// and a reset is carried out. A request for the status of a destination
    /// behind a repeater that is down leads to a reply in its place, which goes
    /// to the number of the transaction, under the number of its source. All
    /// else is left to the service.
    pub open spec fn set_up(self, packet: Packet, repeaters_up: Seq<bool>) -> SetupView {
        match packet.payload {
            Payload::EchoRequest => SetupView {
                view: self,
                consumed: true,
                actions: seq![Action::Reply { packet: link_packet(0, Payload::EchoReply) }],
            },
            Payload::RoutingSetPath { destination, hops } => SetupView {
                view: if self.gateware.drtio_routing {
                    AuxView { paths: self.paths.update(destination as int, hops), ..self }
                } else {
                    self
                },
                consumed: true,
                actions: Seq::new(
                    self.gateware.repeaters_spec(),
                    |repno: int| Action::SetPath { repno: repno as usize, destination, hops },
                ).push(Action::Reply { packet: link_packet(0, Payload::RoutingAck) }),
            },
            Payload::RoutingSetRank { rank } => SetupView {
                view: AuxView { rank, upstream_state: UpstreamState::Up, ..self },
                consumed: true,
                actions: (if self.gateware.drtio_routing {
                    seq![Action::EnableInterconnect { rank }]
                } else {
                    seq![]
                }) + Seq::new(
                    self.gateware.repeaters_spec(),
                    |repno: int| set_rank(repno, (rank + 1) as u8),
                ).push(Action::Reply { packet: link_packet(0, Payload::RoutingAck) }),
            },
            Payload::DestinationStatusRequest => if self.is_way_down(packet, repeaters_up) {
                SetupView {
                    view: self.after_respond(
                        packet.source,
                        packet.transaction_id,
                        Payload::DestinationDownReply,
                    ),
                    consumed: true,
                    actions: seq![],
                }
            } else {
                SetupView { view: self, consumed: false, actions: seq![] }
            },
            Payload::ResetRequest => SetupView {
                view: self,
                consumed: false,
                actions: seq![Action::ResetRtio] + Seq::new(
                    self.gateware.repeaters_spec(),
                    |repno: int| reset_repeater(repno),
                ).push(
                    Action::Reply {
                        packet: link_packet(packet.transaction_id | REPLY_BIT, Payload::ResetAck),
                    },
                ),
            },
            _ => SetupView { view: self, consumed: false, actions: seq![] },
        }
    }

    /// A packet from upstream is routed: the set-up has not consumed it, and the
    /// uplink is not being set up any more.
    pub open spec fn routes(self, packet: Packet, repeaters_up: Seq<bool>) -> bool {
        let setup = self.set_up(packet, repeaters_up);
        !setup.consumed && !(setup.view.upstream_state is SettingUp)
    }

    /// What a packet from upstream leads to: what it says on the set-up of the
    /// device is done, and what is left of it is routed, unless the uplink is
    /// still being set up.
    pub open spec fn receive(self, packet: Packet, repeaters_up: Seq<bool>) -> SetupView {
        let setup = self.set_up(packet, repeaters_up);
        if self.routes(packet, repeaters_up) {
            SetupView { view: setup.view.after_route(packet), ..setup }
        } else {
            setup
        }
    }

    /// The manager once the receiver of the uplink has been read.
    pub open spec fn after_link(self, rx_up: bool) -> AuxView {
        AuxView {
            upstream_state: if !rx_up {
                UpstreamState::Down
            } else if self.upstream_state is Down {
                UpstreamState::SettingUp
            } else {
                self.upstream_state
            },
            ..self
        }
    }

    /// The way that a packet takes.
    pub open spec fn way(self, force_linkno: Option<u8>, packet: Packet) -> Delivery {
        delivery(
            self.gateware,
            self.paths,
            self.rank,
            self.upstream_state,
            force_linkno,
            packet,
        )
    }

    /// The first packet from an index on, among those that pass through, that
    /// has a way to take.
    pub open spec fn next_routable(self, index: nat) -> nat
        decreases self.routable.len() - index,
    {
        if index < self.routable.len() && self.way(None, self.routable[index as int]) is Hold {
            self.next_routable(index + 1)
        } else {
            index
        }
    }

    /// The first slot from one on whose transaction has to be sent, or the
    /// number of slots.
    pub open spec fn first_due(self, time: u64, slot: nat) -> nat
        decreases self.outgoing.len() - slot,
    {
        if slot < self.outgoing.len() && !is_slot_due(self.outgoing[slot as int], time) {
            self.first_due(time, slot + 1)
        } else {
            slot
        }
    }

    /// The manager once the slots before the first that is due have been swept.
    pub open spec fn after_sweep(self, time: u64) -> AuxView {
        AuxView {
            outgoing: Seq::new(
                self.outgoing.len(),
                |slot: int|
                    if slot < self.first_due(time, 0) {
                        swept(self.outgoing[slot], time)
                    } else {
                        self.outgoing[slot]
                    },
            ),
            ..self
        }
    }

    /// The end of a pass: packets that have been handed out are forgotten.
    pub open spec fn finish(self) -> ServiceView {
        ServiceView {
            view: AuxView { incoming: crate::satman::inbox::waiting(self.incoming), ..self },
            state: Service::Done,
            actions: seq![],
        }
    }

    /// The pass goes on with the transactions: the first that is due is sent,
    /// if there is a way for it.
    pub open spec fn serve_outgoing(self, time: u64) -> ServiceView {
        let slot = self.first_due(time, 0);
        let view = self.after_sweep(time);
        if slot < self.outgoing.len() {
            let transaction = self.outgoing[slot as int]->0;
            let way = view.way(transaction.force_linkno, transaction.packet);
            if way is Hold {
                view.finish()
            } else {
                ServiceView {
                    view,
                    state: Service::Outgoing { slot: slot as usize },
                    actions: seq![Action::Deliver { way, time, packet: transaction.packet }],
                }
            }
        } else {
            view.finish()
        }
    }

    /// The pass goes on with the packets that pass through, from an index on:
    /// the first that has a way to take is sent.
    pub open spec fn serve_routable(self, time: u64, index: nat) -> ServiceView {
        let next = self.next_routable(index);
        if next < self.routable.len() {
            let packet = self.routable[next as int];
            ServiceView {
                view: self,
                state: Service::Routable { time, index: next as usize },
                actions: seq![Action::Deliver { way: self.way(None, packet), time, packet }],
            }
        } else {
            self.serve_outgoing(time)
        }
    }

    /// The start of a pass: every repeater does its work, then the receiver of
    /// the uplink is read.
    pub open spec fn serve_repeaters(self, repno: nat) -> ServiceView {
        if repno < self.gateware.repeaters_spec() {
            ServiceView {
                view: self,
                state: Service::Repeaters { repno: repno as usize },
                actions: seq![Action::ServiceRepeater { repno: repno as usize }],
            }
        } else {
            ServiceView { view: self, state: Service::Link, actions: seq![Action::ReadLink] }
        }
    }

    /// The pass goes on with a time that upstream may have loaded: if it has,
    /// every repeater is handed the time, then upstream is told so. Then a
    /// packet is received.
    pub open spec fn serve_tsc(self, loaded: bool) -> ServiceView {
        ServiceView {
            view: self,
            state: Service::Receive,
            actions: (if loaded {
                Seq::new(
                    self.gateware.repeaters_spec(),
                    |repno: int| Action::SyncTsc { repno: repno as usize },
                ).push(Action::Notify { packet: link_packet(0, Payload::TSCAck) })
            } else {
                seq![]
            }).push(Action::Receive),
        }
    }

    /// The pass goes on with what upstream has sent.
    pub open spec fn serve_upstream(
        self,
        received: Result<Option<Packet>, drtioaux::Error>,
        repeaters_up: Seq<bool>,
    ) -> ServiceView {
        match received {
            Ok(Some(packet)) => {
                let setup = self.receive(packet, repeaters_up);
                ServiceView {
                    view: setup.view,
                    state: Service::Clock,
                    actions: setup.actions.push(Action::ReadClock),
                }
            },
            _ => ServiceView {
                view: self,
                state: Service::Clock,
                actions: seq![Action::ReadClock],
            },
        }
    }

    /// The manager once a packet that passes through was offered to its link:
    /// it stays only if the link did not take it but may later.
    pub open spec fn after_offer(
        self,
        index: nat,
        result: Result<bool, drtioaux::Error>,
    ) -> AuxView {
        if result == Ok::<bool, drtioaux::Error>(false) {
            self
        } else {
            AuxView { routable: self.routable.remove(index as int), ..self }
        }
    }

    /// The manager once the packet of a transaction was offered to its link.
    pub open spec fn after_outgoing(
        self,
        slot: nat,
        result: Result<bool, drtioaux::Error>,
    ) -> AuxView {
        if result == Ok::<bool, drtioaux::Error>(true) {
            AuxView {
                outgoing: self.outgoing.update(
                    slot as int,
                    Some(self.outgoing[slot as int]->0.after_sending()),
                ),
                ..self
            }
        } else {
            self
        }
    }

    /// The pass stands at something that there is.
    pub open spec fn is_at(self, state: Service) -> bool {
        match state {
            Service::Repeaters { repno } => repno < self.gateware.repeaters_spec(),
            Service::Routable { index, .. } => index < self.routable.len(),
            Service::Outgoing { slot } => slot < self.outgoing.len() && self.outgoing[slot as int]
                is Some,
            Service::Done => false,
            _ => true,
        }
    }

    /// The event answers what the pass waits for, and a packet that it brings
    /// from upstream can be dealt with.
    pub open spec fn can_take(self, state: Service, event: Event) -> bool {
        match (state, event) {
            (Service::Repeaters { .. }, Event::Serviced { .. }) => true,
            (Service::Link, Event::Link { .. }) => true,
            (Service::Tsc, Event::Tsc { .. }) => true,
            (Service::Receive, Event::Received { received, repeaters_up }) => {
                &&& repeaters_up@.len() == self.gateware.repeaters_spec()
                &&& received matches Ok(Some(packet)) ==> self.can_set_up(packet)
            },
            (Service::Clock, Event::Time { .. }) => true,
            (Service::Routable { .. }, Event::Delivered { .. }) => true,
            (Service::Outgoing { .. }, Event::Delivered { .. }) => true,
            _ => false,
        }
    }

    /// A step of a pass.
    pub open spec fn serve(self, state: Service, event: Event) -> ServiceView {
        match (state, event) {
            (Service::Repeaters { repno }, Event::Serviced { received }) => {
                let view = match received {
                    Ok(Some(packet)) => self.after_route(packet),
                    _ => self,
                };
                view.serve_repeaters((repno + 1) as nat)
            },
            (Service::Link, Event::Link { rx_up }) => ServiceView {
                view: self.after_link(rx_up),
                state: if rx_up {
                    Service::Tsc
                } else {
                    Service::Clock
                },
                actions: seq![
                    if rx_up {
                        Action::ReadTsc
                    } else {
                        Action::ReadClock
                    },
                ],
            },
            (Service::Tsc, Event::Tsc { loaded }) => self.serve_tsc(loaded),
            (Service::Receive, Event::Received { received, repeaters_up }) => self.serve_upstream(
                received,
                repeaters_up@,
            ),
            (Service::Clock, Event::Time { time }) => self.serve_routable(time, 0),
            (Service::Routable { time, index }, Event::Delivered { result }) => {
                self.after_offer(index as nat, result).serve_routable(
                    time,
                    if result == Ok::<bool, drtioaux::Error>(false) {
                        (index + 1) as nat
                    } else {
                        index as nat
                    },
                )
            },
            (Service::Outgoing { slot }, Event::Delivered { result }) => self.after_outgoing(
                slot as nat,
                result,
            ).finish(),
            _ => ServiceView { view: self, state, actions: seq![] },
        }
    }
}

impl AuxView {
    /// The first slot that is due is due, and none before it is.
    pub(crate) proof fn lemma_first_due(self, time: u64, slot: nat)
        requires
            slot <= self.outgoing.len(),
        ensures
            slot <= self.first_due(time, slot) <= self.outgoing.len(),
            self.first_due(time, slot) < self.outgoing.len() ==> is_slot_due(
                self.outgoing[self.first_due(time, slot) as int],
                time,
            ),
            forall|i: int|
                slot <= i < self.first_due(time, slot) ==> !is_slot_due(
                    #[trigger] self.outgoing[i],
                    time,
                ),
        decreases self.outgoing.len() - slot,
    {
        if slot < self.outgoing.len() && !is_slot_due(self.outgoing[slot as int], time) {
            self.lemma_first_due(time, slot + 1);
        }
    }

    /// The next packet that has a way to take has one, and none before it has.
    pub(crate) proof fn lemma_next_routable(self, index: nat)
        requires
            index <= self.routable.len(),
        ensures
            index <= self.next_routable(index) <= self.routable.len(),
            self.next_routable(index) < self.routable.len() ==> !(self.way(
                None,
                self.routable[self.next_routable(index) as int],
            ) is Hold),
            forall|i: int|
                index <= i < self.next_routable(index) ==> self.way(None, #[trigger] self.routable[i])
                    is Hold,
        decreases self.routable.len() - index,
    {
        if index < self.routable.len() && self.way(None, self.routable[index as int]) is Hold {
            self.lemma_next_routable(index + 1);
        }
    }

    /// A pass that goes on with the packets that pass through stands at
    /// something that there is.
    proof fn lemma_serve_routable_keeps_its_place(self, time: u64, index: nat)
        requires
            self.wf(),
            index <= self.routable.len() <= usize::MAX,
        ensures
            ({
                let step = self.serve_routable(time, index);
                step.state is Done || step.view.is_at(step.state)
            }),
    {
        self.lemma_next_routable(index);
        self.lemma_first_due(time, 0);
    }

    /// A pass stands at something that there is.
    proof fn lemma_serve_keeps_its_place(self, state: Service, event: Event)
        requires
            self.wf(),
            self.routable.len() <= usize::MAX,
            self.is_at(state),
            self.can_take(state, event),
        ensures
            ({
                let step = self.serve(state, event);
                step.state is Done || step.view.is_at(step.state)
            }),
    {
        match (state, event) {
            (Service::Clock, Event::Time { time }) => {
                self.lemma_serve_routable_keeps_its_place(time, 0);
            },
            (Service::Routable { time, index }, Event::Delivered { result }) => {
                let view = self.after_offer(index as nat, result);
                view.lemma_serve_routable_keeps_its_place(time, index as nat);
                if result == Ok::<bool, drtioaux::Error>(false) {
                    view.lemma_serve_routable_keeps_its_place(time, (index + 1) as nat);
                }
            },
            _ => {},
        }
    }
}

impl AuxManager {
    /// The packets that have arrived are kept in order.
    pub closed spec fn inbox_wf(&self) -> bool {
        self.incoming_transactions.wf()
    }

    /// The parts of the manager are in order.
    pub open spec fn wf(&self) -> bool {
        self.inbox_wf() && self@.wf()
    }
}

impl View for AuxManager {
    type V = AuxView;

    closed spec fn view(&self) -> AuxView {
        AuxView {
            incoming: self.incoming_transactions@,
            outgoing: self.outgoing_transactions@,
            routable: self.routable_packets@,
            next_id: self.next_id,
            self_destination: self.self_destination,
            rank: self.rank,
            paths: self.routing_table@,
            upstream_state: self.upstream_state,
            gateware: self.gateware,
        }
    }
}

/// Decides which way a packet takes.
pub fn send(
    gateware: &Gateware,
    routing_table: &RoutingTable,
    rank: u8,
    upstream_state: UpstreamState,
    force_linkno: Option<u8>,
    packet: &Packet,
) -> (way: Delivery)
    requires
        gateware.drtio_routing ==> rank < MAX_HOPS,
    ensures
        way == delivery(
            *gateware,
            routing_table@,
            rank,
            upstream_state,
            force_linkno,
            *packet,
        ),
{
    if gateware.drtio_routing {
        let hop: u8 = match force_linkno {
            Some(linkno) => linkno,
            None => routing_table.get_hop(packet.destination, rank),
        };
        if hop > 0 && (hop as usize) < gateware.drtiorep {
            return Delivery::Repeater { repno: (hop - 1) as usize };
        }
    }
    match upstream_state {
        UpstreamState::Up => Delivery::Upstream,
        _ => Delivery::Hold,
    }
}

impl AuxManager {
    /// A manager of a device that has just started.
    pub fn new(gateware: Gateware) -> (manager: AuxManager)
        ensures
            manager.wf(),
            manager@.incoming == Map::<(u8, u8), IncomingTransaction>::empty(),
            manager@.outgoing == Seq::new(
                MAX_TRANSACTIONS as nat,
                |slot: int| None::<OutgoingTransaction>,
            ),
            manager@.routable == Seq::<Packet>::empty(),
            manager@.next_id == 0,
            manager@.self_destination == 1,
            manager@.rank == 1,
            forall|destination: u8, rank: u8|
                rank < MAX_HOPS ==> crate::routing::hop_of(manager@.paths, destination, rank)
                    == crate::routing::INVALID_HOP,
            manager@.upstream_state is Down,
            manager@.gateware == gateware,
    {
        let mut outgoing_transactions: Vec<Option<OutgoingTransaction>> = Vec::new();
        for i in 0..MAX_TRANSACTIONS
            invariant
                outgoing_transactions@ == Seq::new(i as nat, |slot: int| None::<OutgoingTransaction>),
        {
            outgoing_transactions.push(None);
        }
        let routing_table = RoutingTable::default_empty();
        assert forall|destination: u8, rank: u8| rank < MAX_HOPS implies crate::routing::hop_of(
            routing_table@,
            destination,
            rank,
        ) == crate::routing::INVALID_HOP by {
            assert(routing_table.hop(destination, rank) == crate::routing::INVALID_HOP);
        }
        AuxManager {
            incoming_transactions: Inbox::new(),
            outgoing_transactions,
            routable_packets: Vec::new(),
            next_id: 0,
            self_destination: 1,
            rank: 1,
            routing_table,
            upstream_state: UpstreamState::Down,
            gateware,
        }
    }

    /// Starts a transaction: gives it the next free number, and leaves its
    /// packet to be sent. Fails if no number is free.
    pub fn transact(&mut self, destination: u8, payload: Payload, now: u64) -> (result: Result<
        TransactionHandle,
        Error,
    >)
        requires
            old(self).wf(),
            now + DEFAULT_TIMEOUT <= u64::MAX,
        ensures
            final(self).wf(),
            match result {
                Ok(transaction_id) => {
                    &&& old(self)@.is_next_free(transaction_id)
                    &&& final(self)@ == old(self)@.after_transact(
                        transaction_id,
                        destination,
                        payload,
                        now,
                    )
                },
                Err(error) => {
                    &&& error is TransactionLimitReached
                    &&& forall|slot: int|
                        0 <= slot < MAX_TRANSACTIONS ==> #[trigger] old(self)@.outgoing[slot]
                            is Some
                    &&& final(self)@ == (AuxView {
                        next_id: old(self)@.slot_at(1) as u8,
                        ..old(self)@
                    })
                },
            },
    {
        let ghost before = self@;
        let mut i: usize = 0;
        self.next_id = (self.next_id + 1) % 128;
        while self.outgoing_transactions[self.next_id as usize].is_some() && i < 128
            invariant
                self.wf(),
                before.wf(),
                self@ == (AuxView { next_id: self.next_id, ..before }),
                0 <= i <= 128,
                self.next_id == before.slot_at(1 + i),
                forall|nearer: int|
                    1 <= nearer < 1 + i ==> before.outgoing[#[trigger] before.slot_at(nearer)]
                        is Some,
            decreases 128 - i,
        {
            self.next_id = (self.next_id + 1) % 128;
            i = i + 1;
        }
        if i == 128 {
            proof {
                assert forall|slot: int| 0 <= slot < MAX_TRANSACTIONS implies #[trigger] before.outgoing[slot]
                    is Some by {
                    let distance = (slot - before.next_id + 127) % 128 + 1;
                    assert(before.slot_at(distance) == slot);
                }
            }
            return Err(Error::TransactionLimitReached);
        }
        let transaction_id: u8 = self.next_id;
        let packet = Packet { source: self.self_destination, destination, transaction_id, payload };
        let transaction = OutgoingTransaction::new(packet, None, now);
        assert(before.slot_at(1 + i) == transaction_id);
        self.outgoing_transactions[transaction_id as usize] = Some(transaction);
        Ok(transaction_id)
    }

    /// Reads how a transaction ended, once it has.
    pub fn check_transaction(&mut self, transaction_id: TransactionHandle) -> (reading: Result<
        Option<Payload>,
        Error,
    >)
        requires
            old(self).wf(),
            transaction_id < MAX_TRANSACTIONS,
            old(self)@.outgoing[transaction_id as int] is Some,
        ensures
            final(self).wf(),
            reading == old(self)@.outgoing[transaction_id as int]->0.reading(),
            final(self)@ == (AuxView {
                outgoing: old(self)@.outgoing.update(
                    transaction_id as int,
                    Some(old(self)@.outgoing[transaction_id as int]->0.after_reading()),
                ),
                ..old(self)@
            }),
    {
        let slot: usize = transaction_id as usize;
        let mut transaction = self.outgoing_transactions[slot].unwrap();
        let reading = transaction.check_state();
        self.outgoing_transactions[slot] = Some(transaction);
        reading
    }

    /// The destination of a transaction.
    pub fn get_destination(&self, transaction_id: TransactionHandle) -> (destination: u8)
        requires
            self.wf(),
            transaction_id < MAX_TRANSACTIONS,
            self@.outgoing[transaction_id as int] is Some,
        ensures
            destination == self@.outgoing[transaction_id as int]->0.packet.destination,
    {
        self.outgoing_transactions[transaction_id as usize].unwrap().packet.destination
    }

    /// Leaves a reply to be sent to the source of a transaction.
    pub fn respond(&mut self, transaction_id: u8, source: u8, response: &Payload)
        requires
            old(self).wf(),
        ensures
            final(self).wf(),
            final(self)@ == old(self)@.after_respond(transaction_id, source, *response),
    {
        let transaction_id: u8 = transaction_id | REPLY_BIT;
        self.routable_packets.push(
            Packet {
                source: self.self_destination,
                destination: source,
                transaction_id,
                payload: *response,
            },
        );
    }

    /// Hands out the first packet that has arrived and has not been handed out,
    /// by transaction, then by source: its transaction, its source and what it
    /// says.
    pub fn get_incoming_packet(&mut self) -> (handed: Option<(u8, u8, Payload)>)
        requires
            old(self).wf(),
        ensures
            final(self).wf(),
            crate::satman::inbox::handed_out(old(self)@.incoming, final(self)@.incoming, handed),
            final(self)@ == (AuxView { incoming: final(self)@.incoming, ..old(self)@ }),
    {
        self.incoming_transactions.take_next()
    }

    /// The destination that this device is.
    pub fn self_destination(&self) -> (destination: u8)
        ensures
            destination == self@.self_destination,
    {
        self.self_destination
    }

    /// Routes a packet to the transactions of this device, or on.
    pub fn route_packet(&mut self, packet: &Packet)
        requires
            old(self).wf(),
        ensures
            final(self).wf(),
            final(self)@ == old(self)@.after_route(*packet),
    {
        if packet.destination == self.self_destination {
            if packet.transaction_id >= REPLY_BIT {
                let slot: usize = (packet.transaction_id - REPLY_BIT) as usize;
                if let Some(entry) = self.outgoing_transactions[slot] {
                    let mut transaction = entry;
                    transaction.record_response(&packet.payload);
                    self.outgoing_transactions[slot] = Some(transaction);
                }
            } else {
                self.incoming_transactions.insert(
                    packet.transaction_id,
                    packet.source,
                    IncomingTransaction::new(packet.payload),
                );
            }
        } else if self.gateware.drtio_routing {
            self.routable_packets.push(*packet);
        }
    }

    /// Does what a packet from upstream says on the set-up of the device, and
    /// tells whether anything else is to be done with it.
    pub fn handle_setup_packet(&mut self, packet: &Packet, repeaters_up: &Vec<bool>) -> (setup:
        Setup)
        requires
            old(self).wf(),
            old(self)@.can_set_up(*packet),
            repeaters_up.len() == old(self)@.gateware.repeaters_spec(),
        ensures
            final(self).wf(),
            (SetupView {
                view: final(self)@,
                consumed: setup.consumed,
                actions: setup.actions@,
            }) == old(self)@.set_up(*packet, repeaters_up@),
    {
        let mut actions: Vec<Action> = Vec::new();
        let n: usize = self.gateware.repeaters();
        let ghost expected = self@.set_up(*packet, repeaters_up@).actions;
        match packet.payload {
            Payload::EchoRequest => {
                actions.push(
                    Action::Reply {
                        packet: Packet {
                            source: 0,
                            destination: 0,
                            transaction_id: 0,
                            payload: Payload::EchoReply,
                        },
                    },
                );
                Setup { consumed: true, actions }
            },
            Payload::RoutingSetPath { destination, hops } => {
                if self.gateware.drtio_routing {
                    self.routing_table.set_path(destination, hops);
                }
                for repno in 0..n
                    invariant
                        actions@ == expected.take(repno as int),
                        expected.len() == n + 1,
                        forall|i: int|
                            0 <= i < n ==> #[trigger] expected[i] == (Action::SetPath {
                                repno: i as usize,
                                destination,
                                hops,
                            }),
                {
                    actions.push(Action::SetPath { repno, destination, hops });
                    assert(actions@ =~= expected.take(repno + 1));
                }
                actions.push(
                    Action::Reply {
                        packet: Packet {
                            source: 0,
                            destination: 0,
                            transaction_id: 0,
                            payload: Payload::RoutingAck,
                        },
                    },
                );
                assert(actions@ =~= expected);
                Setup { consumed: true, actions }
            },
            Payload::RoutingSetRank { rank } => {
                self.rank = rank;
                if self.gateware.drtio_routing {
                    actions.push(Action::EnableInterconnect { rank });
                    let rep_rank: u8 = rank + 1;
                    for repno in 0..n
                        invariant
                            actions@ == expected.take(repno + 1),
                            expected.len() == n + 2,
                            forall|i: int|
                                0 <= i < n ==> expected[i + 1] == #[trigger] set_rank(i, rep_rank),
                    {
                        actions.push(Action::SetRank { repno, rank: rep_rank });
                        assert(expected[repno + 1] == set_rank(repno as int, rep_rank));
                        assert(actions@ =~= expected.take(repno + 2));
                    }
                }
                actions.push(
                    Action::Reply {
                        packet: Packet {
                            source: 0,
                            destination: 0,
                            transaction_id: 0,
                            payload: Payload::RoutingAck,
                        },
                    },
                );
                assert(actions@ =~= expected);
                self.upstream_state = UpstreamState::Up;
                Setup { consumed: true, actions }
            },
            Payload::DestinationStatusRequest => {
                if self.gateware.drtio_routing && packet.destination != self.self_destination {
                    let hop: u8 = self.routing_table.get_hop(packet.destination, self.rank);
                    let repno: usize = hop as usize - 1;
                    if !repeaters_up[repno] {
                        self.respond(
                            packet.source,
                            packet.transaction_id,
                            &Payload::DestinationDownReply,
                        );
                        return Setup { consumed: true, actions };
                    }
                }
                Setup { consumed: false, actions }
            },
            Payload::ResetRequest => {
                actions.push(Action::ResetRtio);
                for repno in 0..n
                    invariant
                        actions@ == expected.take(repno + 1),
                        expected.len() == n + 2,
                        forall|i: int|
                            0 <= i < n ==> expected[i + 1] == #[trigger] reset_repeater(i),
                {
                    actions.push(Action::ResetRepeater { repno });
                    assert(expected[repno + 1] == reset_repeater(repno as int));
                    assert(actions@ =~= expected.take(repno + 2));
                }
                actions.push(
                    Action::Reply {
                        packet: Packet {
                            source: 0,
                            destination: 0,
                            transaction_id: packet.transaction_id | REPLY_BIT,
                            payload: Payload::ResetAck,
                        },
                    },
                );
                assert(actions@ =~= expected);
                Setup { consumed: false, actions }
            },
            _ => Setup { consumed: false, actions },
        }
    }

    /// Tells whether a packet can be received from upstream.
    pub fn can_receive(&self, packet: &Packet) -> (can: bool)
        requires
            self.wf(),
        ensures
            can == self@.can_set_up(*packet),
    {
        if !self.gateware.drtio_routing {
            return true;
        }
        match packet.payload {
            Payload::RoutingSetRank { rank } => (rank as usize) < MAX_HOPS,
            Payload::DestinationStatusRequest => {
                if packet.destination != self.self_destination {
                    let hop: u8 = self.routing_table.get_hop(packet.destination, self.rank);
                    1 <= hop && hop as usize <= self.gateware.drtiorep
                } else {
                    true
                }
            },
            _ => true,
        }
    }

    /// Tells whether a packet is dropped when it is routed.
    pub fn is_dropped(&self, packet: &Packet) -> (dropped: bool)
        requires
            self.wf(),
        ensures
            dropped == self@.drops(*packet),
    {
        if packet.destination == self.self_destination {
            packet.transaction_id >= REPLY_BIT && self.outgoing_transactions[(packet.transaction_id
                - REPLY_BIT) as usize].is_none()
        } else {
            !self.gateware.drtio_routing
        }
    }

    /// Tells whether a packet from upstream is routed.
    pub fn is_routed(&self, packet: &Packet, repeaters_up: &Vec<bool>) -> (routed: bool)
        requires
            self.wf(),
            self@.can_set_up(*packet),
            repeaters_up.len() == self@.gateware.repeaters_spec(),
        ensures
            routed == self@.routes(*packet, repeaters_up@),
    {
        let consumed = match packet.payload {
            Payload::EchoRequest => true,
            Payload::RoutingSetPath { .. } => true,
            Payload::RoutingSetRank { .. } => true,
            Payload::DestinationStatusRequest => {
                if self.gateware.drtio_routing && packet.destination != self.self_destination {
                    let hop: u8 = self.routing_table.get_hop(packet.destination, self.rank);
                    !repeaters_up[hop as usize - 1]
                } else {
                    false
                }
            },
            _ => false,
        };
        match self.upstream_state {
            UpstreamState::SettingUp => false,
            _ => !consumed,
        }
    }

    /// The rank of the device.
    pub fn rank(&self) -> (rank: u8)
        ensures
            rank == self@.rank,
    {
        self.rank
    }

    /// The paths that the device has been told.
    pub fn routing_table(&self) -> (table: &RoutingTable)
        ensures
            table@ == self@.paths,
    {
        &self.routing_table
    }

    /// The way that a packet takes.
    fn way(&self, force_linkno: Option<u8>, packet: &Packet) -> (way: Delivery)
        requires
            self.wf(),
        ensures
            way == self@.way(force_linkno, *packet),
    {
        send(
            &self.gateware,
            &self.routing_table,
            self.rank,
            self.upstream_state,
            force_linkno,
            packet,
        )
    }

    /// Ends a pass.
    fn finish(&mut self) -> (step: ServiceStep)
        requires
            old(self).wf(),
        ensures
            final(self).wf(),
            (ServiceView { view: final(self)@, state: step.state, actions: step.actions@ })
                == old(self)@.finish(),
    {
        self.incoming_transactions.drop_handled();
        ServiceStep { state: Service::Done, actions: Vec::new() }
    }

    /// Looks at the time of the transactions, up to the first that has to be
    /// sent, and forgets those whose end has been read.
    fn sweep(&mut self, time: u64) -> (slot: usize)
        requires
            old(self).wf(),
        ensures
            final(self).wf(),
            slot == old(self)@.first_due(time, 0),
            final(self)@ == old(self)@.after_sweep(time),
    {
        let ghost before = self@;
        let mut slot: usize = 0;
        while slot < MAX_TRANSACTIONS
            invariant_except_break
                slot <= MAX_TRANSACTIONS,
                before.first_due(time, 0) == before.first_due(time, slot as nat),
            invariant
                self.wf(),
                before.wf(),
                slot <= before.first_due(time, 0),
                self@ == (AuxView { outgoing: self@.outgoing, ..before }),
                forall|i: int|
                    0 <= i < MAX_TRANSACTIONS ==> #[trigger] self@.outgoing[i] == if i < slot {
                        swept(before.outgoing[i], time)
                    } else {
                        before.outgoing[i]
                    },
            ensures
                slot == before.first_due(time, 0),
            decreases MAX_TRANSACTIONS - slot,
        {
            if let Some(entry) = self.outgoing_transactions[slot] {
                let mut transaction = entry;
                if transaction.should_send(time) {
                    break;
                }
                self.outgoing_transactions[slot] = if transaction.can_be_deleted() {
                    None
                } else {
                    Some(transaction)
                };
            }
            slot = slot + 1;
            proof {
                before.lemma_first_due(time, slot as nat);
            }
        }
        assert(self@.outgoing =~= before.after_sweep(time).outgoing);
        slot
    }

    /// Goes on with the transactions.
    fn serve_outgoing(&mut self, time: u64) -> (step: ServiceStep)
        requires
            old(self).wf(),
        ensures
            final(self).wf(),
            (ServiceView { view: final(self)@, state: step.state, actions: step.actions@ })
                == old(self)@.serve_outgoing(time),
    {
        let ghost before = self@;
        let slot: usize = self.sweep(time);
        if slot < MAX_TRANSACTIONS {
            proof {
                before.lemma_first_due(time, 0);
            }
            if let Some(transaction) = self.outgoing_transactions[slot] {
                let way = self.way(transaction.force_linkno, &transaction.packet);
                match way {
                    Delivery::Hold => {},
                    _ => {
                        let mut actions: Vec<Action> = Vec::new();
                        actions.push(Action::Deliver { way, time, packet: transaction.packet });
                        return ServiceStep { state: Service::Outgoing { slot }, actions };
                    },
                }
            }
        }
        self.finish()
    }

    /// Goes on with the packets that pass through, from an index on.
    fn serve_routable(&mut self, time: u64, index: usize) -> (step: ServiceStep)
        requires
            old(self).wf(),
            index <= old(self)@.routable.len(),
        ensures
            final(self).wf(),
            (ServiceView { view: final(self)@, state: step.state, actions: step.actions@ })
                == old(self)@.serve_routable(time, index as nat),
    {
        let mut next: usize = index;
        while next < self.routable_packets.len()
            invariant
                self.wf(),
                next <= self@.routable.len(),
                *self == *old(self),
                self@.next_routable(index as nat) == self@.next_routable(next as nat),
            decreases self@.routable.len() - next,
        {
            let packet = self.routable_packets[next];
            let way = self.way(None, &packet);
            match way {
                Delivery::Hold => {},
                _ => {
                    let mut actions: Vec<Action> = Vec::new();
                    actions.push(Action::Deliver { way, time, packet });
                    return ServiceStep { state: Service::Routable { time, index: next }, actions };
                },
            }
            next = next + 1;
        }
        self.serve_outgoing(time)
    }

    /// Goes on with the repeaters, from one on.
    fn serve_repeaters(&self, repno: usize) -> (step: ServiceStep)
        ensures
            (ServiceView { view: self@, state: step.state, actions: step.actions@ })
                == self@.serve_repeaters(repno as nat),
    {
        let mut actions: Vec<Action> = Vec::new();
        if repno < self.gateware.repeaters() {
            actions.push(Action::ServiceRepeater { repno });
            ServiceStep { state: Service::Repeaters { repno }, actions }
        } else {
            actions.push(Action::ReadLink);
            ServiceStep { state: Service::Link, actions }
        }
    }

    /// Goes on with a time that upstream may have loaded.
    fn serve_tsc(&self, loaded: bool) -> (step: ServiceStep)
        ensures
            (ServiceView { view: self@, state: step.state, actions: step.actions@ })
                == self@.serve_tsc(loaded),
    {
        let mut actions: Vec<Action> = Vec::new();
        if loaded {
            let n: usize = self.gateware.repeaters();
            for repno in 0..n
                invariant
                    actions@ == Seq::new(
                        repno as nat,
                        |i: int| Action::SyncTsc { repno: i as usize },
                    ),
            {
                actions.push(Action::SyncTsc { repno });
            }
            actions.push(
                Action::Notify {
                    packet: Packet {
                        source: 0,
                        destination: 0,
                        transaction_id: 0,
                        payload: Payload::TSCAck,
                    },
                },
            );
        }
        actions.push(Action::Receive);
        ServiceStep { state: Service::Receive, actions }
    }

    /// Goes on with what upstream has sent.
    fn serve_upstream(
        &mut self,
        received: Result<Option<Packet>, drtioaux::Error>,
        repeaters_up: &Vec<bool>,
    ) -> (step: ServiceStep)
        requires
            old(self).wf(),
            repeaters_up.len() == old(self)@.gateware.repeaters_spec(),
            received matches Ok(Some(packet)) ==> old(self)@.can_set_up(packet),
        ensures
            final(self).wf(),
            (ServiceView { view: final(self)@, state: step.state, actions: step.actions@ })
                == old(self)@.serve_upstream(received, repeaters_up@),
    {
        let mut actions: Vec<Action> = Vec::new();
        if let Ok(Some(packet)) = received {
            let setup = self.handle_setup_packet(&packet, repeaters_up);
            actions = setup.actions;
            if !setup.consumed {
                match self.upstream_state {
                    UpstreamState::SettingUp => {},
                    _ => self.route_packet(&packet),
                }
            }
        }
        actions.push(Action::ReadClock);
        ServiceStep { state: Service::Clock, actions }
    }

    /// Starts a pass of the service.
    pub fn begin_service(&self) -> (step: ServiceStep)
        ensures
            (ServiceView { view: self@, state: step.state, actions: step.actions@ })
                == self@.serve_repeaters(0),
            self@.is_at(step.state),
    {
        self.serve_repeaters(0)
    }

    /// Continues a pass of the service with what came of the last action: lets
    /// the repeaters do their work, follows the uplink, receives from it, sends
    /// the packets that pass through and then one transaction, and forgets what
    /// has been dealt with.
    pub fn service(&mut self, state: Service, event: Event) -> (step: ServiceStep)
        requires
            old(self).wf(),
            old(self)@.is_at(state),
            old(self)@.can_take(state, event),
        ensures
            final(self).wf(),
            (ServiceView { view: final(self)@, state: step.state, actions: step.actions@ })
                == old(self)@.serve(state, event),
            step.state is Done || final(self)@.is_at(step.state),
    {
        let len: usize = self.routable_packets.len();
        assert(len == self@.routable.len());
        proof {
            self@.lemma_serve_keeps_its_place(state, event);
        }
        match (state, event) {
            (Service::Repeaters { repno }, Event::Serviced { received }) => {
                if let Ok(Some(packet)) = received {
                    self.route_packet(&packet);
                }
                self.serve_repeaters(repno + 1)
            },
            (Service::Link, Event::Link { rx_up }) => {
                let mut actions: Vec<Action> = Vec::new();
                if !rx_up {
                    self.upstream_state = UpstreamState::Down;
                    actions.push(Action::ReadClock);
                    ServiceStep { state: Service::Clock, actions }
                } else {
                    if let UpstreamState::Down = self.upstream_state {
                        self.upstream_state = UpstreamState::SettingUp;
                    }
                    actions.push(Action::ReadTsc);
                    ServiceStep { state: Service::Tsc, actions }
                }
            },
            (Service::Tsc, Event::Tsc { loaded }) => self.serve_tsc(loaded),
            (Service::Receive, Event::Received { received, repeaters_up }) => self.serve_upstream(
                received,
                &repeaters_up,
            ),
            (Service::Clock, Event::Time { time }) => self.serve_routable(time, 0),
            (Service::Routable { time, index }, Event::Delivered { result }) => {
                match result {
                    Ok(false) => self.serve_routable(time, index + 1),
                    _ => {
                        let _ = self.routable_packets.remove(index);
                        self.serve_routable(time, index)
                    },
                }
            },
            (Service::Outgoing { slot }, Event::Delivered { result }) => {
                if let Ok(true) = result {
                    if let Some(entry) = self.outgoing_transactions[slot] {
                        let mut transaction = entry;
                        transaction.update();
                        self.outgoing_transactions[slot] = Some(transaction);
                    }
                }
                self.finish()
            },
            _ => ServiceStep { state, actions: Vec::new() },
        }
    }
}

} // verus!
