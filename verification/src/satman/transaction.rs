//! The two sides of a transaction.

use vstd::prelude::*;

use crate::drtioaux;
use crate::satman::packet::{Packet, Payload};

verus! {

/// How long a transaction waits for its reply, in milliseconds.
pub const DEFAULT_TIMEOUT: u64 = 200;

/// Failures of transactions.
#[derive(Clone, Copy, Debug, PartialEq, Eq, Structural)]
pub enum Error {
    /// Every number for a transaction is taken.
    TransactionLimitReached,
    /// No reply arrived in time.
    Timeout,
    /// The link failed.
    AuxError(drtioaux::Error),
}

impl vstd::std_specs::convert::FromSpecImpl<drtioaux::Error> for Error {
    open spec fn obeys_from_spec() -> bool {
        true
    }

    open spec fn from_spec(value: drtioaux::Error) -> Error {
        Error::AuxError(value)
    }
}

impl From<drtioaux::Error> for Error {
    fn from(value: drtioaux::Error) -> (error: Error) {
        Error::AuxError(value)
    }
}

/// Whether a packet that arrived has been handed out.
#[derive(Clone, Copy, Debug, PartialEq, Eq, Structural)]
pub enum IncomingTransactionState {
    Received,
    Handled,
}

/// A packet that arrived at this device.
#[derive(Clone, Copy, Debug, PartialEq, Eq)]
pub struct IncomingTransaction {
    pub payload: Payload,
    pub state: IncomingTransactionState,
}

impl IncomingTransaction {
    /// A packet that has just arrived.
    pub fn new(payload: Payload) -> (transaction: IncomingTransaction)
        ensures
            transaction == (IncomingTransaction {
                payload,
                state: IncomingTransactionState::Received,
            }),
    {
        IncomingTransaction { payload, state: IncomingTransactionState::Received }
    }
}

/// How far a transaction of this device has come.
#[derive(Clone, Copy, Debug, PartialEq, Eq)]
pub enum TransactionState {
    /// The packet waits for the link.
    Unsent,
    /// The packet is on its way.
    Sent,
    /// The reply has arrived.
    Received(Payload),
    /// The time for the reply is over.
    TimedOut,
    /// How the transaction ended has been read.
    BeenRead,
}

/// A transaction that this device has started.
#[derive(Clone, Copy, Debug, PartialEq, Eq)]
pub struct OutgoingTransaction {
    pub packet: Packet,
    /// The time until which the reply is awaited.
    pub max_time: u64,
    pub state: TransactionState,
    /// A link to take whatever the routing table says.
    pub force_linkno: Option<u8>,
}

impl OutgoingTransaction {
    /// What reading the transaction yields: how it ended, once it has ended.
    pub open spec fn reading(self) -> Result<Option<Payload>, Error> {
        match self.state {
            TransactionState::Received(response) => Ok(Some(response)),
            TransactionState::TimedOut => Err(Error::Timeout),
            _ => Ok(None),
        }
    }

    /// The transaction after it has been read: an end that was read is not
    /// read again.
    pub open spec fn after_reading(self) -> OutgoingTransaction {
        if self.state is Received || self.state is TimedOut {
            OutgoingTransaction { state: TransactionState::BeenRead, ..self }
        } else {
            self
        }
    }

    /// The transaction once a reply has arrived.
    pub open spec fn after_response(self, response: Payload) -> OutgoingTransaction {
        OutgoingTransaction { state: TransactionState::Received(response), ..self }
    }

    /// The transaction waits for the link or for its reply.
    pub open spec fn is_pending(self) -> bool {
        self.state is Unsent || self.state is Sent
    }

    /// The transaction at some time: what was pending beyond its time is over.
    pub open spec fn at_time(self, time: u64) -> OutgoingTransaction {
        if self.is_pending() && time > self.max_time {
            OutgoingTransaction { state: TransactionState::TimedOut, ..self }
        } else {
            self
        }
    }

    /// The packet has to be sent at this time.
    pub open spec fn is_due(self, time: u64) -> bool {
        self.at_time(time).state is Unsent
    }

    /// The transaction once its packet has been sent.
    pub open spec fn after_sending(self) -> OutgoingTransaction {
        if self.state is Unsent {
            OutgoingTransaction { state: TransactionState::Sent, ..self }
        } else {
            self
        }
    }

    /// A transaction that waits for the link, and from `now` on for its reply.
    pub fn new(packet: Packet, force_linkno: Option<u8>, now: u64) -> (transaction:
        OutgoingTransaction)
        requires
            now + DEFAULT_TIMEOUT <= u64::MAX,
        ensures
            transaction == (OutgoingTransaction {
                packet,
                max_time: (now + DEFAULT_TIMEOUT) as u64,
                state: TransactionState::Unsent,
                force_linkno,
            }),
    {
        OutgoingTransaction {
            packet,
            max_time: now + DEFAULT_TIMEOUT,
            state: TransactionState::Unsent,
            force_linkno,
        }
    }

    /// Reads how the transaction ended: the reply, or that it timed out. An
    /// end is told once.
    pub fn check_state(&mut self) -> (reading: Result<Option<Payload>, Error>)
        ensures
            reading == old(self).reading(),
            *final(self) == old(self).after_reading(),
    {
        match self.state {
            TransactionState::Received(response) => {
                self.state = TransactionState::BeenRead;
                Ok(Some(response))
            },
            TransactionState::TimedOut => {
                self.state = TransactionState::BeenRead;
                Err(Error::Timeout)
            },
            _ => Ok(None),
        }
    }

    /// Takes in the reply.
    pub fn record_response(&mut self, response: &Payload)
        ensures
            *final(self) == old(self).after_response(*response),
    {
        self.state = TransactionState::Received(*response);
    }

    /// The end of the transaction has been read, so it may be forgotten.
    pub fn can_be_deleted(&self) -> (deletable: bool)
        ensures
            deletable == (self.state is BeenRead),
    {
        match self.state {
            TransactionState::BeenRead => true,
            _ => false,
        }
    }

    /// Tells whether the packet has to be sent, and ends the transaction if
    /// its time is over.
    pub fn should_send(&mut self, current_time: u64) -> (send: bool)
        ensures
            send == old(self).is_due(current_time),
            *final(self) == old(self).at_time(current_time),
    {
        let pending = match self.state {
            TransactionState::Unsent | TransactionState::Sent => true,
            _ => false,
        };
        if pending && current_time > self.max_time {
            self.state = TransactionState::TimedOut;
            false
        } else {
            match self.state {
                TransactionState::Unsent => true,
                _ => false,
            }
        }
    }

    /// Notes that the packet has been sent.
    pub fn update(&mut self)
        ensures
            *final(self) == old(self).after_sending(),
    {
        if let TransactionState::Unsent = self.state {
            self.state = TransactionState::Sent;
        }
    }
}

/// A reply that has arrived is read once: the first reading yields it, the next
/// yields nothing, and in between the transaction becomes deletable.
pub proof fn law_replies_are_read_once(transaction: OutgoingTransaction, response: Payload)
    ensures
        transaction.after_response(response).reading() == Ok::<Option<Payload>, Error>(
            Some(response),
        ),
        transaction.after_response(response).after_reading().state is BeenRead,
        transaction.after_response(response).after_reading().reading() == Ok::<
            Option<Payload>,
            Error,
        >(None),
{
}

/// A transaction that stays without a reply beyond its time fails with a
/// timeout, which is read once, and is not sent any more.
pub proof fn law_timeouts_are_read_once(transaction: OutgoingTransaction, time: u64)
    requires
        transaction.is_pending(),
        time > transaction.max_time,
    ensures
        !transaction.is_due(time),
        transaction.at_time(time).reading() == Err::<Option<Payload>, Error>(Error::Timeout),
        transaction.at_time(time).after_reading().state is BeenRead,
        transaction.at_time(time).after_reading().reading() == Ok::<Option<Payload>, Error>(None),
{
}

/// Until its time is over, a transaction does not change by itself.
pub proof fn law_no_timeout_before_its_time(transaction: OutgoingTransaction, time: u64)
    requires
        time <= transaction.max_time,
    ensures
        transaction.at_time(time) == transaction,
{
}

/// Something that is done with a transaction.
pub enum Use {
    /// Its time is looked at.
    AtTime(u64),
    /// Its packet is sent.
    Sending,
    /// A reply to it arrives.
    Response(Payload),
    /// It is read.
    Reading,
}

impl OutgoingTransaction {
    /// The transaction after a use.
    pub open spec fn after_use(self, used: Use) -> OutgoingTransaction {
        match used {
            Use::AtTime(time) => self.at_time(time),
            Use::Sending => self.after_sending(),
            Use::Response(response) => self.after_response(response),
            Use::Reading => self.after_reading(),
        }
    }

    /// The transaction after a course of uses.
    pub open spec fn after_uses(self, uses: Seq<Use>) -> OutgoingTransaction
        decreases uses.len(),
    {
        if uses.len() == 0 {
            self
        } else {
            self.after_use(uses.first()).after_uses(uses.drop_first())
        }
    }
}

/// A packet that has been sent is never due again, whatever is done with its
/// transaction.
pub proof fn law_packets_are_sent_once(
    transaction: OutgoingTransaction,
    uses: Seq<Use>,
    time: u64,
)
    ensures
        !transaction.after_sending().after_uses(uses).is_due(time),
{
    lemma_not_due_again(transaction.after_sending(), uses, time);
}

proof fn lemma_not_due_again(transaction: OutgoingTransaction, uses: Seq<Use>, time: u64)
    requires
        !(transaction.state is Unsent),
    ensures
        !transaction.after_uses(uses).is_due(time),
    decreases uses.len(),
{
    if uses.len() > 0 {
        lemma_not_due_again(transaction.after_use(uses.first()), uses.drop_first(), time);
    }
}

/// A reading tells the reply if there is one, a timeout if the time is over, and
/// otherwise nothing. It changes only an end that it has told.
pub proof fn law_a_reading_tells_the_end(transaction: OutgoingTransaction, response: Payload)
    ensures
        transaction.state == TransactionState::Received(response) <==> transaction.reading()
            == Ok::<Option<Payload>, Error>(Some(response)),
        transaction.state is TimedOut <==> transaction.reading() == Err::<Option<Payload>, Error>(
            Error::Timeout,
        ),
        transaction.state is TimedOut || transaction.reading() is Ok,
        transaction.state is Received || transaction.state is TimedOut
            ==> transaction.after_reading().state is BeenRead,
        !(transaction.state is Received || transaction.state is TimedOut)
            ==> transaction.after_reading() == transaction,
        transaction.after_reading().packet == transaction.packet,
        transaction.after_reading().max_time == transaction.max_time,
        transaction.after_reading().force_linkno == transaction.force_linkno,
{
}

/// A transaction has to be sent just while it is unsent and its time is not
/// over. Time changes only what is pending, once it is over; sending changes
/// only what is unsent; a reply is taken in whatever the state is.
pub proof fn law_a_transaction_goes_through_its_states(
    transaction: OutgoingTransaction,
    time: u64,
    response: Payload,
)
    ensures
        transaction.is_due(time) <==> (transaction.state is Unsent && time
            <= transaction.max_time),
        (transaction.state is Unsent || transaction.state is Sent) && time > transaction.max_time
            ==> transaction.at_time(time) == (OutgoingTransaction {
            state: TransactionState::TimedOut,
            ..transaction
        }),
        !((transaction.state is Unsent || transaction.state is Sent) && time
            > transaction.max_time) ==> transaction.at_time(time) == transaction,
        transaction.state is Unsent ==> transaction.after_sending() == (OutgoingTransaction {
            state: TransactionState::Sent,
            ..transaction
        }),
        !(transaction.state is Unsent) ==> transaction.after_sending() == transaction,
        transaction.after_response(response) == (OutgoingTransaction {
            state: TransactionState::Received(response),
            ..transaction
        }),
{
}

} // verus!
