use artiq_firmware::drtioaux;
use artiq_firmware::satman::aux::{
    Error, IncomingTransaction, IncomingTransactionState, OutgoingTransaction, TransactionState,
    DEFAULT_TIMEOUT, LINK_COOLDOWN,
};
use artiq_firmware::satman::packet::{Packet, Payload};

fn transaction() -> OutgoingTransaction {
    OutgoingTransaction::new(
        Packet { source: 1, destination: 2, transaction_id: 3, payload: Payload::EchoRequest },
        None,
        1000,
    )
}

#[test]
fn times_are_in_milliseconds() {
    assert_eq!(DEFAULT_TIMEOUT, 200);
    assert_eq!(LINK_COOLDOWN, 5);
}

#[test]
fn a_new_transaction_waits_for_the_link() {
    let transaction = transaction();
    assert_eq!(transaction.max_time, 1200);
    assert_eq!(transaction.state, TransactionState::Unsent);
    assert_eq!(transaction.force_linkno, None);
    assert_eq!(transaction.packet.transaction_id, 3);
    assert!(!transaction.can_be_deleted());
}

#[test]
fn a_transaction_is_sent_once() {
    let mut transaction = transaction();
    assert!(transaction.should_send(1000));
    assert!(transaction.should_send(1100));
    transaction.update();
    assert_eq!(transaction.state, TransactionState::Sent);
    assert!(!transaction.should_send(1100));
    transaction.update();
    assert_eq!(transaction.state, TransactionState::Sent);
}

#[test]
fn a_reply_is_read_once() {
    let mut transaction = transaction();
    transaction.update();
    assert_eq!(transaction.check_state(), Ok(None));
    transaction.record_response(&Payload::EchoReply);
    assert_eq!(transaction.state, TransactionState::Received(Payload::EchoReply));
    assert!(!transaction.can_be_deleted());
    assert_eq!(transaction.check_state(), Ok(Some(Payload::EchoReply)));
    assert!(transaction.can_be_deleted());
    assert_eq!(transaction.check_state(), Ok(None));
}

#[test]
fn a_late_transaction_times_out() {
    let mut transaction = transaction();
    assert!(transaction.should_send(1200));
    assert!(!transaction.should_send(1201));
    assert_eq!(transaction.state, TransactionState::TimedOut);
    assert_eq!(transaction.check_state(), Err(Error::Timeout));
    assert!(transaction.can_be_deleted());
    assert_eq!(transaction.check_state(), Ok(None));
}

#[test]
fn a_sent_transaction_times_out() {
    let mut transaction = transaction();
    transaction.update();
    assert!(!transaction.should_send(1200));
    assert_eq!(transaction.state, TransactionState::Sent);
    assert!(!transaction.should_send(1201));
    assert_eq!(transaction.state, TransactionState::TimedOut);
}

#[test]
fn a_reply_outlives_the_timeout() {
    let mut transaction = transaction();
    transaction.record_response(&Payload::EchoReply);
    assert!(!transaction.should_send(5000));
    assert_eq!(transaction.check_state(), Ok(Some(Payload::EchoReply)));
}

#[test]
fn failures_of_the_link_become_failures_of_the_transaction() {
    assert_eq!(
        Error::from(drtioaux::Error::LinkDown),
        Error::AuxError(drtioaux::Error::LinkDown)
    );
}

#[test]
fn a_packet_that_arrives_has_not_been_handed_out() {
    let transaction = IncomingTransaction::new(Payload::ResetRequest);
    assert_eq!(transaction.payload, Payload::ResetRequest);
    assert_eq!(transaction.state, IncomingTransactionState::Received);
}
