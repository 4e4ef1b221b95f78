use artiq_firmware::drtioaux::{PayloadStatus, MASTER_PAYLOAD_MAX_SIZE, SAT_PAYLOAD_MAX_SIZE};
use artiq_firmware::satman::aux::{SliceMeta, Sliceable};

fn numbered(len: usize) -> Vec<u8> {
    (0..len).map(|i| (i % 251) as u8).collect()
}

#[test]
fn payload_status_marks_both_ends() {
    assert_eq!(PayloadStatus::from_status(false, false), PayloadStatus::Middle);
    assert_eq!(PayloadStatus::from_status(true, false), PayloadStatus::First);
    assert_eq!(PayloadStatus::from_status(false, true), PayloadStatus::Last);
    assert_eq!(PayloadStatus::from_status(true, true), PayloadStatus::FirstAndLast);
}

#[test]
fn short_data_is_one_piece() {
    let mut sliceable = Sliceable::new(7, vec![1, 2, 3]);
    let mut buffer = [0xaa; SAT_PAYLOAD_MAX_SIZE];
    assert!(!sliceable.at_end());
    let meta = sliceable.get_slice_sat(&mut buffer);
    assert_eq!(
        meta,
        SliceMeta { destination: 7, len: 3, status: PayloadStatus::FirstAndLast }
    );
    assert_eq!(buffer[..3], [1, 2, 3]);
    assert!(buffer[3..].iter().all(|&byte| byte == 0xaa));
    assert!(sliceable.at_end());
}

#[test]
fn empty_data_is_one_empty_piece() {
    let mut sliceable = Sliceable::new(2, vec![]);
    let mut buffer = [0x55; SAT_PAYLOAD_MAX_SIZE];
    assert!(sliceable.at_end());
    let meta = sliceable.get_slice_sat(&mut buffer);
    assert_eq!(
        meta,
        SliceMeta { destination: 2, len: 0, status: PayloadStatus::FirstAndLast }
    );
    assert!(buffer.iter().all(|&byte| byte == 0x55));
}

#[test]
fn data_of_exactly_one_packet_is_one_piece() {
    let mut sliceable = Sliceable::new(1, numbered(SAT_PAYLOAD_MAX_SIZE));
    let mut buffer = [0; SAT_PAYLOAD_MAX_SIZE];
    let meta = sliceable.get_slice_sat(&mut buffer);
    assert_eq!(meta.len, 504);
    assert_eq!(meta.status, PayloadStatus::FirstAndLast);
    assert!(sliceable.at_end());
}

#[test]
fn pieces_for_satellites_make_up_the_data() {
    let data = numbered(2 * SAT_PAYLOAD_MAX_SIZE + 1);
    let mut sliceable = Sliceable::new(3, data.clone());
    let mut buffer = [0; SAT_PAYLOAD_MAX_SIZE];
    let mut collected = Vec::new();
    let mut statuses = Vec::new();
    let mut lengths = Vec::new();
    while !sliceable.at_end() {
        let meta = sliceable.get_slice_sat(&mut buffer);
        collected.extend_from_slice(&buffer[..meta.len as usize]);
        statuses.push(meta.status);
        lengths.push(meta.len);
    }
    assert_eq!(collected, data);
    assert_eq!(lengths, vec![504, 504, 1]);
    assert_eq!(
        statuses,
        vec![PayloadStatus::First, PayloadStatus::Middle, PayloadStatus::Last]
    );
}

#[test]
fn pieces_for_the_master_make_up_the_data() {
    let data = numbered(MASTER_PAYLOAD_MAX_SIZE + 2);
    let mut sliceable = Sliceable::new(0, data.clone());
    let mut buffer = [0; MASTER_PAYLOAD_MAX_SIZE];
    let first = sliceable.get_slice_master(&mut buffer);
    assert_eq!(first.len, 498);
    assert_eq!(first.status, PayloadStatus::First);
    assert_eq!(buffer[..], data[..498]);
    let second = sliceable.get_slice_master(&mut buffer);
    assert_eq!(second.len, 2);
    assert_eq!(second.status, PayloadStatus::Last);
    assert_eq!(buffer[..2], data[498..]);
    assert_eq!(buffer[2..], data[2..498]);
}

#[test]
fn added_data_follows_what_is_left() {
    let mut sliceable = Sliceable::new(4, vec![1, 2]);
    let mut buffer = [0; SAT_PAYLOAD_MAX_SIZE];
    sliceable.get_slice_sat(&mut buffer);
    assert!(sliceable.at_end());
    sliceable.extend(&[3, 4, 5]);
    assert!(!sliceable.at_end());
    let meta = sliceable.get_slice_sat(&mut buffer);
    assert_eq!(meta, SliceMeta { destination: 4, len: 3, status: PayloadStatus::Last });
    assert_eq!(buffer[..3], [3, 4, 5]);
}
