use std::sync::{Arc, Mutex};

use nri_mux::error::ErrorKind;
use nri_mux::frame::encode;
use nri_mux::mux::{
    conn_reader, ConnAction, ConnEvent, Mux, Phase, Teardown, TrunkAction, TrunkEvent,
};

fn header(conn_id: u32, length: u32) -> [u8; 8] {
    let mut h = [0u8; 8];
    h[..4].copy_from_slice(&conn_id.to_be_bytes());
    h[4..].copy_from_slice(&length.to_be_bytes());
    h
}

fn reading_mux() -> Mux<&'static str> {
    let mut mux = Mux::new("trunk");
    mux.add_conn(1, "one").unwrap();
    mux.add_conn(2, "two").unwrap();
    assert!(matches!(mux.trunk_reader(), TrunkAction::ReadHeader));
    mux
}

#[test]
fn new_mux_is_idle_and_empty() {
    let mux = Mux::new("trunk");
    assert_eq!(mux.phase(), Phase::Idle);
    assert!(!mux.is_closed());
    assert_eq!(mux.conn_count(), 0);
    assert_eq!(mux.trunk(), Some(&"trunk"));
    assert!(mux.get(1).is_none());
}

#[test]
fn add_conn_registers_the_endpoint() {
    let mut mux = Mux::new("trunk");
    assert!(matches!(mux.add_conn(1, "one"), Ok(ConnAction::Read)));
    assert_eq!(mux.get(1), Some(&"one"));
    assert_eq!(mux.conn_count(), 1);
    assert_eq!(mux.phase(), Phase::Idle);
}

#[test]
fn add_conn_rejects_zero_in_every_phase() {
    let mut mux = Mux::new("trunk");
    assert_eq!(mux.add_conn(0, "zero").unwrap_err().kind(), ErrorKind::InvalidArgument);
    mux.trunk_reader();
    assert_eq!(mux.add_conn(0, "zero").unwrap_err().kind(), ErrorKind::InvalidArgument);
    mux.close();
    assert_eq!(mux.add_conn(0, "zero").unwrap_err().kind(), ErrorKind::InvalidArgument);
    assert_eq!(mux.conn_count(), 0);
}

#[test]
fn add_conn_rejects_a_duplicate_and_keeps_the_first() {
    let mut mux = Mux::new("trunk");
    mux.add_conn(3, "first").unwrap();
    assert_eq!(mux.add_conn(3, "second").unwrap_err().kind(), ErrorKind::InvalidArgument);
    assert_eq!(mux.get(3), Some(&"first"));
    assert_eq!(mux.conn_count(), 1);
}

#[test]
fn add_conn_after_close_fails_and_leaves_the_mux_closed() {
    let mut mux = Mux::new("trunk");
    mux.close();
    assert_eq!(mux.add_conn(3, "late").unwrap_err().kind(), ErrorKind::Other);
    assert!(mux.is_closed());
    assert_eq!(mux.conn_count(), 0);
}

#[test]
fn add_conn_while_reading_is_allowed() {
    let mut mux = reading_mux();
    mux.add_conn(3, "three").unwrap();
    assert_eq!(mux.get(3), Some(&"three"));
    assert_eq!(mux.phase(), Phase::AwaitHeader);
}

#[test]
fn trunk_reader_starts_once() {
    let mut mux = Mux::new("trunk");
    assert!(matches!(mux.trunk_reader(), TrunkAction::ReadHeader));
    assert_eq!(mux.phase(), Phase::AwaitHeader);
    assert!(matches!(mux.trunk_reader(), TrunkAction::Stop));
    assert_eq!(mux.phase(), Phase::AwaitHeader);
}

#[test]
fn trunk_reader_on_a_closed_mux_stops() {
    let mut mux = Mux::new("trunk");
    mux.close();
    assert!(matches!(mux.trunk_reader(), TrunkAction::Stop));
    assert!(mux.is_closed());
}

#[test]
fn a_frame_for_a_registered_connection_is_delivered() {
    let mut mux = reading_mux();
    assert!(matches!(mux.trunk_step(TrunkEvent::Header(header(2, 3))), TrunkAction::ReadPayload(3)));
    assert_eq!(mux.phase(), Phase::AwaitPayload { conn_id: 2, length: 3 });
    match mux.trunk_step(TrunkEvent::Payload(vec![7, 8, 9])) {
        TrunkAction::Deliver { conn_id, payload } => {
            assert_eq!(conn_id, 2);
            assert_eq!(payload, vec![7, 8, 9]);
        }
        other => panic!("unexpected action {:?}", other),
    }
    assert_eq!(mux.phase(), Phase::Delivering);
    assert!(matches!(mux.trunk_step(TrunkEvent::Delivered), TrunkAction::ReadHeader));
    assert_eq!(mux.phase(), Phase::AwaitHeader);
}

#[test]
fn an_empty_frame_is_delivered_too() {
    let mut mux = reading_mux();
    assert!(matches!(mux.trunk_step(TrunkEvent::Header(header(1, 0))), TrunkAction::ReadPayload(0)));
    match mux.trunk_step(TrunkEvent::Payload(vec![])) {
        TrunkAction::Deliver { conn_id, payload } => {
            assert_eq!(conn_id, 1);
            assert!(payload.is_empty());
        }
        other => panic!("unexpected action {:?}", other),
    }
}

#[test]
fn a_frame_for_an_unknown_connection_is_dropped_and_reading_goes_on() {
    let mut mux = reading_mux();
    assert!(matches!(mux.trunk_step(TrunkEvent::Header(header(9, 2))), TrunkAction::ReadPayload(2)));
    assert!(matches!(mux.trunk_step(TrunkEvent::Payload(vec![1, 2])), TrunkAction::ReadHeader));
    assert_eq!(mux.phase(), Phase::AwaitHeader);
    assert!(!mux.is_closed());
    assert_eq!(mux.conn_count(), 2);
    assert!(matches!(mux.trunk_step(TrunkEvent::Header(header(1, 1))), TrunkAction::ReadPayload(1)));
    match mux.trunk_step(TrunkEvent::Payload(vec![5])) {
        TrunkAction::Deliver { conn_id, payload } => {
            assert_eq!(conn_id, 1);
            assert_eq!(payload, vec![5]);
        }
        other => panic!("unexpected action {:?}", other),
    }
}

#[test]
fn a_frame_for_connection_zero_is_never_delivered() {
    let mut mux = reading_mux();
    assert!(matches!(mux.trunk_step(TrunkEvent::Header(header(0, 1))), TrunkAction::ReadPayload(1)));
    assert!(matches!(mux.trunk_step(TrunkEvent::Payload(vec![1])), TrunkAction::ReadHeader));
    assert_eq!(mux.phase(), Phase::AwaitHeader);
}

#[test]
fn a_read_failure_closes_the_mux_and_hands_out_the_endpoints() {
    let mut mux = reading_mux();
    match mux.trunk_step(TrunkEvent::ReadFailed) {
        TrunkAction::Teardown(Teardown { endpoints, trunk }) => {
            assert_eq!(endpoints, vec!["one", "two"]);
            assert_eq!(trunk, "trunk");
        }
        other => panic!("unexpected action {:?}", other),
    }
    assert!(mux.is_closed());
    assert_eq!(mux.conn_count(), 0);
    assert!(mux.trunk().is_none());
    assert!(mux.close().is_none());
}

#[test]
fn a_read_failure_in_the_middle_of_a_frame_closes_the_mux() {
    let mut mux = reading_mux();
    mux.trunk_step(TrunkEvent::Header(header(1, 4)));
    assert!(matches!(mux.trunk_step(TrunkEvent::ReadFailed), TrunkAction::Teardown(_)));
    assert!(mux.is_closed());
}

#[test]
fn a_write_failure_closes_the_mux() {
    let mut mux = reading_mux();
    mux.trunk_step(TrunkEvent::Header(header(1, 1)));
    mux.trunk_step(TrunkEvent::Payload(vec![0]));
    match mux.trunk_step(TrunkEvent::WriteFailed) {
        TrunkAction::Teardown(streams) => assert_eq!(streams.endpoints, vec!["one", "two"]),
        other => panic!("unexpected action {:?}", other),
    }
    assert!(mux.is_closed());
}

#[test]
fn a_payload_of_the_wrong_length_closes_the_mux() {
    let mut mux = reading_mux();
    mux.trunk_step(TrunkEvent::Header(header(1, 4)));
    assert!(matches!(mux.trunk_step(TrunkEvent::Payload(vec![1, 2, 3])), TrunkAction::Teardown(_)));
    assert!(mux.is_closed());
}

#[test]
fn an_event_out_of_turn_closes_the_mux() {
    let mut mux = reading_mux();
    assert!(matches!(mux.trunk_step(TrunkEvent::Delivered), TrunkAction::Teardown(_)));
    assert!(mux.is_closed());

    let mut idle = Mux::new("trunk");
    idle.add_conn(1, "one").unwrap();
    match idle.trunk_step(TrunkEvent::Header(header(1, 0))) {
        TrunkAction::Teardown(streams) => assert_eq!(streams.endpoints, vec!["one"]),
        other => panic!("unexpected action {:?}", other),
    }
    assert!(idle.is_closed());
}

#[test]
fn a_closed_mux_answers_stop_to_everything() {
    let mut mux = reading_mux();
    mux.close();
    assert!(matches!(mux.trunk_step(TrunkEvent::Header(header(1, 1))), TrunkAction::Stop));
    assert!(matches!(mux.trunk_step(TrunkEvent::Payload(vec![1])), TrunkAction::Stop));
    assert!(matches!(mux.trunk_step(TrunkEvent::Delivered), TrunkAction::Stop));
    assert!(matches!(mux.trunk_step(TrunkEvent::ReadFailed), TrunkAction::Stop));
    assert!(matches!(mux.trunk_step(TrunkEvent::WriteFailed), TrunkAction::Stop));
    assert!(mux.is_closed());
}

#[test]
fn close_hands_out_the_streams_once() {
    let mut mux = Mux::new("trunk");
    mux.add_conn(8, "eight").unwrap();
    mux.add_conn(3, "three").unwrap();
    let streams = mux.close().unwrap();
    assert_eq!(streams.endpoints, vec!["eight", "three"]);
    assert_eq!(streams.trunk, "trunk");
    assert!(mux.is_closed());
    assert_eq!(mux.phase(), Phase::Closed);
    assert_eq!(mux.conn_count(), 0);
    assert!(mux.get(8).is_none());
    assert!(mux.trunk().is_none());
    for _ in 0..10 {
        assert!(mux.close().is_none());
        assert!(mux.is_closed());
    }
}

#[test]
fn close_of_an_empty_mux_still_counts_as_the_teardown() {
    let mut mux: Mux<&str> = Mux::new("trunk");
    let streams = mux.close().unwrap();
    assert!(streams.endpoints.is_empty());
    assert_eq!(streams.trunk, "trunk");
    assert!(mux.close().is_none());
}

#[test]
fn close_by_many_callers_tears_down_once() {
    let mut mux = Mux::new(0u32);
    for id in 1..=5u32 {
        mux.add_conn(id, id * 10).unwrap();
    }
    mux.trunk_reader();
    let shared = Arc::new(Mutex::new(mux));
    let callers: Vec<Arc<Mutex<Mux<u32>>>> = (0..16).map(|_| Arc::clone(&shared)).collect();
    let mut teardowns = Vec::new();
    for caller in &callers {
        if let Some(streams) = caller.lock().unwrap().close() {
            teardowns.push((streams.endpoints, streams.trunk));
        }
    }
    assert_eq!(teardowns, vec![(vec![10, 20, 30, 40, 50], 0)]);
    assert!(shared.lock().unwrap().is_closed());
}

#[test]
fn conn_reader_retries_an_empty_read() {
    assert!(matches!(conn_reader(1, ConnEvent::Data(vec![])), ConnAction::Read));
}

#[test]
fn conn_reader_frames_a_read() {
    match conn_reader(0x0a0b_0c0d, ConnEvent::Data(vec![1, 2, 3])) {
        ConnAction::Write(bytes) => {
            assert_eq!(bytes, vec![0x0a, 0x0b, 0x0c, 0x0d, 0, 0, 0, 3, 1, 2, 3]);
            assert_eq!(bytes, encode(0x0a0b_0c0d, &[1, 2, 3]).unwrap());
        }
        other => panic!("unexpected action {:?}", other),
    }
}

#[test]
fn conn_reader_reads_on_after_a_write() {
    assert!(matches!(conn_reader(1, ConnEvent::Written), ConnAction::Read));
}

#[test]
fn conn_reader_stops_on_failure() {
    assert!(matches!(conn_reader(1, ConnEvent::ReadFailed), ConnAction::Stop));
    assert!(matches!(conn_reader(1, ConnEvent::WriteFailed), ConnAction::Stop));
}

#[test]
fn a_full_buffer_makes_one_frame() {
    assert_eq!(nri_mux::mux::CONN_BUFFER_LEN, 1024);
    let data = vec![0x5au8; nri_mux::mux::CONN_BUFFER_LEN];
    match conn_reader(2, ConnEvent::Data(data.clone())) {
        ConnAction::Write(bytes) => {
            assert_eq!(&bytes[..8], &[0, 0, 0, 2, 0, 0, 4, 0]);
            assert_eq!(&bytes[8..], &data[..]);
        }
        other => panic!("unexpected action {:?}", other),
    }
}
