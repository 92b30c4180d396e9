use nri_mux::frame::{decode, encode};
use nri_mux::mux::{conn_reader, ConnAction, ConnEvent, Mux, TrunkAction, TrunkEvent};

/// Runs a connection reader over `reads` and returns what it writes to the
/// trunk.
fn forward(id: u32, reads: &[Vec<u8>]) -> Vec<u8> {
    let mut trunk = Vec::new();
    for read in reads {
        match conn_reader(id, ConnEvent::Data(read.clone())) {
            ConnAction::Read => {}
            ConnAction::Write(bytes) => {
                trunk.extend_from_slice(&bytes);
                assert!(matches!(conn_reader(id, ConnEvent::Written), ConnAction::Read));
            }
            ConnAction::Stop => panic!("reader stopped"),
        }
    }
    trunk
}

/// Runs a trunk reader over `trunk` with read-exact reads and returns what
/// it delivers, connection by connection in order of delivery.
fn deliver(mux: &mut Mux<&'static str>, trunk: &[u8]) -> Vec<(u32, Vec<u8>)> {
    let mut delivered = Vec::new();
    let mut at = 0;
    let mut action = TrunkAction::ReadHeader;
    loop {
        action = match action {
            TrunkAction::ReadHeader => {
                if trunk.len() - at < 8 {
                    return delivered;
                }
                let mut header = [0u8; 8];
                header.copy_from_slice(&trunk[at..at + 8]);
                at += 8;
                mux.trunk_step(TrunkEvent::Header(header))
            }
            TrunkAction::ReadPayload(length) => {
                let length = length as usize;
                assert!(trunk.len() - at >= length);
                let payload = trunk[at..at + length].to_vec();
                at += length;
                mux.trunk_step(TrunkEvent::Payload(payload))
            }
            TrunkAction::Deliver { conn_id, payload } => {
                assert!(mux.get(conn_id).is_some());
                delivered.push((conn_id, payload));
                mux.trunk_step(TrunkEvent::Delivered)
            }
            TrunkAction::Teardown(_) | TrunkAction::Stop => panic!("reader left the loop"),
        };
    }
}

fn reading_mux() -> Mux<&'static str> {
    let mut mux = Mux::new("trunk");
    mux.add_conn(1, "one").unwrap();
    mux.add_conn(2, "two").unwrap();
    mux.trunk_reader();
    mux
}

#[test]
fn three_frames_of_one_connection_arrive_in_order() {
    let reads = vec![b"first".to_vec(), b"second".to_vec(), b"3".to_vec()];
    let trunk = forward(1, &reads);
    let mut mux = reading_mux();
    assert_eq!(
        deliver(&mut mux, &trunk),
        vec![(1, b"first".to_vec()), (1, b"second".to_vec()), (1, b"3".to_vec())]
    );
}

#[test]
fn interleaved_connections_each_keep_their_order() {
    let mut trunk = Vec::new();
    trunk.extend_from_slice(&forward(1, &[b"a1".to_vec()]));
    trunk.extend_from_slice(&forward(2, &[b"b1".to_vec()]));
    trunk.extend_from_slice(&forward(2, &[b"b2".to_vec()]));
    trunk.extend_from_slice(&forward(1, &[b"a2".to_vec()]));
    trunk.extend_from_slice(&forward(1, &[b"a3".to_vec()]));
    trunk.extend_from_slice(&forward(2, &[b"b3".to_vec()]));
    let mut mux = reading_mux();
    let delivered = deliver(&mut mux, &trunk);
    let of = |id: u32| -> Vec<Vec<u8>> {
        delivered.iter().filter(|(c, _)| *c == id).map(|(_, p)| p.clone()).collect()
    };
    assert_eq!(of(1), vec![b"a1".to_vec(), b"a2".to_vec(), b"a3".to_vec()]);
    assert_eq!(of(2), vec![b"b1".to_vec(), b"b2".to_vec(), b"b3".to_vec()]);
    assert_eq!(delivered.len(), 6);
}

#[test]
fn frames_for_unknown_connections_are_dropped_between_served_ones() {
    let mut trunk = Vec::new();
    trunk.extend_from_slice(&encode(1, b"keep 1").unwrap());
    trunk.extend_from_slice(&encode(77, b"drop").unwrap());
    trunk.extend_from_slice(&encode(0, b"drop too").unwrap());
    trunk.extend_from_slice(&encode(2, b"keep 2").unwrap());
    trunk.extend_from_slice(&encode(78, b"").unwrap());
    trunk.extend_from_slice(&encode(1, b"keep 3").unwrap());
    let mut mux = reading_mux();
    assert_eq!(
        deliver(&mut mux, &trunk),
        vec![(1, b"keep 1".to_vec()), (2, b"keep 2".to_vec()), (1, b"keep 3".to_vec())]
    );
    assert!(!mux.is_closed());
}

#[test]
fn reads_of_one_byte_arrive_whole() {
    let message = b"a message that is read one byte at a time".to_vec();
    let reads: Vec<Vec<u8>> = message.iter().map(|b| vec![*b]).collect();
    let trunk = forward(2, &reads);
    assert_eq!(trunk.len(), message.len() * 9);
    let mut mux = reading_mux();
    let delivered = deliver(&mut mux, &trunk);
    assert_eq!(delivered.len(), message.len());
    assert!(delivered.iter().all(|(id, payload)| *id == 2 && payload.len() == 1));
    let arrived: Vec<u8> = delivered.into_iter().flat_map(|(_, payload)| payload).collect();
    assert_eq!(arrived, message);
}

#[test]
fn reads_of_any_size_with_empty_reads_between_arrive_whole() {
    let message: Vec<u8> = (0..2000u32).map(|i| (i % 251) as u8).collect();
    let cuts = [0usize, 1, 1, 4, 4, 1028, 1029, 1500, 2000];
    let mut reads = Vec::new();
    for pair in cuts.windows(2) {
        reads.push(message[pair[0]..pair[1]].to_vec());
    }
    let trunk = forward(1, &reads);
    let mut mux = reading_mux();
    let delivered = deliver(&mut mux, &trunk);
    assert_eq!(delivered.len(), 6);
    let arrived: Vec<u8> = delivered.into_iter().flat_map(|(_, payload)| payload).collect();
    assert_eq!(arrived, message);
}

#[test]
fn what_a_connection_reader_writes_decodes_frame_by_frame() {
    let trunk = forward(5, &[vec![1, 2, 3], vec![], vec![4]]);
    let (first, used) = decode(&trunk).unwrap();
    assert_eq!((first.conn_id, first.payload), (5, vec![1, 2, 3]));
    let (second, rest) = decode(&trunk[used..]).unwrap();
    assert_eq!((second.conn_id, second.payload), (5, vec![4]));
    assert_eq!(used + rest, trunk.len());
}
