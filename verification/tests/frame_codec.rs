use nri_mux::frame::{decode, decode_header, encode, HEADER_LEN, RESERVED_CONN_ID};

#[test]
fn encode_writes_big_endian_header_then_payload() {
    let bytes = encode(0x0102_0304, &[0xaa, 0xbb, 0xcc]).unwrap();
    assert_eq!(bytes, vec![1, 2, 3, 4, 0, 0, 0, 3, 0xaa, 0xbb, 0xcc]);
}

#[test]
fn encode_of_empty_payload_is_a_bare_header() {
    let bytes = encode(2, &[]).unwrap();
    assert_eq!(bytes, vec![0, 0, 0, 2, 0, 0, 0, 0]);
    assert_eq!(bytes.len(), HEADER_LEN);
}

#[test]
fn encode_uses_all_four_length_bytes() {
    let payload = vec![7u8; 0x0001_0203];
    let bytes = encode(0xffff_ffff, &payload).unwrap();
    assert_eq!(&bytes[..8], &[0xff, 0xff, 0xff, 0xff, 0x00, 0x01, 0x02, 0x03]);
    assert_eq!(bytes.len(), 8 + 0x0001_0203);
    assert_eq!(&bytes[8..], &payload[..]);
}

#[test]
fn decode_header_reads_id_and_length() {
    let (conn_id, length) = decode_header(&[0, 0, 0, 2, 0, 0, 1, 0]);
    assert_eq!(conn_id, 2);
    assert_eq!(length, 256);
}

#[test]
fn decode_header_reads_the_largest_values() {
    let (conn_id, length) = decode_header(&[0xff; 8]);
    assert_eq!(conn_id, u32::MAX);
    assert_eq!(length, u32::MAX);
}

#[test]
fn decode_header_is_most_significant_byte_first() {
    let (conn_id, length) = decode_header(&[0x12, 0x34, 0x56, 0x78, 0x9a, 0xbc, 0xde, 0xf0]);
    assert_eq!(conn_id, 0x1234_5678);
    assert_eq!(length, 0x9abc_def0);
}

#[test]
fn decode_undoes_encode() {
    let payloads: Vec<Vec<u8>> = vec![
        vec![0],
        vec![9, 8, 7, 6, 5],
        (0..=255u8).collect(),
        vec![0xff; 1024],
        vec![1; 70_000],
    ];
    let ids: Vec<u32> = vec![1, 2, 255, 256, 0x0102_0304, u32::MAX];
    for payload in &payloads {
        for &id in &ids {
            let bytes = encode(id, payload).unwrap();
            let (frame, used) = decode(&bytes).unwrap();
            assert_eq!(frame.conn_id, id);
            assert_eq!(&frame.payload, payload);
            assert_eq!(used, bytes.len());
        }
    }
}

#[test]
fn decode_undoes_encode_for_the_reserved_id_and_the_empty_payload() {
    let bytes = encode(RESERVED_CONN_ID, &[]).unwrap();
    let (frame, used) = decode(&bytes).unwrap();
    assert_eq!(frame.conn_id, 0);
    assert!(frame.payload.is_empty());
    assert_eq!(used, 8);
}

#[test]
fn decode_takes_only_the_first_frame() {
    let mut bytes = encode(3, &[1, 2]).unwrap();
    bytes.extend_from_slice(&encode(4, &[5]).unwrap());
    bytes.push(0xee);
    let (first, used) = decode(&bytes).unwrap();
    assert_eq!((first.conn_id, first.payload, used), (3, vec![1, 2], 10));
    let (second, used) = decode(&bytes[10..]).unwrap();
    assert_eq!((second.conn_id, second.payload, used), (4, vec![5], 9));
    assert!(decode(&bytes[19..]).is_none());
}

#[test]
fn decode_waits_for_a_whole_header() {
    let bytes = encode(3, &[1, 2, 3]).unwrap();
    for n in 0..8 {
        assert!(decode(&bytes[..n]).is_none());
    }
}

#[test]
fn decode_waits_for_a_whole_payload() {
    let bytes = encode(3, &[1, 2, 3]).unwrap();
    for n in 8..bytes.len() {
        assert!(decode(&bytes[..n]).is_none());
    }
    assert!(decode(&bytes).is_some());
}
