use datagram_codec::datagram::Datagram;
use datagram_codec::datagram::DatagramReadError;
use datagram_codec::datagram::EndOfBuffer;
use datagram_codec::ids::QStreamId;
use datagram_codec::ids::QSTREAM_ID_MAX;

fn qid(v: u64) -> QStreamId {
    QStreamId::try_from_varint(v).expect("identifier in range")
}

fn encode(id: u64, payload: &[u8]) -> Vec<u8> {
    let datagram = Datagram::new(qid(id), payload);
    let mut buffer = vec![0u8; datagram.write_size()];
    datagram.write(&mut buffer).expect("buffer sized exactly");
    buffer
}

#[test]
fn example_one_byte_id_two_byte_payload() {
    let datagram = Datagram::new(qid(1), &[0xaa, 0xbb]);
    assert_eq!(datagram.write_size(), 3);
    let mut buffer = vec![0u8; 3];
    datagram.write(&mut buffer).unwrap();
    assert_eq!(buffer, vec![0x01, 0xaa, 0xbb]);
}

#[test]
fn round_trip_all_varint_lengths() {
    let ids: [u64; 8] = [0, 1, 63, 64, 16383, 16384, 0x3fff_ffff, 0x4000_0000];
    let payloads: [&[u8]; 3] = [&[], &[0xaa, 0xbb], &[0x00, 0xff, 0x01, 0xfe]];
    for &id in ids.iter() {
        for &payload in payloads.iter() {
            let encoded = encode(id, payload);
            let decoded = Datagram::read(&encoded).expect("round trip decodes");
            assert_eq!(decoded.qstream_id(), qid(id));
            assert_eq!(decoded.payload(), payload);
        }
    }
}

#[test]
fn round_trip_largest_id() {
    let encoded = encode(QSTREAM_ID_MAX, &[0x42]);
    let decoded = Datagram::read(&encoded).unwrap();
    assert_eq!(decoded.qstream_id().into_varint(), QSTREAM_ID_MAX);
    assert_eq!(decoded.payload(), &[0x42]);
}

#[test]
fn write_size_matches_encoded_length() {
    let ids: [u64; 6] = [0, 63, 64, 16383, 16384, QSTREAM_ID_MAX];
    for &id in ids.iter() {
        for len in [0usize, 1, 7] {
            let payload = vec![0x5au8; len];
            let datagram = Datagram::new(qid(id), &payload);
            let encoded = encode(id, &payload);
            assert_eq!(datagram.write_size(), encoded.len());
        }
    }
}

#[test]
fn varint_lengths_at_boundaries() {
    assert_eq!(Datagram::new(qid(63), &[]).write_size(), 1);
    assert_eq!(Datagram::new(qid(64), &[]).write_size(), 2);
    assert_eq!(Datagram::new(qid(16383), &[]).write_size(), 2);
    assert_eq!(Datagram::new(qid(16384), &[]).write_size(), 4);
    assert_eq!(Datagram::new(qid(0x3fff_ffff), &[]).write_size(), 4);
    assert_eq!(Datagram::new(qid(0x4000_0000), &[]).write_size(), 8);
    assert_eq!(Datagram::new(qid(QSTREAM_ID_MAX), &[]).write_size(), 8);
}

#[test]
fn empty_payload_decodes() {
    let encoded = encode(77, &[]);
    let decoded = Datagram::read(&encoded).expect("identifier alone is a valid datagram");
    assert_eq!(decoded.qstream_id(), qid(77));
    assert_eq!(decoded.payload(), &[] as &[u8]);
}

#[test]
fn empty_input_is_too_short() {
    let r = Datagram::read(&[]);
    assert!(matches!(r, Err(DatagramReadError::TooShort)));
}

#[test]
fn truncated_identifier_is_too_short() {
    for &id in [64u64, 16384, 0x4000_0000, QSTREAM_ID_MAX].iter() {
        let encoded = encode(id, &[]);
        for cut in 0..encoded.len() {
            let r = Datagram::read(&encoded[..cut]);
            assert!(matches!(r, Err(DatagramReadError::TooShort)));
        }
    }
}

#[test]
fn invalid_identifier_rejected() {
    // 2^60 exceeds the identifier space; its 8-byte varint encoding starts
    // with 0xc0 | 0x10.
    let raw = [0xd0u8, 0, 0, 0, 0, 0, 0, 0];
    let r = Datagram::read(&raw);
    assert!(matches!(r, Err(DatagramReadError::InvalidQStreamId)));
}

#[test]
fn invalid_identifier_rejected_whatever_follows() {
    let raw = [0xd0u8, 0, 0, 0, 0, 0, 0, 0, 0xaa, 0xbb, 0xcc];
    let r = Datagram::read(&raw);
    assert!(matches!(r, Err(DatagramReadError::InvalidQStreamId)));
}

#[test]
fn short_buffer_left_unchanged() {
    let datagram = Datagram::new(qid(1), &[0xaa, 0xbb]);
    let mut buffer = vec![0x11u8, 0x22];
    let before = buffer.clone();
    let r = datagram.write(&mut buffer);
    assert_eq!(r, Err(EndOfBuffer));
    assert_eq!(buffer, before);
}

#[test]
fn write_touches_only_write_size_bytes() {
    let datagram = Datagram::new(qid(1), &[0xaa, 0xbb]);
    let mut buffer = vec![0x99u8; 6];
    datagram.write(&mut buffer).unwrap();
    assert_eq!(buffer, vec![0x01, 0xaa, 0xbb, 0x99, 0x99, 0x99]);
}

#[test]
fn identifier_boundary_validation() {
    assert!(QStreamId::try_from_varint(QSTREAM_ID_MAX).is_ok());
    assert!(QStreamId::try_from_varint(QSTREAM_ID_MAX + 1).is_err());
}

#[test]
fn payload_borrows_input_tail() {
    let raw = [0x40u8, 0x05, 0xde, 0xad];
    // A non-minimal two-byte encoding of 5: decode consumes exactly the two
    // bytes its first byte declares.
    let decoded = Datagram::read(&raw).unwrap();
    assert_eq!(decoded.qstream_id(), qid(5));
    assert_eq!(decoded.payload(), &[0xde, 0xad]);
}
