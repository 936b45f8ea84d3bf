use datagram_codec::varint::read_varint;
use datagram_codec::varint::varint_size;
use datagram_codec::varint::write_varint;
use datagram_codec::varint::VARINT_MAX;

fn roundtrip(v: u64) -> Vec<u8> {
    let mut buffer = vec![0u8; 8];
    let len = write_varint(&mut buffer, v);
    assert_eq!(len, varint_size(v));
    let (decoded, consumed) = read_varint(&buffer).expect("written encoding decodes");
    assert_eq!(decoded, v);
    assert_eq!(consumed, len);
    buffer.truncate(len);
    buffer
}

#[test]
fn minimal_encodings_at_boundaries() {
    assert_eq!(roundtrip(0), vec![0x00]);
    assert_eq!(roundtrip(63), vec![0x3f]);
    assert_eq!(roundtrip(64), vec![0x40, 0x40]);
    assert_eq!(roundtrip(16383), vec![0x7f, 0xff]);
    assert_eq!(roundtrip(16384), vec![0x80, 0x00, 0x40, 0x00]);
    assert_eq!(roundtrip(0x3fff_ffff), vec![0xbf, 0xff, 0xff, 0xff]);
    assert_eq!(
        roundtrip(0x4000_0000),
        vec![0xc0, 0x00, 0x00, 0x00, 0x40, 0x00, 0x00, 0x00]
    );
    assert_eq!(
        roundtrip(VARINT_MAX),
        vec![0xff, 0xff, 0xff, 0xff, 0xff, 0xff, 0xff, 0xff]
    );
}

#[test]
fn known_encoding_from_wire() {
    // 0x9d7f3e7d from the transport protocol's varint examples: 494878333.
    let raw = [0x9du8, 0x7f, 0x3e, 0x7d];
    assert_eq!(read_varint(&raw), Some((494_878_333, 4)));
}

#[test]
fn truncated_encodings_rejected() {
    assert_eq!(read_varint(&[]), None);
    assert_eq!(read_varint(&[0x40]), None);
    assert_eq!(read_varint(&[0x80, 0x00, 0x40]), None);
    assert_eq!(read_varint(&[0xc0, 0x00, 0x00, 0x00, 0x40, 0x00, 0x00]), None);
}

#[test]
fn non_minimal_encoding_still_decodes() {
    assert_eq!(read_varint(&[0x40, 0x01, 0xaa]), Some((1, 2)));
}

#[test]
fn writer_leaves_tail_untouched() {
    let mut buffer = vec![0x77u8; 5];
    let len = write_varint(&mut buffer, 300);
    assert_eq!(len, 2);
    assert_eq!(buffer, vec![0x41, 0x2c, 0x77, 0x77, 0x77]);
}
