use driver_ring::codec::{
    decode_cqe, decode_sqe, decode_u64_list, encode_cqe, encode_ring_header, encode_sqe,
    encode_u64_list,
};
use driver_ring::error::Error;
use driver_ring::ring::{Cqe, IoRing, Sqe};

#[test]
fn sqe_wire_layout_is_fixed() {
    let e = Sqe {
        opcode: 0x02,
        flags: 0x0403_0201,
        off: 0x1122_3344_5566_7788,
        addr: 0x8000_0000,
        len: 0x200,
        user_data: 0x1000,
    };
    let bytes = encode_sqe(&e);
    assert_eq!(bytes.len(), 64);
    assert_eq!(bytes[0], 0x02); // opcode
    assert_eq!(&bytes[1..4], &[0, 0, 0]); // padding
    assert_eq!(&bytes[4..8], &[0x01, 0x02, 0x03, 0x04]); // flags, little-endian
    assert_eq!(
        &bytes[8..16],
        &[0x88, 0x77, 0x66, 0x55, 0x44, 0x33, 0x22, 0x11]
    ); // offset
    assert_eq!(&bytes[16..24], &[0, 0, 0, 0x80, 0, 0, 0, 0]); // address
    assert_eq!(&bytes[24..32], &[0, 0x10, 0, 0, 0, 0, 0, 0]); // correlation id
    assert_eq!(&bytes[32..36], &[0, 0x02, 0, 0]); // length
    assert_eq!(&bytes[36..64], &[0u8; 28]); // padding
}

#[test]
fn sqe_codec_round_trips() {
    let e = Sqe {
        opcode: 7,
        flags: 5,
        off: 123456789,
        addr: 0xDEAD_BEEF,
        len: 4096,
        user_data: 0x1005,
    };
    let bytes = encode_sqe(&e);
    assert_eq!(decode_sqe(&bytes).unwrap(), e);
}

#[test]
fn sqe_decode_rejects_wrong_length() {
    assert_eq!(decode_sqe(&vec![0u8; 63]), Err(Error::InvalidArgs));
    assert_eq!(decode_sqe(&vec![0u8; 0]), Err(Error::InvalidArgs));
}

#[test]
fn cqe_wire_layout_is_fixed() {
    let e = Cqe { user_data: 0x1000, res: -2, flags: 1 };
    let bytes = encode_cqe(&e);
    assert_eq!(bytes.len(), 16);
    assert_eq!(&bytes[0..8], &[0, 0x10, 0, 0, 0, 0, 0, 0]); // correlation id
    assert_eq!(&bytes[8..12], &[0xFE, 0xFF, 0xFF, 0xFF]); // result, two's complement
    assert_eq!(&bytes[12..16], &[1, 0, 0, 0]); // flags
}

#[test]
fn cqe_codec_round_trips() {
    for res in [0, 1, -1, i32::MIN, i32::MAX] {
        let e = Cqe { user_data: 42, res, flags: 3 };
        let bytes = encode_cqe(&e);
        assert_eq!(decode_cqe(&bytes).unwrap(), e);
    }
    assert_eq!(decode_cqe(&vec![0u8; 15]), Err(Error::InvalidArgs));
}

#[test]
fn header_records_geometry_and_entry_sizes() {
    let mut ring = IoRing::new(8, 4).unwrap();
    ring.push_sqe(Sqe::default()).unwrap();
    ring.push_sqe(Sqe::default()).unwrap();
    ring.pop_sqe().unwrap();
    let header = encode_ring_header(&ring);
    assert_eq!(header.len(), 64);
    assert_eq!(&header[0..4], &[8, 0, 0, 0]); // submission capacity
    assert_eq!(&header[4..8], &[4, 0, 0, 0]); // completion capacity
    assert_eq!(&header[8..16], &[2, 0, 0, 0, 0, 0, 0, 0]); // submission producer
    assert_eq!(&header[16..24], &[1, 0, 0, 0, 0, 0, 0, 0]); // submission consumer
    assert_eq!(&header[24..32], &[0u8; 8]); // completion producer
    assert_eq!(&header[32..40], &[0u8; 8]); // completion consumer
    assert_eq!(&header[40..44], &[64, 0, 0, 0]); // submission entry size
    assert_eq!(&header[44..48], &[16, 0, 0, 0]); // completion entry size
    assert_eq!(&header[48..64], &[0u8; 16]); // padding
}

#[test]
fn u64_list_codec_round_trips() {
    let values = vec![0u64, 1, u64::MAX, 0x1000];
    let bytes = encode_u64_list(&values);
    assert_eq!(bytes.len(), 4 + 8 * 4);
    assert_eq!(&bytes[0..4], &[4, 0, 0, 0]);
    assert_eq!(decode_u64_list(&bytes).unwrap(), values);

    let empty = encode_u64_list(&Vec::new());
    assert_eq!(empty, vec![0, 0, 0, 0]);
    assert_eq!(decode_u64_list(&empty).unwrap(), Vec::<u64>::new());
}

#[test]
fn u64_list_decode_rejects_bad_frames() {
    assert_eq!(decode_u64_list(&vec![1, 0, 0]), Err(Error::InvalidArgs));
    // Count says one value but no bytes follow.
    assert_eq!(decode_u64_list(&vec![1, 0, 0, 0]), Err(Error::InvalidArgs));
    // Count says two values but only one follows.
    let mut truncated = encode_u64_list(&vec![1, 2]);
    truncated.truncate(4 + 8);
    assert_eq!(decode_u64_list(&truncated), Err(Error::InvalidArgs));
}
