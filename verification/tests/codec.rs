use zerust::datapack::{DataPack, HEADER_SIZE};
use zerust::ZerustError;

#[test]
fn pack_layout_and_round_trip() {
    let payload: Vec<u8> = vec![1, 2, 3, 250];
    let wire = DataPack::pack(77, payload.as_slice());
    assert_eq!(wire.len(), HEADER_SIZE + payload.len());
    let (id, len) = DataPack::unpack_header(wire.as_slice()).unwrap();
    assert_eq!(id, 77);
    assert_eq!(len as usize, payload.len());
    assert_eq!(&wire[HEADER_SIZE..], payload.as_slice());
}

#[test]
fn header_is_little_endian() {
    let wire = DataPack::pack(0x01020304, &[0xAA]);
    assert_eq!(wire[0..8], [0x04, 0x03, 0x02, 0x01, 0x01, 0x00, 0x00, 0x00][..]);
    assert_eq!(wire[8], 0xAA);
}

#[test]
fn header_boundary_exact_eight_bytes() {
    let cases: [(u32, u32); 4] = [(0, 0), (1, 5), (u32::MAX, u32::MAX), (404, 15)];
    for &(id, len) in cases.iter() {
        let mut h: Vec<u8> = Vec::new();
        h.extend_from_slice(&id.to_le_bytes());
        h.extend_from_slice(&len.to_le_bytes());
        assert_eq!(h.len(), 8);
        let (got_id, got_len) = DataPack::unpack_header(&h).unwrap();
        assert_eq!((got_id, got_len), (id, len));
    }
}

#[test]
fn header_under_eight_bytes_is_malformed() {
    for n in 0..8usize {
        let bytes = vec![0u8; n];
        match DataPack::unpack_header(&bytes) {
            Err(ZerustError::InvalidHeader) => {}
            other => panic!("expected an invalid-header error, got {:?}", other),
        }
    }
}

#[test]
fn extra_bytes_after_header_do_not_disturb_decoding() {
    let wire = DataPack::pack(6, b"junk follows the header");
    let (id, len) = DataPack::unpack_header(wire.as_slice()).unwrap();
    assert_eq!(id, 6);
    assert_eq!(len as usize, b"junk follows the header".len());
}
