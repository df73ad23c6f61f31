use rpc::codec::{decode, encode, DecodeError, COMPRESS_THRESHOLD, HEADER_BLOCK, HEADER_NONE};

fn patterned(len: usize) -> Vec<u8> {
    (0..len).map(|i| (i % 251) as u8).collect()
}

#[test]
fn round_trip_small_payload() {
    let payload = b"hello".to_vec();
    let frame = encode(7, 5, &payload).unwrap();
    let (id, out) = decode(&frame).unwrap();
    assert_eq!(id, 7);
    assert_eq!(out, payload);
}

#[test]
fn round_trip_payload_above_threshold() {
    let payload = patterned(65);
    let frame = encode(0xDEAD_BEEF, 30, &payload).unwrap();
    let (id, out) = decode(&frame).unwrap();
    assert_eq!(id, 0xDEAD_BEEF);
    assert_eq!(out, payload);
}

#[test]
fn round_trip_large_payload() {
    let payload = patterned(10_000);
    let frame = encode(u32::MAX, 0, &payload).unwrap();
    let (id, out) = decode(&frame).unwrap();
    assert_eq!(id, u32::MAX);
    assert_eq!(out, payload);
}

#[test]
fn round_trip_payload_at_threshold() {
    let payload = patterned(COMPRESS_THRESHOLD);
    let frame = encode(1, 1, &payload).unwrap();
    let (id, out) = decode(&frame).unwrap();
    assert_eq!(id, 1);
    assert_eq!(out, payload);
}

#[test]
fn round_trip_empty_payload() {
    let payload = Vec::new();
    let frame = encode(0, 0, &payload).unwrap();
    assert_eq!(frame.len(), 6);
    let (id, out) = decode(&frame).unwrap();
    assert_eq!(id, 0);
    assert_eq!(out, payload);
}

#[test]
fn header_has_block_bits_above_threshold() {
    let frame = encode(1, 0, &patterned(65)).unwrap();
    assert_eq!(frame[0], HEADER_BLOCK);
    assert_eq!(frame[0] >> 5, 2);
}

#[test]
fn header_has_none_bits_at_threshold_and_below() {
    let at = encode(1, 0, &patterned(64)).unwrap();
    assert_eq!(at[0], HEADER_NONE);
    assert_eq!(at[0] >> 5, 0);
    let below = encode(1, 0, &patterned(3)).unwrap();
    assert_eq!(below[0], HEADER_NONE);
}

#[test]
fn uncompressed_frame_layout_is_exact() {
    let frame = encode(0x0102_0304, 9, &b"ab".to_vec()).unwrap();
    assert_eq!(frame, vec![0x00, 0x01, 0x02, 0x03, 0x04, 9, b'a', b'b']);
}

#[test]
fn decode_reads_big_endian_id_and_skips_timeout_byte() {
    // Hand-built frame: raw payload, id 0xA1B2C3D4, timeout hint 77.
    let raw = vec![0x00, 0xA1, 0xB2, 0xC3, 0xD4, 77, 1, 2, 3];
    let (id, out) = decode(&raw).unwrap();
    assert_eq!(id, 0xA1B2_C3D4);
    assert_eq!(out, vec![1, 2, 3]);
}

#[test]
fn decode_of_short_input_is_frame_too_short() {
    assert_eq!(decode(&Vec::new()), Err(DecodeError::FrameTooShort));
    assert_eq!(decode(&vec![0x00]), Err(DecodeError::FrameTooShort));
    assert_eq!(decode(&vec![0x00, 1, 2, 3, 4]), Err(DecodeError::FrameTooShort));
}

#[test]
fn decode_of_six_byte_frame_is_ok() {
    let (id, out) = decode(&vec![0x00, 0, 0, 0, 5, 0]).unwrap();
    assert_eq!(id, 5);
    assert!(out.is_empty());
}

#[test]
fn decode_of_unrecognized_compression_is_unsupported() {
    // Compression value five in the top three bits.
    let raw = vec![5u8 << 5, 0, 0, 0, 1, 0, 42];
    assert_eq!(decode(&raw), Err(DecodeError::UnsupportedCompression));
    // The reserved values one, three, and seven as well.
    for bits in [1u8, 3, 4, 6, 7] {
        let raw = vec![bits << 5, 0, 0, 0, 1, 0];
        assert_eq!(decode(&raw), Err(DecodeError::UnsupportedCompression));
    }
}

#[test]
fn decode_of_corrupt_compressed_payload_is_decompression_failure() {
    // Block compression declared, but the payload is not a block.
    let raw = vec![0x40, 0, 0, 0, 1, 0, 0xFF, 0xFF];
    assert_eq!(decode(&raw), Err(DecodeError::DecompressionFailure));
}

#[test]
fn compressed_frame_differs_from_payload() {
    // The wrapper really compresses: the bytes on the wire are not the
    // payload itself.
    let payload = vec![7u8; 100];
    let frame = encode(1, 0, &payload).unwrap();
    assert_ne!(&frame[6..], &payload[..]);
    assert!(frame.len() < 6 + payload.len());
}
