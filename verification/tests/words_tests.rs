use tracedbg::words::{
    bytes_to_word, decode_le, encode_le, splice_word_bytes, word_from_bytes_at, word_to_bytes,
};

#[test]
fn word_splits_into_little_endian_bytes() {
    let bytes = word_to_bytes(0x1122334455667788);
    assert_eq!(bytes, vec![0x88, 0x77, 0x66, 0x55, 0x44, 0x33, 0x22, 0x11]);
}

#[test]
fn word_of_zero_is_all_zero_bytes() {
    assert_eq!(word_to_bytes(0), vec![0u8; 8]);
}

#[test]
fn bytes_assemble_back_into_the_word() {
    let w: u64 = 0xDEAD_BEEF_0BAD_F00D;
    let bytes = word_to_bytes(w);
    assert_eq!(bytes_to_word(&bytes), w);
}

#[test]
fn short_byte_runs_assemble_low_bytes() {
    let bytes = vec![0xEF, 0xBE];
    assert_eq!(bytes_to_word(&bytes), 0xBEEF);
}

#[test]
fn encode_then_decode_returns_the_value() {
    let v: u128 = 3735928559;
    let bytes = encode_le(v, 4);
    assert_eq!(decode_le(&bytes), v);
}

#[test]
fn typed_write_low_byte_matches_little_endian_order() {
    // Writing 3735928559 as a 32-bit value puts 239 in its first byte, so a
    // one-byte read at the same address sees 239.
    let bytes = encode_le(3735928559, 4);
    assert_eq!(bytes, vec![239, 190, 173, 222]);
    assert_eq!(decode_le(&vec![bytes[0]]), 239);
}

#[test]
fn sixteen_byte_values_round_trip() {
    let v: u128 = 0x0102_0304_0506_0708_090A_0B0C_0D0E_0F10;
    let bytes = encode_le(v, 16);
    assert_eq!(bytes.len(), 16);
    assert_eq!(decode_le(&bytes), v);
}

#[test]
fn encoding_truncates_to_the_field_width() {
    let bytes = encode_le(0x1_FF, 1);
    assert_eq!(bytes, vec![0xFF]);
}

#[test]
fn splice_overlays_only_the_leading_bytes() {
    let word_bytes = vec![10, 11, 12, 13, 14, 15, 16, 17];
    let src = vec![1, 2, 3];
    let merged = splice_word_bytes(&word_bytes, &src, 0, 3);
    assert_eq!(merged, vec![1, 2, 3, 13, 14, 15, 16, 17]);
}

#[test]
fn splice_reads_source_at_an_offset() {
    let word_bytes = vec![0, 0, 0, 0, 0, 0, 0, 0];
    let src = vec![9, 8, 7, 6, 5];
    let merged = splice_word_bytes(&word_bytes, &src, 3, 2);
    assert_eq!(merged, vec![6, 5, 0, 0, 0, 0, 0, 0]);
}

#[test]
fn splice_of_nothing_keeps_the_word() {
    let word_bytes = vec![1, 2, 3, 4, 5, 6, 7, 8];
    let src = vec![9, 9];
    let merged = splice_word_bytes(&word_bytes, &src, 1, 0);
    assert_eq!(merged, word_bytes);
}

#[test]
fn word_from_bytes_at_reads_a_middle_chunk() {
    let data = vec![0xAA, 0x01, 0x02, 0xBB];
    assert_eq!(word_from_bytes_at(&data, 1, 2), 0x0201);
}

#[test]
fn word_from_full_chunk_matches_word_to_bytes() {
    let w: u64 = 0x8070605040302010;
    let data = word_to_bytes(w);
    assert_eq!(word_from_bytes_at(&data, 0, 8), w);
}
