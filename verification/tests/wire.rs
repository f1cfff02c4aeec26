//! Byte-level tests: the varint codec, UTF-16 decoding, compressed headers
//! and metadata blobs.
use coreclr_tracing::blob::{encode_compressed_header, parse_compressed_header, EventBlobHeader};
use coreclr_tracing::helpers::{
    encode_varint_u64, parse_varint_i32, parse_varint_i64, parse_varint_u32, parse_varint_u64,
};
use coreclr_tracing::metadata::parse_metadata_blob;
use coreclr_tracing::text::parse_null_wide_string_to_string;

fn varint(x: u64) -> Vec<u8> {
    let mut v = Vec::new();
    encode_varint_u64(x, &mut v);
    v
}

#[test]
fn varint_u64_round_trip() {
    for x in [
        0u64,
        1,
        127,
        128,
        16383,
        16384,
        u32::MAX as u64,
        u64::MAX,
    ] {
        let e = varint(x);
        let (v, end) = parse_varint_u64(&e, 0).expect("decode");
        assert_eq!(v, x);
        assert_eq!(end, e.len());
    }
}

#[test]
fn varint_u32_round_trip() {
    for x in [0u32, 1, 127, 128, 16383, 16384, u32::MAX] {
        let e = varint(x as u64);
        let (v, end) = parse_varint_u32(&e, 0).expect("decode");
        assert_eq!(v, x);
        assert_eq!(end, e.len());
    }
}

#[test]
fn varint_signed_round_trip() {
    for x in [0i64, 1, -1, 127, -128, i64::MAX, i64::MIN] {
        let e = varint(x as u64);
        let (v, _) = parse_varint_i64(&e, 0).expect("decode");
        assert_eq!(v, x);
    }
    for x in [0i32, 1, -1, 127, -128, i32::MAX, i32::MIN] {
        let e = varint(x as u32 as u64);
        let (v, _) = parse_varint_i32(&e, 0).expect("decode");
        assert_eq!(v, x);
    }
}

#[test]
fn varint_truncated_errors() {
    // A lone continuation byte has no terminator.
    let e = vec![0x80u8];
    assert!(parse_varint_u64(&e, 0).is_err());
    // Eleven continuation bytes run past the longest legal form.
    let e = vec![0x80u8; 11];
    assert!(parse_varint_u64(&e, 0).is_err());
}

fn utf16z(s: &str) -> Vec<u8> {
    let mut v = Vec::new();
    for u in s.encode_utf16() {
        v.extend_from_slice(&u.to_le_bytes());
    }
    v.extend_from_slice(&[0, 0]);
    v
}

#[test]
fn utf16_empty_string() {
    // A buffer whose first code unit is NUL decodes to the empty string.
    let b = vec![0u8, 0u8];
    let (s, end) = parse_null_wide_string_to_string(&b, 0).expect("decode");
    assert_eq!(s, "");
    assert_eq!(end, 2);
}

#[test]
fn utf16_basic_and_supplementary() {
    let b = utf16z("Foo");
    let (s, _) = parse_null_wide_string_to_string(&b, 0).expect("decode");
    assert_eq!(s, "Foo");
    let b = utf16z("a\u{1F600}b");
    let (s, _) = parse_null_wide_string_to_string(&b, 0).expect("decode");
    assert_eq!(s, "a\u{1F600}b");
}

#[test]
fn utf16_lone_surrogate_is_replaced() {
    // A high surrogate with no partner becomes U+FFFD, and decoding goes on.
    let b = vec![0x00, 0xD8, 0x41, 0x00, 0x00, 0x00];
    let (s, _) = parse_null_wide_string_to_string(&b, 0).expect("decode");
    assert_eq!(s, "\u{FFFD}A");
}

fn sample_header() -> EventBlobHeader {
    EventBlobHeader {
        size: 0,
        raw_metadata_id: 7,
        sequence_number: 41,
        thread_id: 1000,
        capture_thread_id: 2000,
        processor_number: 3,
        stack_id: 5,
        timestamp: 123456789,
        activity_id: vec![1u8; 16],
        related_activity_id: vec![2u8; 16],
        payload_size: 12,
        metadata_id: 7,
        is_sorted: false,
    }
}

#[test]
fn compressed_header_replay() {
    // Re-encoding a header with the all-bits-set flag byte and re-decoding
    // against an empty previous header yields the original header.
    let h = sample_header();
    let bytes = encode_compressed_header(&h);
    let mut prev = EventBlobHeader::empty();
    let (h2, end) = parse_compressed_header(&bytes, 0, &mut prev).expect("decode");
    assert_eq!(end, bytes.len());
    assert_eq!(h2.metadata_id, h.metadata_id);
    assert_eq!(h2.sequence_number, h.sequence_number);
    assert_eq!(h2.thread_id, h.thread_id);
    assert_eq!(h2.capture_thread_id, h.capture_thread_id);
    assert_eq!(h2.processor_number, h.processor_number);
    assert_eq!(h2.stack_id, h.stack_id);
    assert_eq!(h2.timestamp, h.timestamp);
    assert_eq!(h2.activity_id, h.activity_id);
    assert_eq!(h2.related_activity_id, h.related_activity_id);
    assert_eq!(h2.payload_size, h.payload_size);
    assert_eq!(h2.is_sorted, h.is_sorted);
}

#[test]
fn compressed_header_replay_sorted_and_zero_sequence() {
    let mut h = sample_header();
    h.is_sorted = true;
    h.sequence_number = 0;
    h.metadata_id = 9;
    h.raw_metadata_id = 9 | 0x8000_0000;
    let bytes = encode_compressed_header(&h);
    let mut prev = EventBlobHeader::empty();
    let (h2, _) = parse_compressed_header(&bytes, 0, &mut prev).expect("decode");
    assert_eq!(h2.sequence_number, 0);
    assert!(h2.is_sorted);
    assert_eq!(h2.raw_metadata_id, 9 | 0x8000_0000);
}

#[test]
fn compressed_header_inherits_and_advances_sequence() {
    // A flag byte with only the payload bit set inherits everything, adds
    // the timestamp delta, and advances the sequence number by one.
    let h = sample_header();
    let bytes = encode_compressed_header(&h);
    let mut prev = EventBlobHeader::empty();
    let _ = parse_compressed_header(&bytes, 0, &mut prev).expect("first");
    let mut second = Vec::new();
    second.push(0x80u8);
    encode_varint_u64(100, &mut second); // timestamp delta
    encode_varint_u64(34, &mut second); // payload size
    let (h2, _) = parse_compressed_header(&second, 0, &mut prev).expect("second");
    assert_eq!(h2.metadata_id, h.metadata_id);
    assert_eq!(h2.thread_id, h.thread_id);
    assert_eq!(h2.capture_thread_id, h.capture_thread_id);
    assert_eq!(h2.processor_number, h.processor_number);
    assert_eq!(h2.stack_id, h.stack_id);
    assert_eq!(h2.activity_id, h.activity_id);
    assert_eq!(h2.related_activity_id, h.related_activity_id);
    assert_eq!(h2.sequence_number, h.sequence_number + 1);
    assert_eq!(h2.timestamp, h.timestamp + 100);
    assert_eq!(h2.payload_size, 34);
    assert!(!h2.is_sorted);
}

#[test]
fn metadata_blob_with_zero_id_keeps_sequence() {
    // A blob whose metadata id is zero does not advance the sequence number.
    let mut bytes = Vec::new();
    bytes.push(0x81u8); // metadata id present, payload present
    encode_varint_u64(0, &mut bytes); // metadata id zero
    encode_varint_u64(0, &mut bytes); // timestamp delta
    encode_varint_u64(0, &mut bytes); // payload size
    let mut prev = EventBlobHeader::empty();
    prev.sequence_number = 17;
    let (h, _) = parse_compressed_header(&bytes, 0, &mut prev).expect("decode");
    assert_eq!(h.metadata_id, 0);
    assert_eq!(h.sequence_number, 17);
}

fn metadata_payload(
    id: u32,
    provider: &str,
    event_id: u32,
    name: &str,
    keywords: u64,
    version: u32,
    level: u32,
) -> Vec<u8> {
    let mut v = Vec::new();
    v.extend_from_slice(&id.to_le_bytes());
    v.extend_from_slice(&utf16z(provider));
    v.extend_from_slice(&event_id.to_le_bytes());
    v.extend_from_slice(&utf16z(name));
    v.extend_from_slice(&keywords.to_le_bytes());
    v.extend_from_slice(&version.to_le_bytes());
    v.extend_from_slice(&level.to_le_bytes());
    v.extend_from_slice(&0u32.to_le_bytes());
    v
}

#[test]
fn metadata_blob_head_fields() {
    let payload = metadata_payload(3, "P", 143, "E", 9, 1, 4);
    let def = parse_metadata_blob(&payload).expect("parse");
    assert_eq!(def.id, 3);
    assert_eq!(def.provider_name, "P");
    assert_eq!(def.event_id, 143);
    assert_eq!(def.event_name, "E");
    assert_eq!(def.keywords, 9);
    assert_eq!(def.version, 1);
    assert_eq!(def.level, 4);
    assert_eq!(def.fields.field_count, 0);
    assert!(def.opcode.is_none());
}

#[test]
fn metadata_blob_v2_params_adopted() {
    // A schema whose v1 field count is zero adopts a V2Params layout.
    let mut payload = metadata_payload(3, "P", 10, "", 0, 2, 4);
    // Tagged data: size word (unused), tag 2, then a v2 layout of two fields.
    let mut v2 = Vec::new();
    v2.extend_from_slice(&2u32.to_le_bytes()); // field count
    for name in ["a", "b"] {
        v2.extend_from_slice(&9u32.to_le_bytes()); // Int32 type code
        v2.extend_from_slice(&utf16z(name));
    }
    payload.extend_from_slice(&0u32.to_le_bytes()); // tag size, unused
    payload.push(2); // V2Params
    payload.extend_from_slice(&v2);
    let def = parse_metadata_blob(&payload).expect("parse");
    assert_eq!(def.fields.field_count, 2);
    assert_eq!(def.fields.fields.len(), 2);
    assert_eq!(def.fields.fields[0].field_name, "a");
}

#[test]
fn metadata_blob_opcode_tag() {
    let mut payload = metadata_payload(4, "P", 1, "", 0, 1, 4);
    payload.extend_from_slice(&0u32.to_le_bytes());
    payload.push(1); // OpCode
    payload.push(21);
    let def = parse_metadata_blob(&payload).expect("parse");
    assert_eq!(def.opcode, Some(21));
}

#[test]
fn metadata_blob_v2_with_nonzero_v1_is_malformed() {
    // A V2Params tag is only legal when the v1 layout was empty.
    let mut payload = Vec::new();
    payload.extend_from_slice(&5u32.to_le_bytes());
    payload.extend_from_slice(&utf16z("P"));
    payload.extend_from_slice(&1u32.to_le_bytes());
    payload.extend_from_slice(&utf16z(""));
    payload.extend_from_slice(&0u64.to_le_bytes());
    payload.extend_from_slice(&1u32.to_le_bytes());
    payload.extend_from_slice(&4u32.to_le_bytes());
    payload.extend_from_slice(&1u32.to_le_bytes()); // v1 count = 1
    payload.extend_from_slice(&9u32.to_le_bytes()); // Int32
    payload.extend_from_slice(&utf16z("x"));
    payload.extend_from_slice(&0u32.to_le_bytes()); // tag size
    payload.push(2); // V2Params
    payload.extend_from_slice(&0u32.to_le_bytes()); // empty v2
    assert!(parse_metadata_blob(&payload).is_err());
}
