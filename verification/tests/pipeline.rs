//! End-to-end tests: whole `.nettrace` streams through the parser, payload
//! decoding, normalization, the ETW adapter, and the small helpers.
use coreclr_tracing::enums::{GcAllocationKind, GcReason, GcType};
use coreclr_tracing::etw::{CoreClrEtwConverter, EtwEventRow, EtwProperties, EtwValue};
use coreclr_tracing::eventpipe::{decode_coreclr_event, decode_event, DecodedEvent};
use coreclr_tracing::frame_table::{
    CategoryPairHandle, FrameTable, FuncTable, GlobalLibIndex, GlobalLibTable, InternalFrame,
    InternalFrameLocation, ResourceTable, ThreadStringTable,
};
use coreclr_tracing::events::CoreClrEvent;
use coreclr_tracing::gfx::{gfx_xperf_args, RecordingMode, RecordingProps};
use coreclr_tracing::helpers::encode_varint_u64;
use coreclr_tracing::markers::{CoreClrGcAllocTickMarker, CoreClrGcMarker, Profile, StringHandle, CategoryHandle};
use coreclr_tracing::normalize::{self, eventpipe_event_to_coreclr_event, CoreClrMethodName};
use coreclr_tracing::parser::EventPipeParser;
use coreclr_tracing::provider::{
    coreclr_provider_args, coreclr_xperf_args, CoreClrContext, CoreClrProviderProps,
    CoreClrRecordingProps, ElevatedRecordingProps,
};
use coreclr_tracing::string_table::{StringTable, StringTableIndex};
use coreclr_tracing::EventMetadata;
use coreclr_tracing::EventPipeError;

fn wide(s: &str) -> Vec<u8> {
    let mut v = Vec::new();
    for u in s.encode_utf16() {
        v.extend_from_slice(&u.to_le_bytes());
    }
    v.extend_from_slice(&[0, 0]);
    v
}

fn push_magic(v: &mut Vec<u8>) {
    v.extend_from_slice(b"Nettrace");
    let ident = b"!FastSerialization.1";
    v.extend_from_slice(&(ident.len() as u32).to_le_bytes());
    v.extend_from_slice(ident);
}

fn push_type_object(v: &mut Vec<u8>, name: &str, version: u32) {
    v.push(5);
    v.push(5);
    v.push(1);
    v.extend_from_slice(&version.to_le_bytes());
    v.extend_from_slice(&version.to_le_bytes());
    v.extend_from_slice(&(name.len() as u32).to_le_bytes());
    v.extend_from_slice(name.as_bytes());
    v.push(6);
}

fn push_trace_object(v: &mut Vec<u8>) {
    push_type_object(v, "Trace", 4);
    for t in [2024u16, 1, 0, 1, 0, 0, 0, 0] {
        v.extend_from_slice(&t.to_le_bytes());
    }
    v.extend_from_slice(&7u64.to_le_bytes()); // sync QPC
    v.extend_from_slice(&10_000_000u64.to_le_bytes()); // QPC frequency
    v.extend_from_slice(&8u32.to_le_bytes()); // pointer size
    v.extend_from_slice(&4242u32.to_le_bytes()); // process id
    v.extend_from_slice(&8u32.to_le_bytes()); // processors
    v.extend_from_slice(&1000u32.to_le_bytes()); // sampling rate
    v.push(6);
}

fn push_block(v: &mut Vec<u8>, name: &str, flags: u16, data: &[u8]) {
    push_type_object(v, name, 2);
    let size = 20 + data.len() as u32;
    v.extend_from_slice(&size.to_le_bytes());
    while v.len() % 4 != 0 {
        v.push(0);
    }
    v.extend_from_slice(&20u16.to_le_bytes());
    v.extend_from_slice(&flags.to_le_bytes());
    v.extend_from_slice(&0u64.to_le_bytes());
    v.extend_from_slice(&0u64.to_le_bytes());
    v.extend_from_slice(data);
    v.push(6);
}

fn push_stack_block(v: &mut Vec<u8>, first_id: u32, stacks: &[&[u64]]) {
    push_type_object(v, "StackBlock", 2);
    v.extend_from_slice(&8u32.to_le_bytes());
    while v.len() % 4 != 0 {
        v.push(0);
    }
    v.extend_from_slice(&first_id.to_le_bytes());
    v.extend_from_slice(&(stacks.len() as u32).to_le_bytes());
    for st in stacks {
        v.extend_from_slice(&((st.len() * 8) as u32).to_le_bytes());
        for a in *st {
            v.extend_from_slice(&a.to_le_bytes());
        }
    }
    v.push(6);
}

#[allow(clippy::too_many_arguments)]
fn push_blob(
    data: &mut Vec<u8>,
    meta_id: u64,
    seq_delta: u32,
    capture_thread: u64,
    processor: u32,
    thread: u64,
    stack: u32,
    ts_delta: u64,
    payload: &[u8],
) {
    data.push(0x8F);
    encode_varint_u64(meta_id, data);
    encode_varint_u64(seq_delta as u64, data);
    encode_varint_u64(capture_thread, data);
    encode_varint_u64(processor as u64, data);
    encode_varint_u64(thread, data);
    encode_varint_u64(stack as u64, data);
    encode_varint_u64(ts_delta, data);
    encode_varint_u64(payload.len() as u64, data);
    data.extend_from_slice(payload);
}

fn metadata_blob(
    id: u32,
    provider: &str,
    event_id: u32,
    name: &str,
    version: u32,
) -> Vec<u8> {
    let mut p = Vec::new();
    p.extend_from_slice(&id.to_le_bytes());
    p.extend_from_slice(&wide(provider));
    p.extend_from_slice(&event_id.to_le_bytes());
    p.extend_from_slice(&wide(name));
    p.extend_from_slice(&0u64.to_le_bytes());
    p.extend_from_slice(&version.to_le_bytes());
    p.extend_from_slice(&4u32.to_le_bytes());
    p.extend_from_slice(&0u32.to_le_bytes());
    let mut data = Vec::new();
    push_blob(&mut data, 0, 0, 1, 0, 1, 0, 0, &p);
    data
}

#[allow(clippy::too_many_arguments)]
fn method_payload(
    method_id: u64,
    module_id: u64,
    start: u64,
    size: u32,
    ns: &str,
    name: &str,
    sig: &str,
) -> Vec<u8> {
    let mut p = Vec::new();
    p.extend_from_slice(&method_id.to_le_bytes());
    p.extend_from_slice(&module_id.to_le_bytes());
    p.extend_from_slice(&start.to_le_bytes());
    p.extend_from_slice(&size.to_le_bytes());
    p.extend_from_slice(&0u32.to_le_bytes()); // token
    p.extend_from_slice(&0u32.to_le_bytes()); // flags
    p.extend_from_slice(&wide(ns));
    p.extend_from_slice(&wide(name));
    p.extend_from_slice(&wide(sig));
    p.extend_from_slice(&1u16.to_le_bytes()); // CLR instance id
    p
}

#[test]
fn minimal_trace_ends_cleanly() {
    // A well-formed stream with only a trace object: end of stream, and the
    // trace info fields are exactly as written.
    let mut v = Vec::new();
    push_magic(&mut v);
    push_trace_object(&mut v);
    v.push(1);
    let mut parser = EventPipeParser::new(v).expect("open");
    assert!(parser.next_event().expect("next").is_none());
    let info = parser.trace_info().expect("info");
    assert_eq!(info.pointer_size, 8);
    assert_eq!(info.process_id, 4242);
    assert_eq!(info.number_of_processors, 8);
    assert_eq!(info.qpc_frequency, 10_000_000);
}

#[test]
fn bad_magic_is_rejected() {
    let mut v = Vec::new();
    v.extend_from_slice(b"Nettrack");
    v.extend_from_slice(&[0u8; 24]);
    assert!(matches!(
        EventPipeParser::new(v),
        Err(EventPipeError::BadMagic)
    ));
    let mut v = Vec::new();
    push_magic(&mut v);
    let bad = &mut v[12];
    *bad = b'X';
    assert!(matches!(
        EventPipeParser::new(v),
        Err(EventPipeError::BadMagic)
    ));
}

#[test]
fn truncated_stream_is_rejected() {
    let v = b"Nettr".to_vec();
    assert!(matches!(
        EventPipeParser::new(v),
        Err(EventPipeError::Truncated)
    ));
}

#[test]
fn unknown_object_kind_is_fatal() {
    let mut v = Vec::new();
    push_magic(&mut v);
    push_type_object(&mut v, "Mystery", 1);
    v.push(1);
    let mut parser = EventPipeParser::new(v).expect("open");
    assert!(matches!(
        parser.next_event(),
        Err(EventPipeError::UnknownObjectType)
    ));
}

#[test]
fn empty_event_block_terminates_cleanly() {
    let mut v = Vec::new();
    push_magic(&mut v);
    push_trace_object(&mut v);
    push_block(&mut v, "EventBlock", 1, &[]);
    v.push(1);
    let mut parser = EventPipeParser::new(v).expect("open");
    assert!(parser.next_event().expect("next").is_none());
}

fn method_load_stream(provider: &str, event_id: u32) -> Vec<u8> {
    let mut v = Vec::new();
    push_magic(&mut v);
    push_trace_object(&mut v);
    push_block(&mut v, "MetadataBlock", 1, &metadata_blob(1, provider, event_id, "", 1));
    let payload = method_payload(9, 0xAA, 0x7fff_0000, 64, "Bar", "Foo", "()V");
    let mut data = Vec::new();
    push_blob(&mut data, 1, 0, 10, 0, 10, 0, 100, &payload);
    push_block(&mut v, "EventBlock", 1, &data);
    v.push(1);
    v
}

#[test]
fn single_method_load_verbose() {
    // A MethodLoadVerbose event decodes into a method load with exactly the
    // written fields and no rundown flag.
    let v = method_load_stream("Microsoft-Windows-DotNETRuntime", 143);
    let mut parser = EventPipeParser::new(v).expect("open");
    let ev = parser.next_event().expect("next").expect("event");
    assert_eq!(ev.provider_name, "Microsoft-Windows-DotNETRuntime");
    assert_eq!(ev.event_id, 143);
    assert_eq!(ev.event_version, 1);
    let (meta, typed) = decode_coreclr_event(&ev).expect("decode");
    assert!(!meta.is_rundown);
    match typed {
        CoreClrEvent::MethodLoad(m) => {
            assert_eq!(m.module_id, 0xAA);
            assert_eq!(m.method_start_address, 0x7fff_0000);
            assert_eq!(m.method_size, 64);
            assert_eq!(m.method_name, "Foo");
            assert_eq!(m.method_namespace, "Bar");
            assert_eq!(m.method_signature, "()V");
        },
        _ => panic!("expected a method load"),
    }
    assert!(parser.next_event().expect("next").is_none());
}

#[test]
fn method_dc_end_is_rundown() {
    // The same payload under the rundown provider and event id 144 comes out
    // as a method DC-end, normalized as a method load with the rundown flag.
    let v = method_load_stream("Microsoft-Windows-DotNETRuntimeRundown", 144);
    let mut parser = EventPipeParser::new(v).expect("open");
    let ev = parser.next_event().expect("next").expect("event");
    let (meta, typed) = decode_coreclr_event(&ev).expect("decode");
    assert!(meta.is_rundown);
    assert!(matches!(typed, CoreClrEvent::MethodDCEnd(_)));
    let normalized = eventpipe_event_to_coreclr_event(4242, &ev).expect("normalize");
    match normalized {
        normalize::CoreClrEvent::MethodLoad(m) => {
            assert!(m.dc_end);
            assert_eq!(m.start_address, 0x7fff_0000);
            assert_eq!(m.name.name, "Foo");
            assert_eq!(m.common.process_id, 4242);
        },
        _ => panic!("expected a normalized method load"),
    }
}

#[test]
fn stack_resolution() {
    // A stack block registers ids from first_id on; the event's stack id
    // resolves to the registered addresses.
    let mut v = Vec::new();
    push_magic(&mut v);
    push_trace_object(&mut v);
    push_block(&mut v, "MetadataBlock", 1, &metadata_blob(1, "P", 7, "", 0));
    push_stack_block(&mut v, 5, &[&[0x1000, 0x2000, 0x3000]]);
    let mut data = Vec::new();
    push_blob(&mut data, 1, 0, 10, 0, 10, 5, 100, &[]);
    push_block(&mut v, "EventBlock", 1, &data);
    v.push(1);
    let mut parser = EventPipeParser::new(v).expect("open");
    let ev = parser.next_event().expect("next").expect("event");
    assert_eq!(ev.stack, vec![0x1000, 0x2000, 0x3000]);
    assert!(parser.next_event().expect("next").is_none());
}

#[test]
fn unregistered_stack_id_gives_empty_stack() {
    let mut v = Vec::new();
    push_magic(&mut v);
    push_trace_object(&mut v);
    push_block(&mut v, "MetadataBlock", 1, &metadata_blob(1, "P", 7, "", 0));
    let mut data = Vec::new();
    push_blob(&mut data, 1, 0, 10, 0, 10, 99, 100, &[]);
    push_block(&mut v, "EventBlock", 1, &data);
    v.push(1);
    let mut parser = EventPipeParser::new(v).expect("open");
    let ev = parser.next_event().expect("next").expect("event");
    assert!(ev.stack.is_empty());
}

#[test]
fn missing_metadata_is_fatal() {
    let mut v = Vec::new();
    push_magic(&mut v);
    push_trace_object(&mut v);
    let mut data = Vec::new();
    push_blob(&mut data, 3, 0, 10, 0, 10, 0, 100, &[]);
    push_block(&mut v, "EventBlock", 1, &data);
    v.push(1);
    let mut parser = EventPipeParser::new(v).expect("open");
    assert!(matches!(
        parser.next_event(),
        Err(EventPipeError::MissingMetadata(3))
    ));
}

#[test]
fn sequence_points_are_read_and_discarded() {
    let mut v = Vec::new();
    push_magic(&mut v);
    push_trace_object(&mut v);
    // A sequence-point block with one thread entry.
    push_type_object(&mut v, "SPBlock", 2);
    v.extend_from_slice(&24u32.to_le_bytes());
    while v.len() % 4 != 0 {
        v.push(0);
    }
    v.extend_from_slice(&500u64.to_le_bytes());
    v.extend_from_slice(&1u32.to_le_bytes());
    v.extend_from_slice(&10u64.to_le_bytes());
    v.extend_from_slice(&3u32.to_le_bytes());
    v.push(6);
    v.push(1);
    let mut parser = EventPipeParser::new(v).expect("open");
    assert!(parser.next_event().expect("next").is_none());
}

#[test]
fn sequence_numbers_and_timestamps_per_capture_thread() {
    // Three events, two capture threads: within each capture thread the
    // sequence numbers step by one and the timestamps rise, while the global
    // timestamp order is not monotonic.
    let mut v = Vec::new();
    push_magic(&mut v);
    push_trace_object(&mut v);
    push_block(&mut v, "MetadataBlock", 1, &metadata_blob(1, "P", 7, "", 0));
    let mut data = Vec::new();
    push_blob(&mut data, 1, 0, 1, 0, 1, 0, 100, &[]); // thread 1, ts 100, seq 1
    data.push(0x83); // metadata id + sequence group present; timestamp delta follows
    encode_varint_u64(1, &mut data); // metadata id
    encode_varint_u64(0u32.wrapping_sub(1) as u64, &mut data); // delta -1: thread 2 starts at seq 1
    encode_varint_u64(2, &mut data); // capture thread 2
    encode_varint_u64(0, &mut data); // processor
    encode_varint_u64(0u64.wrapping_sub(10), &mut data); // ts delta -10: ts 90
    encode_varint_u64(0, &mut data); // payload size
    data.push(0x82); // sequence group present again
    encode_varint_u64(0, &mut data); // delta 0: back on thread 1, seq 2
    encode_varint_u64(1, &mut data); // capture thread 1
    encode_varint_u64(0, &mut data); // processor
    encode_varint_u64(60, &mut data); // ts delta +60: ts 150
    encode_varint_u64(0, &mut data); // payload size
    push_block(&mut v, "EventBlock", 1, &data);
    v.push(1);
    let mut parser = EventPipeParser::new(v).expect("open");
    let e1 = parser.next_event().expect("next").expect("event");
    let e2 = parser.next_event().expect("next").expect("event");
    let e3 = parser.next_event().expect("next").expect("event");
    assert_eq!((e1.capture_thread_id, e1.sequence_number, e1.timestamp), (1, 1, 100));
    assert_eq!((e2.capture_thread_id, e2.sequence_number, e2.timestamp), (2, 1, 90));
    assert_eq!((e3.capture_thread_id, e3.sequence_number, e3.timestamp), (1, 2, 150));
    // Per capture thread: strictly increasing by one, timestamps rising.
    assert_eq!(e3.sequence_number, e1.sequence_number + 1);
    assert!(e3.timestamp > e1.timestamp);
    // Globally the timestamps are not monotonic.
    assert!(e2.timestamp < e1.timestamp);
}

#[test]
fn uncompressed_block_alignment_padding() {
    // In uncompressed mode a short payload is followed by alignment padding.
    let mut v = Vec::new();
    push_magic(&mut v);
    push_trace_object(&mut v);
    push_block(&mut v, "MetadataBlock", 1, &metadata_blob(1, "P", 7, "", 0));
    let mut data = Vec::new();
    for _ in 0..2 {
        let mut h = Vec::new();
        h.extend_from_slice(&0u32.to_le_bytes()); // size word
        h.extend_from_slice(&1u32.to_le_bytes()); // raw metadata id
        h.extend_from_slice(&5u32.to_le_bytes()); // sequence number
        h.extend_from_slice(&10u64.to_le_bytes()); // thread
        h.extend_from_slice(&10u64.to_le_bytes()); // capture thread
        h.extend_from_slice(&0u32.to_le_bytes()); // processor
        h.extend_from_slice(&0u32.to_le_bytes()); // stack id
        h.extend_from_slice(&100u64.to_le_bytes()); // timestamp
        h.extend_from_slice(&[0u8; 32]); // activity ids
        h.extend_from_slice(&3u32.to_le_bytes()); // payload size
        h.extend_from_slice(&[7, 8, 9]); // payload
        h.push(0); // alignment padding
        data.extend_from_slice(&h);
    }
    push_block(&mut v, "EventBlock", 0, &data);
    v.push(1);
    let mut parser = EventPipeParser::new(v).expect("open");
    let e1 = parser.next_event().expect("next").expect("event");
    let e2 = parser.next_event().expect("next").expect("event");
    assert_eq!(e1.payload, vec![7, 8, 9]);
    assert_eq!(e2.payload, vec![7, 8, 9]);
    assert!(parser.next_event().expect("next").is_none());
}

#[test]
fn zero_payload_compressed_no_padding() {
    // payload_size zero yields a zero-byte payload, and in compressed mode
    // the next event follows with no padding.
    let mut v = Vec::new();
    push_magic(&mut v);
    push_trace_object(&mut v);
    push_block(&mut v, "MetadataBlock", 1, &metadata_blob(1, "P", 7, "", 0));
    let mut data = Vec::new();
    push_blob(&mut data, 1, 0, 1, 0, 1, 0, 100, &[]);
    push_blob(&mut data, 1, 0, 1, 0, 1, 0, 1, &[]);
    push_block(&mut v, "EventBlock", 1, &data);
    v.push(1);
    let mut parser = EventPipeParser::new(v).expect("open");
    let e1 = parser.next_event().expect("next").expect("event");
    let e2 = parser.next_event().expect("next").expect("event");
    assert_eq!(e1.payload.len(), 0);
    assert_eq!(e2.payload.len(), 0);
    assert_eq!(e2.sequence_number, e1.sequence_number + 1);
}

#[test]
fn unknown_event_id_is_dropped_not_fatal() {
    let mut v = Vec::new();
    push_magic(&mut v);
    push_trace_object(&mut v);
    push_block(&mut v, "MetadataBlock", 1, &metadata_blob(1, "Microsoft-Windows-DotNETRuntime", 9999, "", 1));
    let mut data = Vec::new();
    push_blob(&mut data, 1, 0, 1, 0, 1, 0, 100, &[1, 2, 3]);
    push_block(&mut v, "EventBlock", 1, &data);
    v.push(1);
    let mut parser = EventPipeParser::new(v).expect("open");
    let ev = parser.next_event().expect("next").expect("event");
    assert!(decode_coreclr_event(&ev).is_none());
    assert!(matches!(decode_event(&ev), DecodedEvent::UnknownEvent));
}

#[test]
fn gc_reason_fallback_is_empty() {
    // Any value outside the known set falls back to the empty sentinel.
    assert_eq!(GcReason::from_u32(1234), GcReason::Empty);
    assert_eq!(GcReason::from_u32(10), GcReason::Empty);
    assert_eq!(GcReason::from_u32(1), GcReason::Induced);
    assert!(GcType::from_u32(77).is_none());
    assert_eq!(GcAllocationKind::from_u32(2), GcAllocationKind::Pinned);
    assert_eq!(GcReason::Induced.description(), "Induced");
}

fn etw_row(name: &str, tid: u32, props: EtwProperties, buffer: Vec<u8>) -> EtwEventRow {
    EtwEventRow {
        name: name.to_string(),
        timestamp: 777,
        process_id: 55,
        thread_id: tid,
        properties: props,
        buffer,
    }
}

#[test]
fn etw_stack_attach() {
    // A GC trigger on thread 100 is held; its stack-walk row attaches the
    // addresses and releases it.
    let mut conv = CoreClrEtwConverter::new();
    let mut props = EtwProperties::new();
    props.push("Reason".to_string(), EtwValue::U32(1));
    let row = etw_row(
        "Microsoft-Windows-DotNETRuntime/GarbageCollection/Triggered",
        100,
        props,
        Vec::new(),
    );
    assert!(conv.etw_event_to_coreclr_event(&row).is_none());
    let mut props = EtwProperties::new();
    let mut first = Vec::new();
    first.extend_from_slice(&0xAu64.to_le_bytes());
    first.extend_from_slice(&0xBu64.to_le_bytes());
    props.push("Stack".to_string(), EtwValue::Bytes(first));
    let walk = etw_row(
        "Microsoft-Windows-DotNETRuntime/CLRStack/CLRStackWalk",
        100,
        props,
        0xCu64.to_le_bytes().to_vec(),
    );
    let (meta, typed) = conv.etw_event_to_coreclr_event(&walk).expect("released");
    assert_eq!(meta.thread_id, 100);
    assert_eq!(meta.stack, Some(vec![0xA, 0xB, 0xC]));
    match typed {
        CoreClrEvent::GcTriggered(g) => assert_eq!(g.reason, GcReason::Induced),
        _ => panic!("expected the pending GC trigger"),
    }
    assert!(conv.remaining_clr_events_on_threads().is_empty());
}

#[test]
fn etw_intervening_event_flushes_without_stack() {
    // A second event on the same thread releases the first without a stack.
    let mut conv = CoreClrEtwConverter::new();
    let mut props = EtwProperties::new();
    props.push("Reason".to_string(), EtwValue::U32(1));
    let row1 = etw_row(
        "Microsoft-Windows-DotNETRuntime/GarbageCollection/Triggered",
        100,
        props,
        Vec::new(),
    );
    assert!(conv.etw_event_to_coreclr_event(&row1).is_none());
    let mut props = EtwProperties::new();
    props.push("Reason".to_string(), EtwValue::U32(8));
    let row2 = etw_row(
        "Microsoft-Windows-DotNETRuntime/GarbageCollection/Triggered",
        100,
        props,
        Vec::new(),
    );
    let (meta, typed) = conv.etw_event_to_coreclr_event(&row2).expect("flushed");
    assert!(meta.stack.is_none());
    assert!(matches!(typed, CoreClrEvent::GcTriggered(g) if g.reason == GcReason::Induced));
    let rest = conv.remaining_clr_events_on_threads();
    assert_eq!(rest.len(), 1);
    assert!(matches!(&rest[0].1 .1, CoreClrEvent::GcTriggered(g) if g.reason == GcReason::Stress));
}

#[test]
fn etw_unmerged_names_are_renamed() {
    // Unmerged-session names carry trailing spaces and go through the rename
    // table: `GC /Triggered ` stands for `GarbageCollection/Triggered`.
    let mut conv = CoreClrEtwConverter::new();
    let mut props = EtwProperties::new();
    props.push("Reason".to_string(), EtwValue::U32(2));
    let row = etw_row(
        "Microsoft-Windows-DotNETRuntime/GC /Triggered ",
        7,
        props,
        Vec::new(),
    );
    assert!(conv.etw_event_to_coreclr_event(&row).is_none());
    let rest = conv.remaining_clr_events_on_threads();
    assert_eq!(rest.len(), 1);
    assert_eq!(rest[0].0, 7);
    assert!(matches!(&rest[0].1 .1, CoreClrEvent::GcTriggered(g) if g.reason == GcReason::LowMemory));
}

#[test]
fn etw_method_load_verbose_fields() {
    let mut conv = CoreClrEtwConverter::new();
    let mut props = EtwProperties::new();
    props.push("MethodName".to_string(), EtwValue::Str("Foo".to_string()));
    props.push("MethodNamespace".to_string(), EtwValue::Str("Bar".to_string()));
    props.push("MethodSignature".to_string(), EtwValue::Str("()V".to_string()));
    props.push("ModuleID".to_string(), EtwValue::U64(0xAA));
    props.push("MethodID".to_string(), EtwValue::U64(9));
    props.push("MethodFlags".to_string(), EtwValue::U32(0));
    props.push("MethodToken".to_string(), EtwValue::U32(0));
    props.push("MethodStartAddress".to_string(), EtwValue::U64(0x7fff_0000));
    props.push("MethodSize".to_string(), EtwValue::U32(64));
    let row = etw_row(
        "Microsoft-Windows-DotNETRuntime/CLRMethod/MethodLoadVerbose",
        3,
        props,
        Vec::new(),
    );
    assert!(conv.etw_event_to_coreclr_event(&row).is_none());
    let rest = conv.remaining_clr_events_on_threads();
    assert_eq!(rest.len(), 1);
    match &rest[0].1 .1 {
        CoreClrEvent::MethodLoad(m) => {
            assert_eq!(m.module_id, 0xAA);
            assert_eq!(m.method_start_address, 0x7fff_0000);
            assert_eq!(m.method_size, 64);
            assert_eq!(m.method_name, "Foo");
            assert_eq!(m.method_namespace, "Bar");
            assert_eq!(m.method_signature, "()V");
        },
        _ => panic!("expected a method load"),
    }
}

#[test]
fn method_name_formatting() {
    let s = CoreClrMethodName::format("Foo", "Bar", "()V");
    assert_eq!(s, "Foo [Bar] \u{2329}()V\u{232a}");
}

#[test]
fn jit_placeholder_name_for_anonymous_methods() {
    // An empty method name becomes a JIT placeholder with the start address
    // in hexadecimal.
    let v = {
        let mut v = Vec::new();
        push_magic(&mut v);
        push_trace_object(&mut v);
        push_block(
            &mut v,
            "MetadataBlock",
            1,
            &metadata_blob(1, "Microsoft-Windows-DotNETRuntime", 143, "", 1),
        );
        let payload = method_payload(9, 0xAA, 0x7fff_0000, 64, "Bar", "", "()V");
        let mut data = Vec::new();
        push_blob(&mut data, 1, 0, 10, 0, 10, 0, 100, &payload);
        push_block(&mut v, "EventBlock", 1, &data);
        v.push(1);
        v
    };
    let mut parser = EventPipeParser::new(v).expect("open");
    let ev = parser.next_event().expect("next").expect("event");
    let normalized = eventpipe_event_to_coreclr_event(1, &ev).expect("normalize");
    match normalized {
        normalize::CoreClrEvent::MethodLoad(m) => {
            assert_eq!(m.name.name, "JIT[0x7fff0000]");
        },
        _ => panic!("expected a normalized method load"),
    }
}

#[test]
fn provider_args_exact_strings() {
    let props = CoreClrProviderProps {
        is_attach: false,
        gc_markers: false,
        gc_suspensions: false,
        gc_detailed_allocs: false,
        event_stacks: false,
    };
    let args = coreclr_provider_args(props);
    assert_eq!(args.len(), 2);
    assert_eq!(args[0], "Microsoft-Windows-DotNETRuntime:0x2000020038:5");
    assert_eq!(args[1], "Microsoft-Windows-DotNETRuntimeRundown:0x30:5");
    let props = CoreClrProviderProps {
        is_attach: true,
        gc_markers: true,
        gc_suspensions: false,
        gc_detailed_allocs: true,
        event_stacks: true,
    };
    let args = coreclr_provider_args(props);
    assert_eq!(args[0], "Microsoft-Windows-DotNETRuntime:0x2042220039:5");
    assert_eq!(args[1], "Microsoft-Windows-DotNETRuntimeRundown:0x78:5");
}

#[test]
fn xperf_args_empty_when_disabled() {
    let props = ElevatedRecordingProps {
        is_attach: false,
        coreclr: CoreClrRecordingProps {
            gc_markers: false,
            gc_suspensions: false,
            gc_detailed_allocs: false,
            event_stacks: false,
        },
    };
    assert!(coreclr_xperf_args(&props).is_empty());
    let props = ElevatedRecordingProps {
        is_attach: false,
        coreclr: CoreClrRecordingProps {
            gc_markers: true,
            gc_suspensions: false,
            gc_detailed_allocs: false,
            event_stacks: false,
        },
    };
    assert_eq!(coreclr_xperf_args(&props).len(), 2);
    let ctx = CoreClrContext::new(CoreClrProviderProps {
        is_attach: false,
        gc_markers: true,
        gc_suspensions: false,
        gc_detailed_allocs: false,
        event_stacks: false,
    });
    assert!(ctx.props.gc_markers);
}

#[test]
fn gfx_args() {
    let on = RecordingProps { gfx: true };
    let off = RecordingProps { gfx: false };
    assert!(gfx_xperf_args(&off, &RecordingMode::All).is_empty());
    let args = gfx_xperf_args(&on, &RecordingMode::Pid(1));
    assert_eq!(args, vec!["Microsoft-Windows-DxgKrnl:0x1:1".to_string()]);
}

#[test]
fn string_table_interning() {
    let mut t = StringTable::new();
    let a = t.intern_string("alpha");
    let b = t.intern_string("alpha");
    assert_eq!(a.0, "alpha");
    assert_eq!(b.0, "alpha");
    assert_eq!(StringTableIndex::unknown().0, "UNKNOWN");
}

#[test]
fn marker_schemas_and_interning() {
    let schema = CoreClrGcAllocTickMarker::schema();
    assert_eq!(schema.marker_kind, "GC Alloc Tick");
    assert_eq!(schema.fields.len(), 3);
    assert_eq!(schema.fields[0].key, "clrtype");
    let mut profile = Profile::new();
    let m = CoreClrGcAllocTickMarker(StringHandle(0), 16, 2, CategoryHandle(1));
    let h1 = m.name(&mut profile);
    let h2 = m.name(&mut profile);
    assert_eq!(h1, h2);
    let gc = CoreClrGcMarker(CategoryHandle(3));
    assert_eq!(CoreClrGcMarker::schema().marker_kind, "GC");
    let mut p2 = Profile::new();
    let _ = gc.name(&mut p2);
}

#[test]
fn event_metadata_decorators() {
    let m = EventMetadata {
        timestamp: 5,
        process_id: u32::MAX,
        thread_id: 9,
        stack: None,
        is_rundown: false,
    };
    let m = m.with_pid(321);
    assert_eq!(m.process_id, 321);
    let m = m.with_stack(vec![1, 2]);
    assert_eq!(m.stack, Some(vec![1, 2]));
}

#[test]
fn unexpected_tag_is_fatal() {
    let mut v = Vec::new();
    push_magic(&mut v);
    v.push(2); // neither null, begin, nor end
    let mut parser = EventPipeParser::new(v).expect("open");
    assert!(matches!(
        parser.next_event(),
        Err(EventPipeError::UnexpectedTag)
    ));
}

#[test]
fn block_smaller_than_header_is_malformed() {
    let mut v = Vec::new();
    push_magic(&mut v);
    push_trace_object(&mut v);
    // An event block whose size word is below its header size.
    push_type_object(&mut v, "EventBlock", 2);
    v.extend_from_slice(&4u32.to_le_bytes());
    while v.len() % 4 != 0 {
        v.push(0);
    }
    v.extend_from_slice(&20u16.to_le_bytes());
    v.extend_from_slice(&1u16.to_le_bytes());
    v.extend_from_slice(&0u64.to_le_bytes());
    v.extend_from_slice(&0u64.to_le_bytes());
    v.push(6);
    v.push(1);
    let mut parser = EventPipeParser::new(v).expect("open");
    assert!(matches!(parser.next_event(), Err(EventPipeError::Malformed)));
}

#[test]
fn trace_info_parses_on_demand() {
    // trace_info before any next_event reads the leading Trace object.
    let mut v = Vec::new();
    push_magic(&mut v);
    push_trace_object(&mut v);
    v.push(1);
    let mut parser = EventPipeParser::new(v).expect("open");
    let info = parser.trace_info().expect("info");
    assert_eq!(info.pointer_size, 8);
    assert_eq!(info.process_id, 4242);
    assert!(parser.next_event().expect("next").is_none());
}

#[test]
fn etw_unknown_provider_is_dropped() {
    // A row from an unknown provider is dropped and the slot is untouched.
    let mut conv = CoreClrEtwConverter::new();
    let mut props = EtwProperties::new();
    props.push("Reason".to_string(), EtwValue::U32(1));
    let row = etw_row("Some-Other-Provider/GarbageCollection/Triggered", 9, props, Vec::new());
    assert!(conv.etw_event_to_coreclr_event(&row).is_none());
    assert!(conv.remaining_clr_events_on_threads().is_empty());
}

#[test]
fn etw_unknown_gc_reason_falls_back_to_empty() {
    // An unknown trigger reason becomes the Empty sentinel; the row still
    // converts and takes the slot.
    let mut conv = CoreClrEtwConverter::new();
    let mut props = EtwProperties::new();
    props.push("Reason".to_string(), EtwValue::U32(999));
    let row = etw_row(
        "Microsoft-Windows-DotNETRuntime/GarbageCollection/Triggered",
        11,
        props,
        Vec::new(),
    );
    assert!(conv.etw_event_to_coreclr_event(&row).is_none());
    let rest = conv.remaining_clr_events_on_threads();
    assert_eq!(rest.len(), 1);
    assert!(matches!(&rest[0].1 .1, CoreClrEvent::GcTriggered(g) if g.reason == GcReason::Empty));
}

#[test]
fn module_load_v2_pdb_fields() {
    // A version-two module event carries the PDB records; its other fields
    // decode as written.
    let mut p = Vec::new();
    p.extend_from_slice(&0xAAu64.to_le_bytes()); // module id
    p.extend_from_slice(&0xBBu64.to_le_bytes()); // assembly id
    p.extend_from_slice(&0u32.to_le_bytes()); // flags
    p.extend_from_slice(&0u32.to_le_bytes()); // reserved
    p.extend_from_slice(&wide("il.dll"));
    p.extend_from_slice(&wide("ni.dll"));
    p.extend_from_slice(&7u16.to_le_bytes()); // clr instance id
    p.extend_from_slice(&[9u8; 16]); // managed pdb signature
    p.extend_from_slice(&3u32.to_le_bytes()); // managed pdb age
    p.extend_from_slice(&wide("m.pdb"));
    p.extend_from_slice(&[4u8; 16]); // native pdb signature
    p.extend_from_slice(&5u32.to_le_bytes()); // native pdb age
    p.extend_from_slice(&wide("n.pdb"));
    let mut v = Vec::new();
    push_magic(&mut v);
    push_trace_object(&mut v);
    push_block(
        &mut v,
        "MetadataBlock",
        1,
        &metadata_blob(1, "Microsoft-Windows-DotNETRuntime", 152, "", 2),
    );
    let mut data = Vec::new();
    push_blob(&mut data, 1, 0, 1, 0, 1, 0, 100, &p);
    push_block(&mut v, "EventBlock", 1, &data);
    v.push(1);
    let mut parser = EventPipeParser::new(v).expect("open");
    let ev = parser.next_event().expect("next").expect("event");
    let (_, typed) = decode_coreclr_event(&ev).expect("decode");
    match typed {
        CoreClrEvent::ModuleLoad(m) => {
            assert_eq!(m.module_id, 0xAA);
            assert_eq!(m.module_il_path, "il.dll");
            assert_eq!(m.clr_instance_id, Some(7));
            assert_eq!(m.managed_pdb_signature, vec![9u8; 16]);
            assert_eq!(m.managed_pdb_age, 3);
            assert_eq!(m.managed_pdb_build_path, "m.pdb");
            assert_eq!(m.native_pdb_signature, vec![4u8; 16]);
            assert_eq!(m.native_pdb_age, 5);
            assert_eq!(m.native_pdb_build_path, "n.pdb");
        },
        _ => panic!("expected a module load"),
    }
}

#[test]
fn frame_table_dedups_frames() {
    // A repeated frame keeps its row; a new frame takes the next one.
    let mut frames = FrameTable::new();
    let mut strings = ThreadStringTable::new();
    let mut resources = ResourceTable::new();
    let mut funcs = FuncTable::new();
    let libs = GlobalLibTable { libs: Vec::new() };
    let f1 = InternalFrame {
        location: InternalFrameLocation::UnknownAddress(0x1234),
        category_pair: CategoryPairHandle(CategoryHandle(1), None),
    };
    let f2 = InternalFrame {
        location: InternalFrameLocation::AddressInLib(0x40, GlobalLibIndex(2)),
        category_pair: CategoryPairHandle(CategoryHandle(1), Some(3)),
    };
    let i1 = frames.index_for_frame(&mut strings, &mut resources, &mut funcs, &libs, f1);
    let i2 = frames.index_for_frame(&mut strings, &mut resources, &mut funcs, &libs, f2);
    let i1b = frames.index_for_frame(&mut strings, &mut resources, &mut funcs, &libs, f1);
    assert_eq!(i1, 0);
    assert_eq!(i2, 1);
    assert_eq!(i1b, 0);
}
