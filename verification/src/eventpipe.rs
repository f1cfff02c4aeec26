//! The payload decoder: reinterprets a raw event's payload against the
//! managed-runtime schemas, selecting a decoder by provider and event id.
//!
//! Unknown providers and unknown event ids drop the event; a payload that
//! does not parse drops the event too; nothing here fails the stream.
use vstd::prelude::*;

use crate::EventMetadata;
use crate::bytes::le_bytes;
use crate::enums::gc_reason_of;
use crate::events::{
    gc_allocation_tick_at,
    method_event_ok,
    method_load_at,
    module_event_ok,
    module_load_at,
    r2r_event_ok,
    ready_to_run_at,
    tick_event_ok,
    parse_gc_allocation_tick,
    parse_gc_end,
    parse_gc_sampled_object_allocation,
    parse_gc_start,
    parse_gc_triggered,
    parse_method_load,
    parse_module_load,
    parse_ready_to_run,
    CoreClrEvent,
};
use crate::parser::NettraceEvent;
use crate::text::str_eq;

verus! {

/// The regular managed-runtime provider name.
pub open spec fn runtime_provider() -> Seq<char> {
    "Microsoft-Windows-DotNETRuntime"@
}

/// The rundown provider name.
pub open spec fn rundown_provider() -> Seq<char> {
    "Microsoft-Windows-DotNETRuntimeRundown"@
}

/// The cross-source metadata a decoded event carries: EventPipe streams are
/// single-process, so the process id is the all-ones sentinel.
pub open spec fn meta_ok(event: NettraceEvent, m: EventMetadata, is_rundown: bool) -> bool {
    &&& m.timestamp == event.timestamp
    &&& m.process_id == 0xFFFF_FFFF
    &&& m.thread_id == event.thread_id % 0x1_0000_0000
    &&& m.stack is None
    &&& m.is_rundown == is_rundown
}

fn to_event_metadata(event: &NettraceEvent, is_rundown: bool) -> (m: EventMetadata)
    ensures
        meta_ok(*event, m, is_rundown),
{
    EventMetadata {
        timestamp: event.timestamp,
        process_id: u32::MAX,
        thread_id: (event.thread_id % 0x1_0000_0000) as u32,
        stack: None,
        is_rundown,
    }
}

/// What the regular-provider decoder yields for each event id, given the
/// payload: the module, method, GC and ready-to-run families, with every
/// other id dropped.
pub open spec fn regular_decode_ok(event: NettraceEvent, r: Option<
    (EventMetadata, CoreClrEvent),
>) -> bool {
    let pv = event.payload@;
    let ver = event.event_version as int;
    let id = event.event_id;
    if id == 151 || id == 152 || id == 153 {
        match module_load_at(pv, ver, id == 151) {
            Some(me) => (r matches Some((m, ev)) && meta_ok(event, m, false) && (if id == 153 {
                ev matches CoreClrEvent::ModuleUnload(e) && module_event_ok(e, me)
            } else {
                ev matches CoreClrEvent::ModuleLoad(e) && module_event_ok(e, me)
            })),
            None => r is None,
        }
    } else if id == 141 || id == 142 || id == 143 || id == 144 {
        match method_load_at(pv, ver, id == 143 || id == 144) {
            Some(me) => (r matches Some((m, ev)) && meta_ok(event, m, false) && (if id == 141
                || id == 143 {
                ev matches CoreClrEvent::MethodLoad(e) && method_event_ok(e, me)
            } else {
                ev matches CoreClrEvent::MethodUnload(e) && method_event_ok(e, me)
            })),
            None => r is None,
        }
    } else if id == 159 {
        match ready_to_run_at(pv) {
            Some(me) => (r matches Some((m, ev)) && meta_ok(event, m, false) && (ev matches
                CoreClrEvent::ReadyToRunGetEntryPoint(e) && r2r_event_ok(e, me))),
            None => r is None,
        }
    } else if id == 35 {
        if pv.len() >= 6 {
            (r matches Some((m, ev)) && meta_ok(event, m, false) && (ev matches
                CoreClrEvent::GcTriggered(e) && e.reason == gc_reason_of(le_bytes(pv, 0, 4))
                && e.clr_instance_id == le_bytes(pv, 4, 2)))
        } else {
            r is None
        }
    } else if id == 10 {
        match gc_allocation_tick_at(pv, ver) {
            Some(me) => (r matches Some((m, ev)) && meta_ok(event, m, false) && (ev matches
                CoreClrEvent::GcAllocationTick(e) && tick_event_ok(e, me))),
            None => r is None,
        }
    } else if id == 20 || id == 30 {
        if pv.len() >= 30 {
            (r matches Some((m, ev)) && meta_ok(event, m, false) && (ev matches
                CoreClrEvent::GcSampledObjectAllocation(e) && e.address == le_bytes(pv, 0, 8)
                && e.type_id == le_bytes(pv, 8, 8) && e.object_count_for_type_sample == le_bytes(
                pv,
                16,
                4,
            ) && e.total_size_for_type_sample == le_bytes(pv, 20, 8) && e.clr_instance_id
                == le_bytes(pv, 28, 2)))
        } else {
            r is None
        }
    } else {
        r is None
    }
}

/// Decodes an event of the regular runtime provider.
fn decode_coreclr_regular_event(event: &NettraceEvent) -> (r: Option<
    (EventMetadata, CoreClrEvent),
>)
    ensures
        regular_decode_ok(*event, r),
{
    let meta = to_event_metadata(event, false);
    let id = event.event_id;
    if id == 151 || id == 152 || id == 153 {
        match parse_module_load(&event.payload, event.event_version, id == 151) {
            Some(e) => {
                if id == 153 {
                    Some((meta, CoreClrEvent::ModuleUnload(e)))
                } else {
                    Some((meta, CoreClrEvent::ModuleLoad(e)))
                }
            },
            None => None,
        }
    } else if id == 141 || id == 142 || id == 143 || id == 144 {
        match parse_method_load(&event.payload, event.event_version, id == 143 || id == 144) {
            Some(e) => {
                if id == 141 || id == 143 {
                    Some((meta, CoreClrEvent::MethodLoad(e)))
                } else {
                    Some((meta, CoreClrEvent::MethodUnload(e)))
                }
            },
            None => None,
        }
    } else if id == 159 {
        match parse_ready_to_run(&event.payload) {
            Some(e) => Some((meta, CoreClrEvent::ReadyToRunGetEntryPoint(e))),
            None => None,
        }
    } else if id == 35 {
        match parse_gc_triggered(&event.payload) {
            Some(e) => Some((meta, CoreClrEvent::GcTriggered(e))),
            None => None,
        }
    } else if id == 10 {
        match parse_gc_allocation_tick(&event.payload, event.event_version) {
            Some(e) => Some((meta, CoreClrEvent::GcAllocationTick(e))),
            None => None,
        }
    } else if id == 20 || id == 30 {
        match parse_gc_sampled_object_allocation(&event.payload) {
            Some(e) => Some((meta, CoreClrEvent::GcSampledObjectAllocation(e))),
            None => None,
        }
    } else {
        None
    }
}

/// What the rundown-provider decoder yields: only the verbose method
/// DC-start and DC-end record, everything else dropped.
pub open spec fn rundown_decode_ok(event: NettraceEvent, r: Option<
    (EventMetadata, CoreClrEvent),
>) -> bool {
    let pv = event.payload@;
    let ver = event.event_version as int;
    if event.event_id == 144 {
        match method_load_at(pv, ver, true) {
            Some(me) => (r matches Some((m, ev)) && meta_ok(event, m, true) && (ev matches
                CoreClrEvent::MethodDCEnd(e) && method_event_ok(e, me))),
            None => r is None,
        }
    } else {
        r is None
    }
}

/// Decodes an event of the rundown provider.
fn decode_coreclr_rundown_event(event: &NettraceEvent) -> (r: Option<
    (EventMetadata, CoreClrEvent),
>)
    ensures
        rundown_decode_ok(*event, r),
{
    let meta = to_event_metadata(event, true);
    if event.event_id == 144 {
        match parse_method_load(&event.payload, event.event_version, true) {
            Some(e) => Some((meta, CoreClrEvent::MethodDCEnd(e))),
            None => None,
        }
    } else {
        None
    }
}

/// Decodes a raw event whose provider is one of the two managed-runtime
/// providers; any other provider drops the event.
pub fn decode_coreclr_event(event: &NettraceEvent) -> (r: Option<(EventMetadata, CoreClrEvent)>)
    ensures
        event.provider_name@ == runtime_provider() ==> regular_decode_ok(*event, r),
        event.provider_name@ == rundown_provider() ==> rundown_decode_ok(*event, r),
        (event.provider_name@ != runtime_provider() && event.provider_name@ != rundown_provider())
            ==> r is None,
{
    proof {
        reveal_strlit("Microsoft-Windows-DotNETRuntime");
        reveal_strlit("Microsoft-Windows-DotNETRuntimeRundown");
        assert(runtime_provider().len() != rundown_provider().len());
    }
    if str_eq(&event.provider_name, "Microsoft-Windows-DotNETRuntime") {
        decode_coreclr_regular_event(event)
    } else if str_eq(&event.provider_name, "Microsoft-Windows-DotNETRuntimeRundown") {
        decode_coreclr_rundown_event(event)
    } else {
        None
    }
}

/// The result of handing a raw event to the decoder.
pub enum DecodedEvent {
    CoreClrEvent((EventMetadata, CoreClrEvent)),
    UnknownEvent,
}

/// Decodes a raw event into the typed vocabulary, or marks it unknown.
pub fn decode_event(event: &NettraceEvent) -> (r: DecodedEvent)
    ensures
        event.provider_name@ == runtime_provider() ==> (match r {
            DecodedEvent::CoreClrEvent(p) => regular_decode_ok(*event, Some(p)),
            DecodedEvent::UnknownEvent => regular_decode_ok(*event, None),
        }),
        event.provider_name@ == rundown_provider() ==> (match r {
            DecodedEvent::CoreClrEvent(p) => rundown_decode_ok(*event, Some(p)),
            DecodedEvent::UnknownEvent => rundown_decode_ok(*event, None),
        }),
        (event.provider_name@ != runtime_provider() && event.provider_name@ != rundown_provider())
            ==> r is UnknownEvent,
{
    match decode_coreclr_event(event) {
        Some(p) => DecodedEvent::CoreClrEvent(p),
        None => DecodedEvent::UnknownEvent,
    }
}

} // verus!
