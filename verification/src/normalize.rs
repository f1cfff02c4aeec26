//! The normalizer: lifts typed managed-runtime events into the profiler's
//! cross-source vocabulary, whose variants carry a shared `EventCommon` and
//! owned strings.
use vstd::prelude::*;

use crate::EventMetadata;
use crate::enums::{GcAllocationKind, GcReason, GcType};
use crate::events;
use crate::eventpipe::{decode_coreclr_event, rundown_provider, runtime_provider};
use crate::parser::NettraceEvent;
use crate::text::{dec_str, hex_str, push_char, push_dec, push_hex};

verus! {

/// The source-independent head of every normalized event.
#[derive(Debug, Clone)]
pub struct EventCommon {
    pub timestamp: u64,
    pub process_id: u32,
    pub thread_id: u32,
    pub stack: Option<Vec<u64>>,
}

/// The compilation tier a JIT method was compiled at, taken from bits seven
/// to nine of the method flags.
#[derive(Debug, Clone, Copy, PartialEq, Eq, Structural)]
pub enum MethodCompilationTier {
    Unknown,
    MinOptJitted,
    Optimized,
    QuickJitted,
    OptimizedTier1,
    OptimizedTier1OSR,
    InstrumentedTier,
    InstrumentedTierOptimized,
}

/// The tier encoded by a method-flags word.
pub open spec fn tier_of(flags: int) -> MethodCompilationTier {
    let t = (flags / 128) % 8;
    if t == 1 {
        MethodCompilationTier::MinOptJitted
    } else if t == 2 {
        MethodCompilationTier::Optimized
    } else if t == 3 {
        MethodCompilationTier::QuickJitted
    } else if t == 4 {
        MethodCompilationTier::OptimizedTier1
    } else if t == 5 {
        MethodCompilationTier::OptimizedTier1OSR
    } else if t == 6 {
        MethodCompilationTier::InstrumentedTier
    } else if t == 7 {
        MethodCompilationTier::InstrumentedTierOptimized
    } else {
        MethodCompilationTier::Unknown
    }
}

fn tier_from_flags(flags: u32) -> (r: MethodCompilationTier)
    ensures
        r == tier_of(flags as int),
{
    let t = (flags / 128) % 8;
    if t == 1 {
        MethodCompilationTier::MinOptJitted
    } else if t == 2 {
        MethodCompilationTier::Optimized
    } else if t == 3 {
        MethodCompilationTier::QuickJitted
    } else if t == 4 {
        MethodCompilationTier::OptimizedTier1
    } else if t == 5 {
        MethodCompilationTier::OptimizedTier1OSR
    } else if t == 6 {
        MethodCompilationTier::InstrumentedTier
    } else if t == 7 {
        MethodCompilationTier::InstrumentedTierOptimized
    } else {
        MethodCompilationTier::Unknown
    }
}

/// A method's name, namespace and signature.
#[derive(Debug, Clone)]
pub struct CoreClrMethodName {
    pub name: String,
    pub namespace: String,
    pub signature: String,
}

impl CoreClrMethodName {
    /// `name [namespace] ⟨signature⟩`, with angle quotation marks.
    pub fn format(name: &str, namespace: &str, signature: &str) -> (r: String)
        ensures
            r@ == name@ + " ["@ + namespace@ + "] \u{2329}"@ + signature@ + "\u{232a}"@,
    {
        let mut s = name.to_owned();
        s.append(" [");
        s.append(namespace);
        s.append("] \u{2329}");
        s.append(signature);
        s.append("\u{232a}");
        proof {
            assert(s@ =~= name@ + " ["@ + namespace@ + "] \u{2329}"@ + signature@ + "\u{232a}"@);
        }
        s
    }
}

/// The placeholder name `JIT[0x…]` for a method with no name.
pub open spec fn jit_label(addr: int) -> Seq<char> {
    "JIT[0x"@ + hex_str(addr) + "]"@
}

fn make_jit_label(addr: u64) -> (r: String)
    ensures
        r@ == jit_label(addr as int),
{
    let mut s = "JIT[0x".to_owned();
    push_hex(addr, &mut s);
    push_char(&mut s, ']');
    proof {
        reveal_strlit("]");
        assert("]"@ == seq![']']);
        assert(s@ =~= jit_label(addr as int));
    }
    s
}

/// The placeholder type name `Type[…]` for a type known only by id.
pub open spec fn type_label(id: int) -> Seq<char> {
    "Type["@ + dec_str(id) + "]"@
}

fn make_type_label(id: u64) -> (r: String)
    ensures
        r@ == type_label(id as int),
{
    let mut s = "Type[".to_owned();
    push_dec(id, &mut s);
    push_char(&mut s, ']');
    proof {
        reveal_strlit("]");
        assert("]"@ == seq![']']);
        assert(s@ =~= type_label(id as int));
    }
    s
}

/// A normalized module load or unload.
#[derive(Debug, Clone)]
pub struct ModuleLoadUnloadEvent {
    pub common: EventCommon,
    pub module_id: u64,
    pub assembly_id: u64,
    pub app_domain_id: Option<u64>,
    pub module_il_path: String,
    pub module_native_path: String,
}

/// A normalized JIT method load.
#[derive(Debug, Clone)]
pub struct MethodLoadEvent {
    pub common: EventCommon,
    pub module_id: u64,
    pub start_address: u64,
    pub size: u32,
    pub name: CoreClrMethodName,
    pub tier: MethodCompilationTier,
    pub dc_end: bool,
}

/// A normalized JIT method unload.
#[derive(Debug, Clone)]
pub struct MethodUnloadEvent {
    pub common: EventCommon,
    pub start_address: u64,
    pub size: u32,
}

/// A normalized GC trigger.
#[derive(Debug, Clone)]
pub struct GcTriggeredEvent {
    pub common: EventCommon,
    pub reason: GcReason,
    pub clr_instance_id: u16,
}

/// A normalized allocation tick.
#[derive(Debug, Clone)]
pub struct GcAllocationTickEvent {
    pub common: EventCommon,
    pub kind: GcAllocationKind,
    pub size: u64,
    pub allocated_type: Option<String>,
    pub allocated_type_namespace: Option<String>,
}

/// A normalized sampled allocation.
#[derive(Debug, Clone)]
pub struct GcSampledObjectAllocationEvent {
    pub common: EventCommon,
    pub address: u64,
    pub allocated_type: Option<String>,
    pub allocated_type_namespace: Option<String>,
    pub object_count: u32,
    pub total_size: u64,
}

/// A normalized GC start.
#[derive(Debug, Clone)]
pub struct GcStartEvent {
    pub common: EventCommon,
    pub count: u32,
    pub reason: GcReason,
    pub depth: Option<u32>,
    pub gc_type: Option<GcType>,
}

/// A normalized GC end.
#[derive(Debug, Clone)]
pub struct GcEndEvent {
    pub common: EventCommon,
    pub count: u32,
    pub depth: u32,
    pub reason: Option<GcReason>,
}

/// A normalized ready-to-run entry point.
#[derive(Debug, Clone)]
pub struct ReadyToRunMethodEntryPointEvent {
    pub common: EventCommon,
    pub start_address: u64,
    pub name: CoreClrMethodName,
}

/// The normalized event vocabulary shared by the EventPipe and ETW paths.
#[derive(Debug, Clone)]
pub enum CoreClrEvent {
    ModuleLoad(ModuleLoadUnloadEvent),
    ModuleUnload(ModuleLoadUnloadEvent),
    MethodLoad(MethodLoadEvent),
    MethodUnload(MethodUnloadEvent),
    GcTriggered(GcTriggeredEvent),
    GcAllocationTick(GcAllocationTickEvent),
    GcSampledObjectAllocation(GcSampledObjectAllocationEvent),
    GcStart(GcStartEvent),
    GcEnd(GcEndEvent),
    ReadyToRunMethodEntryPoint(ReadyToRunMethodEntryPointEvent),
}

/// The shared head of a normalized event.
pub open spec fn common_of(ev: CoreClrEvent) -> EventCommon {
    match ev {
        CoreClrEvent::ModuleLoad(e) => e.common,
        CoreClrEvent::ModuleUnload(e) => e.common,
        CoreClrEvent::MethodLoad(e) => e.common,
        CoreClrEvent::MethodUnload(e) => e.common,
        CoreClrEvent::GcTriggered(e) => e.common,
        CoreClrEvent::GcAllocationTick(e) => e.common,
        CoreClrEvent::GcSampledObjectAllocation(e) => e.common,
        CoreClrEvent::GcStart(e) => e.common,
        CoreClrEvent::GcEnd(e) => e.common,
        CoreClrEvent::ReadyToRunMethodEntryPoint(e) => e.common,
    }
}

/// The same event with another head.
pub open spec fn with_common(ev: CoreClrEvent, c: EventCommon) -> CoreClrEvent {
    match ev {
        CoreClrEvent::ModuleLoad(e) => CoreClrEvent::ModuleLoad(
            ModuleLoadUnloadEvent { common: c, ..e },
        ),
        CoreClrEvent::ModuleUnload(e) => CoreClrEvent::ModuleUnload(
            ModuleLoadUnloadEvent { common: c, ..e },
        ),
        CoreClrEvent::MethodLoad(e) => CoreClrEvent::MethodLoad(MethodLoadEvent { common: c, ..e }),
        CoreClrEvent::MethodUnload(e) => CoreClrEvent::MethodUnload(
            MethodUnloadEvent { common: c, ..e },
        ),
        CoreClrEvent::GcTriggered(e) => CoreClrEvent::GcTriggered(
            GcTriggeredEvent { common: c, ..e },
        ),
        CoreClrEvent::GcAllocationTick(e) => CoreClrEvent::GcAllocationTick(
            GcAllocationTickEvent { common: c, ..e },
        ),
        CoreClrEvent::GcSampledObjectAllocation(e) => CoreClrEvent::GcSampledObjectAllocation(
            GcSampledObjectAllocationEvent { common: c, ..e },
        ),
        CoreClrEvent::GcStart(e) => CoreClrEvent::GcStart(GcStartEvent { common: c, ..e }),
        CoreClrEvent::GcEnd(e) => CoreClrEvent::GcEnd(GcEndEvent { common: c, ..e }),
        CoreClrEvent::ReadyToRunMethodEntryPoint(e) => CoreClrEvent::ReadyToRunMethodEntryPoint(
            ReadyToRunMethodEntryPointEvent { common: c, ..e },
        ),
    }
}

impl CoreClrEvent {
    /// The same event with the given stack attached to its head.
    pub fn with_stack(self, stack: Vec<u64>) -> (r: Self)
        ensures
            r == with_common(
                self,
                EventCommon {
                    timestamp: common_of(self).timestamp,
                    process_id: common_of(self).process_id,
                    thread_id: common_of(self).thread_id,
                    stack: Some(stack),
                },
            ),
    {
        match self {
            CoreClrEvent::ModuleLoad(mut e) => {
                e.common.stack = Some(stack);
                CoreClrEvent::ModuleLoad(e)
            },
            CoreClrEvent::ModuleUnload(mut e) => {
                e.common.stack = Some(stack);
                CoreClrEvent::ModuleUnload(e)
            },
            CoreClrEvent::MethodLoad(mut e) => {
                e.common.stack = Some(stack);
                CoreClrEvent::MethodLoad(e)
            },
            CoreClrEvent::MethodUnload(mut e) => {
                e.common.stack = Some(stack);
                CoreClrEvent::MethodUnload(e)
            },
            CoreClrEvent::GcTriggered(mut e) => {
                e.common.stack = Some(stack);
                CoreClrEvent::GcTriggered(e)
            },
            CoreClrEvent::GcAllocationTick(mut e) => {
                e.common.stack = Some(stack);
                CoreClrEvent::GcAllocationTick(e)
            },
            CoreClrEvent::GcSampledObjectAllocation(mut e) => {
                e.common.stack = Some(stack);
                CoreClrEvent::GcSampledObjectAllocation(e)
            },
            CoreClrEvent::GcStart(mut e) => {
                e.common.stack = Some(stack);
                CoreClrEvent::GcStart(e)
            },
            CoreClrEvent::GcEnd(mut e) => {
                e.common.stack = Some(stack);
                CoreClrEvent::GcEnd(e)
            },
            CoreClrEvent::ReadyToRunMethodEntryPoint(mut e) => {
                e.common.stack = Some(stack);
                CoreClrEvent::ReadyToRunMethodEntryPoint(e)
            },
        }
    }
}

/// The normalized form of one typed event under a given head: names fall
/// back to a `JIT[0x…]` placeholder, type ids become `Type[…]` placeholder
/// names, and the method tier comes from the flags word.
pub open spec fn normalized_ok(
    common: EventCommon,
    typed: events::CoreClrEvent,
    dc_end: bool,
    r: CoreClrEvent,
) -> bool {
    match typed {
        events::CoreClrEvent::ModuleLoad(m) => r matches CoreClrEvent::ModuleLoad(e) && e.common
            == common && e.module_id == m.module_id && e.assembly_id == m.assembly_id
            && e.app_domain_id == m.app_domain_id && e.module_il_path@ == m.module_il_path@
            && e.module_native_path@ == m.module_native_path@,
        events::CoreClrEvent::ModuleUnload(m) => r matches CoreClrEvent::ModuleUnload(e)
            && e.common == common && e.module_id == m.module_id && e.assembly_id == m.assembly_id
            && e.app_domain_id == m.app_domain_id && e.module_il_path@ == m.module_il_path@
            && e.module_native_path@ == m.module_native_path@,
        events::CoreClrEvent::MethodLoad(m) => r matches CoreClrEvent::MethodLoad(e) && e.common
            == common && method_norm_ok(m, dc_end, e),
        events::CoreClrEvent::MethodDCEnd(m) => r matches CoreClrEvent::MethodLoad(e) && e.common
            == common && method_norm_ok(m, dc_end, e),
        events::CoreClrEvent::MethodUnload(m) => r matches CoreClrEvent::MethodUnload(e)
            && e.common == common && e.start_address == m.method_start_address && e.size
            == m.method_size,
        events::CoreClrEvent::GcTriggered(g) => r matches CoreClrEvent::GcTriggered(e) && e.common
            == common && e.reason == g.reason && e.clr_instance_id == g.clr_instance_id,
        events::CoreClrEvent::GcStart(g) => r matches CoreClrEvent::GcStart(e) && e.common
            == common && e.count == g.count && e.reason == g.reason && e.depth == g.depth
            && e.gc_type == g.gc_type,
        events::CoreClrEvent::GcEnd(g) => r matches CoreClrEvent::GcEnd(e) && e.common == common
            && e.count == g.count && e.depth == g.depth && e.reason == g.reason,
        events::CoreClrEvent::GcAllocationTick(g) => r matches CoreClrEvent::GcAllocationTick(e)
            && e.common == common && e.kind == g.allocation_kind && e.size
            == g.allocation_amount64 && (e.allocated_type matches Some(t) && t@ == type_label(
            g.type_id as int,
        )) && e.allocated_type_namespace is None,
        events::CoreClrEvent::GcSampledObjectAllocation(g) => r matches
            CoreClrEvent::GcSampledObjectAllocation(e) && e.common == common && e.address
            == g.address && (e.allocated_type matches Some(t) && t@ == type_label(
            g.type_id as int,
        )) && e.allocated_type_namespace is None && e.object_count
            == g.object_count_for_type_sample && e.total_size == g.total_size_for_type_sample,
        events::CoreClrEvent::ReadyToRunGetEntryPoint(g) => r matches
            CoreClrEvent::ReadyToRunMethodEntryPoint(e) && e.common == common && e.start_address
            == g.entry_point && (if g.method_name@.len() == 0 {
            e.name.name@ == jit_label(g.entry_point as int)
        } else {
            e.name.name@ == g.method_name@
        }) && e.name.namespace@ == g.method_namespace@ && e.name.signature@ == g.method_signature@,
    }
}

/// The normalized method fields of a method load or DC-end record.
pub open spec fn method_norm_ok(
    m: events::MethodLoadUnloadEvent,
    dc_end: bool,
    e: MethodLoadEvent,
) -> bool {
    &&& e.module_id == m.module_id
    &&& e.start_address == m.method_start_address
    &&& e.size == m.method_size
    &&& (if m.method_name@.len() == 0 {
        e.name.name@ == jit_label(m.method_start_address as int)
    } else {
        e.name.name@ == m.method_name@
    })
    &&& e.name.namespace@ == m.method_namespace@
    &&& e.name.signature@ == m.method_signature@
    &&& e.tier == tier_of(m.method_flags as int)
    &&& e.dc_end == dc_end
}

/// Normalizes one typed event under the given head. The typed DC-end
/// variant sets the method's `dc_end` flag.
pub fn normalize_typed_event(common: EventCommon, typed: &events::CoreClrEvent) -> (r: CoreClrEvent)
    ensures
        normalized_ok(
            common,
            *typed,
            *typed matches events::CoreClrEvent::MethodDCEnd(_),
            r,
        ),
{
    match typed {
        events::CoreClrEvent::ModuleLoad(m) => CoreClrEvent::ModuleLoad(ModuleLoadUnloadEvent {
            common,
            module_id: m.module_id,
            assembly_id: m.assembly_id,
            app_domain_id: m.app_domain_id,
            module_il_path: m.module_il_path.clone(),
            module_native_path: m.module_native_path.clone(),
        }),
        events::CoreClrEvent::ModuleUnload(m) => CoreClrEvent::ModuleUnload(ModuleLoadUnloadEvent {
            common,
            module_id: m.module_id,
            assembly_id: m.assembly_id,
            app_domain_id: m.app_domain_id,
            module_il_path: m.module_il_path.clone(),
            module_native_path: m.module_native_path.clone(),
        }),
        events::CoreClrEvent::MethodLoad(m) => CoreClrEvent::MethodLoad(
            normalize_method(common, m, false),
        ),
        events::CoreClrEvent::MethodDCEnd(m) => CoreClrEvent::MethodLoad(
            normalize_method(common, m, true),
        ),
        events::CoreClrEvent::MethodUnload(m) => CoreClrEvent::MethodUnload(MethodUnloadEvent {
            common,
            start_address: m.method_start_address,
            size: m.method_size,
        }),
        events::CoreClrEvent::GcTriggered(g) => CoreClrEvent::GcTriggered(GcTriggeredEvent {
            common,
            reason: g.reason,
            clr_instance_id: g.clr_instance_id,
        }),
        events::CoreClrEvent::GcStart(g) => CoreClrEvent::GcStart(GcStartEvent {
            common,
            count: g.count,
            reason: g.reason,
            depth: g.depth,
            gc_type: g.gc_type,
        }),
        events::CoreClrEvent::GcEnd(g) => CoreClrEvent::GcEnd(GcEndEvent {
            common,
            count: g.count,
            depth: g.depth,
            reason: g.reason,
        }),
        events::CoreClrEvent::GcAllocationTick(g) => CoreClrEvent::GcAllocationTick(
            GcAllocationTickEvent {
                common,
                kind: g.allocation_kind,
                size: g.allocation_amount64,
                allocated_type: Some(make_type_label(g.type_id)),
                allocated_type_namespace: None,
            },
        ),
        events::CoreClrEvent::GcSampledObjectAllocation(g) => {
            CoreClrEvent::GcSampledObjectAllocation(GcSampledObjectAllocationEvent {
                common,
                address: g.address,
                allocated_type: Some(make_type_label(g.type_id)),
                allocated_type_namespace: None,
                object_count: g.object_count_for_type_sample,
                total_size: g.total_size_for_type_sample,
            })
        },
        events::CoreClrEvent::ReadyToRunGetEntryPoint(g) => {
            let name = if g.method_name.as_str().is_empty() {
                make_jit_label(g.entry_point)
            } else {
                g.method_name.clone()
            };
            CoreClrEvent::ReadyToRunMethodEntryPoint(ReadyToRunMethodEntryPointEvent {
                common,
                start_address: g.entry_point,
                name: CoreClrMethodName {
                    name,
                    namespace: g.method_namespace.clone(),
                    signature: g.method_signature.clone(),
                },
            })
        },
    }
}

pub fn normalize_method(common: EventCommon, m: &events::MethodLoadUnloadEvent, dc_end: bool) -> (r:
    MethodLoadEvent)
    ensures
        method_norm_ok(*m, dc_end, r),
        r.common == common,
{
    let name = if m.method_name.as_str().is_empty() {
        make_jit_label(m.method_start_address)
    } else {
        m.method_name.clone()
    };
    MethodLoadEvent {
        common,
        module_id: m.module_id,
        start_address: m.method_start_address,
        size: m.method_size,
        name: CoreClrMethodName {
            name,
            namespace: m.method_namespace.clone(),
            signature: m.method_signature.clone(),
        },
        tier: tier_from_flags(m.method_flags),
        dc_end,
    }
}

/// Normalizes a raw event into the cross-source vocabulary: the head's
/// stack is the raw event's resolved stack when it is non-empty, and the
/// process id is the caller's, since the stream itself is single-process.
pub fn eventpipe_event_to_coreclr_event(process_id: u32, ne: &NettraceEvent) -> (r: Option<
    CoreClrEvent,
>)
    ensures
        r matches Some(ev) ==> ({
            let c = common_of(ev);
            &&& c.timestamp == ne.timestamp
            &&& c.process_id == process_id
            &&& c.thread_id == ne.thread_id % 0x1_0000_0000
            &&& (match c.stack {
                Some(s) => ne.stack@.len() > 0 && s@ == ne.stack@,
                None => ne.stack@.len() == 0,
            })
        }),
        (ne.provider_name@ != runtime_provider() && ne.provider_name@ != rundown_provider()) ==> r
            is None,
        (ne.provider_name@ == runtime_provider() && crate::eventpipe::regular_decode_ok(
            *ne,
            None,
        )) ==> r is None,
        (ne.provider_name@ == runtime_provider() && !crate::eventpipe::regular_decode_ok(
            *ne,
            None,
        )) ==> r is Some,
        (ne.provider_name@ == rundown_provider() && crate::eventpipe::rundown_decode_ok(
            *ne,
            None,
        )) ==> r is None,
        (ne.provider_name@ == rundown_provider() && !crate::eventpipe::rundown_decode_ok(
            *ne,
            None,
        )) ==> r is Some,
        r matches Some(ev) ==> (exists|p: (EventMetadata, events::CoreClrEvent)|
            (#[trigger] crate::eventpipe::regular_decode_ok(*ne, Some(p)) && ne.provider_name@
                == runtime_provider() || crate::eventpipe::rundown_decode_ok(*ne, Some(p))
                && ne.provider_name@ == rundown_provider()) && normalized_ok(
                common_of(ev),
                p.1,
                p.1 is MethodDCEnd,
                ev,
            )),
{
    let (meta_v, typed) = match decode_coreclr_event(ne) {
        Some(p) => p,
        None => {
            return None;
        },
    };
    let ghost meta_g = meta_v;
    let stack = if ne.stack.len() > 0 {
        let mut s: Vec<u64> = Vec::new();
        let mut i: usize = 0;
        while i < ne.stack.len()
            invariant
                i <= ne.stack@.len(),
                s@ == ne.stack@.subrange(0, i as int),
            decreases ne.stack@.len() - i,
        {
            s.push(ne.stack[i]);
            i = i + 1;
            assert(s@ == ne.stack@.subrange(0, i as int));
        }
        proof {
            assert(ne.stack@.subrange(0, ne.stack@.len() as int) == ne.stack@);
        }
        Some(s)
    } else {
        None
    };
    let common = EventCommon {
        timestamp: ne.timestamp,
        process_id,
        thread_id: (ne.thread_id % 0x1_0000_0000) as u32,
        stack,
    };
    let ghost meta_typed = (meta_g, typed);
    let r = normalize_typed_event(common, &typed);
    proof {
        assert(common_of(r) == common);
        assert(crate::eventpipe::regular_decode_ok(*ne, Some(meta_typed)) && ne.provider_name@
            == runtime_provider() || crate::eventpipe::rundown_decode_ok(*ne, Some(meta_typed))
            && ne.provider_name@ == rundown_provider());
        assert(normalized_ok(common_of(r), meta_typed.1, meta_typed.1 is MethodDCEnd, r));
    }
    Some(r)
}

} // verus!
