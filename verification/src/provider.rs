//! Provider argument strings: which keywords and levels to ask of the
//! managed-runtime providers when a session is set up.
use vstd::prelude::*;

use crate::text::{hex_str, push_hex};

verus! {

pub const CORECLR_GC_KEYWORD: u64 = 0x1;

pub const CORECLR_LOADER_KEYWORD: u64 = 0x8;

pub const CORECLR_JIT_KEYWORD: u64 = 0x10;

pub const CORECLR_NGEN_KEYWORD: u64 = 0x20;

pub const CORECLR_RUNDOWN_START_KEYWORD: u64 = 0x40;

pub const CORECLR_JIT_TO_NATIVE_METHOD_MAP_KEYWORD: u64 = 0x20000;

pub const CORECLR_GC_SAMPLED_OBJECT_ALLOCATION_HIGH_KEYWORD: u64 = 0x200000;

pub const CORECLR_GC_SAMPLED_OBJECT_ALLOCATION_LOW_KEYWORD: u64 = 0x2000000;

pub const CORECLR_STACK_KEYWORD: u64 = 0x40000000;

pub const CORECLR_COMPILATION_DIAGNOSTIC_KEYWORD: u64 = 0x2000000000;

/// Which families of events a session wants.
#[derive(Debug, Clone, Copy, PartialEq, Eq, Structural)]
pub struct CoreClrProviderProps {
    pub is_attach: bool,
    pub gc_markers: bool,
    pub gc_suspensions: bool,
    pub gc_detailed_allocs: bool,
    pub event_stacks: bool,
}

/// The verbose-level keywords the props ask for: everything is folded into
/// the verbose provider line.
pub open spec fn verbose_keywords_of(props: CoreClrProviderProps) -> u64 {
    let info = CORECLR_LOADER_KEYWORD | CORECLR_COMPILATION_DIAGNOSTIC_KEYWORD
        | CORECLR_JIT_TO_NATIVE_METHOD_MAP_KEYWORD | (if props.event_stacks {
        CORECLR_STACK_KEYWORD
    } else {
        0
    }) | (if props.gc_markers || props.gc_suspensions || props.gc_detailed_allocs {
        CORECLR_GC_KEYWORD
    } else {
        0
    }) | (if props.gc_detailed_allocs {
        CORECLR_GC_SAMPLED_OBJECT_ALLOCATION_HIGH_KEYWORD
            | CORECLR_GC_SAMPLED_OBJECT_ALLOCATION_LOW_KEYWORD
    } else {
        0
    });
    CORECLR_JIT_KEYWORD | CORECLR_NGEN_KEYWORD | info
}

/// The rundown keywords: a method and loader rundown is only asked for
/// when attaching to a running process.
pub open spec fn rundown_keywords_of(props: CoreClrProviderProps) -> u64 {
    if props.is_attach {
        CORECLR_LOADER_KEYWORD | CORECLR_JIT_KEYWORD | CORECLR_NGEN_KEYWORD
            | CORECLR_RUNDOWN_START_KEYWORD
    } else {
        CORECLR_JIT_KEYWORD | CORECLR_NGEN_KEYWORD
    }
}

/// A provider line: name, keywords in hexadecimal, and a level.
pub open spec fn provider_line(name: Seq<char>, keywords: u64, level: Seq<char>) -> Seq<char> {
    name + ":0x"@ + hex_str(keywords as int) + ":"@ + level
}

fn make_provider_line(name: &str, keywords: u64, level: &str) -> (r: String)
    ensures
        r@ == provider_line(name@, keywords, level@),
{
    let mut s = name.to_owned();
    s.append(":0x");
    push_hex(keywords, &mut s);
    s.append(":");
    s.append(level);
    proof {
        assert(s@ =~= provider_line(name@, keywords, level@));
    }
    s
}

/// The provider strings a session with the given props passes to the
/// collector: one verbose line for the runtime provider and one for the
/// rundown provider.
pub fn coreclr_provider_args(props: CoreClrProviderProps) -> (r: Vec<String>)
    ensures
        r@.len() == 2,
        r@[0]@ == provider_line(
            "Microsoft-Windows-DotNETRuntime"@,
            verbose_keywords_of(props),
            "5"@,
        ),
        r@[1]@ == provider_line(
            "Microsoft-Windows-DotNETRuntimeRundown"@,
            rundown_keywords_of(props),
            "5"@,
        ),
{
    let mut providers: Vec<String> = Vec::new();
    let info_keywords = CORECLR_LOADER_KEYWORD | CORECLR_COMPILATION_DIAGNOSTIC_KEYWORD
        | CORECLR_JIT_TO_NATIVE_METHOD_MAP_KEYWORD | (if props.event_stacks {
        CORECLR_STACK_KEYWORD
    } else {
        0
    }) | (if props.gc_markers || props.gc_suspensions || props.gc_detailed_allocs {
        CORECLR_GC_KEYWORD
    } else {
        0
    }) | (if props.gc_detailed_allocs {
        CORECLR_GC_SAMPLED_OBJECT_ALLOCATION_HIGH_KEYWORD
            | CORECLR_GC_SAMPLED_OBJECT_ALLOCATION_LOW_KEYWORD
    } else {
        0
    });
    let verbose_keywords = CORECLR_JIT_KEYWORD | CORECLR_NGEN_KEYWORD | info_keywords;
    let rundown_verbose_keywords = if props.is_attach {
        CORECLR_LOADER_KEYWORD | CORECLR_JIT_KEYWORD | CORECLR_NGEN_KEYWORD
            | CORECLR_RUNDOWN_START_KEYWORD
    } else {
        CORECLR_JIT_KEYWORD | CORECLR_NGEN_KEYWORD
    };
    let line1 = make_provider_line("Microsoft-Windows-DotNETRuntime", verbose_keywords, "5");
    providers.push(line1);
    let line2 = make_provider_line(
        "Microsoft-Windows-DotNETRuntimeRundown",
        rundown_verbose_keywords,
        "5",
    );
    providers.push(line2);
    providers
}

/// The per-session flags the recorder passes down for the managed runtime.
#[derive(Debug, Clone, Copy, PartialEq, Eq, Structural)]
pub struct CoreClrRecordingProps {
    pub gc_markers: bool,
    pub gc_suspensions: bool,
    pub gc_detailed_allocs: bool,
    pub event_stacks: bool,
}

impl CoreClrRecordingProps {
    /// Whether any managed-runtime collection is wanted at all.
    pub fn any_enabled(&self) -> (r: bool)
        ensures
            r == (self.gc_markers || self.gc_suspensions || self.gc_detailed_allocs
                || self.event_stacks),
    {
        self.gc_markers || self.gc_suspensions || self.gc_detailed_allocs || self.event_stacks
    }
}

/// The recorder's elevated-session properties, as far as the managed
/// runtime reads them.
#[derive(Debug, Clone, Copy, PartialEq, Eq, Structural)]
pub struct ElevatedRecordingProps {
    pub is_attach: bool,
    pub coreclr: CoreClrRecordingProps,
}

/// The per-trace context of the managed-runtime handler.
#[derive(Debug, Clone, Copy, PartialEq, Eq, Structural)]
pub struct CoreClrContext {
    pub props: CoreClrProviderProps,
}

impl CoreClrContext {
    pub fn new(props: CoreClrProviderProps) -> (r: Self)
        ensures
            r.props == props,
    {
        CoreClrContext { props }
    }
}

/// The provider strings for an elevated collector session: empty when no
/// managed-runtime collection is enabled.
pub fn coreclr_xperf_args(props: &ElevatedRecordingProps) -> (r: Vec<String>)
    ensures
        !(props.coreclr.gc_markers || props.coreclr.gc_suspensions
            || props.coreclr.gc_detailed_allocs || props.coreclr.event_stacks) ==> r@.len() == 0,
        (props.coreclr.gc_markers || props.coreclr.gc_suspensions
            || props.coreclr.gc_detailed_allocs || props.coreclr.event_stacks) ==> ({
            let cp = CoreClrProviderProps {
                is_attach: props.is_attach,
                gc_markers: props.coreclr.gc_markers,
                gc_suspensions: props.coreclr.gc_suspensions,
                gc_detailed_allocs: props.coreclr.gc_detailed_allocs,
                event_stacks: props.coreclr.event_stacks,
            };
            r@.len() == 2 && r@[0]@ == provider_line(
                "Microsoft-Windows-DotNETRuntime"@,
                verbose_keywords_of(cp),
                "5"@,
            ) && r@[1]@ == provider_line(
                "Microsoft-Windows-DotNETRuntimeRundown"@,
                rundown_keywords_of(cp),
                "5"@,
            )
        }),
{
    if !props.coreclr.any_enabled() {
        return Vec::new();
    }
    let coreclr_props = CoreClrProviderProps {
        is_attach: props.is_attach,
        gc_markers: props.coreclr.gc_markers,
        gc_suspensions: props.coreclr.gc_suspensions,
        gc_detailed_allocs: props.coreclr.gc_detailed_allocs,
        event_stacks: props.coreclr.event_stacks,
    };
    coreclr_provider_args(coreclr_props)
}

} // verus!
