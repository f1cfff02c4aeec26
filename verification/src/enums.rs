//! The managed-runtime enumerations that event payloads carry, with their
//! wire values and the sentinel each falls back to on an unknown value: an
//! unknown enum value never fails the stream.
use vstd::prelude::*;

verus! {

/// Why a garbage collection was triggered.
#[derive(Debug, PartialEq, Eq, Structural, Clone, Copy)]
pub enum GcReason {
    AllocSmall,
    Induced,
    LowMemory,
    Empty,
    AllocLargeObjectHeap,
    OutOfSpaceSmallObjectHeap,
    OutOfSpaceLargeObjectHeap,
    InducedNotForced,
    Stress,
    InducedLowMemory,
}

/// The reason a wire value names; unknown values fall back to `Empty`.
pub open spec fn gc_reason_of(v: int) -> GcReason {
    if v == 0 {
        GcReason::AllocSmall
    } else if v == 1 {
        GcReason::Induced
    } else if v == 2 {
        GcReason::LowMemory
    } else if v == 4 {
        GcReason::AllocLargeObjectHeap
    } else if v == 5 {
        GcReason::OutOfSpaceSmallObjectHeap
    } else if v == 6 {
        GcReason::OutOfSpaceLargeObjectHeap
    } else if v == 7 {
        GcReason::InducedNotForced
    } else if v == 8 {
        GcReason::Stress
    } else if v == 9 {
        GcReason::InducedLowMemory
    } else {
        GcReason::Empty
    }
}

/// Whether a wire value names a `GcReason` other than by fallback.
pub open spec fn known_gc_reason(v: int) -> bool {
    0 <= v <= 9
}

impl GcReason {
    pub fn from_u32(v: u32) -> (r: Self)
        ensures
            r == gc_reason_of(v as int),
    {
        if v == 0 {
            GcReason::AllocSmall
        } else if v == 1 {
            GcReason::Induced
        } else if v == 2 {
            GcReason::LowMemory
        } else if v == 4 {
            GcReason::AllocLargeObjectHeap
        } else if v == 5 {
            GcReason::OutOfSpaceSmallObjectHeap
        } else if v == 6 {
            GcReason::OutOfSpaceLargeObjectHeap
        } else if v == 7 {
            GcReason::InducedNotForced
        } else if v == 8 {
            GcReason::Stress
        } else if v == 9 {
            GcReason::InducedLowMemory
        } else {
            GcReason::Empty
        }
    }

    /// `Some` only for a value in the known set, as the strict callers
    /// want it.
    pub fn from_u32_strict(v: u32) -> (r: Option<Self>)
        ensures
            known_gc_reason(v as int) ==> r == Some(gc_reason_of(v as int)),
            !known_gc_reason(v as int) ==> r is None,
    {
        if v <= 9 {
            Some(Self::from_u32(v))
        } else {
            None
        }
    }

    /// The human-readable name of the reason.
    pub fn description(&self) -> (r: String)
        ensures
            (match *self {
                GcReason::AllocSmall => r@ == "Small object heap allocation"@,
                GcReason::Induced => r@ == "Induced"@,
                GcReason::LowMemory => r@ == "Low memory"@,
                GcReason::Empty => r@ == "Empty"@,
                GcReason::AllocLargeObjectHeap => r@ == "Large object heap allocation"@,
                GcReason::OutOfSpaceSmallObjectHeap => r@
                    == "Out of space (for small object heap)"@,
                GcReason::OutOfSpaceLargeObjectHeap => r@
                    == "Out of space (for large object heap)"@,
                GcReason::InducedNotForced => r@ == "Induced but not forced as blocking"@,
                GcReason::Stress => r@ == "Stress"@,
                GcReason::InducedLowMemory => r@ == "Induced low memory"@,
            }),
    {
        match *self {
            GcReason::AllocSmall => "Small object heap allocation".to_owned(),
            GcReason::Induced => "Induced".to_owned(),
            GcReason::LowMemory => "Low memory".to_owned(),
            GcReason::Empty => "Empty".to_owned(),
            GcReason::AllocLargeObjectHeap => "Large object heap allocation".to_owned(),
            GcReason::OutOfSpaceSmallObjectHeap => "Out of space (for small object heap)".to_owned(),
            GcReason::OutOfSpaceLargeObjectHeap => "Out of space (for large object heap)".to_owned(),
            GcReason::InducedNotForced => "Induced but not forced as blocking".to_owned(),
            GcReason::Stress => "Stress".to_owned(),
            GcReason::InducedLowMemory => "Induced low memory".to_owned(),
        }
    }
}

/// No value outside the known set names a reason of its own: every one
/// falls back to the `Empty` sentinel, and decoding goes on.
pub proof fn lemma_gc_reason_fallback(v: int)
    ensures
        !known_gc_reason(v) || v == 3 ==> gc_reason_of(v) == GcReason::Empty,
{
}

/// The kind of heap a sampled allocation came from.
#[derive(Debug, PartialEq, Eq, Structural, Clone, Copy)]
pub enum GcAllocationKind {
    Small,
    Large,
    Pinned,
}

/// The kind a wire value names; unknown values fall back to `Small`, the
/// wire's zero value.
pub open spec fn gc_allocation_kind_of(v: int) -> GcAllocationKind {
    if v == 1 {
        GcAllocationKind::Large
    } else if v == 2 {
        GcAllocationKind::Pinned
    } else {
        GcAllocationKind::Small
    }
}

impl GcAllocationKind {
    pub fn from_u32(v: u32) -> (r: Self)
        ensures
            r == gc_allocation_kind_of(v as int),
    {
        if v == 1 {
            GcAllocationKind::Large
        } else if v == 2 {
            GcAllocationKind::Pinned
        } else {
            GcAllocationKind::Small
        }
    }

    pub fn description(&self) -> (r: String)
        ensures
            (match *self {
                GcAllocationKind::Small => r@ == "Small"@,
                GcAllocationKind::Large => r@ == "Large"@,
                GcAllocationKind::Pinned => r@ == "Pinned"@,
            }),
    {
        match *self {
            GcAllocationKind::Small => "Small".to_owned(),
            GcAllocationKind::Large => "Large".to_owned(),
            GcAllocationKind::Pinned => "Pinned".to_owned(),
        }
    }
}

/// Whether a collection was blocking or ran in the background.
#[derive(Debug, PartialEq, Eq, Structural, Clone, Copy)]
pub enum GcType {
    Blocking,
    Background,
    BlockingDuringBackground,
}

/// The type a wire value names; unknown values name none.
pub open spec fn gc_type_of(v: int) -> Option<GcType> {
    if v == 0 {
        Some(GcType::Blocking)
    } else if v == 1 {
        Some(GcType::Background)
    } else if v == 2 {
        Some(GcType::BlockingDuringBackground)
    } else {
        None
    }
}

impl GcType {
    pub fn from_u32(v: u32) -> (r: Option<Self>)
        ensures
            r == gc_type_of(v as int),
    {
        if v == 0 {
            Some(GcType::Blocking)
        } else if v == 1 {
            Some(GcType::Background)
        } else if v == 2 {
            Some(GcType::BlockingDuringBackground)
        } else {
            None
        }
    }

    pub fn description(&self) -> (r: String)
        ensures
            (match *self {
                GcType::Blocking => r@ == "Blocking GC"@,
                GcType::Background => r@ == "Background GC"@,
                GcType::BlockingDuringBackground => r@ == "Blocking GC during background GC"@,
            }),
    {
        match *self {
            GcType::Blocking => "Blocking GC".to_owned(),
            GcType::Background => "Background GC".to_owned(),
            GcType::BlockingDuringBackground => "Blocking GC during background GC".to_owned(),
        }
    }
}

/// Why the execution engine was suspended.
#[derive(Debug, PartialEq, Eq, Structural, Clone, Copy)]
pub enum GcSuspendEeReason {
    Other,
    GC,
    AppDomainShutdown,
    CodePitching,
    Shutdown,
    Debugger,
    GcPrep,
    DebuggerSweep,
}

/// The reason a wire value names; unknown values fall back to `Other`.
pub open spec fn gc_suspend_ee_reason_of(v: int) -> GcSuspendEeReason {
    if v == 1 {
        GcSuspendEeReason::GC
    } else if v == 2 {
        GcSuspendEeReason::AppDomainShutdown
    } else if v == 3 {
        GcSuspendEeReason::CodePitching
    } else if v == 4 {
        GcSuspendEeReason::Shutdown
    } else if v == 5 {
        GcSuspendEeReason::Debugger
    } else if v == 6 {
        GcSuspendEeReason::GcPrep
    } else if v == 7 {
        GcSuspendEeReason::DebuggerSweep
    } else {
        GcSuspendEeReason::Other
    }
}

impl GcSuspendEeReason {
    pub fn from_u32(v: u32) -> (r: Self)
        ensures
            r == gc_suspend_ee_reason_of(v as int),
    {
        if v == 1 {
            GcSuspendEeReason::GC
        } else if v == 2 {
            GcSuspendEeReason::AppDomainShutdown
        } else if v == 3 {
            GcSuspendEeReason::CodePitching
        } else if v == 4 {
            GcSuspendEeReason::Shutdown
        } else if v == 5 {
            GcSuspendEeReason::Debugger
        } else if v == 6 {
            GcSuspendEeReason::GcPrep
        } else if v == 7 {
            GcSuspendEeReason::DebuggerSweep
        } else {
            GcSuspendEeReason::Other
        }
    }

    pub fn description(&self) -> (r: String)
        ensures
            (match *self {
                GcSuspendEeReason::Other => r@ == "Other"@,
                GcSuspendEeReason::GC => r@ == "GC"@,
                GcSuspendEeReason::AppDomainShutdown => r@ == "AppDomain shutdown"@,
                GcSuspendEeReason::CodePitching => r@ == "Code pitching"@,
                GcSuspendEeReason::Shutdown => r@ == "Shutdown"@,
                GcSuspendEeReason::Debugger => r@ == "Debugger"@,
                GcSuspendEeReason::GcPrep => r@ == "GC prep"@,
                GcSuspendEeReason::DebuggerSweep => r@ == "Debugger sweep"@,
            }),
    {
        match *self {
            GcSuspendEeReason::Other => "Other".to_owned(),
            GcSuspendEeReason::GC => "GC".to_owned(),
            GcSuspendEeReason::AppDomainShutdown => "AppDomain shutdown".to_owned(),
            GcSuspendEeReason::CodePitching => "Code pitching".to_owned(),
            GcSuspendEeReason::Shutdown => "Shutdown".to_owned(),
            GcSuspendEeReason::Debugger => "Debugger".to_owned(),
            GcSuspendEeReason::GcPrep => "GC prep".to_owned(),
            GcSuspendEeReason::DebuggerSweep => "Debugger sweep".to_owned(),
        }
    }
}

} // verus!
