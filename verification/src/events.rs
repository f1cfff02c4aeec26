//! The typed managed-runtime events and their payload decoders.
//!
//! Each decoder reads the payload positionally against the event's wire
//! layout, gating optional fields on the schema version, and never fails
//! the stream: a payload that does not parse yields `None` and the event is
//! dropped; an unknown enumeration value falls back to its sentinel.
use vstd::prelude::*;

use crate::bytes::{bytes_at, le_bytes, read_bytes, read_u16, read_u32, read_u64, u32_at};
use crate::enums::{
    gc_allocation_kind_of,
    gc_reason_of,
    gc_type_of,
    GcAllocationKind,
    GcReason,
    GcType,
};
use crate::text::{parse_null_wide_string_to_string, scalars_of, wstring_at};

verus! {

/// A module load or unload.
#[derive(Debug)]
pub struct ModuleLoadUnloadEvent {
    pub module_id: u64,
    pub assembly_id: u64,
    pub app_domain_id: Option<u64>,
    pub module_flags: u32,
    pub reserved1: u32,
    pub module_il_path: String,
    pub module_native_path: String,
    pub clr_instance_id: Option<u16>,
    pub managed_pdb_signature: Vec<u8>,
    pub managed_pdb_age: u32,
    pub managed_pdb_build_path: String,
    pub native_pdb_signature: Vec<u8>,
    pub native_pdb_age: u32,
    pub native_pdb_build_path: String,
}

/// The ghost image of a module event payload.
pub struct ModuleLoadSpec {
    pub module_id: int,
    pub assembly_id: int,
    pub app_domain_id: Option<int>,
    pub module_flags: int,
    pub reserved1: int,
    pub il_path: Seq<u32>,
    pub native_path: Seq<u32>,
    pub clr_instance_id: Option<int>,
    pub pdb: PdbPairSpec,
}


/// The ghost image of the version-two PDB records: managed signature, age
/// and build path, then the same for the native image.
pub struct PdbPairSpec {
    pub managed_pdb_signature: Seq<u8>,
    pub managed_pdb_age: int,
    pub managed_pdb_build_path: Seq<u32>,
    pub native_pdb_signature: Seq<u8>,
    pub native_pdb_age: int,
    pub native_pdb_build_path: Seq<u32>,
}

/// The two version-two PDB records (signature, age, path, twice) at `i`.
pub open spec fn pdb_pair_at(s: Seq<u8>, i: int) -> Option<PdbPairSpec> {
    match bytes_at(s, i, 16) {
        None => None,
        Some((sig1, q1)) => match u32_at(s, q1) {
            None => None,
            Some(age1) => match wstring_at(s, age1.1) {
                None => None,
                Some((path1, q3)) => match bytes_at(s, q3, 16) {
                    None => None,
                    Some((sig2, q4)) => match u32_at(s, q4) {
                        None => None,
                        Some(age2) => match wstring_at(s, age2.1) {
                            None => None,
                            Some((path2, _)) => Some(
                                PdbPairSpec {
                                    managed_pdb_signature: sig1,
                                    managed_pdb_age: age1.0,
                                    managed_pdb_build_path: path1,
                                    native_pdb_signature: sig2,
                                    native_pdb_age: age2.0,
                                    native_pdb_build_path: path2,
                                },
                            ),
                        },
                    },
                },
            },
        },
    }
}

/// The PDB fields absent streams leave at their zeroed defaults.
pub open spec fn pdb_pair_default() -> PdbPairSpec {
    PdbPairSpec {
        managed_pdb_signature: Seq::new(16, |j: int| 0u8),
        managed_pdb_age: 0,
        managed_pdb_build_path: Seq::empty(),
        native_pdb_signature: Seq::new(16, |j: int| 0u8),
        native_pdb_age: 0,
        native_pdb_build_path: Seq::empty(),
    }
}

/// A module payload: ids, an app-domain id only for the domain variant, two
/// paths, and a CLR instance id from version one on. The version-two PDB
/// fields are read but not stated here.
pub open spec fn module_load_at(s: Seq<u8>, version: int, app_domain: bool) -> Option<
    ModuleLoadSpec,
> {
    if 16 > s.len() {
        None
    } else {
        let module_id = le_bytes(s, 0, 8);
        let assembly_id = le_bytes(s, 8, 8);
        let step_ad = if app_domain {
            if 24 > s.len() {
                None
            } else {
                Some((Some(le_bytes(s, 16, 8)), 24int))
            }
        } else {
            Some((None::<int>, 16int))
        };
        match step_ad {
            None => None,
            Some((app_domain_id, p0)) => {
                if p0 + 8 > s.len() {
                    None
                } else {
                    let module_flags = le_bytes(s, p0, 4);
                    let reserved1 = le_bytes(s, p0 + 4, 4);
                    match wstring_at(s, p0 + 8) {
                        None => None,
                        Some((il_path, p1)) => match wstring_at(s, p1) {
                            None => None,
                            Some((native_path, p2)) => {
                                let step_clr = if version >= 1 {
                                    if p2 + 2 > s.len() {
                                        None
                                    } else {
                                        Some((Some(le_bytes(s, p2, 2)), p2 + 2))
                                    }
                                } else {
                                    Some((None::<int>, p2))
                                };
                                match step_clr {
                                    None => None,
                                    Some((clr_instance_id, p3)) => {
                                        let step_pdb = if version >= 2 {
                                            pdb_pair_at(s, p3)
                                        } else {
                                            Some(pdb_pair_default())
                                        };
                                        match step_pdb {
                                            None => None,
                                            Some(pdb) => Some(
                                                ModuleLoadSpec {
                                                    module_id,
                                                    assembly_id,
                                                    app_domain_id,
                                                    module_flags,
                                                    reserved1,
                                                    il_path,
                                                    native_path,
                                                    clr_instance_id,
                                                    pdb,
                                                },
                                            ),
                                        }
                                    },
                                }
                            },
                        },
                    }
                }
            },
        }
    }
}

/// The stated fields of a decoded module event agree with its payload.
pub open spec fn module_event_ok(e: ModuleLoadUnloadEvent, me: ModuleLoadSpec) -> bool {
    &&& e.module_id == me.module_id
    &&& e.assembly_id == me.assembly_id
    &&& (match e.app_domain_id {
        Some(a) => me.app_domain_id == Some(a as int),
        None => me.app_domain_id is None,
    })
    &&& e.module_flags == me.module_flags
    &&& scalars_of(e.module_il_path@) == me.il_path
    &&& scalars_of(e.module_native_path@) == me.native_path
    &&& (match e.clr_instance_id {
        Some(c) => me.clr_instance_id == Some(c as int),
        None => me.clr_instance_id is None,
    })
    &&& e.managed_pdb_signature@ == me.pdb.managed_pdb_signature
    &&& e.managed_pdb_age == me.pdb.managed_pdb_age
    &&& scalars_of(e.managed_pdb_build_path@) == me.pdb.managed_pdb_build_path
    &&& e.native_pdb_signature@ == me.pdb.native_pdb_signature
    &&& e.native_pdb_age == me.pdb.native_pdb_age
    &&& scalars_of(e.native_pdb_build_path@) == me.pdb.native_pdb_build_path
}

/// Reads a module event payload; below version two the PDB fields keep
/// their zeroed defaults.
#[verifier::spinoff_prover]
pub fn parse_module_load(d: &Vec<u8>, version: u32, app_domain: bool) -> (r: Option<
    ModuleLoadUnloadEvent,
>)
    ensures
        module_load_at(d@, version as int, app_domain) matches Some(me) ==> (r matches Some(e)
            && module_event_ok(e, me)),
        module_load_at(d@, version as int, app_domain) is None ==> r is None,
{
    let (module_id, _) = match read_u64(d, 0) {
        Ok(v) => v,
        Err(_) => {
            return None;
        },
    };
    let (assembly_id, p) = match read_u64(d, 8) {
        Ok(v) => v,
        Err(_) => {
            return None;
        },
    };
    let (app_domain_id, p) = if app_domain {
        match read_u64(d, p) {
            Ok((a, p2)) => (Some(a), p2),
            Err(_) => {
                return None;
            },
        }
    } else {
        (None, p)
    };
    let (module_flags, _) = match read_u32(d, p) {
        Ok(v) => v,
        Err(_) => {
            return None;
        },
    };
    let (reserved1, p) = match read_u32(d, p + 4) {
        Ok(v) => v,
        Err(_) => {
            return None;
        },
    };
    let (module_il_path, p) = match parse_null_wide_string_to_string(d, p) {
        Ok(v) => v,
        Err(_) => {
            return None;
        },
    };
    let (module_native_path, p) = match parse_null_wide_string_to_string(d, p) {
        Ok(v) => v,
        Err(_) => {
            return None;
        },
    };
    let (clr_instance_id, p) = if version >= 1 {
        match read_u16(d, p) {
            Ok((c, p2)) => (Some(c), p2),
            Err(_) => {
                return None;
            },
        }
    } else {
        (None, p)
    };
    let (managed_pdb_signature, managed_pdb_age, managed_pdb_build_path, p) = if version >= 2 {
        let (sig, p2) = match read_bytes(d, p, 16) {
            Ok(v) => v,
            Err(_) => {
                return None;
            },
        };
        let (age, p3) = match read_u32(d, p2) {
            Ok(v) => v,
            Err(_) => {
                return None;
            },
        };
        let (path, p4) = match parse_null_wide_string_to_string(d, p3) {
            Ok(v) => v,
            Err(_) => {
                return None;
            },
        };
        (sig, age, path, p4)
    } else {
        let zeros = vec![0u8; 16];
        proof {
            assert(zeros@ =~= Seq::new(16, |j: int| 0u8));
        }
        (zeros, 0u32, String::new(), p)
    };
    let (native_pdb_signature, native_pdb_age, native_pdb_build_path, _) = if version >= 2 {
        let (sig, p2) = match read_bytes(d, p, 16) {
            Ok(v) => v,
            Err(_) => {
                return None;
            },
        };
        let (age, p3) = match read_u32(d, p2) {
            Ok(v) => v,
            Err(_) => {
                return None;
            },
        };
        let (path, p4) = match parse_null_wide_string_to_string(d, p3) {
            Ok(v) => v,
            Err(_) => {
                return None;
            },
        };
        (sig, age, path, p4)
    } else {
        let zeros = vec![0u8; 16];
        proof {
            assert(zeros@ =~= Seq::new(16, |j: int| 0u8));
        }
        (zeros, 0u32, String::new(), p)
    };
    let result = ModuleLoadUnloadEvent {
        module_id,
        assembly_id,
        app_domain_id,
        module_flags,
        reserved1,
        module_il_path,
        module_native_path,
        clr_instance_id,
        managed_pdb_signature,
        managed_pdb_age,
        managed_pdb_build_path,
        native_pdb_signature,
        native_pdb_age,
        native_pdb_build_path,
    };
    proof {
        if let Some(me) = module_load_at(d@, version as int, app_domain) {
            assert(result.module_id == me.module_id);
            assert(result.assembly_id == me.assembly_id);
            assert(result.module_flags == me.module_flags);
            assert(scalars_of(result.module_il_path@) == me.il_path);
            assert(scalars_of(result.module_native_path@) == me.native_path);
            assert(result.managed_pdb_signature@ == me.pdb.managed_pdb_signature);
            assert(result.managed_pdb_age == me.pdb.managed_pdb_age);
            assert(scalars_of(result.managed_pdb_build_path@) == me.pdb.managed_pdb_build_path);
            assert(result.native_pdb_signature@ == me.pdb.native_pdb_signature);
            assert(result.native_pdb_age == me.pdb.native_pdb_age);
            assert(scalars_of(result.native_pdb_build_path@) == me.pdb.native_pdb_build_path);
            assert(module_event_ok(result, me));
        }
    }
    Some(result)
}

/// A JIT method load or unload; names are present only for the verbose
/// events.
#[derive(Debug)]
pub struct MethodLoadUnloadEvent {
    pub method_id: u64,
    pub module_id: u64,
    pub method_start_address: u64,
    pub method_size: u32,
    pub method_token: u32,
    pub method_flags: u32,
    pub method_namespace: String,
    pub method_name: String,
    pub method_signature: String,
    pub clr_instance_id: Option<u16>,
    pub re_jit_id: Option<u64>,
}

/// The ghost image of a method event payload.
pub struct MethodLoadSpec {
    pub method_id: int,
    pub module_id: int,
    pub method_start_address: int,
    pub method_size: int,
    pub method_token: int,
    pub method_flags: int,
    pub method_namespace: Seq<u32>,
    pub method_name: Seq<u32>,
    pub method_signature: Seq<u32>,
    pub clr_instance_id: Option<int>,
    pub re_jit_id: Option<int>,
}

/// A method payload: ids, address and size, flags, the three names only in
/// verbose form, an instance id from version one, a rejit id from version
/// two.
pub open spec fn method_load_at(s: Seq<u8>, version: int, verbose: bool) -> Option<MethodLoadSpec> {
    if 36 > s.len() {
        None
    } else {
        let method_id = le_bytes(s, 0, 8);
        let module_id = le_bytes(s, 8, 8);
        let method_start_address = le_bytes(s, 16, 8);
        let method_size = le_bytes(s, 24, 4);
        let method_token = le_bytes(s, 28, 4);
        let method_flags = le_bytes(s, 32, 4);
        let step_names = if verbose {
            match wstring_at(s, 36) {
                None => None,
                Some((ns, p1)) => match wstring_at(s, p1) {
                    None => None,
                    Some((nm, p2)) => match wstring_at(s, p2) {
                        None => None,
                        Some((sig, p3)) => Some((ns, nm, sig, p3)),
                    },
                },
            }
        } else {
            Some((Seq::<u32>::empty(), Seq::<u32>::empty(), Seq::<u32>::empty(), 36int))
        };
        match step_names {
            None => None,
            Some((method_namespace, method_name, method_signature, p0)) => {
                let step_clr = if version >= 1 {
                    if p0 + 2 > s.len() {
                        None
                    } else {
                        Some((Some(le_bytes(s, p0, 2)), p0 + 2))
                    }
                } else {
                    Some((None::<int>, p0))
                };
                match step_clr {
                    None => None,
                    Some((clr_instance_id, p1)) => {
                        let step_rejit = if version >= 2 {
                            if p1 + 8 > s.len() {
                                None
                            } else {
                                Some(Some(le_bytes(s, p1, 8)))
                            }
                        } else {
                            Some(None::<int>)
                        };
                        match step_rejit {
                            None => None,
                            Some(re_jit_id) => Some(
                                MethodLoadSpec {
                                    method_id,
                                    module_id,
                                    method_start_address,
                                    method_size,
                                    method_token,
                                    method_flags,
                                    method_namespace,
                                    method_name,
                                    method_signature,
                                    clr_instance_id,
                                    re_jit_id,
                                },
                            ),
                        }
                    },
                }
            },
        }
    }
}

/// The fields of a decoded method event agree with its payload.
pub open spec fn method_event_ok(e: MethodLoadUnloadEvent, me: MethodLoadSpec) -> bool {
    &&& e.method_id == me.method_id
    &&& e.module_id == me.module_id
    &&& e.method_start_address == me.method_start_address
    &&& e.method_size == me.method_size
    &&& e.method_token == me.method_token
    &&& e.method_flags == me.method_flags
    &&& scalars_of(e.method_namespace@) == me.method_namespace
    &&& scalars_of(e.method_name@) == me.method_name
    &&& scalars_of(e.method_signature@) == me.method_signature
    &&& (match e.clr_instance_id {
        Some(c) => me.clr_instance_id == Some(c as int),
        None => me.clr_instance_id is None,
    })
    &&& (match e.re_jit_id {
        Some(c) => me.re_jit_id == Some(c as int),
        None => me.re_jit_id is None,
    })
}

/// Reads a method event payload.
#[verifier::rlimit(60)]
#[verifier::spinoff_prover]
pub fn parse_method_load(d: &Vec<u8>, version: u32, verbose: bool) -> (r: Option<
    MethodLoadUnloadEvent,
>)
    ensures
        method_load_at(d@, version as int, verbose) matches Some(me) ==> (r matches Some(e)
            && method_event_ok(e, me)),
        method_load_at(d@, version as int, verbose) is None ==> r is None,
{
    let (method_id, _) = match read_u64(d, 0) {
        Ok(v) => v,
        Err(_) => {
            return None;
        },
    };
    let (module_id, _) = match read_u64(d, 8) {
        Ok(v) => v,
        Err(_) => {
            return None;
        },
    };
    let (method_start_address, _) = match read_u64(d, 16) {
        Ok(v) => v,
        Err(_) => {
            return None;
        },
    };
    let (method_size, _) = match read_u32(d, 24) {
        Ok(v) => v,
        Err(_) => {
            return None;
        },
    };
    let (method_token, _) = match read_u32(d, 28) {
        Ok(v) => v,
        Err(_) => {
            return None;
        },
    };
    let (method_flags, p) = match read_u32(d, 32) {
        Ok(v) => v,
        Err(_) => {
            return None;
        },
    };
    let (method_namespace, method_name, method_signature, p) = if verbose {
        let (ns, p1) = match parse_null_wide_string_to_string(d, p) {
            Ok(v) => v,
            Err(_) => {
                return None;
            },
        };
        let (nm, p2) = match parse_null_wide_string_to_string(d, p1) {
            Ok(v) => v,
            Err(_) => {
                return None;
            },
        };
        let (sig, p3) = match parse_null_wide_string_to_string(d, p2) {
            Ok(v) => v,
            Err(_) => {
                return None;
            },
        };
        (ns, nm, sig, p3)
    } else {
        (String::new(), String::new(), String::new(), p)
    };
    let (clr_instance_id, p) = if version >= 1 {
        match read_u16(d, p) {
            Ok((c, p2)) => (Some(c), p2),
            Err(_) => {
                return None;
            },
        }
    } else {
        (None, p)
    };
    let (re_jit_id, _) = if version >= 2 {
        match read_u64(d, p) {
            Ok((c, p2)) => (Some(c), p2),
            Err(_) => {
                return None;
            },
        }
    } else {
        (None, p)
    };
    let result = MethodLoadUnloadEvent {
        method_id,
        module_id,
        method_start_address,
        method_size,
        method_token,
        method_flags,
        method_namespace,
        method_name,
        method_signature,
        clr_instance_id,
        re_jit_id,
    };
    proof {
        if let Some(me) = method_load_at(d@, version as int, verbose) {
            assert(result.method_id == me.method_id);
            assert(result.module_id == me.module_id);
            assert(result.method_start_address == me.method_start_address);
            assert(result.method_size == me.method_size);
            assert(result.method_token == me.method_token);
            assert(result.method_flags == me.method_flags);
            assert(scalars_of(result.method_namespace@) == me.method_namespace);
            assert(scalars_of(result.method_name@) == me.method_name);
            assert(scalars_of(result.method_signature@) == me.method_signature);
            assert(match result.clr_instance_id {
                Some(c) => me.clr_instance_id == Some(c as int),
                None => me.clr_instance_id is None,
            });
            assert(match result.re_jit_id {
                Some(c) => me.re_jit_id == Some(c as int),
                None => me.re_jit_id is None,
            });
            assert(method_event_ok(result, me));
        }
    }
    Some(result)
}

/// A garbage collection was triggered.
#[derive(Debug, Clone, Copy, PartialEq, Eq, Structural)]
pub struct GcTriggeredEvent {
    pub reason: GcReason,
    pub clr_instance_id: u16,
}

/// Reads a GC-triggered payload: a reason and an instance id; an unknown
/// reason becomes the `Empty` sentinel.
pub fn parse_gc_triggered(d: &Vec<u8>) -> (r: Option<GcTriggeredEvent>)
    ensures
        d@.len() >= 6 ==> (r matches Some(e) && e.reason == gc_reason_of(le_bytes(d@, 0, 4))
            && e.clr_instance_id == le_bytes(d@, 4, 2)),
        d@.len() < 6 ==> r is None,
{
    let (reason_raw, p) = match read_u32(d, 0) {
        Ok(v) => v,
        Err(_) => {
            return None;
        },
    };
    let (clr_instance_id, _) = match read_u16(d, p) {
        Ok(v) => v,
        Err(_) => {
            return None;
        },
    };
    Some(GcTriggeredEvent { reason: GcReason::from_u32(reason_raw), clr_instance_id })
}

/// A collection began.
#[derive(Debug, Clone, Copy, PartialEq, Eq, Structural)]
pub struct GcStartEvent {
    pub count: u32,
    pub depth: Option<u32>,
    pub reason: GcReason,
    pub gc_type: Option<GcType>,
    pub clr_instance_id: Option<u16>,
    pub client_sequence_number: Option<u64>,
}

/// Reads a GC-start payload: count, then from version one a depth before
/// the reason, a type and an instance id after it, and from version two a
/// client sequence number.
#[verifier::spinoff_prover]
pub fn parse_gc_start(d: &Vec<u8>, version: u32) -> (r: Option<GcStartEvent>)
    ensures
        ({
            let need: int = if version >= 2 {
                26
            } else if version >= 1 {
                18
            } else {
                8
            };
            &&& d@.len() >= need ==> (r matches Some(e) && e.count == le_bytes(d@, 0, 4) && (
            if version >= 1 {
                e.depth == Some((le_bytes(d@, 4, 4)) as u32) && e.reason == gc_reason_of(
                    le_bytes(d@, 8, 4),
                ) && e.gc_type == gc_type_of(le_bytes(d@, 12, 4)) && e.clr_instance_id == Some(
                    (le_bytes(d@, 16, 2)) as u16,
                )
            } else {
                e.depth is None && e.reason == gc_reason_of(le_bytes(d@, 4, 4)) && e.gc_type
                    is None && e.clr_instance_id is None
            }) && (if version >= 2 {
                e.client_sequence_number == Some((le_bytes(d@, 18, 8)) as u64)
            } else {
                e.client_sequence_number is None
            }))
            &&& d@.len() < need ==> r is None
        }),
{
    let (count, p) = match read_u32(d, 0) {
        Ok(v) => v,
        Err(_) => {
            return None;
        },
    };
    let (depth, p) = if version >= 1 {
        match read_u32(d, p) {
            Ok((v, p2)) => (Some(v), p2),
            Err(_) => {
                return None;
            },
        }
    } else {
        (None, p)
    };
    let (reason_raw, p) = match read_u32(d, p) {
        Ok(v) => v,
        Err(_) => {
            return None;
        },
    };
    let (gc_type, p) = if version >= 1 {
        match read_u32(d, p) {
            Ok((v, p2)) => (GcType::from_u32(v), p2),
            Err(_) => {
                return None;
            },
        }
    } else {
        (None, p)
    };
    let (clr_instance_id, p) = if version >= 1 {
        match read_u16(d, p) {
            Ok((v, p2)) => (Some(v), p2),
            Err(_) => {
                return None;
            },
        }
    } else {
        (None, p)
    };
    let (client_sequence_number, _) = if version >= 2 {
        match read_u64(d, p) {
            Ok((v, p2)) => (Some(v), p2),
            Err(_) => {
                return None;
            },
        }
    } else {
        (None, p)
    };
    Some(GcStartEvent {
        count,
        depth,
        reason: GcReason::from_u32(reason_raw),
        gc_type,
        clr_instance_id,
        client_sequence_number,
    })
}

/// A collection finished.
#[derive(Debug, Clone, Copy, PartialEq, Eq, Structural)]
pub struct GcEndEvent {
    pub count: u32,
    pub depth: u32,
    pub reason: Option<GcReason>,
}

/// Reads a GC-end payload: count and depth, and from version one a reason.
pub fn parse_gc_end(d: &Vec<u8>, version: u32) -> (r: Option<GcEndEvent>)
    ensures
        ({
            let need: int = if version >= 1 {
                12
            } else {
                8
            };
            &&& d@.len() >= need ==> (r matches Some(e) && e.count == le_bytes(d@, 0, 4) && e.depth
                == le_bytes(d@, 4, 4) && (if version >= 1 {
                e.reason == Some(gc_reason_of(le_bytes(d@, 8, 4)))
            } else {
                e.reason is None
            }))
            &&& d@.len() < need ==> r is None
        }),
{
    let (count, p) = match read_u32(d, 0) {
        Ok(v) => v,
        Err(_) => {
            return None;
        },
    };
    let (depth, p) = match read_u32(d, p) {
        Ok(v) => v,
        Err(_) => {
            return None;
        },
    };
    let (reason, _) = if version >= 1 {
        match read_u32(d, p) {
            Ok((v, p2)) => (Some(GcReason::from_u32(v)), p2),
            Err(_) => {
                return None;
            },
        }
    } else {
        (None, p)
    };
    Some(GcEndEvent { count, depth, reason })
}

/// An allocation-tick sample.
#[derive(Debug)]
pub struct GcAllocationTickEvent {
    pub allocation_amount: u32,
    pub allocation_kind: GcAllocationKind,
    pub clr_instance_id: u16,
    pub allocation_amount64: u64,
    pub type_id: u64,
    pub allocated_type: String,
    pub heap_index: u32,
    pub address: Option<u64>,
    pub object_size: Option<u64>,
}

/// The ghost image of an allocation-tick payload.
pub struct GcAllocationTickSpec {
    pub allocation_amount: int,
    pub allocation_kind: GcAllocationKind,
    pub clr_instance_id: int,
    pub allocation_amount64: int,
    pub type_id: int,
    pub allocated_type: Seq<u32>,
    pub heap_index: int,
    pub address: Option<int>,
    pub object_size: Option<int>,
}

/// An allocation-tick payload: amount, kind and instance id, with the wide
/// fields from version two, the address from version three and the object
/// size from version four.
pub open spec fn gc_allocation_tick_at(s: Seq<u8>, version: int) -> Option<GcAllocationTickSpec> {
    if 10 > s.len() {
        None
    } else {
        let allocation_amount = le_bytes(s, 0, 4);
        let kind_raw = le_bytes(s, 4, 4);
        let clr_instance_id = le_bytes(s, 8, 2);
        let step2 = if version >= 2 {
            if 26 > s.len() {
                None
            } else {
                match wstring_at(s, 26) {
                    None => None,
                    Some((nm, p1)) => {
                        if p1 + 4 > s.len() {
                            None
                        } else {
                            Some(
                                (
                                    le_bytes(s, 10, 8),
                                    le_bytes(s, 18, 8),
                                    nm,
                                    le_bytes(s, p1, 4),
                                    p1 + 4,
                                ),
                            )
                        }
                    },
                }
            }
        } else {
            Some((0int, 0int, Seq::<u32>::empty(), 0int, 10int))
        };
        match step2 {
            None => None,
            Some((allocation_amount64, type_id, nm, heap_index, p2)) => {
                let step3 = if version >= 3 {
                    if p2 + 8 > s.len() {
                        None
                    } else {
                        Some((Some(le_bytes(s, p2, 8)), p2 + 8))
                    }
                } else {
                    Some((None::<int>, p2))
                };
                match step3 {
                    None => None,
                    Some((address, p3)) => {
                        let step4 = if version >= 4 {
                            if p3 + 8 > s.len() {
                                None
                            } else {
                                Some(Some(le_bytes(s, p3, 8)))
                            }
                        } else {
                            Some(None::<int>)
                        };
                        match step4 {
                            None => None,
                            Some(object_size) => Some(
                                GcAllocationTickSpec {
                                    allocation_amount,
                                    allocation_kind: gc_allocation_kind_of(kind_raw),
                                    clr_instance_id,
                                    allocation_amount64,
                                    type_id,
                                    allocated_type: nm,
                                    heap_index,
                                    address,
                                    object_size,
                                },
                            ),
                        }
                    },
                }
            },
        }
    }
}

/// The fields of a decoded allocation tick agree with its payload.
pub open spec fn tick_event_ok(e: GcAllocationTickEvent, me: GcAllocationTickSpec) -> bool {
    &&& e.allocation_amount == me.allocation_amount
    &&& e.allocation_kind == me.allocation_kind
    &&& e.clr_instance_id == me.clr_instance_id
    &&& e.allocation_amount64 == me.allocation_amount64
    &&& e.type_id == me.type_id
    &&& scalars_of(e.allocated_type@) == me.allocated_type
    &&& e.heap_index == me.heap_index
    &&& (match e.address {
        Some(a) => me.address == Some(a as int),
        None => me.address is None,
    })
    &&& (match e.object_size {
        Some(a) => me.object_size == Some(a as int),
        None => me.object_size is None,
    })
}

/// Reads an allocation-tick payload.
#[verifier::rlimit(60)]
#[verifier::spinoff_prover]
pub fn parse_gc_allocation_tick(d: &Vec<u8>, version: u32) -> (r: Option<GcAllocationTickEvent>)
    ensures
        gc_allocation_tick_at(d@, version as int) matches Some(me) ==> (r matches Some(e)
            && tick_event_ok(e, me)),
        gc_allocation_tick_at(d@, version as int) is None ==> r is None,
{
    let (allocation_amount, _) = match read_u32(d, 0) {
        Ok(v) => v,
        Err(_) => {
            return None;
        },
    };
    let (kind_raw, _) = match read_u32(d, 4) {
        Ok(v) => v,
        Err(_) => {
            return None;
        },
    };
    let (clr_instance_id, p) = match read_u16(d, 8) {
        Ok(v) => v,
        Err(_) => {
            return None;
        },
    };
    let (allocation_amount64, type_id, allocated_type_s, heap_index, p) = if version >= 2 {
        let (a64, _) = match read_u64(d, 10) {
            Ok(v) => v,
            Err(_) => {
                return None;
            },
        };
        let (tid, p2) = match read_u64(d, 18) {
            Ok(v) => v,
            Err(_) => {
                return None;
            },
        };
        let (nm, p3) = match parse_null_wide_string_to_string(d, p2) {
            Ok(v) => v,
            Err(_) => {
                return None;
            },
        };
        let (hi, p4) = match read_u32(d, p3) {
            Ok(v) => v,
            Err(_) => {
                return None;
            },
        };
        (a64, tid, nm, hi, p4)
    } else {
        (0u64, 0u64, String::new(), 0u32, p)
    };
    let (address, p) = if version >= 3 {
        match read_u64(d, p) {
            Ok((v, p2)) => (Some(v), p2),
            Err(_) => {
                return None;
            },
        }
    } else {
        (None, p)
    };
    let (object_size, _) = if version >= 4 {
        match read_u64(d, p) {
            Ok((v, p2)) => (Some(v), p2),
            Err(_) => {
                return None;
            },
        }
    } else {
        (None, p)
    };
    let result = GcAllocationTickEvent {
        allocation_amount,
        allocation_kind: GcAllocationKind::from_u32(kind_raw),
        clr_instance_id,
        allocation_amount64,
        type_id,
        allocated_type: allocated_type_s,
        heap_index,
        address,
        object_size,
    };
    proof {
        if let Some(me) = gc_allocation_tick_at(d@, version as int) {
            assert(result.allocation_amount == me.allocation_amount);
            assert(result.allocation_kind == me.allocation_kind);
            assert(result.clr_instance_id == me.clr_instance_id);
            assert(result.allocation_amount64 == me.allocation_amount64);
            assert(result.type_id == me.type_id);
            assert(scalars_of(result.allocated_type@) == me.allocated_type);
            assert(result.heap_index == me.heap_index);
            assert(match result.address {
                Some(a) => me.address == Some(a as int),
                None => me.address is None,
            });
            assert(match result.object_size {
                Some(a) => me.object_size == Some(a as int),
                None => me.object_size is None,
            });
            assert(tick_event_ok(result, me));
        }
    }
    Some(result)
}

/// A sampled object allocation.
#[derive(Debug, Clone, Copy, PartialEq, Eq, Structural)]
pub struct GcSampledObjectAllocationEvent {
    pub address: u64,
    pub type_id: u64,
    pub object_count_for_type_sample: u32,
    pub total_size_for_type_sample: u64,
    pub clr_instance_id: u16,
}

/// Reads a sampled-allocation payload: a fixed thirty-byte layout.
pub fn parse_gc_sampled_object_allocation(d: &Vec<u8>) -> (r: Option<
    GcSampledObjectAllocationEvent,
>)
    ensures
        d@.len() >= 30 ==> (r matches Some(e) && e.address == le_bytes(d@, 0, 8) && e.type_id
            == le_bytes(d@, 8, 8) && e.object_count_for_type_sample == le_bytes(d@, 16, 4)
            && e.total_size_for_type_sample == le_bytes(d@, 20, 8) && e.clr_instance_id == le_bytes(
            d@,
            28,
            2,
        )),
        d@.len() < 30 ==> r is None,
{
    let (address, _) = match read_u64(d, 0) {
        Ok(v) => v,
        Err(_) => {
            return None;
        },
    };
    let (type_id, _) = match read_u64(d, 8) {
        Ok(v) => v,
        Err(_) => {
            return None;
        },
    };
    let (object_count_for_type_sample, _) = match read_u32(d, 16) {
        Ok(v) => v,
        Err(_) => {
            return None;
        },
    };
    let (total_size_for_type_sample, _) = match read_u64(d, 20) {
        Ok(v) => v,
        Err(_) => {
            return None;
        },
    };
    let (clr_instance_id, _) = match read_u16(d, 28) {
        Ok(v) => v,
        Err(_) => {
            return None;
        },
    };
    Some(GcSampledObjectAllocationEvent {
        address,
        type_id,
        object_count_for_type_sample,
        total_size_for_type_sample,
        clr_instance_id,
    })
}

/// A ready-to-run method's published entry point.
#[derive(Debug)]
pub struct ReadyToRunGetEntryPointEvent {
    pub method_id: u64,
    pub method_namespace: String,
    pub method_name: String,
    pub method_signature: String,
    pub entry_point: u64,
    pub clr_instance_id: u16,
}

/// The ghost image of a ready-to-run entry-point payload.
pub struct ReadyToRunSpec {
    pub method_id: int,
    pub method_namespace: Seq<u32>,
    pub method_name: Seq<u32>,
    pub method_signature: Seq<u32>,
    pub entry_point: int,
    pub clr_instance_id: int,
}

/// A ready-to-run payload: a method id, three names, the entry point and an
/// instance id.
pub open spec fn ready_to_run_at(s: Seq<u8>) -> Option<ReadyToRunSpec> {
    if 8 > s.len() {
        None
    } else {
        match wstring_at(s, 8) {
            None => None,
            Some((ns, p1)) => match wstring_at(s, p1) {
                None => None,
                Some((nm, p2)) => match wstring_at(s, p2) {
                    None => None,
                    Some((sig, p3)) => {
                        if p3 + 10 > s.len() {
                            None
                        } else {
                            Some(
                                ReadyToRunSpec {
                                    method_id: le_bytes(s, 0, 8),
                                    method_namespace: ns,
                                    method_name: nm,
                                    method_signature: sig,
                                    entry_point: le_bytes(s, p3, 8),
                                    clr_instance_id: le_bytes(s, p3 + 8, 2),
                                },
                            )
                        }
                    },
                },
            },
        }
    }
}

/// The fields of a decoded ready-to-run event agree with its payload.
pub open spec fn r2r_event_ok(e: ReadyToRunGetEntryPointEvent, me: ReadyToRunSpec) -> bool {
    &&& e.method_id == me.method_id
    &&& scalars_of(e.method_namespace@) == me.method_namespace
    &&& scalars_of(e.method_name@) == me.method_name
    &&& scalars_of(e.method_signature@) == me.method_signature
    &&& e.entry_point == me.entry_point
    &&& e.clr_instance_id == me.clr_instance_id
}

/// Reads a ready-to-run entry-point payload.
#[verifier::spinoff_prover]
pub fn parse_ready_to_run(d: &Vec<u8>) -> (r: Option<ReadyToRunGetEntryPointEvent>)
    ensures
        ready_to_run_at(d@) matches Some(me) ==> (r matches Some(e) && r2r_event_ok(e, me)),
        ready_to_run_at(d@) is None ==> r is None,
{
    let (method_id, p) = match read_u64(d, 0) {
        Ok(v) => v,
        Err(_) => {
            return None;
        },
    };
    let (method_namespace, p) = match parse_null_wide_string_to_string(d, p) {
        Ok(v) => v,
        Err(_) => {
            return None;
        },
    };
    let (method_name, p) = match parse_null_wide_string_to_string(d, p) {
        Ok(v) => v,
        Err(_) => {
            return None;
        },
    };
    let (method_signature, p) = match parse_null_wide_string_to_string(d, p) {
        Ok(v) => v,
        Err(_) => {
            return None;
        },
    };
    let (entry_point, p) = match read_u64(d, p) {
        Ok(v) => v,
        Err(_) => {
            return None;
        },
    };
    let (clr_instance_id, _) = match read_u16(d, p) {
        Ok(v) => v,
        Err(_) => {
            return None;
        },
    };
    Some(ReadyToRunGetEntryPointEvent {
        method_id,
        method_namespace,
        method_name,
        method_signature,
        entry_point,
        clr_instance_id,
    })
}

/// The typed events the payload decoder can produce.
#[derive(Debug)]
pub enum CoreClrEvent {
    ModuleLoad(ModuleLoadUnloadEvent),
    ModuleUnload(ModuleLoadUnloadEvent),
    MethodLoad(MethodLoadUnloadEvent),
    MethodUnload(MethodLoadUnloadEvent),
    GcTriggered(GcTriggeredEvent),
    GcStart(GcStartEvent),
    GcEnd(GcEndEvent),
    GcAllocationTick(GcAllocationTickEvent),
    GcSampledObjectAllocation(GcSampledObjectAllocationEvent),
    ReadyToRunGetEntryPoint(ReadyToRunGetEntryPointEvent),
    MethodDCEnd(MethodLoadUnloadEvent),
}

} // verus!
