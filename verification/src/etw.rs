//! The ETW ingest path: the session subscriber hands the adapter one
//! decoded row at a time as a `Provider/Task/Opcode` name with typed
//! properties; the adapter renames the spurious unmerged-session names,
//! rebuilds the same typed events, and attaches the stack-walk rows that
//! arrive separately to the event pending on their thread.
use vstd::prelude::*;

use crate::EventMetadata;
use crate::bytes::le_bytes;
use crate::enums::{gc_reason_of, GcReason, GcType};
use crate::events;
use crate::registry::{map_of, Registry};
use crate::text::str_eq;

verus! {

/// One typed property value of an ETW row.
#[derive(Debug)]
pub enum EtwValue {
    U16(u16),
    U32(u32),
    U64(u64),
    Str(String),
    Bytes(Vec<u8>),
}

/// The typed properties of a row, fetched by name; the first entry with a
/// name wins.
#[derive(Debug)]
pub struct EtwProperties {
    pub entries: Vec<(String, EtwValue)>,
}

/// The first property with the given name.
pub open spec fn prop_at(entries: Seq<(String, EtwValue)>, name: Seq<char>) -> Option<EtwValue>
    decreases entries.len(),
{
    if entries.len() == 0 {
        None
    } else if entries[0].0@ == name {
        Some(entries[0].1)
    } else {
        prop_at(entries.drop_first(), name)
    }
}

impl EtwProperties {
    pub fn new() -> (r: Self)
        ensures
            r.entries@.len() == 0,
    {
        EtwProperties { entries: Vec::new() }
    }

    /// Adds a property; an existing one of the same name keeps priority.
    pub fn push(&mut self, name: String, value: EtwValue)
        ensures
            final(self).entries@ == old(self).entries@.push((name, value)),
    {
        self.entries.push((name, value));
    }

    fn find(&self, name: &str) -> (r: Option<&EtwValue>)
        ensures
            (match r {
                Some(v) => prop_at(self.entries@, name@) == Some(*v),
                None => prop_at(self.entries@, name@) is None,
            }),
    {
        let mut i: usize = 0;
        proof {
            assert(self.entries@.skip(0) =~= self.entries@);
        }
        while i < self.entries.len()
            invariant
                i <= self.entries@.len(),
                prop_at(self.entries@, name@) == prop_at(
                    self.entries@.skip(i as int),
                    name@,
                ),
        decreases self.entries@.len() - i,
        {
            let ghost tail = self.entries@.skip(i as int);
            proof {
                assert(tail[0] == self.entries@[i as int]);
                assert(tail.drop_first() =~= self.entries@.skip(i + 1));
            }
            if str_eq(&self.entries[i].0, name) {
                return Some(&self.entries[i].1);
            }
            i = i + 1;
        }
        None
    }

    /// The 64-bit property of that name, when present with that type.
    pub fn get_u64(&self, name: &str) -> (r: Option<u64>)
        ensures
            (match r {
                Some(v) => prop_at(self.entries@, name@) == Some(EtwValue::U64(v)),
                None => !(prop_at(self.entries@, name@) matches Some(EtwValue::U64(_))),
            }),
    {
        match self.find(name) {
            Some(EtwValue::U64(v)) => Some(*v),
            _ => None,
        }
    }

    /// The 32-bit property of that name.
    pub fn get_u32(&self, name: &str) -> (r: Option<u32>)
        ensures
            (match r {
                Some(v) => prop_at(self.entries@, name@) == Some(EtwValue::U32(v)),
                None => !(prop_at(self.entries@, name@) matches Some(EtwValue::U32(_))),
            }),
    {
        match self.find(name) {
            Some(EtwValue::U32(v)) => Some(*v),
            _ => None,
        }
    }

    /// The 16-bit property of that name.
    pub fn get_u16(&self, name: &str) -> (r: Option<u16>)
        ensures
            (match r {
                Some(v) => prop_at(self.entries@, name@) == Some(EtwValue::U16(v)),
                None => !(prop_at(self.entries@, name@) matches Some(EtwValue::U16(_))),
            }),
    {
        match self.find(name) {
            Some(EtwValue::U16(v)) => Some(*v),
            _ => None,
        }
    }

    /// The string property of that name, owned.
    pub fn get_string(&self, name: &str) -> (r: Option<String>)
        ensures
            (match r {
                Some(v) => (prop_at(self.entries@, name@) matches Some(EtwValue::Str(s)) && s@
                    == v@),
                None => !(prop_at(self.entries@, name@) matches Some(EtwValue::Str(_))),
            }),
    {
        match self.find(name) {
            Some(EtwValue::Str(v)) => Some(v.clone()),
            _ => None,
        }
    }

    /// The byte-buffer property of that name, owned.
    pub fn get_bytes(&self, name: &str) -> (r: Option<Vec<u8>>)
        ensures
            (match r {
                Some(v) => (prop_at(self.entries@, name@) matches Some(EtwValue::Bytes(b)) && b@
                    == v@),
                None => !(prop_at(self.entries@, name@) matches Some(EtwValue::Bytes(_))),
            }),
    {
        match self.find(name) {
            Some(EtwValue::Bytes(v)) => Some(copy_bytes_local(v)),
            _ => None,
        }
    }
}

fn copy_bytes_local(v: &Vec<u8>) -> (r: Vec<u8>)
    ensures
        r@ == v@,
{
    let mut out: Vec<u8> = Vec::new();
    let mut i: usize = 0;
    while i < v.len()
        invariant
            i <= v@.len(),
            out@ == v@.subrange(0, i as int),
        decreases v@.len() - i,
    {
        out.push(v[i]);
        i = i + 1;
        assert(out@ == v@.subrange(0, i as int));
    }
    proof {
        assert(v@.subrange(0, v@.len() as int) == v@);
    }
    out
}

/// One decoded ETW row as the session subscriber delivers it: the
/// `Provider/Task/Opcode` name, the event's clock and thread, the typed
/// properties, and the trailing user-data buffer.
#[derive(Debug)]
pub struct EtwEventRow {
    pub name: String,
    pub timestamp: u64,
    pub process_id: u32,
    pub thread_id: u32,
    pub properties: EtwProperties,
    pub buffer: Vec<u8>,
}

/// The first position of `c` at or after `from`, or the string's length.
pub open spec fn find_char(s: Seq<char>, c: char, from: int) -> int
    decreases s.len() - from,
{
    if from < 0 || from >= s.len() {
        s.len() as int
    } else if s[from] == c {
        from
    } else {
        find_char(s, c, from + 1)
    }
}

/// A `Provider/Task/Opcode` name split at its first two slashes; the third
/// part keeps any further slashes.
pub open spec fn split3_parts(s: Seq<char>) -> (Seq<char>, Seq<char>, Seq<char>) {
    let i1 = find_char(s, '/', 0);
    let i2 = find_char(s, '/', i1 + 1);
    (
        s.subrange(0, i1),
        if i1 < s.len() {
            s.subrange(i1 + 1, i2)
        } else {
            Seq::empty()
        },
        if i2 < s.len() {
            s.subrange(i2 + 1, s.len() as int)
        } else {
            Seq::empty()
        },
    )
}

/// Whether the name has at least two slashes, so all three parts exist.
pub open spec fn has_three_parts(s: Seq<char>) -> bool {
    find_char(s, '/', 0) < s.len() && find_char(s, '/', find_char(s, '/', 0) + 1) < s.len()
}

fn find_char_exec(s: &str, c: char, from: usize) -> (r: usize)
    requires
        from <= s@.len(),
    ensures
        r == find_char(s@, c, from as int),
        from <= r <= s@.len(),
    decreases s@.len() - from,
{
    let n = s.unicode_len();
    if from >= n {
        return n;
    }
    if s.get_char(from) == c {
        return from;
    }
    find_char_exec(s, c, from + 1)
}

/// Splits a three-part name.
fn split3(s: &str) -> (r: (String, String, String))
    requires
        has_three_parts(s@),
    ensures
        r.0@ == split3_parts(s@).0,
        r.1@ == split3_parts(s@).1,
        r.2@ == split3_parts(s@).2,
{
    let n = s.unicode_len();
    let i1 = find_char_exec(s, '/', 0);
    let i2 = find_char_exec(s, '/', i1 + 1);
    let a = s.substring_char(0, i1).to_owned();
    let b = s.substring_char(i1 + 1, i2).to_owned();
    let c = s.substring_char(i2 + 1, n).to_owned();
    (a, b, c)
}

/// Whether the string ends in a space, the mark of an unmerged-session
/// name.
pub open spec fn ends_with_space(s: Seq<char>) -> bool {
    s.len() > 0 && s.last() == ' '
}

fn ends_with_space_exec(s: &String) -> (r: bool)
    ensures
        r == ends_with_space(s@),
{
    let n = s.as_str().unicode_len();
    if n == 0 {
        false
    } else {
        s.as_str().get_char(n - 1) == ' '
    }
}

/// The first position at or after `from` whose character is not a space.
pub open spec fn first_non_space(s: Seq<char>, from: int) -> int
    decreases s.len() - from,
{
    if from < 0 || from >= s.len() {
        s.len() as int
    } else if s[from] != ' ' {
        from
    } else {
        first_non_space(s, from + 1)
    }
}

/// The length with trailing spaces dropped, scanning down from `upto`.
pub open spec fn end_non_space(s: Seq<char>, upto: int) -> int
    decreases upto,
{
    if upto <= 0 {
        0
    } else if s[upto - 1] != ' ' {
        upto
    } else {
        end_non_space(s, upto - 1)
    }
}

/// The string with leading and trailing spaces removed.
pub open spec fn trim_spec(s: Seq<char>) -> Seq<char> {
    let a = first_non_space(s, 0);
    if a == s.len() {
        Seq::empty()
    } else {
        s.subrange(a, end_non_space(s, s.len() as int))
    }
}

fn first_non_space_exec(s: &str, from: usize) -> (r: usize)
    requires
        from <= s@.len(),
    ensures
        r == first_non_space(s@, from as int),
        from <= r <= s@.len(),
    decreases s@.len() - from,
{
    let n = s.unicode_len();
    if from >= n {
        return n;
    }
    if s.get_char(from) != ' ' {
        return from;
    }
    first_non_space_exec(s, from + 1)
}

fn end_non_space_exec(s: &str, upto: usize) -> (r: usize)
    requires
        upto <= s@.len(),
    ensures
        r == end_non_space(s@, upto as int),
        r <= upto,
    decreases upto,
{
    if upto == 0 {
        return 0;
    }
    if s.get_char(upto - 1) != ' ' {
        return upto;
    }
    end_non_space_exec(s, upto - 1)
}

/// Removes leading and trailing spaces.
fn trim_exec(s: &String) -> (r: String)
    ensures
        r@ == trim_spec(s@),
{
    let n = s.as_str().unicode_len();
    let a = first_non_space_exec(s.as_str(), 0);
    if a == n {
        proof {
            assert(trim_spec(s@) =~= Seq::<char>::empty());
        }
        return String::new();
    }
    let b = end_non_space_exec(s.as_str(), n);
    proof {
        lemma_first_non_space_hit(s@, 0);
        lemma_end_non_space_ge(s@, n as int, a as int);
    }
    s.as_str().substring_char(a, b).to_owned()
}

proof fn lemma_first_non_space_hit(s: Seq<char>, from: int)
    ensures
        first_non_space(s, from) < s.len() ==> s[first_non_space(s, from)] != ' ',
    decreases s.len() - from,
{
    if 0 <= from < s.len() && s[from] == ' ' {
        lemma_first_non_space_hit(s, from + 1);
    }
}

proof fn lemma_end_non_space_ge(s: Seq<char>, upto: int, a: int)
    requires
        0 <= a < s.len(),
        a < upto <= s.len(),
        s[a] != ' ',
    ensures
        end_non_space(s, upto) > a,
    decreases upto,
{
    if upto > a + 1 && s[upto - 1] == ' ' {
        lemma_end_non_space_ge(s, upto - 1, a);
    }
}

/// The merged-session opcode that an unmerged method opcode stands for.
pub open spec fn method_opcode_map(o: Seq<char>) -> Seq<char> {
    if o == "LoadVerbose"@ {
        "MethodLoadVerbose"@
    } else if o == "UnloadVerbose"@ {
        "MethodUnloadVerbose"@
    } else if o == "DCStartVerbose"@ {
        "MethodDCStartVerbose"@
    } else if o == "DCEndVerbose"@ {
        "MethodDCEndVerbose"@
    } else if o == "JittingStarted"@ {
        "MethodJittingStarted"@
    } else {
        o
    }
}

/// The merged-session opcode for an unmerged GC opcode. The misspelt
/// `PerHeapHisory` passes through unchanged: it matches the wire name.
pub open spec fn gc_opcode_map(o: Seq<char>) -> Seq<char> {
    if o == "Start"@ {
        "win:Start"@
    } else if o == "Stop"@ {
        "win:Stop"@
    } else if o == "RestartEEStart"@ {
        "GCRestartEEBegin"@
    } else if o == "RestartEEStop"@ {
        "GCRestartEEEnd"@
    } else if o == "SuspendEEStart"@ {
        "GCSuspendEEBegin"@
    } else if o == "SuspendEEStop"@ {
        "GCSuspendEEEnd"@
    } else {
        o
    }
}

/// The merged-session opcode for an unmerged stack opcode.
pub open spec fn stack_opcode_map(o: Seq<char>) -> Seq<char> {
    if o == "Walk"@ {
        "CLRStackWalk"@
    } else {
        o
    }
}

/// The merged-session task and opcode a row stands for: names from an
/// unmerged session carry trailing spaces and are renamed by a fixed table.
pub open spec fn normalize_names(task: Seq<char>, opcode: Seq<char>) -> (Seq<char>, Seq<char>) {
    if !(ends_with_space(task) || ends_with_space(opcode)) {
        (task, opcode)
    } else {
        let t = trim_spec(task);
        let o = trim_spec(opcode);
        if t == "Method"@ {
            ("CLRMethod"@, method_opcode_map(o))
        } else if t == "Loader"@ {
            ("CLRLoader"@, o)
        } else if t == "Runtime"@ {
            ("CLRRuntimeInformation"@, o)
        } else if t == "GC"@ {
            ("GarbageCollection"@, gc_opcode_map(o))
        } else if t == "ClrStack"@ {
            ("CLRStack"@, stack_opcode_map(o))
        } else {
            (t, o)
        }
    }
}

fn normalize_names_exec(task: String, opcode: String) -> (r: (String, String))
    ensures
        r.0@ == normalize_names(task@, opcode@).0,
        r.1@ == normalize_names(task@, opcode@).1,
{
    if !(ends_with_space_exec(&task) || ends_with_space_exec(&opcode)) {
        return (task, opcode);
    }
    let t = trim_exec(&task);
    let o = trim_exec(&opcode);
    if str_eq(&t, "Method") {
        let o2 = if str_eq(&o, "LoadVerbose") {
            "MethodLoadVerbose".to_owned()
        } else if str_eq(&o, "UnloadVerbose") {
            "MethodUnloadVerbose".to_owned()
        } else if str_eq(&o, "DCStartVerbose") {
            "MethodDCStartVerbose".to_owned()
        } else if str_eq(&o, "DCEndVerbose") {
            "MethodDCEndVerbose".to_owned()
        } else if str_eq(&o, "JittingStarted") {
            "MethodJittingStarted".to_owned()
        } else {
            o
        };
        ("CLRMethod".to_owned(), o2)
    } else if str_eq(&t, "Loader") {
        ("CLRLoader".to_owned(), o)
    } else if str_eq(&t, "Runtime") {
        ("CLRRuntimeInformation".to_owned(), o)
    } else if str_eq(&t, "GC") {
        let o2 = if str_eq(&o, "Start") {
            "win:Start".to_owned()
        } else if str_eq(&o, "Stop") {
            "win:Stop".to_owned()
        } else if str_eq(&o, "RestartEEStart") {
            "GCRestartEEBegin".to_owned()
        } else if str_eq(&o, "RestartEEStop") {
            "GCRestartEEEnd".to_owned()
        } else if str_eq(&o, "SuspendEEStart") {
            "GCSuspendEEBegin".to_owned()
        } else if str_eq(&o, "SuspendEEStop") {
            "GCSuspendEEEnd".to_owned()
        } else {
            o
        };
        ("GarbageCollection".to_owned(), o2)
    } else if str_eq(&t, "ClrStack") {
        let o2 = if str_eq(&o, "Walk") {
            "CLRStackWalk".to_owned()
        } else {
            o
        };
        ("CLRStack".to_owned(), o2)
    } else {
        (t, o)
    }
}

/// The 64-bit little-endian words of a buffer, any trailing remainder
/// ignored.
pub open spec fn chunk_u64s(b: Seq<u8>) -> Seq<u64> {
    Seq::new((b.len() / 8) as nat, |j: int| le_bytes(b, 8 * j, 8) as u64)
}

fn chunk_u64s_exec(b: &Vec<u8>) -> (r: Vec<u64>)
    ensures
        r@ == chunk_u64s(b@),
{
    let n = b.len() / 8;
    let mut out: Vec<u64> = Vec::new();
    let mut k: usize = 0;
    while k < n
        invariant
            n == b@.len() / 8,
            8 * n <= b@.len(),
            b@.len() <= usize::MAX,
            k <= n,
            out@ =~= chunk_u64s(b@).subrange(0, k as int),
        decreases n - k,
    {
        let (v, _) = match crate::bytes::read_u64(b, 8 * k) {
            Ok(v) => v,
            Err(_) => vstd::pervasive::unreached(),
        };
        out.push(v);
        k = k + 1;
        assert(out@ =~= chunk_u64s(b@).subrange(0, k as int));
    }
    proof {
        assert(chunk_u64s(b@).subrange(0, chunk_u64s(b@).len() as int) == chunk_u64s(b@));
    }
    out
}

/// The stack a stack-walk row carries: the two addresses of its `Stack`
/// property, then the addresses of the trailing buffer.
pub open spec fn stackwalk_addrs(row: EtwEventRow) -> Seq<u64> {
    match prop_at(row.properties.entries@, "Stack"@) {
        Some(EtwValue::Bytes(b)) => chunk_u64s(b@) + chunk_u64s(row.buffer@),
        _ => chunk_u64s(row.buffer@),
    }
}

/// Converts ETW rows of the managed-runtime providers into typed events,
/// holding each thread's last event until its stack-walk row arrives.
pub struct CoreClrEtwConverter {
    last_event_on_thread: Registry<(EventMetadata, events::CoreClrEvent)>,
}

impl CoreClrEtwConverter {
    /// The pending-event slot of each thread.
    pub closed spec fn pending(&self) -> Map<u32, (EventMetadata, events::CoreClrEvent)> {
        self.last_event_on_thread.view()
    }

    /// Each thread holds at most one slot entry.
    pub closed spec fn wf(&self) -> bool {
        self.last_event_on_thread.wf()
    }

    pub fn new() -> (r: Self)
        ensures
            r.pending() == Map::<u32, (EventMetadata, events::CoreClrEvent)>::empty(),
            r.wf(),
    {
        CoreClrEtwConverter { last_event_on_thread: Registry::new() }
    }

    /// Drains the events still pending on their threads at teardown: each
    /// thread's event exactly once.
    pub fn remaining_clr_events_on_threads(&mut self) -> (r: Vec<
        (u32, (EventMetadata, events::CoreClrEvent)),
    >)
        requires
            old(self).wf(),
        ensures
            map_of(r@) == old(self).pending(),
            final(self).pending() == Map::<u32, (EventMetadata, events::CoreClrEvent)>::empty(),
            final(self).wf(),
            forall|i: int, j: int|
                0 <= i < j < r@.len() ==> (#[trigger] r@[i]).0 != (#[trigger] r@[j]).0,
    {
        self.last_event_on_thread.drain_entries()
    }

    /// Feeds one row through the converter. A stack-walk row attaches its
    /// addresses to the event pending on its thread and releases it; any
    /// other row takes the slot, releasing whatever held it, without a
    /// stack.
    pub fn etw_event_to_coreclr_event(&mut self, row: &EtwEventRow) -> (r: Option<
        (EventMetadata, events::CoreClrEvent),
    >)
        requires
            has_three_parts(row.name@),
            old(self).wf(),
        ensures
            final(self).wf(),
            ({
                let parts = split3_parts(row.name@);
                let names = normalize_names(parts.1, parts.2);
                let tid = row.thread_id;
                let was = old(self).pending();
                if parts.0 != "Microsoft-Windows-DotNETRuntime"@ && parts.0
                    != "Microsoft-Windows-DotNETRuntimeRundown"@ {
                    &&& r is None
                    &&& final(self).pending() == was
                } else if names.0 == "CLRStack"@ && names.1 == "CLRStackWalk"@ {
                    &&& final(self).pending() == was.remove(tid)
                    &&& was.contains_key(tid) ==> (r matches Some((m, ev)) && ev == was[tid].1
                        && (m.stack matches Some(st) && st@ == stackwalk_addrs(*row))
                        && m.timestamp == was[tid].0.timestamp && m.process_id
                        == was[tid].0.process_id && m.thread_id == was[tid].0.thread_id
                        && m.is_rundown == was[tid].0.is_rundown)
                    &&& !was.contains_key(tid) ==> r is None
                } else {
                    &&& (was.contains_key(tid) ==> r == Some(was[tid]))
                    &&& (!was.contains_key(tid) ==> r is None)
                    &&& final(self).pending().remove(tid) == was.remove(tid)
                    &&& (final(self).pending().contains_key(tid) ==> ({
                        let slot = final(self).pending()[tid];
                        &&& slot.0.timestamp == row.timestamp
                        &&& slot.0.process_id == row.process_id
                        &&& slot.0.thread_id == row.thread_id
                        &&& slot.0.stack is None
                        &&& slot.0.is_rundown == (parts.0
                            == "Microsoft-Windows-DotNETRuntimeRundown"@)
                        &&& etw_row_event_ok(names.0, names.1, *row, slot.1)
                    }))
                    &&& ((names.0 == "GarbageCollection"@ && names.1 == "Triggered"@ && prop_at(
                        row.properties.entries@,
                        "Reason"@,
                    ) matches Some(EtwValue::U32(_))) ==> final(self).pending().contains_key(tid))
                }
            }),
    {
        let (provider, task0, opcode0) = split3(row.name.as_str());
        let is_rundown = str_eq(&provider, "Microsoft-Windows-DotNETRuntimeRundown");
        if !str_eq(&provider, "Microsoft-Windows-DotNETRuntime") && !is_rundown {
            // An unknown provider's row is dropped; decoding continues.
            return None;
        }
        let (task, opcode) = normalize_names_exec(task0, opcode0);
        let tid = row.thread_id;
        let pending = self.last_event_on_thread.remove(tid);
        if str_eq(&task, "CLRStack") && str_eq(&opcode, "CLRStackWalk") {
            let (meta, ev) = match pending {
                Some(p) => p,
                None => {
                    return None;
                },
            };
            let mut addrs = match row.properties.get_bytes("Stack") {
                Some(b) => chunk_u64s_exec(&b),
                None => Vec::new(),
            };
            let mut rest = chunk_u64s_exec(&row.buffer);
            addrs.append(&mut rest);
            return Some((meta.with_stack(addrs), ev));
        }
        let common = EventMetadata {
            timestamp: row.timestamp,
            process_id: row.process_id,
            thread_id: row.thread_id,
            stack: None,
            is_rundown,
        };
        let new_event = decode_etw_row(&task, &opcode, row);
        match new_event {
            Some(ev) => {
                self.last_event_on_thread.insert(tid, (common, ev));
            },
            None => (),
        }
        pending
    }
}


/// Whether every field a verbose method record needs is present with its
/// type.
pub open spec fn etw_method_props_present(props: Seq<(String, EtwValue)>) -> bool {
    &&& prop_at(props, "MethodName"@) matches Some(EtwValue::Str(_))
    &&& prop_at(props, "MethodNamespace"@) matches Some(EtwValue::Str(_))
    &&& prop_at(props, "MethodSignature"@) matches Some(EtwValue::Str(_))
    &&& prop_at(props, "ModuleID"@) matches Some(EtwValue::U64(_))
    &&& prop_at(props, "MethodID"@) matches Some(EtwValue::U64(_))
    &&& prop_at(props, "MethodFlags"@) matches Some(EtwValue::U32(_))
    &&& prop_at(props, "MethodToken"@) matches Some(EtwValue::U32(_))
    &&& prop_at(props, "MethodStartAddress"@) matches Some(EtwValue::U64(_))
    &&& prop_at(props, "MethodSize"@) matches Some(EtwValue::U32(_))
}

/// The method record a row's properties denote.
pub open spec fn etw_method_ok(
    props: Seq<(String, EtwValue)>,
    m: events::MethodLoadUnloadEvent,
) -> bool {
    &&& prop_at(props, "MethodName"@) matches Some(EtwValue::Str(s)) && s@ == m.method_name@
    &&& prop_at(props, "MethodNamespace"@) matches Some(EtwValue::Str(s))
        && s@ == m.method_namespace@
    &&& prop_at(props, "MethodSignature"@) matches Some(EtwValue::Str(s))
        && s@ == m.method_signature@
    &&& prop_at(props, "ModuleID"@) == Some(EtwValue::U64(m.module_id))
    &&& prop_at(props, "MethodID"@) == Some(EtwValue::U64(m.method_id))
    &&& prop_at(props, "MethodFlags"@) == Some(EtwValue::U32(m.method_flags))
    &&& prop_at(props, "MethodToken"@) == Some(EtwValue::U32(m.method_token))
    &&& prop_at(props, "MethodStartAddress"@) == Some(EtwValue::U64(m.method_start_address))
    &&& prop_at(props, "MethodSize"@) == Some(EtwValue::U32(m.method_size))
    &&& (match m.clr_instance_id {
        Some(c) => prop_at(props, "ClrInstanceID"@) == Some(EtwValue::U16(c)),
        None => !(prop_at(props, "ClrInstanceID"@) matches Some(EtwValue::U16(_))),
    })
    &&& (match m.re_jit_id {
        Some(c) => prop_at(props, "ReJITID"@) == Some(EtwValue::U64(c)),
        None => !(prop_at(props, "ReJITID"@) matches Some(EtwValue::U64(_))),
    })
}

/// The typed event a renamed row stands for, by task and opcode: the
/// verbose method records, the GC trigger (an unknown reason becoming the
/// `Empty` sentinel), the sampled allocation, and the GC start and stop
/// records.
pub open spec fn etw_row_event_ok(
    task: Seq<char>,
    opcode: Seq<char>,
    row: EtwEventRow,
    ev: events::CoreClrEvent,
) -> bool {
    &&& ((task == "GarbageCollection"@ && opcode == "Triggered"@) ==> (match prop_at(
        row.properties.entries@,
        "Reason"@,
    ) {
        Some(EtwValue::U32(v)) => (ev matches events::CoreClrEvent::GcTriggered(g) && g.reason
            == gc_reason_of(v as int) && g.clr_instance_id == 0),
        _ => false,
    }))
    &&& ((task == "GarbageCollection"@ && opcode == "win:Stop"@) ==> (match (
        prop_at(row.properties.entries@, "Count"@),
        prop_at(row.properties.entries@, "Depth"@),
    ) {
        (Some(EtwValue::U32(c)), Some(EtwValue::U32(dp))) => (ev matches
            events::CoreClrEvent::GcEnd(g) && g.count == c && g.depth == dp),
        _ => false,
    }))
    &&& ((task == "GarbageCollection"@ && opcode == "win:Start"@) ==> (match (
        prop_at(row.properties.entries@, "Count"@),
        prop_at(row.properties.entries@, "Reason"@),
    ) {
        (Some(EtwValue::U32(c)), Some(EtwValue::U32(rs))) => (ev matches
            events::CoreClrEvent::GcStart(g) && g.count == c && g.reason == gc_reason_of(
            rs as int,
        )),
        _ => false,
    }))
    &&& ((task == "GarbageCollection"@ && opcode == "GCSampledObjectAllocation"@) ==> (match (
        prop_at(row.properties.entries@, "TypeID"@),
        prop_at(row.properties.entries@, "Address"@),
    ) {
        (Some(EtwValue::U64(t)), Some(EtwValue::U64(a))) => (ev matches
            events::CoreClrEvent::GcSampledObjectAllocation(g) && g.type_id == t && g.address
            == a),
        _ => false,
    }))
    &&& (((task == "CLRMethod"@ || task == "CLRMethodRundown"@) && (opcode
        == "MethodLoadVerbose"@ || opcode == "MethodDCStartVerbose"@ || opcode
        == "MethodDCEndVerbose"@)) ==> (if opcode == "MethodDCEndVerbose"@ {
        ev matches events::CoreClrEvent::MethodDCEnd(m) && etw_method_ok(
            row.properties.entries@,
            m,
        )
    } else {
        ev matches events::CoreClrEvent::MethodLoad(m) && etw_method_ok(
            row.properties.entries@,
            m,
        )
    }))
}

/// Rebuilds the typed event a renamed row stands for, fetching its payload
/// fields by name: the verbose method records, and the GC trigger, sampled
/// allocation, start and stop records; every other row yields nothing.
#[verifier::rlimit(100)]
#[verifier::spinoff_prover]
fn decode_etw_row(task: &String, opcode: &String, row: &EtwEventRow) -> (r: Option<
    events::CoreClrEvent,
>)
    ensures
        r matches Some(ev) ==> etw_row_event_ok(task@, opcode@, *row, ev),
        (task@ == "GarbageCollection"@ && opcode@ == "Triggered"@) ==> (match prop_at(
            row.properties.entries@,
            "Reason"@,
        ) {
            Some(EtwValue::U32(v)) => (r matches Some(ev) && (ev matches
                events::CoreClrEvent::GcTriggered(g) && g.reason == gc_reason_of(v as int)
                && g.clr_instance_id == 0)),
            _ => r is None,
        }),
        (task@ == "GarbageCollection"@ && opcode@ == "win:Stop"@) ==> (match (
            prop_at(row.properties.entries@, "Count"@),
            prop_at(row.properties.entries@, "Depth"@),
        ) {
            (Some(EtwValue::U32(c)), Some(EtwValue::U32(dp))) => (r matches Some(ev) && (
            ev matches events::CoreClrEvent::GcEnd(g) && g.count == c && g.depth == dp)),
            _ => r is None,
        }),
        (task@ == "GarbageCollection"@ && opcode@ == "GCSampledObjectAllocation"@) ==> (match (
            prop_at(row.properties.entries@, "TypeID"@),
            prop_at(row.properties.entries@, "Address"@),
        ) {
            (Some(EtwValue::U64(t)), Some(EtwValue::U64(a))) => (match r {
                Some(ev) => (ev matches events::CoreClrEvent::GcSampledObjectAllocation(g)
                    && g.type_id == t && g.address == a),
                None => !(prop_at(row.properties.entries@, "ObjectCountForTypeSample"@) matches
                    Some(EtwValue::U32(_)) && prop_at(
                    row.properties.entries@,
                    "TotalSizeForTypeSample"@,
                ) matches Some(EtwValue::U64(_)) && prop_at(
                    row.properties.entries@,
                    "ClrInstanceID"@,
                ) matches Some(EtwValue::U16(_))),
            }),
            _ => r is None,
        }),
        (task@ == "GarbageCollection"@ && opcode@ == "win:Start"@) ==> (match (
            prop_at(row.properties.entries@, "Count"@),
            prop_at(row.properties.entries@, "Reason"@),
        ) {
            (Some(EtwValue::U32(c)), Some(EtwValue::U32(rs))) => (r matches Some(ev) && (
            ev matches events::CoreClrEvent::GcStart(g) && g.count == c && g.reason
                == gc_reason_of(rs as int))),
            _ => r is None,
        }),
        ((task@ == "CLRMethod"@ || task@ == "CLRMethodRundown"@) && (opcode@
            == "MethodLoadVerbose"@ || opcode@ == "MethodDCStartVerbose"@ || opcode@
            == "MethodDCEndVerbose"@)) ==> (match r {
            Some(ev) => ((if opcode@ == "MethodDCEndVerbose"@ {
                ev matches events::CoreClrEvent::MethodDCEnd(m) && etw_method_ok(
                    row.properties.entries@,
                    m,
                )
            } else {
                ev matches events::CoreClrEvent::MethodLoad(m) && etw_method_ok(
                    row.properties.entries@,
                    m,
                )
            })),
            None => !etw_method_props_present(row.properties.entries@),
        }),
{
    proof {
        broadcast use vstd::string::group_string_axioms;

        reveal_strlit("CLRMethod");
        reveal_strlit("CLRMethodRundown");
        reveal_strlit("GarbageCollection");
        reveal_strlit("GCSampledObjectAllocation");
        reveal_strlit("Triggered");
        reveal_strlit("win:Start");
        reveal_strlit("win:Stop");
        reveal_strlit("MethodLoadVerbose");
        reveal_strlit("MethodDCStartVerbose");
        reveal_strlit("MethodDCEndVerbose");
        assert("GarbageCollection"@.len() == 17);
        assert("CLRMethod"@.len() == 9);
        assert("GarbageCollection"@ != "CLRMethod"@);
        assert("GarbageCollection"@ != "CLRMethodRundown"@);
        assert("Triggered"@.len() == 9);
        assert("GCSampledObjectAllocation"@.len() == 25);
        assert("win:Start"@.len() == 9);
        assert("win:Stop"@.len() == 8);
        assert("Triggered"@[0] == 'T' && "win:Start"@[0] == 'w');
        assert("Triggered"@ != "GCSampledObjectAllocation"@);
        assert("Triggered"@ != "win:Start"@);
        assert("Triggered"@ != "win:Stop"@);
    }
    let props = &row.properties;
    if str_eq(task, "CLRMethod") || str_eq(task, "CLRMethodRundown") {
        if str_eq(opcode, "MethodLoadVerbose") || str_eq(opcode, "MethodDCStartVerbose") || str_eq(
            opcode,
            "MethodDCEndVerbose",
        ) {
            let method_name = match props.get_string("MethodName") {
                Some(v) => v,
                None => {
                    return None;
                },
            };
            let method_namespace = match props.get_string("MethodNamespace") {
                Some(v) => v,
                None => {
                    return None;
                },
            };
            let method_signature = match props.get_string("MethodSignature") {
                Some(v) => v,
                None => {
                    return None;
                },
            };
            let module_id = match props.get_u64("ModuleID") {
                Some(v) => v,
                None => {
                    return None;
                },
            };
            let method_id = match props.get_u64("MethodID") {
                Some(v) => v,
                None => {
                    return None;
                },
            };
            let method_flags = match props.get_u32("MethodFlags") {
                Some(v) => v,
                None => {
                    return None;
                },
            };
            let method_token = match props.get_u32("MethodToken") {
                Some(v) => v,
                None => {
                    return None;
                },
            };
            let clr_instance_id = props.get_u16("ClrInstanceID");
            let re_jit_id = props.get_u64("ReJITID");
            let method_start_address = match props.get_u64("MethodStartAddress") {
                Some(v) => v,
                None => {
                    return None;
                },
            };
            let method_size = match props.get_u32("MethodSize") {
                Some(v) => v,
                None => {
                    return None;
                },
            };
            let ev = events::MethodLoadUnloadEvent {
                method_id,
                module_id,
                method_start_address,
                method_size,
                method_token,
                method_flags,
                method_namespace,
                method_name,
                method_signature,
                clr_instance_id,
                re_jit_id,
            };
            if str_eq(opcode, "MethodDCEndVerbose") {
                Some(events::CoreClrEvent::MethodDCEnd(ev))
            } else {
                Some(events::CoreClrEvent::MethodLoad(ev))
            }
        } else {
            None
        }
    } else if str_eq(task, "GarbageCollection") {
        if str_eq(opcode, "GCSampledObjectAllocation") {
            let type_id = match props.get_u64("TypeID") {
                Some(v) => v,
                None => {
                    return None;
                },
            };
            let address = match props.get_u64("Address") {
                Some(v) => v,
                None => {
                    return None;
                },
            };
            let object_count_for_type_sample = match props.get_u32("ObjectCountForTypeSample") {
                Some(v) => v,
                None => {
                    return None;
                },
            };
            let total_size_for_type_sample = match props.get_u64("TotalSizeForTypeSample") {
                Some(v) => v,
                None => {
                    return None;
                },
            };
            let clr_instance_id = match props.get_u16("ClrInstanceID") {
                Some(v) => v,
                None => {
                    return None;
                },
            };
            Some(
                events::CoreClrEvent::GcSampledObjectAllocation(
                    events::GcSampledObjectAllocationEvent {
                        address,
                        type_id,
                        object_count_for_type_sample,
                        total_size_for_type_sample,
                        clr_instance_id,
                    },
                ),
            )
        } else if str_eq(opcode, "Triggered") {
            let reason = match props.get_u32("Reason") {
                Some(v) => v,
                None => {
                    return None;
                },
            };
            Some(
                events::CoreClrEvent::GcTriggered(
                    events::GcTriggeredEvent {
                        reason: GcReason::from_u32(reason),
                        clr_instance_id: 0,
                    },
                ),
            )
        } else if str_eq(opcode, "win:Start") {
            let count = match props.get_u32("Count") {
                Some(v) => v,
                None => {
                    return None;
                },
            };
            let depth = props.get_u32("Depth");
            let reason = match props.get_u32("Reason") {
                Some(v) => v,
                None => {
                    return None;
                },
            };
            let gc_type = match props.get_u32("Type") {
                Some(v) => GcType::from_u32(v),
                None => None,
            };
            let clr_instance_id = props.get_u16("ClrInstanceID");
            let client_sequence_number = props.get_u64("ClientSequenceNumber");
            Some(
                events::CoreClrEvent::GcStart(
                    events::GcStartEvent {
                        count,
                        depth,
                        reason: GcReason::from_u32(reason),
                        gc_type,
                        clr_instance_id,
                        client_sequence_number,
                    },
                ),
            )
        } else if str_eq(opcode, "win:Stop") {
            let count = match props.get_u32("Count") {
                Some(v) => v,
                None => {
                    return None;
                },
            };
            let depth = match props.get_u32("Depth") {
                Some(v) => v,
                None => {
                    return None;
                },
            };
            let reason = match props.get_u32("Reason") {
                Some(v) => GcReason::from_u32_strict(v),
                None => None,
            };
            Some(events::CoreClrEvent::GcEnd(events::GcEndEvent { count, depth, reason }))
        } else {
            None
        }
    } else {
        None
    }
}

} // verus!
