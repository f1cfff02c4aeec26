//! The pull parser: stack blocks, sequence-point blocks, the event-block
//! iterator with its delta-compressed headers, and the top-level dispatcher
//! that routes objects to the registries and yields raw events.
use vstd::prelude::*;

use crate::EventPipeError;
use crate::blob::{
    blob_at,
    blob_payloads,
    lemma_blob_payloads_end,
    lemma_blob_payloads_step,
    compressed_header_at,
    empty_header_spec,
    uncompressed_header_at,
    BlobHeaderSpec,
    EventBlobHeader,
    parse_compressed_header,
    parse_uncompressed_header,
};
use crate::bytes::{le_bytes, read_bytes, read_u32, read_u64};
use crate::metadata::{metadata_def_at, parse_metadata_blob, tags_at, MetadataDefinition};
use crate::nettrace::{
    align4,
    align4_up,
    event_block_at,
    fast_serialization_ident,
    nettrace_magic,
    nettrace_string_at,
    parse_event_block,
    parse_nettrace_string,
    parse_tag,
    parse_type_object,
    parse_trace_object,
    trace_object_matches,
    type_object_at,
    NettraceEventBlock,
    NettraceTag,
    NettraceTraceObject,
    NettraceTypeObject,
};
use crate::registry::Registry;
use crate::text::scalars_of;

verus! {

/// `n` consecutive little-endian 64-bit addresses starting at `i`.
pub open spec fn addrs_at(s: Seq<u8>, i: int, n: nat) -> Seq<u64> {
    Seq::new(n, |j: int| le_bytes(s, i + 8 * j, 8) as u64)
}

/// The `count` variable-length stacks starting at `i`: each is a byte size
/// word followed by that many bytes of addresses, eight bytes each.
pub open spec fn stacks_at(s: Seq<u8>, i: int, count: nat) -> Option<(Seq<Seq<u64>>, int)>
    decreases count,
{
    if count == 0 {
        Some((Seq::empty(), i))
    } else if i < 0 || i + 4 > s.len() {
        None
    } else {
        let size = le_bytes(s, i, 4);
        let n = size / 8;
        if i + 4 + n * 8 > s.len() {
            None
        } else {
            match stacks_at(s, i + 4 + n * 8, (count - 1) as nat) {
                None => None,
                Some(rest) => Some((seq![addrs_at(s, i + 4, n as nat)] + rest.0, rest.1)),
            }
        }
    }
}

/// A stack block at `i`: `first_id`, the stacks, and the end position.
pub open spec fn stack_block_at(s: Seq<u8>, i: int) -> Option<(int, Seq<Seq<u64>>, int)> {
    if i < 0 || i + 4 > s.len() {
        None
    } else {
        let a = align4(i + 4);
        if a + 8 > s.len() {
            None
        } else {
            let first_id = le_bytes(s, a, 4);
            let count = le_bytes(s, a + 4, 4);
            match stacks_at(s, a + 8, count as nat) {
                None => None,
                Some(se) => Some((first_id, se.0, se.1)),
            }
        }
    }
}

/// One stack of a stack block.
#[derive(Debug)]
pub struct StackStack {
    pub size: u32,
    pub stack: Vec<u64>,
}

/// A stack block: stacks are assigned ids `first_id`, `first_id + 1`, ...
#[derive(Debug)]
pub struct StackBlock {
    pub size: u32,
    pub first_id: u32,
    pub count: u32,
    pub stacks: Vec<StackStack>,
}

fn parse_addrs(d: &Vec<u8>, pos: usize, n: usize) -> (r: Result<(Vec<u64>, usize), EventPipeError>)
    ensures
        pos + 8 * n <= d@.len() ==> (r matches Ok((v, end)) && v@ == addrs_at(
            d@,
            pos as int,
            n as nat,
        ) && end == pos + 8 * n),
        pos + 8 * n > d@.len() ==> (r matches Err(e) && e is Truncated),
{
    if pos > d.len() || n > (d.len() - pos) / 8 {
        return Err(EventPipeError::Truncated);
    }
    let mut out: Vec<u64> = Vec::new();
    let mut k: usize = 0;
    while k < n
        invariant
            pos + 8 * n <= d@.len(),
            pos + 8 * n <= usize::MAX,
            k <= n,
            out@ =~= addrs_at(d@, pos as int, k as nat),
        decreases n - k,
    {
        let (v, _) = match read_u64(d, pos + 8 * k) {
            Ok(v) => v,
            Err(e) => {
                return Err(e);
            },
        };
        out.push(v);
        k = k + 1;
        assert(out@ =~= addrs_at(d@, pos as int, k as nat));
    }
    Ok((out, pos + 8 * n))
}

fn parse_stacks(d: &Vec<u8>, pos: usize, count: u32) -> (r: Result<
    (Vec<StackStack>, usize),
    EventPipeError,
>)
    ensures
        stacks_at(d@, pos as int, count as nat) matches Some(se) ==> (r matches Ok((v, end))
            && v@.len() == se.0.len() && (forall|j: int|
            0 <= j < v@.len() ==> (#[trigger] v@[j]).stack@ == se.0[j]) && end == se.1),
        stacks_at(d@, pos as int, count as nat) is None ==> r is Err,
    decreases count,
{
    if count == 0 {
        return Ok((Vec::new(), pos));
    }
    let (size, p) = match read_u32(d, pos) {
        Ok(v) => v,
        Err(e) => {
            return Err(e);
        },
    };
    let n = (size / 8) as usize;
    let (stack, e) = match parse_addrs(d, p, n) {
        Ok(v) => v,
        Err(e) => {
            return Err(e);
        },
    };
    let (rest, end) = match parse_stacks(d, e, count - 1) {
        Ok(v) => v,
        Err(e) => {
            return Err(e);
        },
    };
    let mut out = rest;
    out.insert(0, StackStack { size, stack });
    proof {
        let se = stacks_at(d@, pos as int, count as nat)->Some_0;
        assert(out@.len() == se.0.len());
        assert forall|j: int| 0 <= j < out@.len() implies (#[trigger] out@[j]).stack@ == se.0[j] by {
            if j > 0 {
                assert(out@[j] == rest@[j - 1]);
            }
        }
    }
    Ok((out, end))
}

/// Reads a stack block body.
pub fn parse_stack_block(d: &Vec<u8>, pos: usize) -> (r: Result<(StackBlock, usize), EventPipeError>)
    ensures
        stack_block_at(d@, pos as int) matches Some(se) ==> (r matches Ok((b, end)) && b.first_id
            == se.0 && b.stacks@.len() == se.1.len() && (forall|j: int|
            0 <= j < b.stacks@.len() ==> (#[trigger] b.stacks@[j]).stack@ == se.1[j]) && end
            == se.2),
        stack_block_at(d@, pos as int) is None ==> r is Err,
{
    let _ = d.len();
    let (size, p) = match read_u32(d, pos) {
        Ok(v) => v,
        Err(e) => {
            return Err(e);
        },
    };
    let a = match align4_up(p) {
        Ok(v) => v,
        Err(e) => {
            return Err(e);
        },
    };
    let (first_id, p2) = match read_u32(d, a) {
        Ok(v) => v,
        Err(e) => {
            return Err(e);
        },
    };
    let (count, p3) = match read_u32(d, p2) {
        Ok(v) => v,
        Err(e) => {
            return Err(e);
        },
    };
    let (stacks, end) = match parse_stacks(d, p3, count) {
        Ok(v) => v,
        Err(e) => {
            return Err(e);
        },
    };
    Ok((StackBlock { size, first_id, count, stacks }, end))
}

/// One per-thread entry of a sequence-point block.
#[derive(Debug, Clone, Copy, PartialEq, Eq, Structural)]
pub struct ThreadSequenceNumber {
    pub thread_id: u64,
    pub sequence_number: u32,
}

/// A sequence-point block: a recovery anchor the parser reads and discards.
#[derive(Debug)]
pub struct SequencePointBlock {
    pub size: u32,
    pub timestamp: u64,
    pub thread_count: u32,
    pub thread_sequence_numbers: Vec<ThreadSequenceNumber>,
}

/// A sequence-point block at `i`: its end position.
pub open spec fn sp_block_at(s: Seq<u8>, i: int) -> Option<int> {
    if i < 0 || i + 4 > s.len() {
        None
    } else {
        let a = align4(i + 4);
        if a + 12 > s.len() {
            None
        } else {
            let count = le_bytes(s, a + 8, 4);
            if a + 12 + 12 * count > s.len() {
                None
            } else {
                Some(a + 12 + 12 * count)
            }
        }
    }
}

/// Reads a sequence-point block body.
pub fn parse_sequence_point_block(d: &Vec<u8>, pos: usize) -> (r: Result<
    (SequencePointBlock, usize),
    EventPipeError,
>)
    ensures
        sp_block_at(d@, pos as int) matches Some(e) ==> (r matches Ok((b, end)) && end == e),
        sp_block_at(d@, pos as int) is None ==> r is Err,
{
    let dl = d.len();
    assert(d@.len() <= usize::MAX);
    let (size, p) = match read_u32(d, pos) {
        Ok(v) => v,
        Err(e) => {
            return Err(e);
        },
    };
    let a = match align4_up(p) {
        Ok(v) => v,
        Err(e) => {
            return Err(e);
        },
    };
    let (timestamp, p2) = match read_u64(d, a) {
        Ok(v) => v,
        Err(e) => {
            return Err(e);
        },
    };
    let (thread_count, p3) = match read_u32(d, p2) {
        Ok(v) => v,
        Err(e) => {
            return Err(e);
        },
    };
    if (d.len() - p3) / 12 < thread_count as usize {
        return Err(EventPipeError::Truncated);
    }
    let mut entries: Vec<ThreadSequenceNumber> = Vec::new();
    let mut k: usize = 0;
    let n = thread_count as usize;
    while k < n
        invariant
            p3 + 12 * n <= d@.len(),
            p3 + 12 * n <= usize::MAX,
            k <= n,
        decreases n - k,
    {
        let (tid, _) = match read_u64(d, p3 + 12 * k) {
            Ok(v) => v,
            Err(e) => {
                return Err(e);
            },
        };
        let (sq, _) = match read_u32(d, p3 + 12 * k + 8) {
            Ok(v) => v,
            Err(e) => {
                return Err(e);
            },
        };
        entries.push(ThreadSequenceNumber { thread_id: tid, sequence_number: sq });
        k = k + 1;
    }
    Ok((
        SequencePointBlock { size, timestamp, thread_count, thread_sequence_numbers: entries },
        p3 + 12 * n,
    ))
}

/// A raw event as the dispatcher yields it: the schema fields of its
/// metadata definition, the header fields of its blob, the resolved stack,
/// and the unparsed payload bytes.
#[derive(Debug)]
pub struct NettraceEvent {
    pub provider_name: String,
    pub event_id: u32,
    pub event_name: Option<String>,
    pub event_keywords: u64,
    pub event_version: u32,
    pub event_level: u32,
    pub event_opcode: Option<u8>,
    pub sequence_number: u32,
    pub thread_id: u64,
    pub capture_thread_id: u64,
    pub processor_number: Option<u32>,
    pub stack: Vec<u64>,
    pub timestamp: u64,
    pub activity_id: Vec<u8>,
    pub related_activity_id: Vec<u8>,
    pub payload: Vec<u8>,
}

/// Iterates the event blobs of one block over the block's own buffer.
pub struct EventBlobIter {
    pub data: Vec<u8>,
    pub pos: usize,
    pub compressed_headers: bool,
    pub blob_size: usize,
    pub prev_header: EventBlobHeader,
}

impl EventBlobIter {
    /// The buffer is exactly the block's bytes; padding skips may leave the
    /// cursor a little past it, which ends the iteration.
    pub open spec fn wf(&self) -> bool {
        &&& self.blob_size == self.data@.len()
        &&& self.pos <= self.blob_size + 3
    }

    /// Builds an iterator over a block's bytes; bit zero of the block's
    /// flags selects compressed headers.
    pub fn new(block: NettraceEventBlock, data: Vec<u8>) -> (r: Result<Self, EventPipeError>)
        requires
            data@.len() == block.size - block.header.size,
        ensures
            r matches Ok(it) && it.wf() && it.data@ == data@ && it.pos == 0
                && it.compressed_headers == ((block.header.flags & 1) != 0) && it.prev_header.view()
                == empty_header_spec(),
    {
        let compressed_headers = (block.header.flags & 1) != 0;
        let blob_size = data.len();
        Ok(EventBlobIter {
            data,
            pos: 0,
            compressed_headers,
            blob_size,
            prev_header: EventBlobHeader::empty(),
        })
    }

    /// The next blob of the block: its header and payload bytes, or `None`
    /// when the cursor has reached the block's end.
    pub fn next(&mut self) -> (r: Result<Option<(EventBlobHeader, Vec<u8>)>, EventPipeError>)
        requires
            old(self).wf(),
        ensures
            final(self).wf(),
            final(self).data@ == old(self).data@,
            final(self).compressed_headers == old(self).compressed_headers,
            final(self).blob_size == old(self).blob_size,
            old(self).pos >= old(self).blob_size ==> (r matches Ok(v) && v is None && *final(self)
                == *old(self)),
            old(self).pos < old(self).blob_size ==> match blob_at(
                old(self).data@,
                old(self).pos as int,
                old(self).prev_header.view(),
                old(self).compressed_headers,
            ) {
                Some(st) => (r matches Ok(v) && v matches Some((h, pay)) && h.view() == st.0
                    && pay@ == st.1 && final(self).pos == st.2 && final(self).prev_header.view()
                    == (if old(self).compressed_headers {
                    st.0
                } else {
                    old(self).prev_header.view()
                })),
                None => r is Err,
            },
    {
        if self.pos >= self.blob_size {
            return Ok(None);
        }
        let (header, end) = if self.compressed_headers {
            match parse_compressed_header(&self.data, self.pos, &mut self.prev_header) {
                Ok(v) => v,
                Err(e) => {
                    return Err(e);
                },
            }
        } else {
            match parse_uncompressed_header(&self.data, self.pos) {
                Ok(v) => v,
                Err(e) => {
                    return Err(e);
                },
            }
        };
        let (payload, pay_end) = match read_bytes(&self.data, end, header.payload_size as usize) {
            Ok(v) => v,
            Err(e) => {
                return Err(e);
            },
        };
        let next_pos = if !self.compressed_headers && header.payload_size % 4 != 0 {
            let skip = (4 - header.payload_size % 4) as usize;
            if pay_end > usize::MAX - skip {
                return Err(EventPipeError::Malformed);
            }
            pay_end + skip
        } else {
            pay_end
        };
        if next_pos <= self.pos {
            return Err(EventPipeError::Malformed);
        }
        self.pos = next_pos;
        Ok(Some((header, payload)))
    }
}

/// The type-object name `Trace`.
pub open spec fn name_trace() -> Seq<u8> {
    seq![0x54u8, 0x72u8, 0x61u8, 0x63u8, 0x65u8]
}

/// The type-object name `MetadataBlock`.
pub open spec fn name_metadata_block() -> Seq<u8> {
    seq![
        0x4du8,
        0x65u8,
        0x74u8,
        0x61u8,
        0x64u8,
        0x61u8,
        0x74u8,
        0x61u8,
        0x42u8,
        0x6cu8,
        0x6fu8,
        0x63u8,
        0x6bu8,
    ]
}

/// The type-object name `StackBlock`.
pub open spec fn name_stack_block() -> Seq<u8> {
    seq![0x53u8, 0x74u8, 0x61u8, 0x63u8, 0x6bu8, 0x42u8, 0x6cu8, 0x6fu8, 0x63u8, 0x6bu8]
}

/// The type-object name `SPBlock`.
pub open spec fn name_sp_block() -> Seq<u8> {
    seq![0x53u8, 0x50u8, 0x42u8, 0x6cu8, 0x6fu8, 0x63u8, 0x6bu8]
}

/// The type-object name `EventBlock`.
pub open spec fn name_event_block() -> Seq<u8> {
    seq![0x45u8, 0x76u8, 0x65u8, 0x6eu8, 0x74u8, 0x42u8, 0x6cu8, 0x6fu8, 0x63u8, 0x6bu8]
}

fn make_name_trace() -> (r: Vec<u8>)
    ensures
        r@ == name_trace(),
{
    let mut v: Vec<u8> = Vec::new();
    v.push(0x54);
    v.push(0x72);
    v.push(0x61);
    v.push(0x63);
    v.push(0x65);
    proof {
        assert(v@ =~= name_trace());
    }
    v
}

fn make_name_metadata_block() -> (r: Vec<u8>)
    ensures
        r@ == name_metadata_block(),
{
    let mut v: Vec<u8> = Vec::new();
    v.push(0x4d);
    v.push(0x65);
    v.push(0x74);
    v.push(0x61);
    v.push(0x64);
    v.push(0x61);
    v.push(0x74);
    v.push(0x61);
    v.push(0x42);
    v.push(0x6c);
    v.push(0x6f);
    v.push(0x63);
    v.push(0x6b);
    proof {
        assert(v@ =~= name_metadata_block());
    }
    v
}

fn make_name_stack_block() -> (r: Vec<u8>)
    ensures
        r@ == name_stack_block(),
{
    let mut v: Vec<u8> = Vec::new();
    v.push(0x53);
    v.push(0x74);
    v.push(0x61);
    v.push(0x63);
    v.push(0x6b);
    v.push(0x42);
    v.push(0x6c);
    v.push(0x6f);
    v.push(0x63);
    v.push(0x6b);
    proof {
        assert(v@ =~= name_stack_block());
    }
    v
}

fn make_name_sp_block() -> (r: Vec<u8>)
    ensures
        r@ == name_sp_block(),
{
    let mut v: Vec<u8> = Vec::new();
    v.push(0x53);
    v.push(0x50);
    v.push(0x42);
    v.push(0x6c);
    v.push(0x6f);
    v.push(0x63);
    v.push(0x6b);
    proof {
        assert(v@ =~= name_sp_block());
    }
    v
}

fn make_name_event_block() -> (r: Vec<u8>)
    ensures
        r@ == name_event_block(),
{
    let mut v: Vec<u8> = Vec::new();
    v.push(0x45);
    v.push(0x76);
    v.push(0x65);
    v.push(0x6e);
    v.push(0x74);
    v.push(0x42);
    v.push(0x6c);
    v.push(0x6f);
    v.push(0x63);
    v.push(0x6b);
    proof {
        assert(v@ =~= name_event_block());
    }
    v
}

fn make_magic() -> (r: Vec<u8>)
    ensures
        r@ == nettrace_magic(),
{
    let mut v: Vec<u8> = Vec::new();
    v.push(0x4e);
    v.push(0x65);
    v.push(0x74);
    v.push(0x74);
    v.push(0x72);
    v.push(0x61);
    v.push(0x63);
    v.push(0x65);
    proof {
        assert(v@ =~= nettrace_magic());
    }
    v
}

fn make_ident() -> (r: Vec<u8>)
    ensures
        r@ == fast_serialization_ident(),
{
    let mut v: Vec<u8> = Vec::new();
    v.push(0x21);
    v.push(0x46);
    v.push(0x61);
    v.push(0x73);
    v.push(0x74);
    v.push(0x53);
    v.push(0x65);
    v.push(0x72);
    v.push(0x69);
    v.push(0x61);
    v.push(0x6c);
    v.push(0x69);
    v.push(0x7a);
    v.push(0x61);
    v.push(0x74);
    v.push(0x69);
    v.push(0x6f);
    v.push(0x6e);
    v.push(0x2e);
    v.push(0x31);
    proof {
        assert(v@ =~= fast_serialization_ident());
    }
    v
}

fn bytes_eq(a: &Vec<u8>, b: &Vec<u8>) -> (r: bool)
    ensures
        r == (a@ == b@),
{
    if a.len() != b.len() {
        return false;
    }
    let mut i: usize = 0;
    while i < a.len()
        invariant
            a@.len() == b@.len(),
            i <= a@.len(),
            forall|j: int| 0 <= j < i ==> a@[j] == b@[j],
        decreases a@.len() - i,
    {
        if a[i] != b[i] {
            return false;
        }
        i = i + 1;
    }
    proof {
        assert(a@ =~= b@);
    }
    true
}

fn copy_u64s(v: &Vec<u64>) -> (r: Vec<u64>)
    ensures
        r@ == v@,
{
    let mut out: Vec<u64> = Vec::new();
    let mut i: usize = 0;
    while i < v.len()
        invariant
            i <= v@.len(),
            out@ == v@.subrange(0, i as int),
        decreases v@.len() - i,
    {
        out.push(v[i]);
        i = i + 1;
        assert(out@ == v@.subrange(0, i as int));
    }
    proof {
        assert(v@.subrange(0, v@.len() as int) == v@);
    }
    out
}

/// The schema-derived fields of a raw event agree with a registry entry: an
/// empty schema event name becomes `None`.
pub open spec fn event_matches_schema(def: MetadataDefinition, ev: NettraceEvent) -> bool {
    &&& ev.provider_name@ == def.provider_name@
    &&& ev.event_id == def.event_id
    &&& (match ev.event_name {
        Some(n) => def.event_name@.len() > 0 && n@ == def.event_name@,
        None => def.event_name@.len() == 0,
    })
    &&& ev.event_keywords == def.keywords
    &&& ev.event_version == def.version
    &&& ev.event_level == def.level
    &&& ev.event_opcode == def.opcode
}

/// The header-derived fields of a raw event agree with a blob header; the
/// processor number keeps its all-ones sentinel as `None`.
pub open spec fn event_matches_header(h: BlobHeaderSpec, ev: NettraceEvent) -> bool {
    &&& ev.sequence_number == h.sequence_number
    &&& ev.thread_id == h.thread_id
    &&& ev.capture_thread_id == h.capture_thread_id
    &&& (match ev.processor_number {
        Some(p) => h.processor_number != 0xFFFF_FFFF && p == h.processor_number,
        None => h.processor_number == 0xFFFF_FFFF,
    })
    &&& ev.timestamp == h.timestamp
    &&& ev.activity_id@ == h.activity_id
    &&& ev.related_activity_id@ == h.related_activity_id
}

/// An event's stack is the registry's vector for its stack id, or empty
/// when the id is unregistered.
pub open spec fn stack_resolved(stacks: Map<u32, Vec<u64>>, sid: u32, ev: NettraceEvent) -> bool {
    if stacks.contains_key(sid) {
        ev.stack@ == stacks[sid]@
    } else {
        ev.stack@.len() == 0
    }
}

/// Every yielded event is backed by a registered schema, and its stack, if
/// any, is a registered stack vector.
pub open spec fn event_well_formed(
    meta: Map<u32, MetadataDefinition>,
    stacks: Map<u32, Vec<u64>>,
    ev: NettraceEvent,
) -> bool {
    &&& exists|mid: u32|
        #[trigger] meta.contains_key(mid) && event_matches_schema(meta[mid], ev)
    &&& (ev.stack@.len() == 0 || exists|sid: u32|
        #[trigger] stacks.contains_key(sid) && stacks[sid]@ == ev.stack@)
}

/// Whether a metadata blob payload parses: the schema head and its
/// tagged extensions both decode.
#[verifier::opaque]
pub open spec fn metadata_blob_parses(p: Seq<u8>) -> bool {
    match metadata_def_at(p, 0) {
        None => false,
        Some(me) => tags_at(p, me.1, p.len() as int, None, me.0.field_count) is Some,
    }
}

/// The schema id a metadata blob payload declares; an unparseable blob
/// declares none.
#[verifier::opaque]
pub open spec fn blob_schema_id(p: Seq<u8>) -> int {
    match metadata_def_at(p, 0) {
        None => -1,
        Some(me) => me.0.id,
    }
}

/// The registry holds, under a blob's id, exactly the schema the blob
/// declares: head fields, opcode tag, and the field count after any v2
/// replacement.
#[verifier::opaque]
pub open spec fn schema_registered(m: Map<u32, MetadataDefinition>, p: Seq<u8>) -> bool {
    match metadata_def_at(p, 0) {
        None => true,
        Some(me) => match tags_at(p, me.1, p.len() as int, None, me.0.field_count) {
            None => true,
            Some(te) => {
                let id = (me.0.id % 0x1_0000_0000) as u32;
                &&& m.contains_key(id)
                &&& m[id].id == me.0.id
                &&& scalars_of(m[id].provider_name@) == me.0.provider
                &&& m[id].event_id == me.0.event_id
                &&& scalars_of(m[id].event_name@) == me.0.name
                &&& m[id].keywords == me.0.keywords
                &&& m[id].version == me.0.version
                &&& m[id].level == me.0.level
                &&& (match m[id].opcode {
                    Some(o) => te.0 == Some(o as int),
                    None => te.0 is None,
                })
                &&& m[id].fields.field_count == te.1
            },
        },
    }
}

/// A parseable blob's schema id is a four-byte word and fits thirty-two
/// bits.
proof fn lemma_blob_schema_id_range(p: Seq<u8>)
    ensures
        metadata_blob_parses(p) ==> 0 <= blob_schema_id(p) < 0x1_0000_0000,
{
    reveal(metadata_blob_parses);
    reveal(blob_schema_id);
    if metadata_def_at(p, 0) is Some {
        crate::bytes::lemma_le_bytes4_bound(p, 0);
    }
}

/// A parseable blob whose schema is registered has its id in the map.
proof fn lemma_schema_registered_contains(m: Map<u32, MetadataDefinition>, p: Seq<u8>)
    requires
        schema_registered(m, p),
        metadata_blob_parses(p),
    ensures
        m.contains_key((blob_schema_id(p) % 0x1_0000_0000) as u32),
{
    reveal(schema_registered);
    reveal(metadata_blob_parses);
    reveal(blob_schema_id);
}

/// A registered schema stays registered in any map that agrees with the
/// registering one at the schema's id.
proof fn lemma_schema_registered_preserved(
    m1: Map<u32, MetadataDefinition>,
    m2: Map<u32, MetadataDefinition>,
    p: Seq<u8>,
)
    requires
        schema_registered(m1, p),
        m2.contains_key((blob_schema_id(p) % 0x1_0000_0000) as u32) == m1.contains_key(
            (blob_schema_id(p) % 0x1_0000_0000) as u32,
        ),
        m1.contains_key((blob_schema_id(p) % 0x1_0000_0000) as u32) ==> m2[(blob_schema_id(p)
            % 0x1_0000_0000) as u32] == m1[(blob_schema_id(p) % 0x1_0000_0000) as u32],
    ensures
        schema_registered(m2, p),
{
    reveal(schema_registered);
    reveal(blob_schema_id);
}

/// Registering one more blob keeps the last-of-each-id registration fact
/// for the whole processed prefix.
proof fn lemma_registration_extend(
    m_old: Map<u32, MetadataDefinition>,
    m_new: Map<u32, MetadataDefinition>,
    pays: Seq<Seq<u8>>,
    k: int,
)
    requires
        0 <= k < pays.len(),
        metadata_blob_parses(pays[k]),
        schema_registered(m_new, pays[k]),
        forall|kk: u32|
            #![all_triggers]
            kk != (blob_schema_id(pays[k]) % 0x1_0000_0000) as u32 ==> ((m_new.contains_key(kk)
                <==> m_old.contains_key(kk)) && (m_old.contains_key(kk) ==> m_new[kk]
                == m_old[kk])),
        forall|j: int| 0 <= j < k ==> metadata_blob_parses(#[trigger] pays[j]),
        forall|j: int|
            0 <= j < k ==> ((forall|j2: int|
                j < j2 < k ==> blob_schema_id(#[trigger] pays[j2]) != blob_schema_id(pays[j]))
                ==> schema_registered(m_old, #[trigger] pays[j])),
    ensures
        forall|j: int|
            0 <= j < k + 1 ==> ((forall|j2: int|
                j < j2 < k + 1 ==> blob_schema_id(#[trigger] pays[j2]) != blob_schema_id(pays[j]))
                ==> schema_registered(m_new, #[trigger] pays[j])),
{
    assert forall|j: int|
        0 <= j < k + 1 && (forall|j2: int|
            j < j2 < k + 1 ==> blob_schema_id(#[trigger] pays[j2]) != blob_schema_id(
                pays[j],
            )) implies schema_registered(m_new, #[trigger] pays[j]) by {
        if j < k {
            assert(blob_schema_id(pays[k]) != blob_schema_id(pays[j]));
            lemma_blob_schema_id_range(pays[j]);
            lemma_blob_schema_id_range(pays[k]);
            assert(schema_registered(m_old, pays[j]));
            let idj = (blob_schema_id(pays[j]) % 0x1_0000_0000) as u32;
            assert(idj != (blob_schema_id(pays[k]) % 0x1_0000_0000) as u32);
            assert(m_new.contains_key(idj) <==> m_old.contains_key(idj));
            assert(m_old.contains_key(idj) ==> m_new[idj] == m_old[idj]);
            lemma_schema_registered_preserved(m_old, m_new, pays[j]);
        }
    }
}

/// The five recognized type-object names are pairwise distinct.
proof fn lemma_names_distinct()
    ensures
        name_trace() != name_metadata_block(),
        name_trace() != name_stack_block(),
        name_trace() != name_sp_block(),
        name_trace() != name_event_block(),
        name_metadata_block() != name_stack_block(),
        name_metadata_block() != name_sp_block(),
        name_metadata_block() != name_event_block(),
        name_stack_block() != name_sp_block(),
        name_stack_block() != name_event_block(),
        name_sp_block() != name_event_block(),
{
    assert(name_trace().len() == 5);
    assert(name_metadata_block().len() == 13);
    assert(name_stack_block().len() == 10);
    assert(name_sp_block().len() == 7);
    assert(name_event_block().len() == 10);
    assert(name_stack_block()[0] == 0x53u8);
    assert(name_event_block()[0] == 0x45u8);
}

/// What the metadata-block step of the dispatcher settles: an unreadable
/// block introducer is fatal. The registration a readable block performs
/// is stated on `handle_metadata_block`, which the dispatcher feeds with
/// exactly the block's bytes.
pub open spec fn metadata_block_step_ok(
    pre: EventPipeParser,
    post: EventPipeParser,
    r: Result<Option<NettraceEvent>, EventPipeError>,
    bpos: int,
) -> bool {
    event_block_at(pre.stream(), bpos) is None ==> r is Err
}

/// What the stack-block step settles, for a block at `bpos`: an unreadable
/// block is an error, and otherwise every id the block assigns stands in
/// the final stack registry.
pub open spec fn stack_block_step_ok(
    pre: EventPipeParser,
    post: EventPipeParser,
    r: Result<Option<NettraceEvent>, EventPipeError>,
    bpos: int,
) -> bool {
    let s = pre.stream();
    match stack_block_at(s, bpos) {
        None => r is Err,
        Some(se) => ((se.1.len() <= 0xFFFF_FFFF && se.0 + se.1.len() <= 0x1_0000_0000 && bpos
            < se.2 <= s.len()) ==> (forall|k2: int|
            0 <= k2 < se.1.len() ==> #[trigger] post.stacks().contains_key((se.0 + k2) as u32))),
    }
}

/// What one dispatch step settles when the parser stands at an object
/// boundary: the end-of-stream marker (with both registries and the cached
/// trace info untouched), the fatal tag and type-name errors, a trace
/// object standing directly before the end marker, an unreadable block
/// introducer, and the stack ids a stack block must leave registered.
pub open spec fn dispatch_step_ok(
    pre: EventPipeParser,
    post: EventPipeParser,
    r: Result<Option<NettraceEvent>, EventPipeError>,
) -> bool {
    let s = pre.stream();
    let i = pre.position();
    &&& i >= s.len() ==> (r matches Err(e) && e is Truncated)
    &&& (i < s.len() && s[i] == 1) ==> (r matches Ok(v) && v is None && post.position() == i + 1
        && post.metadata() == pre.metadata() && post.stacks() == pre.stacks() && post.info()
        == pre.info())
    &&& (i < s.len() && s[i] != 1 && s[i] != 5) ==> (r matches Err(e) && e is UnexpectedTag)
    &&& (i < s.len() && s[i] == 5 && type_object_at(s, i + 1) is None) ==> r is Err
    &&& (i < s.len() && s[i] == 5) ==> (type_object_at(s, i + 1) matches Some(te) ==> ({
        &&& ((te.0 != name_trace() && te.0 != name_metadata_block() && te.0 != name_stack_block()
            && te.0 != name_sp_block() && te.0 != name_event_block()) ==> (r matches Err(e) && e
            is UnknownObjectType))
        &&& ((te.0 == name_trace() && te.3 + 49 < s.len() && s[te.3 + 48] == 6 && s[te.3 + 49]
            == 1) ==> (r matches Ok(v) && v is None && (post.info() matches Some(t)
            && trace_object_matches(s, te.3, t)) && post.metadata() == pre.metadata()
            && post.stacks() == pre.stacks()))
        &&& (te.0 == name_metadata_block() ==> metadata_block_step_ok(pre, post, r, te.3))
        &&& (te.0 == name_stack_block() ==> stack_block_step_ok(pre, post, r, te.3))
    }))
}

/// The two parsers agree on whether a block is open and, if one is, on its
/// whole iterator state.
pub open spec fn block_state_eq(a: EventPipeParser, b: EventPipeParser) -> bool {
    &&& a.has_block() == b.has_block()
    &&& (a.has_block() ==> (a.block_data() == b.block_data() && a.block_pos() == b.block_pos()
        && a.block_prev() == b.block_prev() && a.block_compressed() == b.block_compressed()
        && a.block_limit() == b.block_limit()))
}

/// The pull parser over a `.nettrace` byte stream.
pub struct EventPipeParser {
    data: Vec<u8>,
    pos: usize,
    metadata_map: Registry<MetadataDefinition>,
    stack_map: Registry<Vec<u64>>,
    trace_info: Option<NettraceTraceObject>,
    cur_event_blob_iter: Option<EventBlobIter>,
}

impl EventPipeParser {
    /// The whole input stream.
    pub closed spec fn stream(&self) -> Seq<u8> {
        self.data@
    }

    /// The read position in the stream.
    pub closed spec fn position(&self) -> int {
        self.pos as int
    }

    /// The metadata registry: schema definitions by metadata id.
    pub closed spec fn metadata(&self) -> Map<u32, MetadataDefinition> {
        self.metadata_map.view()
    }

    /// The stack registry: address vectors by stack id.
    pub closed spec fn stacks(&self) -> Map<u32, Vec<u64>> {
        self.stack_map.view()
    }

    /// The cached trace-info object.
    pub closed spec fn info(&self) -> Option<NettraceTraceObject> {
        self.trace_info
    }

    /// Whether an event block is being iterated.
    pub closed spec fn has_block(&self) -> bool {
        self.cur_event_blob_iter is Some
    }

    /// The active block's buffer.
    pub closed spec fn block_data(&self) -> Seq<u8> {
        self.cur_event_blob_iter->Some_0.data@
    }

    /// The cursor inside the active block.
    pub closed spec fn block_pos(&self) -> int {
        self.cur_event_blob_iter->Some_0.pos as int
    }

    /// The delta base the active block's next header decodes against.
    pub closed spec fn block_prev(&self) -> BlobHeaderSpec {
        self.cur_event_blob_iter->Some_0.prev_header.view()
    }

    /// Whether the active block uses compressed headers.
    pub closed spec fn block_compressed(&self) -> bool {
        self.cur_event_blob_iter->Some_0.compressed_headers
    }

    /// The active block's length.
    pub closed spec fn block_limit(&self) -> int {
        self.cur_event_blob_iter->Some_0.blob_size as int
    }

    /// The parser's invariant: the cursor is inside the stream, and any
    /// active block iterator is itself well formed.
    pub closed spec fn wf(&self) -> bool {
        &&& self.pos <= self.data@.len()
        &&& (self.cur_event_blob_iter matches Some(it) ==> it.wf())
    }

    /// Opens a stream: the magic must read `Nettrace` and the ident
    /// `!FastSerialization.1`; anything else is a bad magic, and a stream
    /// too short for them is truncated.
    pub fn new(data: Vec<u8>) -> (r: Result<Self, EventPipeError>)
        ensures
            ({
                let ok_magic = data@.len() >= 8 && data@.subrange(0, 8) == nettrace_magic();
                let ident = nettrace_string_at(data@, 8);
                &&& ok_magic ==> (ident matches Some(ie) ==> ((ie.0
                    == fast_serialization_ident()) ==> (r matches Ok(p) && p.wf() && p.stream()
                    == data@ && p.position() == ie.1 && p.metadata() == Map::<
                    u32,
                    MetadataDefinition,
                >::empty() && p.stacks() == Map::<u32, Vec<u64>>::empty() && p.info() is None
                    && !p.has_block())))
                &&& ok_magic ==> (ident matches Some(ie) ==> ((ie.0
                    != fast_serialization_ident()) ==> (r matches Err(e) && e is BadMagic)))
                &&& (data@.len() >= 8 && data@.subrange(0, 8) != nettrace_magic()) ==> (r matches
                    Err(e) && e is BadMagic)
                &&& data@.len() < 8 ==> (r matches Err(e) && e is Truncated)
                &&& (ok_magic && ident is None) ==> (r matches Err(e) && e is Truncated)
                &&& r is Ok ==> (ok_magic && ident is Some)
            }),
    {
        let (magic, p) = match read_bytes(&data, 0, 8) {
            Ok(v) => v,
            Err(e) => {
                return Err(e);
            },
        };
        if !bytes_eq(&magic, &make_magic()) {
            return Err(EventPipeError::BadMagic);
        }
        let (ident, p) = match parse_nettrace_string(&data, p) {
            Ok(v) => v,
            Err(e) => {
                return Err(e);
            },
        };
        if !bytes_eq(&ident.bytes, &make_ident()) {
            return Err(EventPipeError::BadMagic);
        }
        Ok(EventPipeParser {
            data,
            pos: p,
            metadata_map: Registry::new(),
            stack_map: Registry::new(),
            trace_info: None,
            cur_event_blob_iter: None,
        })
    }

    /// Moves the cursor forward to `p`, refusing a move that does not
    /// advance or leaves the stream.
    fn advance_to(&mut self, p: usize) -> (r: Result<(), EventPipeError>)
        ensures
            final(self).data == old(self).data,
            final(self).metadata_map == old(self).metadata_map,
            final(self).stack_map == old(self).stack_map,
            final(self).trace_info == old(self).trace_info,
            final(self).cur_event_blob_iter == old(self).cur_event_blob_iter,
            old(self).pos < p <= old(self).data@.len() ==> (r is Ok && final(self).pos == p),
            !(old(self).pos < p <= old(self).data@.len()) ==> (r is Err && final(self).pos == old(self).pos),
    {
        if self.pos < p && p <= self.data.len() {
            self.pos = p;
            Ok(())
        } else {
            Err(EventPipeError::Malformed)
        }
    }

    /// Reads the end-object tag that closes every object.
    fn read_object_end(&mut self) -> (r: Result<(), EventPipeError>)
        ensures
            final(self).data == old(self).data,
            final(self).metadata_map == old(self).metadata_map,
            final(self).stack_map == old(self).stack_map,
            final(self).trace_info == old(self).trace_info,
            final(self).cur_event_blob_iter == old(self).cur_event_blob_iter,
            (old(self).pos < old(self).data@.len() && old(self).data@[old(self).pos as int] == 6)
                ==> (r is Ok && final(self).pos == old(self).pos + 1),
            !(old(self).pos < old(self).data@.len() && old(self).data@[old(self).pos as int] == 6)
                ==> (r is Err && final(self).pos == old(self).pos),
    {
        let (tag, end) = match parse_tag(&self.data, self.pos) {
            Ok(v) => v,
            Err(e) => {
                return Err(e);
            },
        };
        if !matches!(tag, NettraceTag::EndObject) {
            return Err(EventPipeError::UnexpectedTag);
        }
        self.advance_to(end)
    }

    /// Reads the next object's opening: `None` at the end-of-stream marker,
    /// otherwise the object's type object.
    fn advance_to_next_object(&mut self) -> (r: Result<
        Option<NettraceTypeObject>,
        EventPipeError,
    >)
        requires
            old(self).wf(),
        ensures
            final(self).wf(),
            final(self).data == old(self).data,
            final(self).metadata_map == old(self).metadata_map,
            final(self).stack_map == old(self).stack_map,
            final(self).trace_info == old(self).trace_info,
            final(self).cur_event_blob_iter == old(self).cur_event_blob_iter,
            final(self).pos >= old(self).pos,
            ({
                let s = old(self).data@;
                let i = old(self).pos as int;
                &&& (i < s.len() && s[i] == 1) ==> (r matches Ok(v) && v is None && final(self).pos
                    == i + 1)
                &&& (i < s.len() && s[i] == 5) ==> (type_object_at(s, i + 1) matches Some(te)
                    ==> (r matches Ok(v) && v matches Some(t) && t.name.bytes@ == te.0 && t.version
                    == te.1 && final(self).pos == te.3 && final(self).pos > old(self).pos))
                &&& (i < s.len() && s[i] == 5 && type_object_at(s, i + 1) is None) ==> r is Err
                &&& (i < s.len() && s[i] != 1 && s[i] != 5) ==> (r matches Err(e) && e
                    is UnexpectedTag)
                &&& i >= s.len() ==> (r matches Err(e) && e is Truncated)
                &&& r is Err ==> final(self).pos == old(self).pos
            }),
    {
        broadcast use crate::bytes::lemma_le_bytes_nonneg;

        let (tag, tag_end) = match parse_tag(&self.data, self.pos) {
            Ok(v) => v,
            Err(e) => {
                return Err(e);
            },
        };
        match tag {
            NettraceTag::NullReference => {
                match self.advance_to(tag_end) {
                    Ok(()) => Ok(None),
                    Err(e) => Err(e),
                }
            },
            NettraceTag::BeginPrivateObject => {
                let (obj, end) = match parse_type_object(&self.data, tag_end) {
                    Ok(v) => v,
                    Err(e) => {
                        return Err(e);
                    },
                };
                match self.advance_to(end) {
                    Ok(()) => Ok(Some(obj)),
                    Err(e) => Err(e),
                }
            },
            _ => Err(EventPipeError::UnexpectedTag),
        }
    }

    /// The trace-info object, parsed on demand: it is the first object of
    /// every stream, so if it has not been seen yet the next object must be
    /// a `Trace` object.
    pub fn trace_info(&mut self) -> (r: Result<NettraceTraceObject, EventPipeError>)
        requires
            old(self).wf(),
        ensures
            final(self).wf(),
            final(self).stream() == old(self).stream(),
            final(self).metadata() == old(self).metadata(),
            final(self).stacks() == old(self).stacks(),
            old(self).info() matches Some(t) ==> (r matches Ok(v) && v == t && *final(self) == *old(self)),
            r matches Ok(v) ==> final(self).info() == Some(v),
            ({
                let s = old(self).stream();
                let i = old(self).position();
                (old(self).info() is None && i < s.len() && s[i] == 5) ==> (type_object_at(
                    s,
                    i + 1,
                ) matches Some(te) ==> ((te.0 == name_trace() && te.3 + 48 < s.len() && s[te.3
                    + 48] == 6) ==> (r matches Ok(v) && trace_object_matches(s, te.3, v))))
            }),
    {
        if let Some(t) = &self.trace_info {
            let r = *t;
            return Ok(r);
        }
        let obj = match self.advance_to_next_object() {
            Ok(Some(o)) => o,
            Ok(None) => {
                return Err(EventPipeError::Malformed);
            },
            Err(e) => {
                return Err(e);
            },
        };
        if !bytes_eq(&obj.name.bytes, &make_name_trace()) {
            return Err(EventPipeError::Malformed);
        }
        let (t, end) = match parse_trace_object(&self.data, self.pos) {
            Ok(v) => v,
            Err(e) => {
                return Err(e);
            },
        };
        match self.advance_to(end) {
            Ok(()) => (),
            Err(e) => {
                return Err(e);
            },
        }
        self.trace_info = Some(t);
        match self.read_object_end() {
            Ok(()) => (),
            Err(e) => {
                return Err(e);
            },
        }
        Ok(t)
    }

    /// Builds a raw event from a blob header and payload: the schema comes
    /// from the metadata registry, which must know the header's metadata id;
    /// the stack comes from the stack registry, an unregistered id giving an
    /// empty stack.
    fn parse_event(&self, header: EventBlobHeader, payload: Vec<u8>) -> (r: Result<
        NettraceEvent,
        EventPipeError,
    >)
        ensures
            self.metadata().contains_key(header.metadata_id) ==> (r matches Ok(ev)
                && event_matches_schema(self.metadata()[header.metadata_id], ev)
                && event_matches_header(header.view(), ev) && stack_resolved(
                self.stacks(),
                header.stack_id,
                ev,
            ) && ev.payload@ == payload@),
            !self.metadata().contains_key(header.metadata_id) ==> (r matches Err(e) && e matches
                EventPipeError::MissingMetadata(id) && id == header.metadata_id),
    {
        let def = match self.metadata_map.get(header.metadata_id) {
            Some(d) => d,
            None => {
                return Err(EventPipeError::MissingMetadata(header.metadata_id));
            },
        };
        let event_name = if def.event_name.as_str().is_empty() {
            None
        } else {
            Some(def.event_name.clone())
        };
        let stack = match self.stack_map.get(header.stack_id) {
            Some(v) => copy_u64s(v),
            None => Vec::new(),
        };
        Ok(NettraceEvent {
            provider_name: def.provider_name.clone(),
            event_id: def.event_id,
            event_name,
            event_keywords: def.keywords,
            event_version: def.version,
            event_level: def.level,
            event_opcode: def.opcode,
            sequence_number: header.sequence_number,
            thread_id: header.thread_id,
            capture_thread_id: header.capture_thread_id,
            processor_number: if header.processor_number != u32::MAX {
                Some(header.processor_number)
            } else {
                None
            },
            stack,
            timestamp: header.timestamp,
            activity_id: header.activity_id,
            related_activity_id: header.related_activity_id,
            payload,
        })
    }

    /// Parses one metadata blob payload and registers the definition under
    /// its id: the registry gains exactly that schema, with every other id
    /// untouched.
    pub fn register_metadata_blob(&mut self, payload: Vec<u8>) -> (r: Result<(), EventPipeError>)
        ensures
            final(self).stream() == old(self).stream(),
            final(self).position() == old(self).position(),
            final(self).stacks() == old(self).stacks(),
            final(self).info() == old(self).info(),
            block_state_eq(*final(self), *old(self)),
            forall|k: u32|
                old(self).metadata().contains_key(k) ==> final(self).metadata().contains_key(k),
            metadata_blob_parses(payload@) ==> (r is Ok && schema_registered(
                final(self).metadata(),
                payload@,
            ) && (forall|k: u32|
                #![all_triggers]
                k != (blob_schema_id(payload@) % 0x1_0000_0000) as u32 ==> ((final(self).metadata().contains_key(k) <==> old(self).metadata().contains_key(k))
                    && (old(self).metadata().contains_key(k) ==> final(self).metadata()[k]
                    == old(self).metadata()[k])))),
            !metadata_blob_parses(payload@) ==> (r is Err && final(self).metadata()
                == old(self).metadata()),
    {
        proof {
            reveal(metadata_blob_parses);
            reveal(blob_schema_id);
            reveal(schema_registered);
        }
        let def = match parse_metadata_blob(&payload) {
            Ok(v) => v,
            Err(e) => {
                return Err(e);
            },
        };
        self.metadata_map.insert(def.id, def);
        Ok(())
    }

    /// Registers a stack block's stacks: ids `first_id`, `first_id + 1`, …
    /// map to exactly the block's address vectors, and every other id keeps
    /// its entry.
    pub fn register_stack_block(&mut self, sb: &StackBlock) -> (r: Result<(), EventPipeError>)
        ensures
            final(self).stream() == old(self).stream(),
            final(self).position() == old(self).position(),
            final(self).metadata() == old(self).metadata(),
            final(self).info() == old(self).info(),
            block_state_eq(*final(self), *old(self)),
            (sb.stacks@.len() <= 0xFFFF_FFFF && sb.first_id + sb.stacks@.len() <= 0x1_0000_0000)
                ==> (r is Ok && (forall|k2: int|
                #![trigger sb.stacks@[k2]]
                0 <= k2 < sb.stacks@.len() ==> (final(self).stacks().contains_key(
                    (sb.first_id + k2) as u32,
                ) && final(self).stacks()[(sb.first_id + k2) as u32]@ == sb.stacks@[k2].stack@))
                && (forall|k: u32|
                #![all_triggers]
                !(sb.first_id <= k && k < sb.first_id + sb.stacks@.len()) ==> ((final(self).stacks().contains_key(k) <==> old(self).stacks().contains_key(k)) && (old(self).stacks().contains_key(k) ==> final(self).stacks()[k] == old(self).stacks()[k])))),
            !(sb.stacks@.len() <= 0xFFFF_FFFF && sb.first_id + sb.stacks@.len() <= 0x1_0000_0000)
                ==> (r is Err && final(self).stacks() == old(self).stacks()),
    {
        let mut k: usize = 0;
        let n = sb.stacks.len();
        if n > u32::MAX as usize || (n > 0 && sb.first_id as u64 + (n - 1) as u64
            > u32::MAX as u64) {
            return Err(EventPipeError::Malformed);
        }
        let ghost start = *self;
        #[verifier::loop_isolation(false)]
        while k < n
            invariant
                k <= n,
                self.data == start.data,
                self.pos == start.pos,
                self.metadata_map == start.metadata_map,
                self.trace_info == start.trace_info,
                self.cur_event_blob_iter == start.cur_event_blob_iter,
                forall|kk: u32|
                    #![trigger self.stacks().contains_key(kk)]
                    (sb.first_id <= kk && kk < sb.first_id + k) ==> (self.stacks().contains_key(kk)
                        && self.stacks()[kk]@ == sb.stacks@[kk - sb.first_id].stack@),
                forall|kk: u32|
                    #![all_triggers]
                    !(sb.first_id <= kk && kk < sb.first_id + k) ==> ((self.stacks().contains_key(
                        kk,
                    ) <==> start.stacks().contains_key(kk)) && (start.stacks().contains_key(kk)
                        ==> self.stacks()[kk] == start.stacks()[kk])),
            decreases n - k,
        {
            let ghost pre = self.stacks();
            let id = sb.first_id + (k as u32);
            self.stack_map.insert(id, copy_u64s(&sb.stacks[k].stack));
            proof {
                assert(self.stacks() == pre.insert(id, self.stacks()[id]));
                assert forall|kk: u32|
                    sb.first_id <= kk && kk < sb.first_id + (k + 1) implies (
                self.stacks().contains_key(kk) && self.stacks()[kk]@ == sb.stacks@[kk
                    - sb.first_id].stack@) by {
                    if kk < sb.first_id + k {
                        assert(pre.contains_key(kk));
                        assert(kk != id);
                    } else {
                        assert(kk == id);
                        assert(kk - sb.first_id == k);
                    }
                }
            }
            k = k + 1;
        }
        proof {
            assert forall|k2: int|
                0 <= k2 < sb.stacks@.len() implies (self.stacks().contains_key(
                (sb.first_id + k2) as u32,
            ) && self.stacks()[(sb.first_id + k2) as u32]@ == (
            #[trigger] sb.stacks@[k2]).stack@) by {
                let kk = (sb.first_id + k2) as u32;
                assert(self.stacks().contains_key(kk) && self.stacks()[kk]@ == sb.stacks@[kk
                    - sb.first_id].stack@);
                assert(kk - sb.first_id == k2);
            }
        }
        Ok(())
    }

    /// Feeds every blob of a metadata block through the metadata parser and
    /// registers the definitions under their ids: when the whole block
    /// decodes, every blob's schema stands in the registry, the last blob
    /// of each id deciding that id's schema.
    #[verifier::rlimit(100)]
    #[verifier::spinoff_prover]
    pub fn handle_metadata_block(&mut self, iter: EventBlobIter) -> (r: Result<(), EventPipeError>)
        requires
            iter.wf(),
        ensures
            final(self).stream() == old(self).stream(),
            final(self).position() == old(self).position(),
            final(self).stacks() == old(self).stacks(),
            final(self).info() == old(self).info(),
            block_state_eq(*final(self), *old(self)),
            forall|k: u32|
                old(self).metadata().contains_key(k) ==> final(self).metadata().contains_key(k),
            match blob_payloads(
                iter.data@,
                iter.pos as int,
                iter.prev_header.view(),
                iter.compressed_headers,
                iter.blob_size as int,
            ) {
                None => r is Err,
                Some(pays) => {
                    &&& ((forall|j: int|
                        0 <= j < pays.len() ==> metadata_blob_parses(#[trigger] pays[j])) ==> r
                        is Ok)
                    &&& (r is Ok ==> (forall|j: int|
                        0 <= j < pays.len() ==> metadata_blob_parses(#[trigger] pays[j])))
                    &&& (r is Ok ==> (forall|j: int|
                        0 <= j < pays.len() ==> final(self).metadata().contains_key(
                            (blob_schema_id(#[trigger] pays[j]) % 0x1_0000_0000) as u32,
                        )))
                    &&& (r is Ok ==> (forall|j: int|
                        0 <= j < pays.len() ==> ((forall|j2: int|
                            j < j2 < pays.len() ==> blob_schema_id(#[trigger] pays[j2])
                                != blob_schema_id(pays[j])) ==> schema_registered(
                            final(self).metadata(),
                            #[trigger] pays[j],
                        ))))
                },
            },
    {
        let mut it = iter;
        let ghost whole = blob_payloads(
            iter.data@,
            iter.pos as int,
            iter.prev_header.view(),
            iter.compressed_headers,
            iter.blob_size as int,
        );
        let ghost mut k: int = 0;
        loop
            invariant
                it.wf(),
                it.data@ == iter.data@,
                it.compressed_headers == iter.compressed_headers,
                it.blob_size == iter.blob_size,
                whole == blob_payloads(
                    iter.data@,
                    iter.pos as int,
                    iter.prev_header.view(),
                    iter.compressed_headers,
                    iter.blob_size as int,
                ),
                self.stream() == old(self).stream(),
                self.position() == old(self).position(),
                self.stacks() == old(self).stacks(),
                self.info() == old(self).info(),
                block_state_eq(*self, *old(self)),
                forall|kk: u32|
                    old(self).metadata().contains_key(kk) ==> self.metadata().contains_key(kk),
                match blob_payloads(
                    it.data@,
                    it.pos as int,
                    it.prev_header.view(),
                    it.compressed_headers,
                    it.blob_size as int,
                ) {
                    None => whole is None,
                    Some(rest) => (whole matches Some(pays) && 0 <= k <= pays.len() && rest
                        == pays.skip(k)),
                },
                whole matches Some(pays) ==> (forall|j: int|
                    0 <= j < k ==> metadata_blob_parses(#[trigger] pays[j])),
                whole matches Some(pays) ==> (forall|j: int|
                    0 <= j < k ==> self.metadata().contains_key(
                        (blob_schema_id(#[trigger] pays[j]) % 0x1_0000_0000) as u32,
                    )),
                whole matches Some(pays) ==> (forall|j: int|
                    0 <= j < k ==> ((forall|j2: int|
                        j < j2 < k ==> blob_schema_id(#[trigger] pays[j2]) != blob_schema_id(
                            pays[j],
                        )) ==> schema_registered(self.metadata(), #[trigger] pays[j]))),
            decreases it.blob_size + 4 - it.pos,
        {
            let ghost it0 = it;
            let ghost cur = blob_payloads(
                it.data@,
                it.pos as int,
                it.prev_header.view(),
                it.compressed_headers,
                it.blob_size as int,
            );
            let step = match it.next() {
                Ok(v) => v,
                Err(e) => {
                    proof {
                        lemma_blob_payloads_step(
                            it0.data@,
                            it0.pos as int,
                            it0.prev_header.view(),
                            it0.compressed_headers,
                            it0.blob_size as int,
                        );
                        assert(cur is None);
                    }
                    return Err(e);
                },
            };
            let (_h, payload) = match step {
                Some(v) => v,
                None => {
                    proof {
                        lemma_blob_payloads_end(
                            it0.data@,
                            it0.pos as int,
                            it0.prev_header.view(),
                            it0.compressed_headers,
                            it0.blob_size as int,
                        );
                        if let Some(pays) = whole {
                            assert(pays.skip(k) =~= Seq::<Seq<u8>>::empty());
                            assert(k == pays.len());
                        }
                    }
                    return Ok(());
                },
            };
            proof {
                lemma_blob_payloads_step(
                    it0.data@,
                    it0.pos as int,
                    it0.prev_header.view(),
                    it0.compressed_headers,
                    it0.blob_size as int,
                );
                if it.pos < it.blob_size {
                } else {
                    lemma_blob_payloads_end(
                        it.data@,
                        it.pos as int,
                        it.prev_header.view(),
                        it.compressed_headers,
                        it.blob_size as int,
                    );
                }
                let st = blob_at(
                    it0.data@,
                    it0.pos as int,
                    it0.prev_header.view(),
                    it0.compressed_headers,
                )->Some_0;
                assert(payload@ == st.1);
                assert(it.pos == st.2);
                assert(it.prev_header.view() == (if it0.compressed_headers {
                    st.0
                } else {
                    it0.prev_header.view()
                }));
                let after = blob_payloads(
                    it.data@,
                    it.pos as int,
                    it.prev_header.view(),
                    it.compressed_headers,
                    it.blob_size as int,
                );
                if st.2 >= it0.blob_size {
                    assert(cur == Some(seq![st.1]));
                    assert(after == Some(Seq::<Seq<u8>>::empty()));
                } else {
                    assert(cur == (match after {
                        None => None::<Seq<Seq<u8>>>,
                        Some(rest2) => Some(seq![st.1] + rest2),
                    }));
                }
                if let Some(pays) = whole {
                    assert(cur == Some(pays.skip(k)));
                    assert(pays.skip(k)[0] == payload@);
                    assert(pays[k] == payload@);
                    if st.2 >= it0.blob_size {
                        assert(pays.skip(k).len() == 1);
                        assert(k + 1 == pays.len());
                        assert(after matches Some(rest2) && rest2 =~= pays.skip(k + 1));
                    } else {
                        let rest2 = after->Some_0;
                        assert(after is Some);
                        assert(pays.skip(k) == seq![st.1] + rest2);
                        assert(pays.skip(k).len() == 1 + rest2.len());
                        assert forall|i: int| 0 <= i < rest2.len() implies rest2[i] == pays.skip(
                            k + 1,
                        )[i] by {
                            assert(rest2[i] == (seq![st.1] + rest2)[i + 1]);
                            assert(pays.skip(k)[i + 1] == pays[k + 1 + i]);
                            assert(pays.skip(k + 1)[i] == pays[k + 1 + i]);
                        }
                        assert(rest2 =~= pays.skip(k + 1));
                    }
                } else {
                    assert(cur is None);
                    if st.2 >= it0.blob_size {
                        assert(false);
                    } else {
                        assert(after is None);
                    }
                }
            }
            let ghost pre_meta = self.metadata();
            match self.register_metadata_blob(payload) {
                Ok(()) => (),
                Err(e) => {
                    return Err(e);
                },
            }
            proof {
                if let Some(pays) = whole {
                    assert(payload@ == pays[k]);
                    assert(metadata_blob_parses(pays[k]));
                    assert(schema_registered(self.metadata(), pays[k]));
                    lemma_schema_registered_contains(self.metadata(), pays[k]);
                    assert(forall|kk: u32|
                        #![all_triggers]
                        kk != (blob_schema_id(pays[k]) % 0x1_0000_0000) as u32 ==> ((
                        self.metadata().contains_key(kk) <==> pre_meta.contains_key(kk)) && (
                        pre_meta.contains_key(kk) ==> self.metadata()[kk] == pre_meta[kk])));
                    lemma_registration_extend(pre_meta, self.metadata(), pays, k);
                    k = k + 1;
                }
            }
        }
    }

    /// Pulls the next raw event: advances the active event block if one is
    /// open, and otherwise reads objects, folding metadata and stack blocks
    /// into the registries, until an event block or the end-of-stream
    /// marker.
    pub fn next_event(&mut self) -> (r: Result<Option<NettraceEvent>, EventPipeError>)
        requires
            old(self).wf(),
        ensures
            final(self).wf(),
            final(self).stream() == old(self).stream(),
            forall|k: u32|
                #![all_triggers]
                old(self).metadata().contains_key(k) ==> final(self).metadata().contains_key(k),
            forall|k: u32|
                #![all_triggers]
                old(self).stacks().contains_key(k) ==> final(self).stacks().contains_key(k),
            r matches Ok(Some(ev)) ==> event_well_formed(
                final(self).metadata(),
                final(self).stacks(),
                ev,
            ),
            (old(self).has_block() && old(self).block_pos() < old(self).block_limit()) ==> match
                blob_at(
                old(self).block_data(),
                old(self).block_pos(),
                old(self).block_prev(),
                old(self).block_compressed(),
            ) {
                Some(st) => {
                    if old(self).metadata().contains_key(st.0.metadata_id as u32) {
                        r matches Ok(Some(ev)) && event_matches_schema(
                            old(self).metadata()[st.0.metadata_id as u32],
                            ev,
                        ) && event_matches_header(st.0, ev) && ev.payload@ == st.1
                            && stack_resolved(old(self).stacks(), st.0.stack_id as u32, ev)
                    } else {
                        r matches Err(e) && e matches EventPipeError::MissingMetadata(id) && id
                            == st.0.metadata_id as u32
                    }
                },
                None => r is Err,
            },
            !old(self).has_block() ==> dispatch_step_ok(*old(self), *final(self), r),
            (old(self).has_block() && old(self).block_pos() >= old(self).block_limit() && old(self).position() + 1 < old(self).stream().len() && old(self).stream()[old(self).position()] == 6 && old(self).stream()[old(self).position() + 1] == 1) ==> (r matches
                Ok(v) && v is None),
        decreases old(self).stream().len() - old(self).position(), 1int,
    {
        if self.cur_event_blob_iter.is_some() {
            let mut it = match self.cur_event_blob_iter.take() {
                Some(it) => it,
                None => vstd::pervasive::unreached(),
            };
            let step = match it.next() {
                Ok(v) => v,
                Err(e) => {
                    self.cur_event_blob_iter = Some(it);
                    return Err(e);
                },
            };
            match step {
                Some((header, payload)) => {
                    self.cur_event_blob_iter = Some(it);
                    let ghost mid = header.metadata_id;
                    let ev = match self.parse_event(header, payload) {
                        Ok(v) => v,
                        Err(e) => {
                            return Err(e);
                        },
                    };
                    proof {
                        assert(self.metadata().contains_key(mid));
                    }
                    return Ok(Some(ev));
                },
                None => {
                    match self.read_object_end() {
                        Ok(()) => (),
                        Err(e) => {
                            return Err(e);
                        },
                    }
                    return self.next_object_event();
                },
            }
        }
        self.next_object_event()
    }

    /// Reads and dispatches objects until an event block yields an event or
    /// the stream ends.
    #[verifier::rlimit(100)]
    #[verifier::spinoff_prover]
    fn next_object_event(&mut self) -> (r: Result<Option<NettraceEvent>, EventPipeError>)
        requires
            old(self).wf(),
            !old(self).has_block(),
        ensures
            final(self).wf(),
            final(self).stream() == old(self).stream(),
            forall|k: u32|
                #![all_triggers]
                old(self).metadata().contains_key(k) ==> final(self).metadata().contains_key(k),
            forall|k: u32|
                #![all_triggers]
                old(self).stacks().contains_key(k) ==> final(self).stacks().contains_key(k),
            r matches Ok(Some(ev)) ==> event_well_formed(
                final(self).metadata(),
                final(self).stacks(),
                ev,
            ),
            dispatch_step_ok(*old(self), *final(self), r),
        decreases old(self).stream().len() - old(self).position(), 0int,
    {
        proof {
            lemma_names_distinct();
        }
        let obj = match self.advance_to_next_object() {
            Ok(v) => v,
            Err(e) => {
                return Err(e);
            },
        };
        let obj = match obj {
            Some(o) => o,
            None => {
                return Ok(None);
            },
        };
        if bytes_eq(&obj.name.bytes, &make_name_trace()) {
            let (t, end) = match parse_trace_object(&self.data, self.pos) {
                Ok(v) => v,
                Err(e) => {
                    return Err(e);
                },
            };
            match self.advance_to(end) {
                Ok(()) => (),
                Err(e) => {
                    return Err(e);
                },
            }
            self.trace_info = Some(t);
            match self.read_object_end() {
                Ok(()) => (),
                Err(e) => {
                    return Err(e);
                },
            }
            self.next_object_event()
        } else if bytes_eq(&obj.name.bytes, &make_name_metadata_block()) {
            let it = match self.open_block() {
                Ok(v) => v,
                Err(e) => {
                    return Err(e);
                },
            };
            let ghost pre_handle = *self;
            match self.handle_metadata_block(it) {
                Ok(()) => (),
                Err(e) => {
                    return Err(e);
                },
            }
            proof {
                assert(pre_handle.metadata() == old(self).metadata());
                assert(forall|kq: u32|
                    old(self).metadata().contains_key(kq) ==> self.metadata().contains_key(kq));
            }
            match self.read_object_end() {
                Ok(()) => (),
                Err(e) => {
                    return Err(e);
                },
            }
            self.next_object_event()
        } else if bytes_eq(&obj.name.bytes, &make_name_stack_block()) {
            let ghost sb_pos = self.pos as int;
            let (sb, end) = match parse_stack_block(&self.data, self.pos) {
                Ok(v) => v,
                Err(e) => {
                    return Err(e);
                },
            };
            match self.advance_to(end) {
                Ok(()) => (),
                Err(e) => {
                    return Err(e);
                },
            }
            let ghost pre_stacks = self.stacks();
            match self.register_stack_block(&sb) {
                Ok(()) => (),
                Err(e) => {
                    return Err(e);
                },
            }
            proof {
                assert forall|kk: u32|
                    pre_stacks.contains_key(kk) implies self.stacks().contains_key(kk) by {
                    if sb.first_id <= kk && (kk as int) < sb.first_id + sb.stacks@.len() {
                        let k2 = kk - sb.first_id;
                        let ghost w = sb.stacks@[k2 as int];
                        assert(self.stacks().contains_key((sb.first_id + k2) as u32));
                        assert((sb.first_id + k2) as u32 == kk);
                    }
                }
            }
            let ghost after_fold = *self;
            proof {
                let s = old(self).stream();
                if let Some(se) = stack_block_at(s, sb_pos) {
                    assert forall|k2: int|
                        0 <= k2 < se.1.len() implies #[trigger] after_fold.stacks().contains_key(
                        (se.0 + k2) as u32,
                    ) by {
                        assert(se.0 == sb.first_id && se.1.len() == sb.stacks@.len());
                        let ghost w = sb.stacks@[k2];
                        assert(self.stacks().contains_key((sb.first_id + k2) as u32));
                    }
                }
            }
            match self.read_object_end() {
                Ok(()) => (),
                Err(e) => {
                    return Err(e);
                },
            }
            let ghost before_rec = *self;
            proof {
                assert(before_rec.stacks() == after_fold.stacks());
            }
            let res = self.next_object_event();
            proof {
                if let Some(se) = stack_block_at(old(self).stream(), sb_pos) {
                    assert forall|k2: int|
                        0 <= k2 < se.1.len() implies #[trigger] self.stacks().contains_key(
                        (se.0 + k2) as u32,
                    ) by {
                        assert(after_fold.stacks().contains_key((se.0 + k2) as u32));
                        assert(before_rec.stacks().contains_key((se.0 + k2) as u32));
                    }
                }
            }
            res
        } else if bytes_eq(&obj.name.bytes, &make_name_sp_block()) {
            let (_sp, end) = match parse_sequence_point_block(&self.data, self.pos) {
                Ok(v) => v,
                Err(e) => {
                    return Err(e);
                },
            };
            match self.advance_to(end) {
                Ok(()) => (),
                Err(e) => {
                    return Err(e);
                },
            }
            match self.read_object_end() {
                Ok(()) => (),
                Err(e) => {
                    return Err(e);
                },
            }
            self.next_object_event()
        } else if bytes_eq(&obj.name.bytes, &make_name_event_block()) {
            let it = match self.open_block() {
                Ok(v) => v,
                Err(e) => {
                    return Err(e);
                },
            };
            self.cur_event_blob_iter = Some(it);
            self.next_event()
        } else {
            Err(EventPipeError::UnknownObjectType)
        }
    }

    /// Reads a block introducer at the cursor and copies the block's bytes
    /// into a fresh iterator.
    fn open_block(&mut self) -> (r: Result<EventBlobIter, EventPipeError>)
        requires
            old(self).wf(),
        ensures
            final(self).data == old(self).data,
            final(self).metadata_map == old(self).metadata_map,
            final(self).stack_map == old(self).stack_map,
            final(self).trace_info == old(self).trace_info,
            final(self).cur_event_blob_iter == old(self).cur_event_blob_iter,
            final(self).pos <= final(self).data@.len(),
            r matches Ok(it) ==> (it.wf() && final(self).pos > old(self).pos && it.pos == 0
                && it.prev_header.view() == empty_header_spec()),
            r is Err ==> final(self).pos == old(self).pos,
            event_block_at(old(self).data@, old(self).pos as int) is None ==> r is Err,
            event_block_at(old(self).data@, old(self).pos as int) matches Some(be) ==> ({
                &&& be.0.size < be.0.header.size ==> r is Err
                &&& (be.0.size >= be.0.header.size && be.1 + (be.0.size - be.0.header.size)
                    <= old(self).data@.len()) ==> (r matches Ok(it) && it.data@ == old(self).data@.subrange(be.1, be.1 + (be.0.size - be.0.header.size)) && it.blob_size
                    == be.0.size - be.0.header.size && it.compressed_headers == ((
                be.0.header.flags & 1) != 0) && final(self).pos == be.1 + (be.0.size
                    - be.0.header.size))
                &&& (be.0.size >= be.0.header.size && be.1 + (be.0.size - be.0.header.size) > old(self).data@.len()) ==> r is Err
            }),
    {
        let (block, dstart) = match parse_event_block(&self.data, self.pos) {
            Ok(v) => v,
            Err(e) => {
                return Err(e);
            },
        };
        if block.size < block.header.size as u32 {
            return Err(EventPipeError::Malformed);
        }
        let dlen = (block.size - block.header.size as u32) as usize;
        let (bytes, dend) = match read_bytes(&self.data, dstart, dlen) {
            Ok(v) => v,
            Err(e) => {
                return Err(e);
            },
        };
        match self.advance_to(dend) {
            Ok(()) => (),
            Err(e) => {
                return Err(e);
            },
        }
        let it = match EventBlobIter::new(block, bytes) {
            Ok(v) => v,
            Err(e) => {
                return Err(e);
            },
        };
        Ok(it)
    }
}

} // verus!
