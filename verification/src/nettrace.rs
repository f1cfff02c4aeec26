//! The `.nettrace` object-stream layer: file magic, tags, type objects, the
//! trace-info object, block headers, stack blocks and sequence-point blocks.
//!
//! Each wire shape has a spec-level decoder over the byte sequence and an
//! executable parser proved to return exactly what the spec decoder says.
use vstd::prelude::*;

use crate::EventPipeError;
use crate::bytes::{le_bytes, read_bytes, read_u16, read_u32, read_u64, read_u8};
use crate::text::{char_from_u32, push_char};

verus! {

/// The eight magic bytes `Nettrace` that begin every stream.
pub open spec fn nettrace_magic() -> Seq<u8> {
    seq![0x4eu8, 0x65u8, 0x74u8, 0x74u8, 0x72u8, 0x61u8, 0x63u8, 0x65u8]
}

/// The serialization ident `!FastSerialization.1` that must follow the magic.
pub open spec fn fast_serialization_ident() -> Seq<u8> {
    seq![
        0x21u8,
        0x46u8,
        0x61u8,
        0x73u8,
        0x74u8,
        0x53u8,
        0x65u8,
        0x72u8,
        0x69u8,
        0x61u8,
        0x6cu8,
        0x69u8,
        0x7au8,
        0x61u8,
        0x74u8,
        0x69u8,
        0x6fu8,
        0x6eu8,
        0x2eu8,
        0x31u8,
    ]
}

/// A length-prefixed byte string of the object stream.
#[derive(Debug)]
pub struct NettraceString {
    pub length: u32,
    pub bytes: Vec<u8>,
}

impl NettraceString {
    /// The bytes as text; the names in the object stream are ASCII.
    pub fn as_str(&self) -> (r: String)
        requires
            forall|j: int| 0 <= j < self.bytes@.len() ==> self.bytes@[j] < 128,
        ensures
            r@.len() == self.bytes@.len(),
            forall|j: int| 0 <= j < r@.len() ==> r@[j] as u32 == self.bytes@[j] as u32,
    {
        let mut out = String::new();
        let mut i: usize = 0;
        while i < self.bytes.len()
            invariant
                i <= self.bytes@.len(),
                forall|j: int| 0 <= j < self.bytes@.len() ==> self.bytes@[j] < 128,
                out@.len() == i,
                forall|j: int| 0 <= j < i ==> out@[j] as u32 == self.bytes@[j] as u32,
            decreases self.bytes@.len() - i,
        {
            let b = self.bytes[i];
            let c = match char_from_u32(b as u32) {
                Some(c) => c,
                None => vstd::pervasive::unreached(),
            };
            push_char(&mut out, c);
            i = i + 1;
        }
        out
    }
}

/// The length-prefixed byte string at `i`: its bytes and end position.
pub open spec fn nettrace_string_at(s: Seq<u8>, i: int) -> Option<(Seq<u8>, int)> {
    if i < 0 || i + 4 > s.len() {
        None
    } else {
        let n = le_bytes(s, i, 4);
        if i + 4 + n > s.len() {
            None
        } else {
            Some((s.subrange(i + 4, i + 4 + n), i + 4 + n))
        }
    }
}

pub fn parse_nettrace_string(d: &Vec<u8>, pos: usize) -> (r: Result<
    (NettraceString, usize),
    EventPipeError,
>)
    ensures
        nettrace_string_at(d@, pos as int) matches Some(ne) ==> (r matches Ok((v, end))
            && v.bytes@ == ne.0 && v.length == ne.0.len() && end == ne.1),
        nettrace_string_at(d@, pos as int) is None ==> (r matches Err(e) && e is Truncated),
{
    let (n, p) = match read_u32(d, pos) {
        Ok(v) => v,
        Err(e) => {
            return Err(e);
        },
    };
    let (bytes, end) = match read_bytes(d, p, n as usize) {
        Ok(v) => v,
        Err(e) => {
            return Err(e);
        },
    };
    Ok((NettraceString { length: n, bytes }, end))
}

/// The framing tags of the object stream.
#[derive(Debug, PartialEq, Eq, Structural, Clone, Copy)]
pub enum NettraceTag {
    Invalid,
    NullReference,
    BeginPrivateObject,
    EndObject,
}

/// The wire byte of each tag; unknown bytes map to `Invalid`.
pub open spec fn tag_of_byte(b: u8) -> NettraceTag {
    if b == 1 {
        NettraceTag::NullReference
    } else if b == 5 {
        NettraceTag::BeginPrivateObject
    } else if b == 6 {
        NettraceTag::EndObject
    } else {
        NettraceTag::Invalid
    }
}

pub fn parse_tag(d: &Vec<u8>, pos: usize) -> (r: Result<(NettraceTag, usize), EventPipeError>)
    ensures
        pos < d@.len() ==> (r matches Ok((t, end)) && t == tag_of_byte(d@[pos as int]) && end == pos
            + 1),
        pos >= d@.len() ==> (r matches Err(e) && e is Truncated),
{
    let (b, end) = match read_u8(d, pos) {
        Ok(v) => v,
        Err(e) => {
            return Err(e);
        },
    };
    let t = if b == 1 {
        NettraceTag::NullReference
    } else if b == 5 {
        NettraceTag::BeginPrivateObject
    } else if b == 6 {
        NettraceTag::EndObject
    } else {
        NettraceTag::Invalid
    };
    Ok((t, end))
}

/// A type object introduces each object's body: begin tag, null tag, two
/// version words, the type name, and an end tag.
#[derive(Debug)]
pub struct NettraceTypeObject {
    pub version: u32,
    pub minimum_reader_version: u32,
    pub name: NettraceString,
    pub end_object: NettraceTag,
}

/// The type object at `i`: `(name bytes, version, minimum reader version,
/// end position)`.
pub open spec fn type_object_at(s: Seq<u8>, i: int) -> Option<(Seq<u8>, int, int, int)> {
    if i < 0 || i + 10 > s.len() || s[i] != 5 || s[i + 1] != 1 {
        None
    } else {
        let version = le_bytes(s, i + 2, 4);
        let minver = le_bytes(s, i + 6, 4);
        match nettrace_string_at(s, i + 10) {
            None => None,
            Some(ne) => {
                if ne.1 < s.len() && s[ne.1] == 6 {
                    Some((ne.0, version, minver, ne.1 + 1))
                } else {
                    None
                }
            },
        }
    }
}

pub fn parse_type_object(d: &Vec<u8>, pos: usize) -> (r: Result<
    (NettraceTypeObject, usize),
    EventPipeError,
>)
    ensures
        type_object_at(d@, pos as int) matches Some(te) ==> (r matches Ok((t, end))
            && t.name.bytes@ == te.0 && t.version == te.1 && t.minimum_reader_version == te.2
            && end == te.3),
        type_object_at(d@, pos as int) is None ==> r is Err,
{
    let (b0, _) = match read_u8(d, pos) {
        Ok(v) => v,
        Err(e) => {
            return Err(e);
        },
    };
    let (b1, _) = match read_u8(d, pos + 1) {
        Ok(v) => v,
        Err(e) => {
            return Err(e);
        },
    };
    if b0 != 5 || b1 != 1 {
        return Err(EventPipeError::UnexpectedTag);
    }
    let (version, p) = match read_u32(d, pos + 2) {
        Ok(v) => v,
        Err(e) => {
            return Err(e);
        },
    };
    let (minver, p) = match read_u32(d, p) {
        Ok(v) => v,
        Err(e) => {
            return Err(e);
        },
    };
    let (name, p) = match parse_nettrace_string(d, p) {
        Ok(v) => v,
        Err(e) => {
            return Err(e);
        },
    };
    let (tag, end) = match parse_tag(d, p) {
        Ok(v) => v,
        Err(e) => {
            return Err(e);
        },
    };
    if !matches!(tag, NettraceTag::EndObject) {
        return Err(EventPipeError::UnexpectedTag);
    }
    Ok((
        NettraceTypeObject {
            version,
            minimum_reader_version: minver,
            name: name,
            end_object: tag,
        },
        end,
    ))
}

/// Wall-clock sync time, one of the fields of the trace object.
#[derive(Debug, Clone, Copy, PartialEq, Eq, Structural)]
pub struct NettraceTime {
    pub year: u16,
    pub month: u16,
    pub day_of_week: u16,
    pub day: u16,
    pub hour: u16,
    pub minute: u16,
    pub second: u16,
    pub millisecond: u16,
}

/// The trace-info object: clock sync, QPC frequency, pointer size, process
/// id, processor count and sampling rate.
#[derive(Debug, Clone, Copy, PartialEq, Eq, Structural)]
pub struct NettraceTraceObject {
    pub sync_time_utc: NettraceTime,
    pub sync_time_qpc: u64,
    pub qpc_frequency: u64,
    pub pointer_size: u32,
    pub process_id: u32,
    pub number_of_processors: u32,
    pub expected_cpu_sampling_rate: u32,
}

/// The trace object occupies 48 bytes; this predicate pins every field to
/// its little-endian bytes.
pub open spec fn trace_object_matches(s: Seq<u8>, i: int, t: NettraceTraceObject) -> bool {
    &&& i >= 0
    &&& i + 48 <= s.len()
    &&& t.sync_time_utc.year == le_bytes(s, i, 2)
    &&& t.sync_time_utc.month == le_bytes(s, i + 2, 2)
    &&& t.sync_time_utc.day_of_week == le_bytes(s, i + 4, 2)
    &&& t.sync_time_utc.day == le_bytes(s, i + 6, 2)
    &&& t.sync_time_utc.hour == le_bytes(s, i + 8, 2)
    &&& t.sync_time_utc.minute == le_bytes(s, i + 10, 2)
    &&& t.sync_time_utc.second == le_bytes(s, i + 12, 2)
    &&& t.sync_time_utc.millisecond == le_bytes(s, i + 14, 2)
    &&& t.sync_time_qpc == le_bytes(s, i + 16, 8)
    &&& t.qpc_frequency == le_bytes(s, i + 24, 8)
    &&& t.pointer_size == le_bytes(s, i + 32, 4)
    &&& t.process_id == le_bytes(s, i + 36, 4)
    &&& t.number_of_processors == le_bytes(s, i + 40, 4)
    &&& t.expected_cpu_sampling_rate == le_bytes(s, i + 44, 4)
}

pub fn parse_trace_object(d: &Vec<u8>, pos: usize) -> (r: Result<
    (NettraceTraceObject, usize),
    EventPipeError,
>)
    ensures
        pos + 48 <= d@.len() ==> (r matches Ok((t, end)) && trace_object_matches(d@, pos as int, t)
            && end == pos + 48),
        pos + 48 > d@.len() ==> (r matches Err(e) && e is Truncated),
{
    if pos > d.len() || d.len() - pos < 48 {
        return Err(EventPipeError::Truncated);
    }
    let (year, p) = match read_u16(d, pos) {
        Ok(v) => v,
        Err(e) => {
            return Err(e);
        },
    };
    let (month, p) = match read_u16(d, p) {
        Ok(v) => v,
        Err(e) => {
            return Err(e);
        },
    };
    let (day_of_week, p) = match read_u16(d, p) {
        Ok(v) => v,
        Err(e) => {
            return Err(e);
        },
    };
    let (day, p) = match read_u16(d, p) {
        Ok(v) => v,
        Err(e) => {
            return Err(e);
        },
    };
    let (hour, p) = match read_u16(d, p) {
        Ok(v) => v,
        Err(e) => {
            return Err(e);
        },
    };
    let (minute, p) = match read_u16(d, p) {
        Ok(v) => v,
        Err(e) => {
            return Err(e);
        },
    };
    let (second, p) = match read_u16(d, p) {
        Ok(v) => v,
        Err(e) => {
            return Err(e);
        },
    };
    let (millisecond, p) = match read_u16(d, p) {
        Ok(v) => v,
        Err(e) => {
            return Err(e);
        },
    };
    let (sync_time_qpc, p) = match read_u64(d, p) {
        Ok(v) => v,
        Err(e) => {
            return Err(e);
        },
    };
    let (qpc_frequency, p) = match read_u64(d, p) {
        Ok(v) => v,
        Err(e) => {
            return Err(e);
        },
    };
    let (pointer_size, p) = match read_u32(d, p) {
        Ok(v) => v,
        Err(e) => {
            return Err(e);
        },
    };
    let (process_id, p) = match read_u32(d, p) {
        Ok(v) => v,
        Err(e) => {
            return Err(e);
        },
    };
    let (number_of_processors, p) = match read_u32(d, p) {
        Ok(v) => v,
        Err(e) => {
            return Err(e);
        },
    };
    let (expected_cpu_sampling_rate, end) = match read_u32(d, p) {
        Ok(v) => v,
        Err(e) => {
            return Err(e);
        },
    };
    Ok((
        NettraceTraceObject {
            sync_time_utc: NettraceTime {
                year,
                month,
                day_of_week,
                day,
                hour,
                minute,
                second,
                millisecond,
            },
            sync_time_qpc,
            qpc_frequency,
            pointer_size,
            process_id,
            number_of_processors,
            expected_cpu_sampling_rate,
        },
        end,
    ))
}

/// The position aligned up to the next multiple of four.
pub open spec fn align4(i: int) -> int {
    if i % 4 == 0 {
        i
    } else {
        i + (4 - i % 4)
    }
}

pub fn align4_up(pos: usize) -> (r: Result<usize, EventPipeError>)
    ensures
        align4(pos as int) <= usize::MAX ==> (r matches Ok(v) && v == align4(pos as int)),
        align4(pos as int) > usize::MAX ==> r is Err,
{
    let rem = pos % 4;
    if rem == 0 {
        Ok(pos)
    } else if pos <= usize::MAX - (4 - rem) {
        Ok(pos + (4 - rem))
    } else {
        Err(EventPipeError::Truncated)
    }
}

/// The inner header of an event or metadata block: header size, flags and
/// the block's timestamp range.
#[derive(Debug, Clone, Copy, PartialEq, Eq, Structural)]
pub struct NettraceEventBlockHeader {
    pub size: u16,
    pub flags: u16,
    pub min_timestamp: u64,
    pub max_timestamp: u64,
}

/// An event or metadata block: its byte size and inner header.
#[derive(Debug, Clone, Copy, PartialEq, Eq, Structural)]
pub struct NettraceEventBlock {
    pub size: u32,
    pub header: NettraceEventBlockHeader,
}

/// The block introducer at `i`: a size word, alignment to four bytes, and
/// the inner block header, whose own size says where the block data begins.
/// Yields the block and the position of the block data.
pub open spec fn event_block_at(s: Seq<u8>, i: int) -> Option<(NettraceEventBlock, int)> {
    if i < 0 || i + 4 > s.len() {
        None
    } else {
        let size = le_bytes(s, i, 4);
        let a = align4(i + 4);
        if a + 20 > s.len() {
            None
        } else {
            let hsize = le_bytes(s, a, 2);
            let flags = le_bytes(s, a + 2, 2);
            let min_ts = le_bytes(s, a + 4, 8);
            let max_ts = le_bytes(s, a + 12, 8);
            if hsize < 20 || a + hsize > s.len() {
                None
            } else {
                Some(
                    (
                        NettraceEventBlock {
                            size: size as u32,
                            header: NettraceEventBlockHeader {
                                size: hsize as u16,
                                flags: flags as u16,
                                min_timestamp: min_ts as u64,
                                max_timestamp: max_ts as u64,
                            },
                        },
                        a + hsize,
                    ),
                )
            }
        }
    }
}

/// Reads a block introducer: size, alignment padding, and the inner header
/// with its trailing padding skipped.
pub fn parse_event_block(d: &Vec<u8>, pos: usize) -> (r: Result<
    (NettraceEventBlock, usize),
    EventPipeError,
>)
    ensures
        event_block_at(d@, pos as int) matches Some(be) ==> (r matches Ok((b, end)) && b == be.0
            && end == be.1),
        event_block_at(d@, pos as int) is None ==> r is Err,
{
    let _ = d.len();
    assert(d@.len() <= usize::MAX);
    let (size, p) = match read_u32(d, pos) {
        Ok(v) => v,
        Err(e) => {
            return Err(e);
        },
    };
    let a = match align4_up(p) {
        Ok(v) => v,
        Err(e) => {
            return Err(e);
        },
    };
    let (hsize, p2) = match read_u16(d, a) {
        Ok(v) => v,
        Err(e) => {
            return Err(e);
        },
    };
    let (flags, p2) = match read_u16(d, p2) {
        Ok(v) => v,
        Err(e) => {
            return Err(e);
        },
    };
    let (min_timestamp, p2) = match read_u64(d, p2) {
        Ok(v) => v,
        Err(e) => {
            return Err(e);
        },
    };
    let (max_timestamp, _) = match read_u64(d, p2) {
        Ok(v) => v,
        Err(e) => {
            return Err(e);
        },
    };
    if hsize < 20 {
        return Err(EventPipeError::Malformed);
    }
    if (hsize as usize) > d.len() || a > d.len() - (hsize as usize) {
        return Err(EventPipeError::Truncated);
    }
    let end = a + hsize as usize;
    Ok((
        NettraceEventBlock {
            size,
            header: NettraceEventBlockHeader { size: hsize, flags, min_timestamp, max_timestamp },
        },
        end,
    ))
}

} // verus!
