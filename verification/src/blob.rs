//! Per-event blob headers: the fixed-width uncompressed form and the
//! delta-compressed form whose flag byte selects which fields are present,
//! all others inheriting from the previous header of the same block.
//!
//! The spec decoders pin every field; an encoder for the all-bits-set flag
//! byte is proved to replay: re-decoding it against an empty previous header
//! yields the original header again.
use vstd::prelude::*;

use crate::EventPipeError;
use crate::bytes::{le_bytes, read_bytes, read_u32, read_u64, read_u8};
use crate::helpers::{
    encode_varint_u64,
    i32_from_bits,
    i64_from_bits,
    lemma_varint_encode_decodes,
    lemma_varint_encode_len_u64,
    parse_varint_i32,
    parse_varint_i64,
    parse_varint_u32,
    parse_varint_u64,
    varint_at,
    varint_encode,
};

verus! {

/// The ghost image of an event-blob header: every field as a plain number.
pub struct BlobHeaderSpec {
    pub metadata_id: int,
    pub sequence_number: int,
    pub thread_id: int,
    pub capture_thread_id: int,
    pub processor_number: int,
    pub stack_id: int,
    pub timestamp: int,
    pub activity_id: Seq<u8>,
    pub related_activity_id: Seq<u8>,
    pub payload_size: int,
    pub is_sorted: bool,
}

/// The header every compressed block starts from: all fields zero.
pub open spec fn empty_header_spec() -> BlobHeaderSpec {
    BlobHeaderSpec {
        metadata_id: 0,
        sequence_number: 0,
        thread_id: 0,
        capture_thread_id: 0,
        processor_number: 0,
        stack_id: 0,
        timestamp: 0,
        activity_id: Seq::new(16, |j: int| 0u8),
        related_activity_id: Seq::new(16, |j: int| 0u8),
        payload_size: 0,
        is_sorted: false,
    }
}

/// A parsed event-blob header. The high bit of `raw_metadata_id` is the
/// `is_sorted` flag; `metadata_id` has it masked off.
#[derive(Debug)]
pub struct EventBlobHeader {
    pub size: u32,
    pub raw_metadata_id: u32,
    pub sequence_number: u32,
    pub thread_id: u64,
    pub capture_thread_id: u64,
    pub processor_number: u32,
    pub stack_id: u32,
    pub timestamp: u64,
    pub activity_id: Vec<u8>,
    pub related_activity_id: Vec<u8>,
    pub payload_size: u32,
    pub metadata_id: u32,
    pub is_sorted: bool,
}

impl EventBlobHeader {
    pub open spec fn view(&self) -> BlobHeaderSpec {
        BlobHeaderSpec {
            metadata_id: self.metadata_id as int,
            sequence_number: self.sequence_number as int,
            thread_id: self.thread_id as int,
            capture_thread_id: self.capture_thread_id as int,
            processor_number: self.processor_number as int,
            stack_id: self.stack_id as int,
            timestamp: self.timestamp as int,
            activity_id: self.activity_id@,
            related_activity_id: self.related_activity_id@,
            payload_size: self.payload_size as int,
            is_sorted: self.is_sorted,
        }
    }

    /// Field-for-field copy.
    pub fn duplicate(&self) -> (r: Self)
        ensures
            r.view() == self.view(),
            r.size == self.size,
            r.raw_metadata_id == self.raw_metadata_id,
    {
        EventBlobHeader {
            size: self.size,
            raw_metadata_id: self.raw_metadata_id,
            sequence_number: self.sequence_number,
            thread_id: self.thread_id,
            capture_thread_id: self.capture_thread_id,
            processor_number: self.processor_number,
            stack_id: self.stack_id,
            timestamp: self.timestamp,
            activity_id: copy_bytes(&self.activity_id),
            related_activity_id: copy_bytes(&self.related_activity_id),
            payload_size: self.payload_size,
            metadata_id: self.metadata_id,
            is_sorted: self.is_sorted,
        }
    }

    /// The all-zero header a block's delta decoding starts from.
    pub fn empty() -> (r: Self)
        ensures
            r.view() == empty_header_spec(),
            r.size == 0,
            r.raw_metadata_id == 0,
    {
        let zeros = zero_bytes16();
        let zeros2 = zero_bytes16();
        let h = EventBlobHeader {
            size: 0,
            raw_metadata_id: 0,
            sequence_number: 0,
            thread_id: 0,
            capture_thread_id: 0,
            processor_number: 0,
            stack_id: 0,
            timestamp: 0,
            activity_id: zeros,
            related_activity_id: zeros2,
            payload_size: 0,
            metadata_id: 0,
            is_sorted: false,
        };
        proof {
            assert(h.view().activity_id =~= empty_header_spec().activity_id);
            assert(h.view().related_activity_id =~= empty_header_spec().related_activity_id);
        }
        h
    }
}

impl Default for EventBlobHeader {
    /// The all-zero header, as `EventBlobHeader::empty` builds it.
    fn default() -> (r: Self)
        ensures
            r.view() == empty_header_spec(),
    {
        EventBlobHeader::empty()
    }
}

fn copy_bytes(v: &Vec<u8>) -> (r: Vec<u8>)
    ensures
        r@ == v@,
{
    let mut out: Vec<u8> = Vec::new();
    let mut i: usize = 0;
    while i < v.len()
        invariant
            i <= v@.len(),
            out@ == v@.subrange(0, i as int),
        decreases v@.len() - i,
    {
        out.push(v[i]);
        i = i + 1;
        assert(out@ == v@.subrange(0, i as int));
    }
    proof {
        assert(v@.subrange(0, v@.len() as int) == v@);
    }
    out
}

fn zero_bytes16() -> (r: Vec<u8>)
    ensures
        r@ == Seq::new(16, |j: int| 0u8),
{
    let mut out: Vec<u8> = Vec::new();
    let mut i: usize = 0;
    while i < 16
        invariant
            i <= 16,
            out@ == Seq::new(i as nat, |j: int| 0u8),
        decreases 16 - i,
    {
        out.push(0u8);
        i = i + 1;
        assert(out@ =~= Seq::new(i as nat, |j: int| 0u8));
    }
    out
}

/// Whether a flag-byte bit is set.
pub open spec fn bit_set(flags: u8, bit: u8) -> bool {
    flags & (1u8 << bit) != 0
}

fn is_set(flags: u8, bit: u8) -> (r: bool)
    requires
        bit < 8,
    ensures
        r == bit_set(flags, bit),
{
    (flags & (1u8 << bit)) != 0
}

/// The low 32-bit varint at `i`, as the spec decoder sees it: value and end.
pub open spec fn varint_u32_at(s: Seq<u8>, i: int) -> Option<(int, int)> {
    match varint_at(s, i, 10) {
        None => None,
        Some(ve) => Some((ve.0 % 0x1_0000_0000, ve.1)),
    }
}

/// The low 64-bit varint at `i`.
pub open spec fn varint_u64_at(s: Seq<u8>, i: int) -> Option<(int, int)> {
    match varint_at(s, i, 10) {
        None => None,
        Some(ve) => Some((ve.0 % 0x1_0000_0000_0000_0000, ve.1)),
    }
}

/// A 32-bit field of a compressed header: read as a varint when its flag
/// bit is present, inherited otherwise.
pub open spec fn opt_u32_at(s: Seq<u8>, i: int, present: bool, inherit: int) -> Option<(int, int)> {
    if present {
        varint_u32_at(s, i)
    } else {
        Some((inherit, i))
    }
}

/// A 64-bit field of a compressed header.
pub open spec fn opt_u64_at(s: Seq<u8>, i: int, present: bool, inherit: int) -> Option<(int, int)> {
    if present {
        varint_u64_at(s, i)
    } else {
        Some((inherit, i))
    }
}

/// A 16-byte activity id of a compressed header.
pub open spec fn opt_bytes16_at(s: Seq<u8>, i: int, present: bool, inherit: Seq<u8>) -> Option<
    (Seq<u8>, int),
> {
    if present {
        if i >= 0 && i + 16 <= s.len() {
            Some((s.subrange(i, i + 16), i + 16))
        } else {
            None
        }
    } else {
        Some((inherit, i))
    }
}

/// The flagged group of a compressed header: sequence delta, capture thread
/// and processor, or all three inherited.
pub open spec fn seq_group_at(s: Seq<u8>, i: int, present: bool, prev: BlobHeaderSpec) -> Option<
    (int, int, int, int),
> {
    if present {
        match varint_u32_at(s, i) {
            None => None,
            Some((d, pa)) => match varint_u64_at(s, pa) {
                None => None,
                Some((cap, pb)) => match varint_u32_at(s, pb) {
                    None => None,
                    Some((proc, pc)) => Some(
                        (
                            (prev.sequence_number + i32_from_bits(d as u32)) % 0x1_0000_0000,
                            cap,
                            proc,
                            pc,
                        ),
                    ),
                },
            },
        }
    } else {
        Some((prev.sequence_number, prev.capture_thread_id, prev.processor_number, i))
    }
}

/// The compressed header at `i`, decoded against `prev`: each flagged field
/// is read, every other field inherits; the timestamp is always a signed
/// delta; a non-metadata blob advances the sequence number by one.
pub open spec fn compressed_header_at(s: Seq<u8>, i: int, prev: BlobHeaderSpec) -> Option<
    (BlobHeaderSpec, int),
> {
    if i < 0 || i >= s.len() {
        None
    } else {
        let flags = s[i];
        match opt_u32_at(s, i + 1, bit_set(flags, 0), prev.metadata_id) {
            None => None,
            Some((metadata_id, p1)) => match seq_group_at(s, p1, bit_set(flags, 1), prev) {
                None => None,
                Some((seq0, capture_thread_id, processor_number, p2)) => match opt_u64_at(
                    s,
                    p2,
                    bit_set(flags, 2),
                    prev.thread_id,
                ) {
                    None => None,
                    Some((thread_id, p3)) => match opt_u32_at(
                        s,
                        p3,
                        bit_set(flags, 3),
                        prev.stack_id,
                    ) {
                        None => None,
                        Some((stack_id, p4)) => match varint_u64_at(s, p4) {
                            None => None,
                            Some((tsd, p5)) => match opt_bytes16_at(
                                s,
                                p5,
                                bit_set(flags, 4),
                                prev.activity_id,
                            ) {
                                None => None,
                                Some((activity_id, p6)) => match opt_bytes16_at(
                                    s,
                                    p6,
                                    bit_set(flags, 5),
                                    prev.related_activity_id,
                                ) {
                                    None => None,
                                    Some((related_activity_id, p7)) => match opt_u32_at(
                                        s,
                                        p7,
                                        bit_set(flags, 7),
                                        prev.payload_size,
                                    ) {
                                        None => None,
                                        Some((payload_size, p8)) => Some(
                                            (
                                                BlobHeaderSpec {
                                                    metadata_id,
                                                    sequence_number: if metadata_id != 0 {
                                                        (seq0 + 1) % 0x1_0000_0000
                                                    } else {
                                                        seq0
                                                    },
                                                    thread_id,
                                                    capture_thread_id,
                                                    processor_number,
                                                    stack_id,
                                                    timestamp: (prev.timestamp + i64_from_bits(
                                                        tsd as u64,
                                                    )) % 0x1_0000_0000_0000_0000,
                                                    activity_id,
                                                    related_activity_id,
                                                    payload_size,
                                                    is_sorted: bit_set(flags, 6),
                                                },
                                                p8,
                                            ),
                                        ),
                                    },
                                },
                            },
                        },
                    },
                },
            },
        }
    }
}


/// The payloads of all blobs from `i` to the block's end, each header
/// decoded against the previous one as the block iterator does; `None` when
/// some blob does not decode.
#[verifier::opaque]
pub open spec fn blob_payloads(
    s: Seq<u8>,
    i: int,
    prev: BlobHeaderSpec,
    compressed: bool,
    limit: int,
) -> Option<Seq<Seq<u8>>>
    decreases limit - i,
{
    if i >= limit {
        Some(Seq::empty())
    } else {
        match blob_at(s, i, prev, compressed) {
            None => None,
            Some(st) => {
                let next_prev = if compressed {
                    st.0
                } else {
                    prev
                };
                if st.2 >= limit {
                    Some(seq![st.1])
                } else {
                    match blob_payloads(s, st.2, next_prev, compressed, limit) {
                        None => None,
                        Some(rest) => Some(seq![st.1] + rest),
                    }
                }
            },
        }
    }
}


/// One step of `blob_payloads`: the first blob's payload followed by the
/// rest, or the end of the block.
pub proof fn lemma_blob_payloads_step(
    s: Seq<u8>,
    i: int,
    prev: BlobHeaderSpec,
    compressed: bool,
    limit: int,
)
    requires
        i < limit,
    ensures
        blob_payloads(s, i, prev, compressed, limit) == (match blob_at(s, i, prev, compressed) {
            None => None::<Seq<Seq<u8>>>,
            Some(st) => {
                let next_prev = if compressed {
                    st.0
                } else {
                    prev
                };
                if st.2 >= limit {
                    Some(seq![st.1])
                } else {
                    match blob_payloads(s, st.2, next_prev, compressed, limit) {
                        None => None,
                        Some(rest) => Some(seq![st.1] + rest),
                    }
                }
            },
        }),
{
    reveal(blob_payloads);
}

/// Past the block's end there are no blobs.
pub proof fn lemma_blob_payloads_end(
    s: Seq<u8>,
    i: int,
    prev: BlobHeaderSpec,
    compressed: bool,
    limit: int,
)
    requires
        i >= limit,
    ensures
        blob_payloads(s, i, prev, compressed, limit) == Some(Seq::<Seq<u8>>::empty()),
{
    reveal(blob_payloads);
}

/// The `raw_metadata_id` a compressed header carries: the metadata id with
/// the sort flag folded into the high bit.
pub open spec fn raw_id_of(metadata_id: int, is_sorted: bool) -> int {
    if is_sorted {
        metadata_id % 0x8000_0000 + 0x8000_0000
    } else {
        metadata_id
    }
}

fn read_opt_u32(d: &Vec<u8>, pos: usize, present: bool, inherit: u32) -> (r: Result<
    (u32, usize),
    EventPipeError,
>)
    ensures
        opt_u32_at(d@, pos as int, present, inherit as int) matches Some(ve) ==> (r matches Ok(
            (v, end),
        ) && v == ve.0 && end == ve.1),
        opt_u32_at(d@, pos as int, present, inherit as int) is None ==> r is Err,
{
    if present {
        parse_varint_u32(d, pos)
    } else {
        Ok((inherit, pos))
    }
}

fn read_opt_u64(d: &Vec<u8>, pos: usize, present: bool, inherit: u64) -> (r: Result<
    (u64, usize),
    EventPipeError,
>)
    ensures
        opt_u64_at(d@, pos as int, present, inherit as int) matches Some(ve) ==> (r matches Ok(
            (v, end),
        ) && v == ve.0 && end == ve.1),
        opt_u64_at(d@, pos as int, present, inherit as int) is None ==> r is Err,
{
    if present {
        parse_varint_u64(d, pos)
    } else {
        Ok((inherit, pos))
    }
}

fn read_opt_bytes16(d: &Vec<u8>, pos: usize, present: bool, inherit: &Vec<u8>) -> (r: Result<
    (Vec<u8>, usize),
    EventPipeError,
>)
    ensures
        opt_bytes16_at(d@, pos as int, present, inherit@) matches Some(ve) ==> (r matches Ok(
            (v, end),
        ) && v@ == ve.0 && end == ve.1),
        opt_bytes16_at(d@, pos as int, present, inherit@) is None ==> r is Err,
{
    if present {
        read_bytes(d, pos, 16)
    } else {
        Ok((copy_bytes(inherit), pos))
    }
}

fn read_seq_group(d: &Vec<u8>, pos: usize, present: bool, prev: &EventBlobHeader) -> (r: Result<
    (u32, u64, u32, usize),
    EventPipeError,
>)
    ensures
        seq_group_at(d@, pos as int, present, prev.view()) matches Some(ve) ==> (r matches Ok(
            (sq, cap, proc, end),
        ) && sq == ve.0 && cap == ve.1 && proc == ve.2 && end == ve.3),
        seq_group_at(d@, pos as int, present, prev.view()) is None ==> r is Err,
{
    if present {
        let (delta, pa) = match parse_varint_i32(d, pos) {
            Ok(v) => v,
            Err(e) => {
                return Err(e);
            },
        };
        let (cap, pb) = match parse_varint_u64(d, pa) {
            Ok(v) => v,
            Err(e) => {
                return Err(e);
            },
        };
        let (proc, pc) = match parse_varint_u32(d, pb) {
            Ok(v) => v,
            Err(e) => {
                return Err(e);
            },
        };
        let sq = prev.sequence_number.wrapping_add_signed(delta);
        proof {
            assert(sq == (prev.view().sequence_number + i32_from_bits(
                (varint_u32_at(d@, pos as int)->Some_0.0) as u32,
            )) % 0x1_0000_0000);
        }
        Ok((sq, cap, proc, pc))
    } else {
        Ok((prev.sequence_number, prev.capture_thread_id, prev.processor_number, pos))
    }
}

/// Decodes one compressed header against `prev`, replacing `prev` with the
/// fully materialized new header.
#[verifier::rlimit(100)]
#[verifier::spinoff_prover]
pub fn parse_compressed_header(d: &Vec<u8>, pos: usize, prev_header: &mut EventBlobHeader) -> (r:
    Result<(EventBlobHeader, usize), EventPipeError>)
    ensures
        compressed_header_at(d@, pos as int, old(prev_header).view()) matches Some(he) ==> (
        r matches Ok((h, end)) && h.view() == he.0 && end == he.1 && final(prev_header).view()
            == he.0 && h.raw_metadata_id == raw_id_of(he.0.metadata_id, he.0.is_sorted) && h.size
            == 0),
        compressed_header_at(d@, pos as int, old(prev_header).view()) is None ==> (r is Err
            && final(prev_header).view() == old(prev_header).view()),
{
    let ghost s = d@;
    let ghost prev = prev_header.view();
    let ghost whole = compressed_header_at(s, pos as int, prev);
    let (flags, _) = match read_u8(d, pos) {
        Ok(v) => v,
        Err(_) => {
            assert(whole is None);
            return Err(EventPipeError::Truncated);
        },
    };
    let ghost st1 = opt_u32_at(s, pos + 1, bit_set(flags, 0), prev.metadata_id);
    let (metadata_id, p1) = match read_opt_u32(d, pos + 1, is_set(flags, 0), prev_header.metadata_id)
    {
        Ok(v) => v,
        Err(e) => {
            assert(whole is None);
            return Err(e);
        },
    };
    assert(st1 == Some((metadata_id as int, p1 as int)));
    let ghost st2 = seq_group_at(s, p1 as int, bit_set(flags, 1), prev);
    let (seq0, capture_thread_id, processor_number, p2) = match read_seq_group(
        d,
        p1,
        is_set(flags, 1),
        prev_header,
    ) {
        Ok(v) => v,
        Err(e) => {
            assert(whole is None);
            return Err(e);
        },
    };
    assert(st2 == Some((seq0 as int, capture_thread_id as int, processor_number as int, p2 as int)));
    let sequence_number = if metadata_id != 0 {
        seq0.wrapping_add(1)
    } else {
        seq0
    };
    let ghost st3 = opt_u64_at(s, p2 as int, bit_set(flags, 2), prev.thread_id);
    let (thread_id, p3) = match read_opt_u64(d, p2, is_set(flags, 2), prev_header.thread_id) {
        Ok(v) => v,
        Err(e) => {
            assert(whole is None);
            return Err(e);
        },
    };
    assert(st3 == Some((thread_id as int, p3 as int)));
    let ghost st4 = opt_u32_at(s, p3 as int, bit_set(flags, 3), prev.stack_id);
    let (stack_id, p4) = match read_opt_u32(d, p3, is_set(flags, 3), prev_header.stack_id) {
        Ok(v) => v,
        Err(e) => {
            assert(whole is None);
            return Err(e);
        },
    };
    assert(st4 == Some((stack_id as int, p4 as int)));
    let ghost st5 = varint_u64_at(s, p4 as int);
    let (ts_delta, p5) = match parse_varint_i64(d, p4) {
        Ok(v) => v,
        Err(_) => {
            assert(whole is None);
            return Err(EventPipeError::Truncated);
        },
    };
    let timestamp = prev_header.timestamp.wrapping_add_signed(ts_delta);
    assert(st5 matches Some(ve) && timestamp == (prev.timestamp + i64_from_bits(ve.0 as u64))
        % 0x1_0000_0000_0000_0000 && p5 == ve.1);
    let ghost st6 = opt_bytes16_at(s, p5 as int, bit_set(flags, 4), prev.activity_id);
    let (activity_id, p6) = match read_opt_bytes16(
        d,
        p5,
        is_set(flags, 4),
        &prev_header.activity_id,
    ) {
        Ok(v) => v,
        Err(e) => {
            assert(whole is None);
            return Err(e);
        },
    };
    assert(st6 matches Some(ve) && ve.0 == activity_id@ && ve.1 == p6);
    let ghost st7 = opt_bytes16_at(s, p6 as int, bit_set(flags, 5), prev.related_activity_id);
    let (related_activity_id, p7) = match read_opt_bytes16(
        d,
        p6,
        is_set(flags, 5),
        &prev_header.related_activity_id,
    ) {
        Ok(v) => v,
        Err(e) => {
            assert(whole is None);
            return Err(e);
        },
    };
    assert(st7 matches Some(ve) && ve.0 == related_activity_id@ && ve.1 == p7);
    let is_sorted = is_set(flags, 6);
    let ghost st8 = opt_u32_at(s, p7 as int, bit_set(flags, 7), prev.payload_size);
    let (payload_size, p8) = match read_opt_u32(d, p7, is_set(flags, 7), prev_header.payload_size) {
        Ok(v) => v,
        Err(e) => {
            assert(whole is None);
            return Err(e);
        },
    };
    assert(st8 == Some((payload_size as int, p8 as int)));
    let raw_metadata_id: u32 = if is_sorted {
        metadata_id % 0x8000_0000 + 0x8000_0000
    } else {
        metadata_id
    };
    let header = EventBlobHeader {
        size: 0,
        raw_metadata_id,
        sequence_number,
        thread_id,
        capture_thread_id,
        processor_number,
        stack_id,
        timestamp,
        activity_id,
        related_activity_id,
        payload_size,
        metadata_id,
        is_sorted,
    };
    proof {
        assert(whole matches Some(he) && he.0 == header.view() && he.1 == p8);
    }
    let copy = header.duplicate();
    *prev_header = header;
    Ok((copy, p8))
}


/// The fixed-width uncompressed header at `i`: eighty bytes, every field in
/// place, the sort flag in the high bit of the raw metadata id.
pub open spec fn uncompressed_header_at(s: Seq<u8>, i: int) -> Option<(BlobHeaderSpec, int, int)> {
    if i < 0 || i + 80 > s.len() {
        None
    } else {
        let raw = le_bytes(s, i + 4, 4);
        Some(
            (
                BlobHeaderSpec {
                    metadata_id: raw % 0x8000_0000,
                    sequence_number: le_bytes(s, i + 8, 4),
                    thread_id: le_bytes(s, i + 12, 8),
                    capture_thread_id: le_bytes(s, i + 20, 8),
                    processor_number: le_bytes(s, i + 28, 4),
                    stack_id: le_bytes(s, i + 32, 4),
                    timestamp: le_bytes(s, i + 36, 8),
                    activity_id: s.subrange(i + 44, i + 60),
                    related_activity_id: s.subrange(i + 60, i + 76),
                    payload_size: le_bytes(s, i + 76, 4),
                    is_sorted: raw % 0x1_0000_0000 >= 0x8000_0000,
                },
                le_bytes(s, i, 4),
                i + 80,
            ),
        )
    }
}

/// Reads one fixed-width header; the second result is the header's leading
/// size word.
pub fn parse_uncompressed_header(d: &Vec<u8>, pos: usize) -> (r: Result<
    (EventBlobHeader, usize),
    EventPipeError,
>)
    ensures
        uncompressed_header_at(d@, pos as int) matches Some(he) ==> (r matches Ok((h, end))
            && h.view() == he.0 && h.size == he.1 && h.raw_metadata_id == le_bytes(
            d@,
            pos + 4,
            4,
        ) && end == he.2),
        uncompressed_header_at(d@, pos as int) is None ==> (r matches Err(e) && e is Truncated),
{
    if pos > d.len() || d.len() - pos < 80 {
        return Err(EventPipeError::Truncated);
    }
    let (size, p) = match read_u32(d, pos) {
        Ok(v) => v,
        Err(e) => {
            return Err(e);
        },
    };
    let (raw_metadata_id, p) = match read_u32(d, p) {
        Ok(v) => v,
        Err(e) => {
            return Err(e);
        },
    };
    let (sequence_number, p) = match read_u32(d, p) {
        Ok(v) => v,
        Err(e) => {
            return Err(e);
        },
    };
    let (thread_id, p) = match read_u64(d, p) {
        Ok(v) => v,
        Err(e) => {
            return Err(e);
        },
    };
    let (capture_thread_id, p) = match read_u64(d, p) {
        Ok(v) => v,
        Err(e) => {
            return Err(e);
        },
    };
    let (processor_number, p) = match read_u32(d, p) {
        Ok(v) => v,
        Err(e) => {
            return Err(e);
        },
    };
    let (stack_id, p) = match read_u32(d, p) {
        Ok(v) => v,
        Err(e) => {
            return Err(e);
        },
    };
    let (timestamp, p) = match read_u64(d, p) {
        Ok(v) => v,
        Err(e) => {
            return Err(e);
        },
    };
    let (activity_id, p) = match read_bytes(d, p, 16) {
        Ok(v) => v,
        Err(e) => {
            return Err(e);
        },
    };
    let (related_activity_id, p) = match read_bytes(d, p, 16) {
        Ok(v) => v,
        Err(e) => {
            return Err(e);
        },
    };
    let (payload_size, end) = match read_u32(d, p) {
        Ok(v) => v,
        Err(e) => {
            return Err(e);
        },
    };
    let metadata_id = raw_metadata_id % 0x8000_0000;
    let is_sorted = raw_metadata_id >= 0x8000_0000;
    Ok((
        EventBlobHeader {
            size,
            raw_metadata_id,
            sequence_number,
            thread_id,
            capture_thread_id,
            processor_number,
            stack_id,
            timestamp,
            activity_id,
            related_activity_id,
            payload_size,
            metadata_id,
            is_sorted,
        },
        end,
    ))
}


/// One whole blob at `i`: its header (compressed against `prev` or fixed
/// width), its payload bytes, and the position of the next blob, which in
/// uncompressed mode skips the alignment padding after a short payload.
pub open spec fn blob_at(s: Seq<u8>, i: int, prev: BlobHeaderSpec, compressed: bool) -> Option<
    (BlobHeaderSpec, Seq<u8>, int),
> {
    let h = if compressed {
        compressed_header_at(s, i, prev)
    } else {
        match uncompressed_header_at(s, i) {
            None => None,
            Some(ue) => Some((ue.0, ue.2)),
        }
    };
    match h {
        None => None,
        Some((hs, end)) => {
            if end + hs.payload_size > s.len() {
                None
            } else {
                let pay_end = end + hs.payload_size;
                let np = if !compressed && hs.payload_size % 4 != 0 {
                    pay_end + (4 - hs.payload_size % 4)
                } else {
                    pay_end
                };
                if np <= i || np > usize::MAX {
                    None
                } else {
                    Some((hs, s.subrange(end, pay_end), np))
                }
            }
        },
    }
}



proof fn lemma_subrange_in_prefix<A>(b: Seq<A>, c: Seq<A>, x: int, y: int)
    requires
        0 <= x <= y <= b.len(),
    ensures
        (b + c).subrange(x, y) == b.subrange(x, y),
{
    assert((b + c).subrange(x, y) =~= b.subrange(x, y));
}

proof fn lemma_subrange_tail<A>(b: Seq<A>, c: Seq<A>)
    ensures
        (b + c).subrange(b.len() as int, (b.len() + c.len()) as int) == c,
{
    assert((b + c).subrange(b.len() as int, (b.len() + c.len()) as int) =~= c);
}

/// Whether a header's ghost image is in range: every numeric field fits its
/// wire width and the activity ids are sixteen bytes, as every decoded
/// header is.
pub open spec fn header_wf(h: BlobHeaderSpec) -> bool {
    &&& 0 <= h.metadata_id < 0x1_0000_0000
    &&& 0 <= h.sequence_number < 0x1_0000_0000
    &&& 0 <= h.thread_id < 0x1_0000_0000_0000_0000
    &&& 0 <= h.capture_thread_id < 0x1_0000_0000_0000_0000
    &&& 0 <= h.processor_number < 0x1_0000_0000
    &&& 0 <= h.stack_id < 0x1_0000_0000
    &&& 0 <= h.timestamp < 0x1_0000_0000_0000_0000
    &&& 0 <= h.payload_size < 0x1_0000_0000
    &&& h.activity_id.len() == 16
    &&& h.related_activity_id.len() == 16
}

/// The all-fields-present compressed encoding of a header: a flag byte with
/// every presence bit set (the sort bit carries the header's own flag),
/// then each field as the decoder reads it against an empty previous
/// header. A non-metadata header writes its sequence number less one, since
/// decoding adds one back.
pub open spec fn encode_compressed_header_spec(h: BlobHeaderSpec) -> Seq<u8> {
    let flags: u8 = if h.is_sorted {
        0xFF
    } else {
        0xBF
    };
    let d = if h.metadata_id != 0 {
        (h.sequence_number - 1) % 0x1_0000_0000
    } else {
        h.sequence_number
    };
    seq![flags] + varint_encode(h.metadata_id as nat) + varint_encode(d as nat) + varint_encode(
        h.capture_thread_id as nat,
    ) + varint_encode(h.processor_number as nat) + varint_encode(h.thread_id as nat)
        + varint_encode(h.stack_id as nat) + varint_encode(h.timestamp as nat) + h.activity_id
        + h.related_activity_id + varint_encode(h.payload_size as nat)
}

/// The compressed-header replay law: re-encoding a header with the
/// all-bits-set flag byte and decoding it against an empty previous header
/// yields the header again, consuming exactly the encoding.
#[verifier::rlimit(100)]
#[verifier::spinoff_prover]
pub proof fn lemma_compressed_header_replay(h: BlobHeaderSpec)
    requires
        header_wf(h),
    ensures
        compressed_header_at(encode_compressed_header_spec(h), 0, empty_header_spec()) == Some(
            (h, encode_compressed_header_spec(h).len() as int),
        ),
{
    let s = encode_compressed_header_spec(h);
    let flags: u8 = if h.is_sorted {
        0xFF
    } else {
        0xBF
    };
    let d = if h.metadata_id != 0 {
        (h.sequence_number - 1) % 0x1_0000_0000
    } else {
        h.sequence_number
    };
    assert(bit_set(0xFF, 0) && bit_set(0xFF, 1) && bit_set(0xFF, 2) && bit_set(0xFF, 3) && bit_set(
        0xFF,
        4,
    ) && bit_set(0xFF, 5) && bit_set(0xFF, 6) && bit_set(0xFF, 7)) by (bit_vector);
    assert(bit_set(0xBF, 0) && bit_set(0xBF, 1) && bit_set(0xBF, 2) && bit_set(0xBF, 3) && bit_set(
        0xBF,
        4,
    ) && bit_set(0xBF, 5) && !bit_set(0xBF, 6) && bit_set(0xBF, 7)) by (bit_vector);
    let e1 = varint_encode(h.metadata_id as nat);
    let e2 = varint_encode(d as nat);
    let e3 = varint_encode(h.capture_thread_id as nat);
    let e4 = varint_encode(h.processor_number as nat);
    let e5 = varint_encode(h.thread_id as nat);
    let e6 = varint_encode(h.stack_id as nat);
    let e7 = varint_encode(h.timestamp as nat);
    let e8 = varint_encode(h.payload_size as nat);
    lemma_varint_encode_len_u64(h.metadata_id as nat);
    lemma_varint_encode_len_u64(d as nat);
    lemma_varint_encode_len_u64(h.capture_thread_id as nat);
    lemma_varint_encode_len_u64(h.processor_number as nat);
    lemma_varint_encode_len_u64(h.thread_id as nat);
    lemma_varint_encode_len_u64(h.stack_id as nat);
    lemma_varint_encode_len_u64(h.timestamp as nat);
    lemma_varint_encode_len_u64(h.payload_size as nat);
    let o1 = 1int;
    let o2 = o1 + e1.len();
    let o3 = o2 + e2.len();
    let o4 = o3 + e3.len();
    let o5 = o4 + e4.len();
    let o6 = o5 + e5.len();
    let o7 = o6 + e6.len();
    let o8 = o7 + e7.len();
    let o9 = o8 + 16;
    let o10 = o9 + 16;
    let o11 = o10 + e8.len();
    let p0 = seq![flags];
    let p1 = p0 + e1;
    let p2 = p1 + e2;
    let p3 = p2 + e3;
    let p4 = p3 + e4;
    let p5 = p4 + e5;
    let p6 = p5 + e6;
    let p7 = p6 + e7;
    let p8 = p7 + h.activity_id;
    let p9 = p8 + h.related_activity_id;
    assert(s == p9 + e8);
    assert(s.len() == o11);
    assert(s[0] == flags);
    lemma_subrange_tail(p0, e1);
    lemma_subrange_in_prefix(p1, e2, o1, o2);
    lemma_subrange_in_prefix(p2, e3, o1, o2);
    lemma_subrange_in_prefix(p3, e4, o1, o2);
    lemma_subrange_in_prefix(p4, e5, o1, o2);
    lemma_subrange_in_prefix(p5, e6, o1, o2);
    lemma_subrange_in_prefix(p6, e7, o1, o2);
    lemma_subrange_in_prefix(p7, h.activity_id, o1, o2);
    lemma_subrange_in_prefix(p8, h.related_activity_id, o1, o2);
    lemma_subrange_in_prefix(p9, e8, o1, o2);
    assert(s.subrange(o1, o2) == e1);
    lemma_subrange_tail(p1, e2);
    lemma_subrange_in_prefix(p2, e3, o2, o3);
    lemma_subrange_in_prefix(p3, e4, o2, o3);
    lemma_subrange_in_prefix(p4, e5, o2, o3);
    lemma_subrange_in_prefix(p5, e6, o2, o3);
    lemma_subrange_in_prefix(p6, e7, o2, o3);
    lemma_subrange_in_prefix(p7, h.activity_id, o2, o3);
    lemma_subrange_in_prefix(p8, h.related_activity_id, o2, o3);
    lemma_subrange_in_prefix(p9, e8, o2, o3);
    assert(s.subrange(o2, o3) == e2);
    lemma_subrange_tail(p2, e3);
    lemma_subrange_in_prefix(p3, e4, o3, o4);
    lemma_subrange_in_prefix(p4, e5, o3, o4);
    lemma_subrange_in_prefix(p5, e6, o3, o4);
    lemma_subrange_in_prefix(p6, e7, o3, o4);
    lemma_subrange_in_prefix(p7, h.activity_id, o3, o4);
    lemma_subrange_in_prefix(p8, h.related_activity_id, o3, o4);
    lemma_subrange_in_prefix(p9, e8, o3, o4);
    assert(s.subrange(o3, o4) == e3);
    lemma_subrange_tail(p3, e4);
    lemma_subrange_in_prefix(p4, e5, o4, o5);
    lemma_subrange_in_prefix(p5, e6, o4, o5);
    lemma_subrange_in_prefix(p6, e7, o4, o5);
    lemma_subrange_in_prefix(p7, h.activity_id, o4, o5);
    lemma_subrange_in_prefix(p8, h.related_activity_id, o4, o5);
    lemma_subrange_in_prefix(p9, e8, o4, o5);
    assert(s.subrange(o4, o5) == e4);
    lemma_subrange_tail(p4, e5);
    lemma_subrange_in_prefix(p5, e6, o5, o6);
    lemma_subrange_in_prefix(p6, e7, o5, o6);
    lemma_subrange_in_prefix(p7, h.activity_id, o5, o6);
    lemma_subrange_in_prefix(p8, h.related_activity_id, o5, o6);
    lemma_subrange_in_prefix(p9, e8, o5, o6);
    assert(s.subrange(o5, o6) == e5);
    lemma_subrange_tail(p5, e6);
    lemma_subrange_in_prefix(p6, e7, o6, o7);
    lemma_subrange_in_prefix(p7, h.activity_id, o6, o7);
    lemma_subrange_in_prefix(p8, h.related_activity_id, o6, o7);
    lemma_subrange_in_prefix(p9, e8, o6, o7);
    assert(s.subrange(o6, o7) == e6);
    lemma_subrange_tail(p6, e7);
    lemma_subrange_in_prefix(p7, h.activity_id, o7, o8);
    lemma_subrange_in_prefix(p8, h.related_activity_id, o7, o8);
    lemma_subrange_in_prefix(p9, e8, o7, o8);
    assert(s.subrange(o7, o8) == e7);
    lemma_subrange_tail(p7, h.activity_id);
    lemma_subrange_in_prefix(p8, h.related_activity_id, o8, o9);
    lemma_subrange_in_prefix(p9, e8, o8, o9);
    assert(s.subrange(o8, o9) == h.activity_id);
    lemma_subrange_tail(p8, h.related_activity_id);
    lemma_subrange_in_prefix(p9, e8, o9, o10);
    assert(s.subrange(o9, o10) == h.related_activity_id);
    lemma_subrange_tail(p9, e8);
    assert(s.subrange(o10, o11) == e8);
    lemma_varint_encode_decodes(s, o1, 10, h.metadata_id as nat);
    lemma_varint_encode_decodes(s, o2, 10, d as nat);
    lemma_varint_encode_decodes(s, o3, 10, h.capture_thread_id as nat);
    lemma_varint_encode_decodes(s, o4, 10, h.processor_number as nat);
    lemma_varint_encode_decodes(s, o5, 10, h.thread_id as nat);
    lemma_varint_encode_decodes(s, o6, 10, h.stack_id as nat);
    lemma_varint_encode_decodes(s, o7, 10, h.timestamp as nat);
    lemma_varint_encode_decodes(s, o10, 10, h.payload_size as nat);
    assert(varint_u32_at(s, o1) == Some((h.metadata_id, o2)));
    assert(seq_group_at(s, o2, true, empty_header_spec()) == Some(
        (d, h.capture_thread_id, h.processor_number, o5),
    )) by {
        assert(varint_u32_at(s, o2) == Some((d, o3)));
        assert(i32_from_bits((d as u32)) == if d < 0x8000_0000 {
            d
        } else {
            d - 0x1_0000_0000
        });
        assert((0 + i32_from_bits((d as u32))) % 0x1_0000_0000 == d);
        assert(varint_u64_at(s, o3) == Some((h.capture_thread_id, o4)));
        assert(varint_u32_at(s, o4) == Some((h.processor_number, o5)));
    }
    assert(h.metadata_id != 0 ==> (d + 1) % 0x1_0000_0000 == h.sequence_number);
    assert(varint_u64_at(s, o5) == Some((h.thread_id, o6)));
    assert(varint_u32_at(s, o6) == Some((h.stack_id, o7)));
    assert(varint_u64_at(s, o7) == Some((h.timestamp, o8)));
    assert(i64_from_bits((h.timestamp as u64)) == if h.timestamp < 0x8000_0000_0000_0000 {
        h.timestamp
    } else {
        h.timestamp - 0x1_0000_0000_0000_0000
    });
    assert((0 + i64_from_bits((h.timestamp as u64))) % 0x1_0000_0000_0000_0000 == h.timestamp);
    assert(opt_bytes16_at(s, o8, true, empty_header_spec().activity_id) == Some(
        (h.activity_id, o9),
    ));
    assert(opt_bytes16_at(s, o9, true, empty_header_spec().related_activity_id) == Some(
        (h.related_activity_id, o10),
    ));
    assert(varint_u32_at(s, o10) == Some((h.payload_size, o11)));
    assert(compressed_header_at(s, 0, empty_header_spec()) matches Some(he) && he.0 == h && he.1
        == o11);
}

/// Re-encodes a header in the all-fields-present compressed form, ready to
/// be decoded against an empty previous header.
pub fn encode_compressed_header(h: &EventBlobHeader) -> (r: Vec<u8>)
    requires
        h.activity_id@.len() == 16,
        h.related_activity_id@.len() == 16,
    ensures
        r@ == encode_compressed_header_spec(h.view()),
{
    let mut out: Vec<u8> = Vec::new();
    if h.is_sorted {
        out.push(0xFF);
    } else {
        out.push(0xBF);
    }
    encode_varint_u64(h.metadata_id as u64, &mut out);
    let d: u32 = if h.metadata_id != 0 {
        h.sequence_number.wrapping_sub(1)
    } else {
        h.sequence_number
    };
    encode_varint_u64(d as u64, &mut out);
    encode_varint_u64(h.capture_thread_id, &mut out);
    encode_varint_u64(h.processor_number as u64, &mut out);
    encode_varint_u64(h.thread_id, &mut out);
    encode_varint_u64(h.stack_id as u64, &mut out);
    encode_varint_u64(h.timestamp, &mut out);
    let mut i: usize = 0;
    let ghost mid = out@;
    while i < 16
        invariant
            h.activity_id@.len() == 16,
            i <= 16,
            out@ == mid + h.activity_id@.subrange(0, i as int),
        decreases 16 - i,
    {
        out.push(h.activity_id[i]);
        i = i + 1;
        assert(out@ =~= mid + h.activity_id@.subrange(0, i as int));
    }
    proof {
        assert(h.activity_id@.subrange(0, 16) =~= h.activity_id@);
    }
    let mut i: usize = 0;
    let ghost mid2 = out@;
    while i < 16
        invariant
            h.related_activity_id@.len() == 16,
            i <= 16,
            out@ == mid2 + h.related_activity_id@.subrange(0, i as int),
        decreases 16 - i,
    {
        out.push(h.related_activity_id[i]);
        i = i + 1;
        assert(out@ =~= mid2 + h.related_activity_id@.subrange(0, i as int));
    }
    proof {
        assert(h.related_activity_id@.subrange(0, 16) =~= h.related_activity_id@);
    }
    encode_varint_u64(h.payload_size as u64, &mut out);
    proof {
        assert(out@ =~= encode_compressed_header_spec(h.view()));
    }
    out
}

/// A metadata blob leaves the sequence number alone; any other blob whose
/// sequence group is inherited advances it by exactly one.
pub proof fn lemma_sequence_advance(s: Seq<u8>, i: int, prev: BlobHeaderSpec)
    ensures
        compressed_header_at(s, i, prev) matches Some(he) ==> (!bit_set(s[i], 1) ==> ((
        he.0.metadata_id != 0 ==> he.0.sequence_number == (prev.sequence_number + 1)
            % 0x1_0000_0000) && (he.0.metadata_id == 0 ==> he.0.sequence_number
            == prev.sequence_number))),
{
}

/// A flag byte with only the payload bit set inherits every field but the
/// payload size from the previous header; the timestamp still advances by
/// its decoded delta, and the sequence number by one for a non-metadata
/// blob.
pub proof fn lemma_inherit_all_but_payload(s: Seq<u8>, i: int, prev: BlobHeaderSpec)
    requires
        0 <= i < s.len(),
        s[i] == 0x80,
    ensures
        compressed_header_at(s, i, prev) matches Some(he) ==> (he.0.metadata_id
            == prev.metadata_id && he.0.thread_id == prev.thread_id && he.0.capture_thread_id
            == prev.capture_thread_id && he.0.processor_number == prev.processor_number
            && he.0.stack_id == prev.stack_id && he.0.activity_id == prev.activity_id
            && he.0.related_activity_id == prev.related_activity_id && !he.0.is_sorted && (
        varint_u64_at(s, i + 1) matches Some(ve) && he.0.timestamp == (prev.timestamp
            + i64_from_bits((ve.0 % 0x1_0000_0000_0000_0000) as u64)) % 0x1_0000_0000_0000_0000)),
{
    assert(!bit_set(0x80u8, 0) && !bit_set(0x80u8, 1) && !bit_set(0x80u8, 2) && !bit_set(0x80u8, 3)
        && !bit_set(0x80u8, 4) && !bit_set(0x80u8, 5) && !bit_set(0x80u8, 6) && bit_set(
        0x80u8,
        7,
    )) by (bit_vector);
}


} // verus!
