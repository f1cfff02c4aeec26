//! Metadata definitions: the schema records that metadata blocks carry.
//!
//! A metadata blob's payload is a fixed head (id, provider, event id and
//! name, keywords, version, level), a v1 field layout, and then tagged
//! extensions up to the payload's end: an opcode byte, or a replacement v2
//! field layout that is only legal when the v1 layout was empty.
//!
//! The spec decoders pin the head exactly and the field layouts by their
//! extent and field count; the executable parser also retains the decoded
//! field tree for callers that want to inspect it.
use vstd::prelude::*;

use crate::EventPipeError;
use crate::bytes::{le_bytes, read_u32, read_u64, read_u8};
use crate::text::{parse_null_wide_string_to_string, scalars_of, utf16_scalars, utf16z_units_at};

verus! {

/// The wire type codes a field layout may use.
#[derive(Debug, PartialEq, Eq, Structural, Clone, Copy)]
pub enum MetadataTypeCode {
    Empty,
    Object,
    DBNull,
    Boolean,
    Char,
    SByte,
    Byte,
    Int16,
    UInt16,
    Int32,
    UInt32,
    Int64,
    UInt64,
    Single,
    Double,
    Decimal,
    DateTime,
    String,
    Array,
}

/// The wire value of each type code.
pub open spec fn type_code_value(t: MetadataTypeCode) -> int {
    match t {
        MetadataTypeCode::Empty => 0,
        MetadataTypeCode::Object => 1,
        MetadataTypeCode::DBNull => 2,
        MetadataTypeCode::Boolean => 3,
        MetadataTypeCode::Char => 4,
        MetadataTypeCode::SByte => 5,
        MetadataTypeCode::Byte => 6,
        MetadataTypeCode::Int16 => 7,
        MetadataTypeCode::UInt16 => 8,
        MetadataTypeCode::Int32 => 9,
        MetadataTypeCode::UInt32 => 10,
        MetadataTypeCode::Int64 => 11,
        MetadataTypeCode::UInt64 => 12,
        MetadataTypeCode::Single => 13,
        MetadataTypeCode::Double => 14,
        MetadataTypeCode::Decimal => 15,
        MetadataTypeCode::DateTime => 16,
        MetadataTypeCode::String => 18,
        MetadataTypeCode::Array => 19,
    }
}

/// Whether a wire value names a known type code.
pub open spec fn known_type_code(v: int) -> bool {
    (0 <= v <= 16) || v == 18 || v == 19
}

impl MetadataTypeCode {
    /// The code a wire value names, or `None` for an unknown value, which is
    /// fatal to the stream.
    pub fn from_u32(v: u32) -> (r: Option<MetadataTypeCode>)
        ensures
            known_type_code(v as int) <==> (r matches Some(t) && type_code_value(t) == v),
            !known_type_code(v as int) <==> r is None,
    {
        if v == 0 {
            Some(MetadataTypeCode::Empty)
        } else if v == 1 {
            Some(MetadataTypeCode::Object)
        } else if v == 2 {
            Some(MetadataTypeCode::DBNull)
        } else if v == 3 {
            Some(MetadataTypeCode::Boolean)
        } else if v == 4 {
            Some(MetadataTypeCode::Char)
        } else if v == 5 {
            Some(MetadataTypeCode::SByte)
        } else if v == 6 {
            Some(MetadataTypeCode::Byte)
        } else if v == 7 {
            Some(MetadataTypeCode::Int16)
        } else if v == 8 {
            Some(MetadataTypeCode::UInt16)
        } else if v == 9 {
            Some(MetadataTypeCode::Int32)
        } else if v == 10 {
            Some(MetadataTypeCode::UInt32)
        } else if v == 11 {
            Some(MetadataTypeCode::Int64)
        } else if v == 12 {
            Some(MetadataTypeCode::UInt64)
        } else if v == 13 {
            Some(MetadataTypeCode::Single)
        } else if v == 14 {
            Some(MetadataTypeCode::Double)
        } else if v == 15 {
            Some(MetadataTypeCode::Decimal)
        } else if v == 16 {
            Some(MetadataTypeCode::DateTime)
        } else if v == 18 {
            Some(MetadataTypeCode::String)
        } else if v == 19 {
            Some(MetadataTypeCode::Array)
        } else {
            None
        }
    }
}

/// One field of a schema's layout: its type, the element type when the
/// field is an array, a nested layout when the element is an object, and
/// the field's name.
#[derive(Debug)]
pub struct MetadataFieldDefinition {
    pub type_code: MetadataTypeCode,
    pub array_type_code: MetadataTypeCode,
    pub definition: Option<MetadataPayloadDefinition>,
    pub field_name: String,
}

/// A field layout: its declared count and the fields themselves.
#[derive(Debug)]
pub struct MetadataPayloadDefinition {
    pub field_count: u32,
    pub fields: Vec<MetadataFieldDefinition>,
}

/// The tags that may follow a schema's v1 layout.
#[derive(Debug, PartialEq, Eq, Structural, Clone, Copy)]
pub enum MetadataTag {
    Invalid,
    OpCode,
    V2Params,
}

/// A tagged extension record: its (unused) size word, its tag, and the
/// datum the tag selects.
#[derive(Debug)]
pub struct MetadataTaggedData {
    pub size: u32,
    pub tag: MetadataTag,
    pub opcode: u8,
    pub fields_v2: Option<MetadataPayloadDefinition>,
}

/// A schema definition as the registry stores it.
#[derive(Debug)]
pub struct MetadataDefinition {
    pub id: u32,
    pub provider_name: String,
    pub event_id: u32,
    pub event_name: String,
    pub keywords: u64,
    pub version: u32,
    pub level: u32,
    pub fields: MetadataPayloadDefinition,
    pub opcode: Option<u8>,
}

/// End position of the field at `i`: type code, element type code for
/// arrays, a nested layout when the (element) type is an object, then the
/// field's name.
pub open spec fn field_end(s: Seq<u8>, i: int) -> Option<int>
    decreases s.len() - i, 0int, 0int,
{
    if i < 0 || i + 4 > s.len() {
        None
    } else {
        let tc = le_bytes(s, i, 4);
        if !known_type_code(tc) {
            None
        } else if tc == 19 {
            if i + 8 > s.len() {
                None
            } else {
                let atc = le_bytes(s, i + 4, 4);
                if !known_type_code(atc) {
                    None
                } else if atc == 1 {
                    match payload_def_end(s, i + 8) {
                        None => None,
                        Some(ce) => match utf16z_units_at(s, ce.1) {
                            None => None,
                            Some(ne) => Some(ne.1),
                        },
                    }
                } else {
                    match utf16z_units_at(s, i + 8) {
                        None => None,
                        Some(ne) => Some(ne.1),
                    }
                }
            }
        } else if tc == 1 {
            match payload_def_end(s, i + 4) {
                None => None,
                Some(ce) => match utf16z_units_at(s, ce.1) {
                    None => None,
                    Some(ne) => Some(ne.1),
                },
            }
        } else {
            match utf16z_units_at(s, i + 4) {
                None => None,
                Some(ne) => Some(ne.1),
            }
        }
    }
}

/// End position after `count` fields starting at `i`.
pub open spec fn fields_end(s: Seq<u8>, i: int, count: nat) -> Option<int>
    decreases s.len() - i, count, 1int,
{
    if count == 0 {
        Some(i)
    } else {
        match field_end(s, i) {
            None => None,
            Some(e) => {
                if e <= i || e > s.len() {
                    None
                } else {
                    fields_end(s, e, (count - 1) as nat)
                }
            },
        }
    }
}

/// A field layout at `i`: its declared count and end position.
pub open spec fn payload_def_end(s: Seq<u8>, i: int) -> Option<(int, int)>
    decreases s.len() - i, 0int, 2int,
{
    if i < 0 || i + 4 > s.len() {
        None
    } else {
        let count = le_bytes(s, i, 4);
        match fields_end(s, i + 4, count as nat) {
            None => None,
            Some(e) => Some((count, e)),
        }
    }
}

/// The ghost image of a schema head: the fields a metadata blob pins before
/// its tagged extensions.
pub struct MetaSpec {
    pub id: int,
    pub provider: Seq<u32>,
    pub event_id: int,
    pub name: Seq<u32>,
    pub keywords: int,
    pub version: int,
    pub level: int,
    pub field_count: int,
}

/// The schema head at `i` and the position of its tagged extensions.
pub open spec fn metadata_def_at(s: Seq<u8>, i: int) -> Option<(MetaSpec, int)> {
    if i < 0 || i + 4 > s.len() {
        None
    } else {
        let id = le_bytes(s, i, 4);
        match utf16z_units_at(s, i + 4) {
            None => None,
            Some(pe) => {
                let p1 = pe.1;
                if p1 + 4 > s.len() {
                    None
                } else {
                    let event_id = le_bytes(s, p1, 4);
                    match utf16z_units_at(s, p1 + 4) {
                        None => None,
                        Some(ne) => {
                            let p2 = ne.1;
                            if p2 + 16 > s.len() {
                                None
                            } else {
                                let keywords = le_bytes(s, p2, 8);
                                let version = le_bytes(s, p2 + 8, 4);
                                let level = le_bytes(s, p2 + 12, 4);
                                match payload_def_end(s, p2 + 16) {
                                    None => None,
                                    Some(ce) => Some(
                                        (
                                            MetaSpec {
                                                id,
                                                provider: utf16_scalars(pe.0),
                                                event_id,
                                                name: utf16_scalars(ne.0),
                                                keywords,
                                                version,
                                                level,
                                                field_count: ce.0,
                                            },
                                            ce.1,
                                        ),
                                    ),
                                }
                            }
                        },
                    }
                }
            },
        }
    }
}

/// The tagged extensions between `i` and `limit`, applied to an opcode and
/// field count: an opcode tag replaces the opcode, a v2 layout replaces the
/// field count and is only legal when the current count is zero. Yields the
/// final opcode and field count.
pub open spec fn tags_at(
    s: Seq<u8>,
    i: int,
    limit: int,
    opcode: Option<int>,
    field_count: int,
) -> Option<(Option<int>, int)>
    decreases limit - i,
{
    if i >= limit {
        Some((opcode, field_count))
    } else if i < 0 || i + 5 > s.len() {
        None
    } else {
        let tag = s[i + 4];
        if tag == 1 {
            if i + 6 > s.len() || i + 6 > limit {
                None
            } else {
                tags_at(s, i + 6, limit, Some(s[i + 5] as int), field_count)
            }
        } else if tag == 2 {
            match payload_def_end(s, i + 5) {
                None => None,
                Some(ce) => {
                    if field_count != 0 || ce.1 <= i + 5 || ce.1 > limit {
                        None
                    } else {
                        tags_at(s, ce.1, limit, opcode, ce.0)
                    }
                },
            }
        } else {
            None
        }
    }
}

/// Parses one field of a layout: only the field's extent and type codes are
/// stated; the decoded tree is retained for inspection.
pub fn parse_field(d: &Vec<u8>, pos: usize) -> (r: Result<
    (MetadataFieldDefinition, usize),
    EventPipeError,
>)
    ensures
        field_end(d@, pos as int) matches Some(e) ==> (r matches Ok((f, end)) && end == e
            && type_code_value(f.type_code) == le_bytes(d@, pos as int, 4)),
        field_end(d@, pos as int) is None ==> r is Err,
    decreases d@.len() - pos, 0int, 0int,
{
    let (tcv, p) = match read_u32(d, pos) {
        Ok(v) => v,
        Err(e) => {
            return Err(e);
        },
    };
    let tc = match MetadataTypeCode::from_u32(tcv) {
        Some(t) => t,
        None => {
            return Err(EventPipeError::Malformed);
        },
    };
    let (atc, p) = if matches!(tc, MetadataTypeCode::Array) {
        let (av, p2) = match read_u32(d, p) {
            Ok(v) => v,
            Err(e) => {
                return Err(e);
            },
        };
        let at = match MetadataTypeCode::from_u32(av) {
            Some(t) => t,
            None => {
                return Err(EventPipeError::Malformed);
            },
        };
        (at, p2)
    } else {
        (MetadataTypeCode::Empty, p)
    };
    let nested = matches!(tc, MetadataTypeCode::Object) || (matches!(tc, MetadataTypeCode::Array)
        && matches!(atc, MetadataTypeCode::Object));
    let (definition, p) = if nested {
        let (def, p2) = match parse_payload_def(d, p) {
            Ok(v) => v,
            Err(e) => {
                return Err(e);
            },
        };
        (Some(def), p2)
    } else {
        (None, p)
    };
    let (field_name, end) = match parse_null_wide_string_to_string(d, p) {
        Ok(v) => v,
        Err(e) => {
            return Err(e);
        },
    };
    Ok((MetadataFieldDefinition { type_code: tc, array_type_code: atc, definition, field_name }, end))
}

/// Parses `count` consecutive fields.
pub fn parse_fields(d: &Vec<u8>, pos: usize, count: u32) -> (r: Result<
    (Vec<MetadataFieldDefinition>, usize),
    EventPipeError,
>)
    ensures
        fields_end(d@, pos as int, count as nat) matches Some(e) ==> (r matches Ok((fs, end))
            && end == e && fs@.len() == count),
        fields_end(d@, pos as int, count as nat) is None ==> r is Err,
    decreases d@.len() - pos, count, 1int,
{
    if count == 0 {
        return Ok((Vec::new(), pos));
    }
    let (f, e) = match parse_field(d, pos) {
        Ok(v) => v,
        Err(e) => {
            return Err(e);
        },
    };
    if e <= pos || e > d.len() {
        return Err(EventPipeError::Malformed);
    }
    let (rest, end) = match parse_fields(d, e, count - 1) {
        Ok(v) => v,
        Err(e) => {
            return Err(e);
        },
    };
    let mut fs = rest;
    fs.insert(0, f);
    Ok((fs, end))
}

/// Parses a field layout: count word and fields.
pub fn parse_payload_def(d: &Vec<u8>, pos: usize) -> (r: Result<
    (MetadataPayloadDefinition, usize),
    EventPipeError,
>)
    ensures
        payload_def_end(d@, pos as int) matches Some(ce) ==> (r matches Ok((def, end))
            && def.field_count == ce.0 && end == ce.1),
        payload_def_end(d@, pos as int) is None ==> r is Err,
    decreases d@.len() - pos, 0int, 2int,
{
    let (count, p) = match read_u32(d, pos) {
        Ok(v) => v,
        Err(e) => {
            return Err(e);
        },
    };
    let (fields, end) = match parse_fields(d, p, count) {
        Ok(v) => v,
        Err(e) => {
            return Err(e);
        },
    };
    Ok((MetadataPayloadDefinition { field_count: count, fields }, end))
}

/// Parses a whole metadata blob payload: the schema head, then the tagged
/// extensions up to the payload's end. An opcode tag sets the opcode; a v2
/// layout replaces an empty v1 layout, and is malformed otherwise.
pub fn parse_metadata_blob(d: &Vec<u8>) -> (r: Result<MetadataDefinition, EventPipeError>)
    ensures
        metadata_def_at(d@, 0) matches Some(me) ==> (tags_at(
            d@,
            me.1,
            d@.len() as int,
            None,
            me.0.field_count,
        ) matches Some(te) ==> (r matches Ok(def) && def.id == me.0.id && scalars_of(
            def.provider_name@,
        ) == me.0.provider && def.event_id == me.0.event_id && scalars_of(def.event_name@)
            == me.0.name && def.keywords == me.0.keywords && def.version == me.0.version
            && def.level == me.0.level && (match def.opcode {
            Some(o) => te.0 == Some(o as int),
            None => te.0 is None,
        }) && def.fields.field_count == te.1)),
        metadata_def_at(d@, 0) is None ==> r is Err,
        (metadata_def_at(d@, 0) matches Some(me) && tags_at(
            d@,
            me.1,
            d@.len() as int,
            None,
            me.0.field_count,
        ) is None) ==> r is Err,
{
    let ghost s = d@;
    let (id, p) = match read_u32(d, 0) {
        Ok(v) => v,
        Err(e) => {
            return Err(e);
        },
    };
    let (provider_name, p) = match parse_null_wide_string_to_string(d, p) {
        Ok(v) => v,
        Err(e) => {
            return Err(e);
        },
    };
    let (event_id, p) = match read_u32(d, p) {
        Ok(v) => v,
        Err(e) => {
            return Err(e);
        },
    };
    let (event_name, p) = match parse_null_wide_string_to_string(d, p) {
        Ok(v) => v,
        Err(e) => {
            return Err(e);
        },
    };
    let (keywords, p) = match read_u64(d, p) {
        Ok(v) => v,
        Err(e) => {
            return Err(e);
        },
    };
    let (version, p) = match read_u32(d, p) {
        Ok(v) => v,
        Err(e) => {
            return Err(e);
        },
    };
    let (level, p) = match read_u32(d, p) {
        Ok(v) => v,
        Err(e) => {
            return Err(e);
        },
    };
    let (v1, p) = match parse_payload_def(d, p) {
        Ok(v) => v,
        Err(e) => {
            return Err(e);
        },
    };
    let ghost head = metadata_def_at(s, 0);
    assert(head matches Some(me) && me.1 == p && me.0.id == id && me.0.provider == scalars_of(
        provider_name@,
    ) && me.0.event_id == event_id && me.0.name == scalars_of(event_name@) && me.0.keywords
        == keywords && me.0.version == version && me.0.level == level && me.0.field_count
        == v1.field_count);
    let mut def = MetadataDefinition {
        id,
        provider_name,
        event_id,
        event_name,
        keywords,
        version,
        level,
        fields: v1,
        opcode: None,
    };
    let limit = d.len();
    let ghost whole = tags_at(s, p as int, limit as int, None, def.fields.field_count as int);
    let ghost def0 = def;
    let mut pos = p;
    #[verifier::loop_isolation(false)]
    loop
        invariant
            tags_at(
                s,
                pos as int,
                limit as int,
                match def.opcode {
                    Some(o) => Some(o as int),
                    None => None,
                },
                def.fields.field_count as int,
            ) == whole,
            def.id == def0.id,
            def.provider_name@ == def0.provider_name@,
            def.event_id == def0.event_id,
            def.event_name@ == def0.event_name@,
            def.keywords == def0.keywords,
            def.version == def0.version,
            def.level == def0.level,
        decreases limit - pos,
    {
        if pos >= limit {
            return Ok(def);
        }
        let (_size, p2) = match read_u32(d, pos) {
            Ok(v) => v,
            Err(_) => {
                return Err(EventPipeError::Truncated);
            },
        };
        let (tagb, p3) = match read_u8(d, p2) {
            Ok(v) => v,
            Err(_) => {
                return Err(EventPipeError::Truncated);
            },
        };
        if tagb == 1 {
            let (op, p4) = match read_u8(d, p3) {
                Ok(v) => v,
                Err(_) => {
                    return Err(EventPipeError::Truncated);
                },
            };
            if p4 > limit {
                return Err(EventPipeError::Malformed);
            }
            def.opcode = Some(op);
            pos = p4;
        } else if tagb == 2 {
            let (v2, p4) = match parse_payload_def(d, p3) {
                Ok(v) => v,
                Err(e) => {
                    return Err(e);
                },
            };
            if def.fields.field_count != 0 || p4 <= p3 || p4 > limit {
                return Err(EventPipeError::Malformed);
            }
            def.fields = v2;
            pos = p4;
        } else {
            return Err(EventPipeError::Malformed);
        }
    }
}

/// A single v2-layout record that fills the whole tag region replaces an
/// empty v1 layout: the schema adopts the v2 field count.
pub proof fn lemma_v2_params_adopted(s: Seq<u8>, i: int, limit: int, c2: int, e: int)
    requires
        0 <= i,
        i + 5 <= s.len(),
        s[i + 4] == 2,
        payload_def_end(s, i + 5) == Some((c2, e)),
        e == limit,
        e > i + 5,
        i < limit,
    ensures
        tags_at(s, i, limit, None, 0) == Some((None::<int>, c2)),
{
    assert(tags_at(s, e, limit, None, c2) == Some((None::<int>, c2)));
}

} // verus!
