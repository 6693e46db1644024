//! Wire header decoders and the typed value payload decoder.
//!
//! Records arrive as packed, offset-addressed byte buffers. Every field is
//! read with an explicit, bounds-checked, little-endian byte combination;
//! a buffer is never reinterpreted in place.

use vstd::prelude::*;

use crate::error::Error;
use crate::error::RegValueError;
use crate::wide::decode_name;
use crate::wide::decode_wide;
use crate::wide::spec_name_units;
use crate::wide::strip_terminator_units;
use crate::wide::strip_terminators;
use crate::wide::text_of_wide;

verus! {

/// The little-endian 16-bit value at offset `i` of `b`.
pub open spec fn spec_u16_le(b: Seq<u8>, i: int) -> u16
    recommends
        0 <= i,
        i + 2 <= b.len(),
{
    (b[i] as u16) | ((b[i + 1] as u16) << 8)
}

/// The little-endian 32-bit value at offset `i` of `b`.
pub open spec fn spec_u32_le(b: Seq<u8>, i: int) -> u32
    recommends
        0 <= i,
        i + 4 <= b.len(),
{
    (b[i] as u32) | ((b[i + 1] as u32) << 8) | ((b[i + 2] as u32) << 16) | ((b[i + 3] as u32)
        << 24)
}

/// The big-endian 32-bit value at offset `i` of `b`.
pub open spec fn spec_u32_be(b: Seq<u8>, i: int) -> u32
    recommends
        0 <= i,
        i + 4 <= b.len(),
{
    ((b[i] as u32) << 24) | ((b[i + 1] as u32) << 16) | ((b[i + 2] as u32) << 8) | (b[i + 3]
        as u32)
}

/// The little-endian 64-bit value at offset `i` of `b`.
pub open spec fn spec_u64_le(b: Seq<u8>, i: int) -> u64
    recommends
        0 <= i,
        i + 8 <= b.len(),
{
    (b[i] as u64) | ((b[i + 1] as u64) << 8) | ((b[i + 2] as u64) << 16) | ((b[i + 3] as u64)
        << 24) | ((b[i + 4] as u64) << 32) | ((b[i + 5] as u64) << 40) | ((b[i + 6] as u64) << 48)
        | ((b[i + 7] as u64) << 56)
}

/// Reads the little-endian 16-bit value at offset `i`.
pub fn read_u16_le(b: &[u8], i: usize) -> (r: u16)
    requires
        i + 2 <= b@.len(),
    ensures
        r == spec_u16_le(b@, i as int),
{
    (b[i] as u16) | ((b[i + 1] as u16) << 8)
}

/// Reads the little-endian 32-bit value at offset `i`.
pub fn read_u32_le(b: &[u8], i: usize) -> (r: u32)
    requires
        i + 4 <= b@.len(),
    ensures
        r == spec_u32_le(b@, i as int),
{
    (b[i] as u32) | ((b[i + 1] as u32) << 8) | ((b[i + 2] as u32) << 16) | ((b[i + 3] as u32)
        << 24)
}

/// Reads the big-endian 32-bit value at offset `i`.
pub fn read_u32_be(b: &[u8], i: usize) -> (r: u32)
    requires
        i + 4 <= b@.len(),
    ensures
        r == spec_u32_be(b@, i as int),
{
    ((b[i] as u32) << 24) | ((b[i + 1] as u32) << 16) | ((b[i + 2] as u32) << 8) | (b[i + 3]
        as u32)
}

/// Reads the little-endian 64-bit value at offset `i`.
pub fn read_u64_le(b: &[u8], i: usize) -> (r: u64)
    requires
        i + 8 <= b@.len(),
    ensures
        r == spec_u64_le(b@, i as int),
{
    (b[i] as u64) | ((b[i + 1] as u64) << 8) | ((b[i + 2] as u64) << 16) | ((b[i + 3] as u64)
        << 24) | ((b[i + 4] as u64) << 32) | ((b[i + 5] as u64) << 40) | ((b[i + 6] as u64) << 48)
        | ((b[i + 7] as u64) << 56)
}

/// The kind of record requested from the key enumeration primitive.
pub enum KeyInformationClass {
    /// A basic-information record is supplied.
    KeyBasicInformation,
    /// A node-information record is supplied.
    KeyNodeInformation,
    /// A full-information record is supplied.
    KeyFullInformation,
}

impl KeyInformationClass {
    /// The numeric discriminator the transport expects for this class.
    pub fn code(&self) -> (r: u32)
        ensures
            r == match self {
                KeyInformationClass::KeyBasicInformation => 0u32,
                KeyInformationClass::KeyNodeInformation => 1u32,
                KeyInformationClass::KeyFullInformation => 2u32,
            },
    {
        match self {
            KeyInformationClass::KeyBasicInformation => 0,
            KeyInformationClass::KeyNodeInformation => 1,
            KeyInformationClass::KeyFullInformation => 2,
        }
    }
}

/// The kind of record requested from the value enumeration primitive.
pub enum KeyValueInformationClass {
    /// A basic-information record is supplied.
    KeyValueBasicInformation,
    /// A full-information record is supplied.
    KeyValueFullInformation,
    /// A partial-information record is supplied.
    KeyValuePartialInformation,
    /// A full-information record aligned to a 64-bit boundary is supplied.
    KeyValueFullInformationAlign64,
    /// A partial-information record aligned to a 64-bit boundary is supplied.
    KeyValuePartialInformationAlign64,
    /// A layer-information record is supplied.
    KeyValueLayerInformation,
    /// The greatest value in this enumeration.
    MaxKeyValueInfoClass,
}

impl KeyValueInformationClass {
    /// The numeric discriminator the transport expects for this class.
    pub fn code(&self) -> (r: u32)
        ensures
            r == match self {
                KeyValueInformationClass::KeyValueBasicInformation => 0u32,
                KeyValueInformationClass::KeyValueFullInformation => 1u32,
                KeyValueInformationClass::KeyValuePartialInformation => 2u32,
                KeyValueInformationClass::KeyValueFullInformationAlign64 => 3u32,
                KeyValueInformationClass::KeyValuePartialInformationAlign64 => 4u32,
                KeyValueInformationClass::KeyValueLayerInformation => 5u32,
                KeyValueInformationClass::MaxKeyValueInfoClass => 6u32,
            },
    {
        match self {
            KeyValueInformationClass::KeyValueBasicInformation => 0,
            KeyValueInformationClass::KeyValueFullInformation => 1,
            KeyValueInformationClass::KeyValuePartialInformation => 2,
            KeyValueInformationClass::KeyValueFullInformationAlign64 => 3,
            KeyValueInformationClass::KeyValuePartialInformationAlign64 => 4,
            KeyValueInformationClass::KeyValueLayerInformation => 5,
            KeyValueInformationClass::MaxKeyValueInfoClass => 6,
        }
    }
}

/// The closed set of value type tags this decoder understands.
///
/// An unrecognized numeric tag maps to the catch-all [`ValueType::Unknown`];
/// it is a valid outcome, never an error.
#[allow(non_camel_case_types)]
#[derive(Debug, Clone, Copy, PartialEq, Eq, Structural)]
pub enum ValueType {
    /// No value.
    REG_NONE,
    /// A text value.
    REG_SZ,
    /// A text value holding unexpanded environment references.
    REG_EXPAND_SZ,
    /// Free-form binary data.
    REG_BINARY,
    /// A 32-bit number, little-endian on the wire.
    REG_DWORD,
    /// A 32-bit number, big-endian on the wire.
    REG_DWORD_BIG_ENDIAN,
    /// A symbolic link.
    REG_LINK,
    /// A sequence of texts.
    REG_MULTI_SZ,
    /// A resource list.
    REG_RESOURCE_LIST,
    /// A full resource descriptor.
    REG_FULL_RESOURCE_DESCRIPTOR,
    /// A resource requirements list.
    REG_RESOURCE_REQUIREMENTS_LIST,
    /// A 64-bit number, little-endian on the wire.
    REG_QWORD,
    /// Any tag outside the closed set above.
    Unknown,
}

/// The type tag selected by a numeric wire value.
pub open spec fn spec_value_type(tag: u32) -> ValueType {
    if tag == 0 {
        ValueType::REG_NONE
    } else if tag == 1 {
        ValueType::REG_SZ
    } else if tag == 2 {
        ValueType::REG_EXPAND_SZ
    } else if tag == 3 {
        ValueType::REG_BINARY
    } else if tag == 4 {
        ValueType::REG_DWORD
    } else if tag == 5 {
        ValueType::REG_DWORD_BIG_ENDIAN
    } else if tag == 6 {
        ValueType::REG_LINK
    } else if tag == 7 {
        ValueType::REG_MULTI_SZ
    } else if tag == 8 {
        ValueType::REG_RESOURCE_LIST
    } else if tag == 9 {
        ValueType::REG_FULL_RESOURCE_DESCRIPTOR
    } else if tag == 10 {
        ValueType::REG_RESOURCE_REQUIREMENTS_LIST
    } else if tag == 11 {
        ValueType::REG_QWORD
    } else {
        ValueType::Unknown
    }
}

impl ValueType {
    /// Maps a numeric wire tag to its type; unrecognized tags map to the
    /// catch-all [`ValueType::Unknown`].
    pub fn from_tag(tag: u32) -> (r: ValueType)
        ensures
            r == spec_value_type(tag),
    {
        match tag {
            0 => ValueType::REG_NONE,
            1 => ValueType::REG_SZ,
            2 => ValueType::REG_EXPAND_SZ,
            3 => ValueType::REG_BINARY,
            4 => ValueType::REG_DWORD,
            5 => ValueType::REG_DWORD_BIG_ENDIAN,
            6 => ValueType::REG_LINK,
            7 => ValueType::REG_MULTI_SZ,
            8 => ValueType::REG_RESOURCE_LIST,
            9 => ValueType::REG_FULL_RESOURCE_DESCRIPTOR,
            10 => ValueType::REG_RESOURCE_REQUIREMENTS_LIST,
            11 => ValueType::REG_QWORD,
            _ => ValueType::Unknown,
        }
    }
}

/// The fixed-size basic-information header of a key record.
///
/// The record lays out an 8-byte timestamp, then two 32-bit fields, then
/// `name_length` bytes of code-unit name data.
#[derive(Debug, Clone, Copy, PartialEq, Eq, Structural)]
pub struct KeyBasicInformation {
    /// The last time this key or any of its values changed; not interpreted
    /// by this library.
    pub last_write_time: u64,
    /// A field reserved for the store; not interpreted by this library.
    pub title_index: u32,
    /// The size in bytes of the name data that follows the header.
    pub name_length: u32,
}

/// The number of bytes of a key basic-information header.
pub const KEY_BASIC_HEADER_SIZE: usize = 16;

/// The key basic-information header encoded at the start of `b`.
pub open spec fn spec_key_basic(b: Seq<u8>) -> KeyBasicInformation
    recommends
        b.len() >= KEY_BASIC_HEADER_SIZE,
{
    KeyBasicInformation {
        last_write_time: spec_u64_le(b, 0),
        title_index: spec_u32_le(b, 8),
        name_length: spec_u32_le(b, 12),
    }
}

impl KeyBasicInformation {
    /// Decodes the fixed key header at the start of `data`.
    ///
    /// A buffer shorter than the fixed header size is rejected as truncated;
    /// no byte past the buffer's end is read.
    pub fn new(data: &[u8]) -> (r: Result<Self, Error>)
        ensures
            data@.len() < KEY_BASIC_HEADER_SIZE ==> r == Err::<Self, Error>(
                Error::RegValueError { source: RegValueError::ReadKeyBasicInformation },
            ),
            data@.len() >= KEY_BASIC_HEADER_SIZE ==> r == Ok::<Self, Error>(spec_key_basic(data@)),
    {
        if data.len() < KEY_BASIC_HEADER_SIZE {
            return Err(Error::RegValueError { source: RegValueError::ReadKeyBasicInformation });
        }
        Ok(
            KeyBasicInformation {
                last_write_time: read_u64_le(data, 0),
                title_index: read_u32_le(data, 8),
                name_length: read_u32_le(data, 12),
            },
        )
    }
}

/// The fixed-size full-information header of a value record.
///
/// The record lays out five 32-bit fields, then `name_length` bytes of
/// code-unit name data, then, at absolute offset `data_offset` from the
/// start of the record, `data_length` bytes of typed payload.
#[derive(Debug, Clone, Copy, PartialEq, Eq, Structural)]
pub struct KeyValueFullInformation {
    /// A field reserved for the store; not interpreted by this library.
    pub title_index: u32,
    /// The type tag selecting how the payload bytes are interpreted.
    pub value_type: u32,
    /// The offset from the start of the record to the payload bytes.
    pub data_offset: u32,
    /// The number of payload bytes.
    pub data_length: u32,
    /// The size in bytes of the name data that follows the header.
    pub name_length: u32,
}

/// The number of bytes of a value full-information header.
pub const VALUE_FULL_HEADER_SIZE: usize = 20;

/// The value full-information header encoded at the start of `b`.
pub open spec fn spec_value_full(b: Seq<u8>) -> KeyValueFullInformation
    recommends
        b.len() >= VALUE_FULL_HEADER_SIZE,
{
    KeyValueFullInformation {
        title_index: spec_u32_le(b, 0),
        value_type: spec_u32_le(b, 4),
        data_offset: spec_u32_le(b, 8),
        data_length: spec_u32_le(b, 12),
        name_length: spec_u32_le(b, 16),
    }
}

impl KeyValueFullInformation {
    /// Decodes the fixed value header at the start of `data`.
    ///
    /// A buffer shorter than the fixed header size is rejected as truncated;
    /// no byte past the buffer's end is read.
    pub fn new(data: &[u8]) -> (r: Result<Self, Error>)
        ensures
            data@.len() < VALUE_FULL_HEADER_SIZE ==> r == Err::<Self, Error>(
                Error::RegValueError { source: RegValueError::ReadKeyValueFullInformation },
            ),
            data@.len() >= VALUE_FULL_HEADER_SIZE ==> r == Ok::<Self, Error>(
                spec_value_full(data@),
            ),
    {
        if data.len() < VALUE_FULL_HEADER_SIZE {
            return Err(
                Error::RegValueError { source: RegValueError::ReadKeyValueFullInformation },
            );
        }
        Ok(
            KeyValueFullInformation {
                title_index: read_u32_le(data, 0),
                value_type: read_u32_le(data, 4),
                data_offset: read_u32_le(data, 8),
                data_length: read_u32_le(data, 12),
                name_length: read_u32_le(data, 16),
            },
        )
    }
}

/// A decoded, typed registry value payload.
#[derive(Debug, Clone, PartialEq)]
pub enum RegValue {
    /// No value.
    NoValue,
    /// A value that can be represented as text.
    String(String),
    /// A 32-bit number.
    Dword(u32),
    /// A 64-bit number.
    Qword(u64),
    /// Owned binary data.
    Binary(Vec<u8>),
    /// An unrecognized or unsupported value type.
    Unknown,
}

/// Whether two typed values carry the same tag and the same contents, with
/// owned text and bytes compared by their views.
pub open spec fn same_reg_value(a: RegValue, b: RegValue) -> bool {
    match (a, b) {
        (RegValue::NoValue, RegValue::NoValue) => true,
        (RegValue::String(x), RegValue::String(y)) => x@ == y@,
        (RegValue::Dword(x), RegValue::Dword(y)) => x == y,
        (RegValue::Qword(x), RegValue::Qword(y)) => x == y,
        (RegValue::Binary(x), RegValue::Binary(y)) => x@ == y@,
        (RegValue::Unknown, RegValue::Unknown) => true,
        _ => false,
    }
}

/// Whether a text payload region is present: a nonzero claimed length whose
/// whole extent lies inside the record.
pub open spec fn sz_ready(h: KeyValueFullInformation, raw: Seq<u8>) -> bool {
    h.data_length > 0 && h.data_offset + h.data_length <= raw.len()
}

/// Whether the payload region lies inside the record and holds at least
/// `width` bytes.
pub open spec fn payload_ready(h: KeyValueFullInformation, raw: Seq<u8>, width: int) -> bool {
    h.data_offset + h.data_length <= raw.len() && h.data_length >= width
}

/// The code units of a text payload, terminator units stripped.
pub open spec fn spec_sz_units(h: KeyValueFullInformation, raw: Seq<u8>) -> Seq<u16> {
    strip_terminator_units(
        spec_name_units(raw, h.data_offset as int, (h.data_length / 2) as int),
    )
}

/// Whether interpreting the payload region of `raw` under `h`'s type tag
/// succeeds.
pub open spec fn value_decode_succeeds(h: KeyValueFullInformation, raw: Seq<u8>) -> bool {
    match spec_value_type(h.value_type) {
        ValueType::REG_NONE => true,
        ValueType::REG_SZ | ValueType::REG_EXPAND_SZ => !sz_ready(h, raw) || text_of_wide(
            spec_sz_units(h, raw),
        ) is Some,
        ValueType::REG_DWORD => payload_ready(h, raw, 4),
        ValueType::REG_DWORD_BIG_ENDIAN => payload_ready(h, raw, 4),
        ValueType::REG_QWORD => payload_ready(h, raw, 8),
        ValueType::REG_BINARY => payload_ready(h, raw, 0),
        _ => true,
    }
}

/// How a decoded value relates to its header and record: the exact outcome
/// of interpreting the payload region of `raw` under `h`'s type tag.
pub open spec fn value_decode_rel(
    h: KeyValueFullInformation,
    raw: Seq<u8>,
    r: Result<RegValue, Error>,
) -> bool {
    match spec_value_type(h.value_type) {
        ValueType::REG_NONE => r == Ok::<RegValue, Error>(RegValue::NoValue),
        ValueType::REG_SZ | ValueType::REG_EXPAND_SZ => if sz_ready(h, raw) {
            match text_of_wide(spec_sz_units(h, raw)) {
                Option::Some(t) => r matches Ok(RegValue::String(s)) && s@ == t,
                Option::None => r == Err::<RegValue, Error>(Error::StringConversion),
            }
        } else {
            r matches Ok(RegValue::String(s)) && s@ == Seq::<char>::empty()
        },
        ValueType::REG_DWORD => if payload_ready(h, raw, 4) {
            r == Ok::<RegValue, Error>(RegValue::Dword(spec_u32_le(raw, h.data_offset as int)))
        } else {
            r == Err::<RegValue, Error>(
                Error::RegValueError { source: RegValueError::DwordConversion },
            )
        },
        ValueType::REG_DWORD_BIG_ENDIAN => if payload_ready(h, raw, 4) {
            r == Ok::<RegValue, Error>(RegValue::Dword(spec_u32_be(raw, h.data_offset as int)))
        } else {
            r == Err::<RegValue, Error>(
                Error::RegValueError { source: RegValueError::DwordConversion },
            )
        },
        ValueType::REG_QWORD => if payload_ready(h, raw, 8) {
            r == Ok::<RegValue, Error>(RegValue::Qword(spec_u64_le(raw, h.data_offset as int)))
        } else {
            r == Err::<RegValue, Error>(
                Error::RegValueError { source: RegValueError::DwordConversion },
            )
        },
        ValueType::REG_BINARY => if payload_ready(h, raw, 0) {
            r matches Ok(RegValue::Binary(b)) && b@ == raw.subrange(
                h.data_offset as int,
                h.data_offset + h.data_length,
            )
        } else {
            r == Err::<RegValue, Error>(
                Error::RegValueError { source: RegValueError::SmallDataBlob },
            )
        },
        _ => r == Ok::<RegValue, Error>(RegValue::Unknown),
    }
}

impl RegValue {
    /// Interprets the payload region of `data` under `info`'s type tag.
    ///
    /// Every numeric and text decode bound-checks `data_offset` and
    /// `data_length` against the record before slicing; a region that falls
    /// outside the record fails for the strict tags, yields an empty text for
    /// the permissive text tags, and an unrecognized tag always yields
    /// [`RegValue::Unknown`], never an error.
    pub fn new(info: &KeyValueFullInformation, data: &[u8]) -> (r: Result<RegValue, Error>)
        ensures
            value_decode_rel(*info, data@, r),
            r is Ok <==> value_decode_succeeds(*info, data@),
            (spec_value_type(info.value_type) == ValueType::REG_BINARY || spec_value_type(
                info.value_type,
            ) == ValueType::REG_DWORD || spec_value_type(info.value_type)
                == ValueType::REG_DWORD_BIG_ENDIAN || spec_value_type(info.value_type)
                == ValueType::REG_QWORD) && info.data_offset + info.data_length > data@.len()
                ==> r is Err,
            (spec_value_type(info.value_type) == ValueType::REG_SZ || spec_value_type(
                info.value_type,
            ) == ValueType::REG_EXPAND_SZ) && info.data_length == 0 ==> (r matches Ok(
                RegValue::String(s),
            ) && s@ == Seq::<char>::empty()),
            info.value_type > 11 ==> r == Ok::<RegValue, Error>(RegValue::Unknown),
    {
        let data_len: usize = data.len();
        let off64: u64 = info.data_offset as u64;
        let len64: u64 = info.data_length as u64;
        match ValueType::from_tag(info.value_type) {
            ValueType::REG_NONE => Ok(RegValue::NoValue),
            ValueType::REG_SZ | ValueType::REG_EXPAND_SZ => {
                if info.data_length > 0 && off64 + len64 <= data_len as u64 {
                    let units = decode_name(
                        data,
                        info.data_offset as usize,
                        info.data_length / 2,
                    );
                    let stripped = strip_terminators(&units);
                    match decode_wide(stripped.as_slice()) {
                        Some(s) => Ok(RegValue::String(s)),
                        None => Err(Error::StringConversion),
                    }
                } else {
                    Ok(RegValue::String(String::new()))
                }
            },
            ValueType::REG_DWORD => {
                if off64 + len64 <= data_len as u64 && info.data_length >= 4 {
                    Ok(RegValue::Dword(read_u32_le(data, info.data_offset as usize)))
                } else {
                    Err(Error::RegValueError { source: RegValueError::DwordConversion })
                }
            },
            ValueType::REG_DWORD_BIG_ENDIAN => {
                if off64 + len64 <= data_len as u64 && info.data_length >= 4 {
                    Ok(RegValue::Dword(read_u32_be(data, info.data_offset as usize)))
                } else {
                    Err(Error::RegValueError { source: RegValueError::DwordConversion })
                }
            },
            ValueType::REG_QWORD => {
                if off64 + len64 <= data_len as u64 && info.data_length >= 8 {
                    Ok(RegValue::Qword(read_u64_le(data, info.data_offset as usize)))
                } else {
                    Err(Error::RegValueError { source: RegValueError::DwordConversion })
                }
            },
            ValueType::REG_BINARY => {
                if off64 + len64 <= data_len as u64 {
                    let off: usize = info.data_offset as usize;
                    let end: usize = off + info.data_length as usize;
                    let region = vstd::slice::slice_subrange(data, off, end);
                    let owned = vstd::slice::slice_to_vec(region);
                    Ok(RegValue::Binary(owned))
                } else {
                    Err(Error::RegValueError { source: RegValueError::SmallDataBlob })
                }
            },
            _ => Ok(RegValue::Unknown),
        }
    }
}

} // verus!
