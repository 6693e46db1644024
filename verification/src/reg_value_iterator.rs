//! Lazy enumeration of value records.
//!
//! The iterator owns an index cursor and drives the external enumeration
//! primitive one pull at a time; the caller hands each pull the transport's
//! answer for the current index. "No more entries" and any decode failure
//! are terminal: the iterator becomes exhausted and stays so.

use vstd::prelude::*;

use crate::api::spec_value_full;
use crate::api::value_decode_rel;
use crate::api::value_decode_succeeds;
use crate::api::KeyValueFullInformation;
use crate::api::RegValue;
use crate::api::VALUE_FULL_HEADER_SIZE;
use crate::error::Error;
use crate::error::RegValueError;
use crate::wide::decode_name;
use crate::wide::decode_wide;
use crate::wide::spec_name_units;
use crate::wide::text_of_wide;

verus! {

/// A decoded registry value record: a name and a typed payload.
pub struct RegValueItem {
    /// The value's name as raw code units, kept losslessly; conversion to
    /// text is on demand and can fail.
    pub name: Vec<u16>,
    /// The decoded, typed payload.
    pub value: RegValue,
}

/// Whether the record is large enough for its fixed header and the name
/// bytes the header claims.
pub open spec fn item_structure_ok(data: Seq<u8>) -> bool {
    data.len() >= VALUE_FULL_HEADER_SIZE && VALUE_FULL_HEADER_SIZE + spec_value_full(
        data,
    ).name_length <= data.len()
}

/// The name code units of a value record.
pub open spec fn spec_item_name_units(data: Seq<u8>) -> Seq<u16> {
    spec_name_units(
        data,
        VALUE_FULL_HEADER_SIZE as int,
        (spec_value_full(data).name_length / 2) as int,
    )
}

/// Whether decoding one whole value record out of `data` succeeds.
pub open spec fn item_decodes(data: Seq<u8>) -> bool {
    item_structure_ok(data) && value_decode_succeeds(spec_value_full(data), data)
}

/// How a decoded value item relates to its record: the exact outcome of
/// decoding the header, the name region and the typed payload of `data`.
pub open spec fn item_decode_rel(data: Seq<u8>, r: Result<RegValueItem, Error>) -> bool {
    if data.len() < VALUE_FULL_HEADER_SIZE {
        r == Err::<RegValueItem, Error>(
            Error::RegValueError { source: RegValueError::SmallDataBlob },
        )
    } else if !item_structure_ok(data) {
        r == Err::<RegValueItem, Error>(
            Error::RegValueError { source: RegValueError::SmallNameBlob },
        )
    } else {
        match r {
            Ok(item) => item.name@ == spec_item_name_units(data) && value_decode_rel(
                spec_value_full(data),
                data,
                Ok::<RegValue, Error>(item.value),
            ),
            Err(e) => value_decode_rel(
                spec_value_full(data),
                data,
                Err::<RegValue, Error>(e),
            ),
        }
    }
}

impl RegValueItem {
    /// Decodes one whole value record: fixed header, name region, typed
    /// payload.
    ///
    /// A buffer shorter than the fixed header is rejected as truncated, one
    /// holding fewer name bytes than the header claims is rejected as a
    /// short name blob, and the payload is interpreted under the header's
    /// type tag; no byte past the buffer's end is read.
    pub fn try_from(data: Vec<u8>) -> (r: Result<RegValueItem, Error>)
        ensures
            item_decode_rel(data@, r),
            r is Ok <==> item_decodes(data@),
            data@.len() < VALUE_FULL_HEADER_SIZE ==> r == Err::<RegValueItem, Error>(
                Error::RegValueError { source: RegValueError::SmallDataBlob },
            ),
    {
        let data_len: usize = data.len();
        if data_len < VALUE_FULL_HEADER_SIZE {
            return Err(Error::RegValueError { source: RegValueError::SmallDataBlob });
        }
        let value = match KeyValueFullInformation::new(data.as_slice()) {
            Ok(v) => v,
            Err(e) => {
                return Err(e);
            },
        };
        if !((VALUE_FULL_HEADER_SIZE as u64) + (value.name_length as u64) <= data_len as u64) {
            return Err(Error::RegValueError { source: RegValueError::SmallNameBlob });
        }
        let name = decode_name(data.as_slice(), VALUE_FULL_HEADER_SIZE, value.name_length / 2);
        match RegValue::new(&value, data.as_slice()) {
            Ok(v) => Ok(RegValueItem { name, value: v }),
            Err(e) => Err(e),
        }
    }

    /// The value's name as text; fails where the stored code units are not
    /// valid text.
    pub fn name(&self) -> (r: Result<String, Error>)
        ensures
            match r {
                Ok(s) => text_of_wide(self.name@) == Some(s@),
                Err(e) => text_of_wide(self.name@) is None && e == (Error::RegValueError {
                    source: RegValueError::ConvertName,
                }),
            },
    {
        match decode_wide(self.name.as_slice()) {
            Some(s) => Ok(s),
            None => Err(Error::RegValueError { source: RegValueError::ConvertName }),
        }
    }

    /// A copy of the decoded, typed payload.
    pub fn value(&self) -> (r: RegValue)
        ensures
            crate::api::same_reg_value(r, self.value),
    {
        match &self.value {
            RegValue::NoValue => RegValue::NoValue,
            RegValue::String(s) => RegValue::String(s.clone()),
            RegValue::Dword(d) => RegValue::Dword(*d),
            RegValue::Qword(q) => RegValue::Qword(*q),
            RegValue::Binary(b) => {
                let copied = crate::wide::copy_bytes(b);
                RegValue::Binary(copied)
            },
            RegValue::Unknown => RegValue::Unknown,
        }
    }
}

/// A lazy, single-pass, non-restartable enumerator of value records.
pub struct RegValueIterator {
    /// The shared, read-only transport handle this iterator enumerates.
    pub handle: u64,
    /// The index the next pull hands to the transport; incremented only
    /// after a successful decode.
    pub index: u32,
    /// Whether enumeration has ended; terminal and sticky.
    pub exhausted: bool,
}

impl RegValueIterator {
    /// A fresh enumerator over `handle`, starting at index zero.
    pub fn new(handle: u64) -> (it: RegValueIterator)
        ensures
            it.handle == handle,
            it.index == 0,
            !it.exhausted,
    {
        RegValueIterator { handle, index: 0, exhausted: false }
    }

    /// One pull: decodes the transport's answer for the current index.
    ///
    /// `response` is what the external enumeration primitive returned for
    /// `(handle, index)`: `None` signals no more entries. Once exhausted,
    /// every later pull produces nothing and changes nothing. A record that
    /// fails to decode is terminal as well: the iterator stops rather than
    /// skip entries silently.
    pub fn next(&mut self, response: Option<Vec<u8>>) -> (r: Option<RegValueItem>)
        ensures
            old(self).exhausted ==> r is None && *final(self) == *old(self),
            final(self).handle == old(self).handle,
            !old(self).exhausted && response is None ==> r is None && final(self).exhausted
                && final(self).index == old(self).index,
            !old(self).exhausted ==> (response matches Some(data) ==> match r {
                Some(item) => {
                    &&& item_decodes(data@)
                    &&& item_decode_rel(data@, Ok::<RegValueItem, Error>(item))
                    &&& if old(self).index < u32::MAX {
                        final(self).index == old(self).index + 1 && !final(self).exhausted
                    } else {
                        final(self).exhausted
                    }
                },
                None => {
                    &&& !item_decodes(data@)
                    &&& final(self).exhausted
                    &&& final(self).index == old(self).index
                },
            }),
    {
        if self.exhausted {
            return None;
        }
        match response {
            Some(data) => {
                match RegValueItem::try_from(data) {
                    Ok(item) => {
                        if self.index < u32::MAX {
                            self.index = self.index + 1;
                        } else {
                            self.exhausted = true;
                        }
                        Some(item)
                    },
                    Err(_) => {
                        self.exhausted = true;
                        None
                    },
                }
            },
            None => {
                self.exhausted = true;
                None
            },
        }
    }
}

} // verus!
