//! Lazy enumeration of subkey records.
//!
//! The iterator owns an index cursor and the parent key's path; each pull
//! decodes one basic-information record into a subkey descriptor. "No more
//! entries" and any decode failure are terminal: the iterator becomes
//! exhausted and stays so.

use vstd::prelude::*;
use vstd::string::StringExecFns;

use crate::api::spec_key_basic;
use crate::api::KeyBasicInformation;
use crate::api::KEY_BASIC_HEADER_SIZE;
use crate::error::Error;
use crate::error::SubKeyError;
use crate::wide::decode_name;
use crate::wide::decode_wide;
use crate::wide::spec_name_units;
use crate::wide::strip_terminator_units;
use crate::wide::strip_terminators;
use crate::wide::text_of_wide;
use crate::RegKey;

verus! {

/// The name code units of a key record, terminator units stripped.
pub open spec fn spec_key_name_units(data: Seq<u8>) -> Seq<u16> {
    strip_terminator_units(
        spec_name_units(
            data,
            KEY_BASIC_HEADER_SIZE as int,
            (spec_key_basic(data).name_length / 2) as int,
        ),
    )
}

/// Whether one whole key record decodes: the buffer covers the fixed header
/// and the extracted name converts to text.
pub open spec fn key_record_decodes(data: Seq<u8>) -> bool {
    data.len() >= KEY_BASIC_HEADER_SIZE && text_of_wide(spec_key_name_units(data)) is Some
}

/// A decoded subkey record: the child's name and its parent's full path.
pub struct RegSubkey {
    /// The subkey's name as text.
    pub name: String,
    /// The parent key's full path as code units, with a trailing terminator
    /// unit; kept to reconstruct the child's full path.
    pub parent: Vec<u16>,
}

/// `units` with a trailing element removed, where there is one.
pub open spec fn spec_drop_trailing(units: Seq<u16>) -> Seq<u16> {
    if units.len() > 0 {
        units.drop_last()
    } else {
        units
    }
}

impl RegSubkey {
    /// The subkey's name.
    pub fn name(&self) -> (r: String)
        ensures
            r@ == self.name@,
    {
        self.name.clone()
    }

    /// The subkey's full path: the parent's path with its trailing
    /// terminator unit dropped, a separator, and the child's name.
    ///
    /// Fails where the parent's code units are not valid text.
    pub fn path(&self) -> (r: Result<String, Error>)
        ensures
            match r {
                Ok(s) => text_of_wide(spec_drop_trailing(self.parent@)) matches Some(p) && s@ == p
                    + "\\"@ + self.name@,
                Err(e) => text_of_wide(spec_drop_trailing(self.parent@)) is None && e == (
                Error::SubKeyError { source: SubKeyError::ConvertName }),
            },
    {
        let mut trimmed = crate::wide::copy_units(&self.parent);
        if trimmed.len() > 0 {
            trimmed.pop();
        }
        proof {
            assert(trimmed@ =~= spec_drop_trailing(self.parent@));
        }
        match decode_wide(trimmed.as_slice()) {
            Some(mut s) => {
                s.append("\\");
                s.append(self.name.as_str());
                Ok(s)
            },
            None => Err(Error::SubKeyError { source: SubKeyError::ConvertName }),
        }
    }
}

/// A lazy, single-pass, non-restartable enumerator of subkey records.
pub struct RegKeyIterator {
    /// The shared, read-only transport handle this iterator enumerates.
    pub handle: u64,
    /// The index the next pull hands to the transport; incremented only
    /// after a successful decode.
    pub index: u32,
    /// The parent key's full path as code units, with a trailing terminator
    /// unit.
    pub name: Vec<u16>,
    /// Whether enumeration has ended; terminal and sticky.
    pub exhausted: bool,
}

impl RegKeyIterator {
    /// A fresh enumerator over `key`, starting at index zero.
    pub fn new(key: &RegKey) -> (it: RegKeyIterator)
        ensures
            it.handle == key.handle,
            it.index == 0,
            it.name@ == key.name@,
            !it.exhausted,
    {
        RegKeyIterator {
            handle: key.handle,
            index: 0,
            name: crate::wide::copy_units(&key.name),
            exhausted: false,
        }
    }

    /// One pull: decodes the transport's answer for the current index.
    ///
    /// `response` is what the external enumeration primitive returned for
    /// `(handle, index)`: `None` signals no more entries. Once exhausted,
    /// every later pull produces nothing and changes nothing. A record that
    /// fails to decode is terminal as well: the iterator stops rather than
    /// skip entries silently.
    pub fn next(&mut self, response: Option<Vec<u8>>) -> (r: Option<RegSubkey>)
        ensures
            old(self).exhausted ==> r is None && *final(self) == *old(self),
            final(self).handle == old(self).handle,
            final(self).name@ == old(self).name@,
            !old(self).exhausted && response is None ==> r is None && final(self).exhausted
                && final(self).index == old(self).index,
            !old(self).exhausted ==> (response matches Some(data) ==> match r {
                Some(sk) => {
                    &&& key_record_decodes(data@)
                    &&& Some(sk.name@) == text_of_wide(spec_key_name_units(data@))
                    &&& sk.parent@ == old(self).name@
                    &&& if old(self).index < u32::MAX {
                        final(self).index == old(self).index + 1 && !final(self).exhausted
                    } else {
                        final(self).exhausted
                    }
                },
                None => {
                    &&& !key_record_decodes(data@)
                    &&& final(self).exhausted
                    &&& final(self).index == old(self).index
                },
            }),
    {
        if self.exhausted {
            return None;
        }
        match response {
            Some(data) => {
                if data.len() < KEY_BASIC_HEADER_SIZE {
                    self.exhausted = true;
                    return None;
                }
                match KeyBasicInformation::new(data.as_slice()) {
                    Ok(info) => {
                        let units = decode_name(
                            data.as_slice(),
                            KEY_BASIC_HEADER_SIZE,
                            info.name_length / 2,
                        );
                        let stripped = strip_terminators(&units);
                        match decode_wide(stripped.as_slice()) {
                            Some(s) => {
                                if self.index < u32::MAX {
                                    self.index = self.index + 1;
                                } else {
                                    self.exhausted = true;
                                }
                                Some(
                                    RegSubkey {
                                        name: s,
                                        parent: crate::wide::copy_units(&self.name),
                                    },
                                )
                            },
                            None => {
                                self.exhausted = true;
                                None
                            },
                        }
                    },
                    Err(_) => {
                        self.exhausted = true;
                        None
                    },
                }
            },
            None => {
                self.exhausted = true;
                None
            },
        }
    }
}

} // verus!
