//! A structured, safe view over the binary records of an index-based
//! key/value enumeration transport (the NT-style registry wire format).
//!
//! Raw byte buffers returned by the transport are decoded into typed key
//! names, value names and typed value payloads by bounds-checked,
//! field-by-field reads; stateful iterators drive repeated index-based
//! enumeration until the transport reports exhaustion or a record fails to
//! decode.
//!
//! The open, close, enumerate, set and delete primitives themselves belong
//! to the host environment: the functions here compute the requests handed
//! to them and decode or classify what they return.

use vstd::prelude::*;

pub mod api;
pub mod error;
pub mod reg_key_iterator;
pub mod reg_value_iterator;
pub mod unicode_string;
pub mod wide;

pub use crate::api::KeyBasicInformation;
pub use crate::api::KeyInformationClass;
pub use crate::api::KeyValueFullInformation;
pub use crate::api::KeyValueInformationClass;
pub use crate::api::RegValue;
pub use crate::error::Error;
pub use crate::error::RegKeyError;
pub use crate::error::RegValueError;
pub use crate::error::SubKeyError;
pub use crate::reg_key_iterator::RegKeyIterator;
pub use crate::reg_key_iterator::RegSubkey;
pub use crate::reg_value_iterator::RegValueItem;
pub use crate::reg_value_iterator::RegValueIterator;
pub use crate::unicode_string::UnicodeString;

use crate::wide::encode_wide;
use crate::wide::spec_units_to_bytes;
use crate::wide::units_to_bytes;
use crate::wide::wide_units_of;
use vstd::string::StringExecFns;

verus! {

/// The transport's status code for success.
pub const STATUS_SUCCESS: u32 = 0;

/// The transport's status code for a refused access.
pub const STATUS_ACCESS_DENIED: u32 = 0xC0000022;

/// The transport's status code for a handle that is not valid.
pub const STATUS_INVALID_HANDLE: u32 = 0xC0000008;

/// The transport's status code for exhausted resources.
pub const STATUS_INSUFFICIENT_RESOURCES: u32 = 0xC000009A;

/// The transport's status code for a name that does not exist.
pub const STATUS_OBJECT_NAME_NOT_FOUND: u32 = 0xC0000034;

/// The access mask of a read-only open: query, enumerate and notify rights.
pub const KEY_READ_ACCESS: u32 = 0x20019;

/// The access mask of a writable open: write, delete and set-value rights.
pub const KEY_WRITE_ACCESS: u32 = 0x20006 | 0x10000 | 0x2;

/// Entry point for registry access: an opened key context.
///
/// The transport handle is an opaque identifier owned by the host
/// environment; the context owns it, and iterators derived from the context
/// share it read-only.
pub struct RegKey {
    /// The transport's handle for this open key.
    pub handle: u64,
    /// The key's full path as code units, with a trailing terminator unit.
    pub name: Vec<u16>,
}

impl RegKey {
    /// Builds the key context out of the transport's answer to an open
    /// request for `name`.
    ///
    /// A zero status yields the context; any other status yields the open
    /// error carrying the path and the raw status code.
    pub fn open_result(name: &str, status: u32, handle: u64) -> (r: Result<RegKey, Error>)
        ensures
            match r {
                Ok(k) => status == 0 && k.handle == handle && k.name@ == wide_units_of(
                    name@,
                ).push(0),
                Err(e) => status != 0 && (e matches Error::KeyError(n, c) && n@ == name@ && c
                    == status),
            },
    {
        if status == 0 {
            let mut units = encode_wide(name);
            units.push(0);
            Ok(RegKey { handle, name: units })
        } else {
            Err(Error::KeyError(String::from_str(name), status))
        }
    }

    /// A subkey enumerator over this key, starting at index zero.
    pub fn enum_keys(&self) -> (it: RegKeyIterator)
        ensures
            it.handle == self.handle,
            it.index == 0,
            it.name@ == self.name@,
            !it.exhausted,
    {
        RegKeyIterator::new(self)
    }

    /// A value enumerator over this key, starting at index zero.
    pub fn enum_values(&self) -> (it: RegValueIterator)
        ensures
            it.handle == self.handle,
            it.index == 0,
            !it.exhausted,
    {
        RegValueIterator::new(self.handle)
    }

    /// The raw transport handle of this key.
    pub fn handle(&self) -> (h: u64)
        ensures
            h == self.handle,
    {
        self.handle
    }

    /// Classifies the transport's answer to a key deletion.
    pub fn delete_result(status: u32) -> (r: Result<(), Error>)
        ensures
            status == STATUS_ACCESS_DENIED <==> r == Err::<(), Error>(
                Error::RegKeyError { source: RegKeyError::DeleteAccessDenied },
            ),
            status == STATUS_INVALID_HANDLE <==> r == Err::<(), Error>(
                Error::RegKeyError { source: RegKeyError::DeleteInvalidHandle },
            ),
            status != STATUS_ACCESS_DENIED && status != STATUS_INVALID_HANDLE <==> r == Ok::<
                (),
                Error,
            >(()),
    {
        if status == STATUS_ACCESS_DENIED {
            Err(Error::RegKeyError { source: RegKeyError::DeleteAccessDenied })
        } else if status == STATUS_INVALID_HANDLE {
            Err(Error::RegKeyError { source: RegKeyError::DeleteInvalidHandle })
        } else {
            Ok(())
        }
    }

    /// Classifies the transport's answer to a value deletion.
    pub fn delete_value_result(status: u32) -> (r: Result<(), Error>)
        ensures
            status == STATUS_ACCESS_DENIED ==> r == Err::<(), Error>(
                Error::RegValueError { source: RegValueError::AccessDenied },
            ),
            status == STATUS_INSUFFICIENT_RESOURCES ==> r == Err::<(), Error>(
                Error::RegValueError { source: RegValueError::InsufficientResources },
            ),
            status == STATUS_INVALID_HANDLE ==> r == Err::<(), Error>(
                Error::RegValueError { source: RegValueError::InvalidHandle },
            ),
            status == STATUS_OBJECT_NAME_NOT_FOUND ==> r == Err::<(), Error>(
                Error::RegValueError { source: RegValueError::NameNotFound },
            ),
            status != STATUS_ACCESS_DENIED && status != STATUS_INSUFFICIENT_RESOURCES && status
                != STATUS_INVALID_HANDLE && status != STATUS_OBJECT_NAME_NOT_FOUND ==> r == Ok::<
                (),
                Error,
            >(()),
    {
        if status == STATUS_ACCESS_DENIED {
            Err(Error::RegValueError { source: RegValueError::AccessDenied })
        } else if status == STATUS_INSUFFICIENT_RESOURCES {
            Err(Error::RegValueError { source: RegValueError::InsufficientResources })
        } else if status == STATUS_INVALID_HANDLE {
            Err(Error::RegValueError { source: RegValueError::InvalidHandle })
        } else if status == STATUS_OBJECT_NAME_NOT_FOUND {
            Err(Error::RegValueError { source: RegValueError::NameNotFound })
        } else {
            Ok(())
        }
    }

    /// Classifies the transport's answer to a value write.
    pub fn write_result(status: u32) -> (r: Result<(), Error>)
        ensures
            status == 0 <==> r == Ok::<(), Error>(()),
            status != 0 ==> r == Err::<(), Error>(
                Error::RegValueError { source: RegValueError::Write(status) },
            ),
    {
        if status == 0 {
            Ok(())
        } else {
            Err(Error::RegValueError { source: RegValueError::Write(status) })
        }
    }

    /// The wire payload of a text value write: the text's code units with a
    /// trailing terminator unit, laid out as bytes, low byte first.
    pub fn string_value_payload(value: &str) -> (r: Vec<u8>)
        ensures
            r@ == spec_units_to_bytes(wide_units_of(value@).push(0)),
    {
        let mut units = encode_wide(value);
        units.push(0);
        units_to_bytes(&units)
    }

    /// The wire payload of a 32-bit value write: four bytes, low byte first.
    pub fn dword_value_payload(value: u32) -> (r: Vec<u8>)
        ensures
            r@.len() == 4,
            crate::api::spec_u32_le(r@, 0) == value,
    {
        proof {
            assert(value & 0xff <= 0xff) by (bit_vector);
            assert((value >> 8) & 0xff <= 0xff) by (bit_vector);
            assert((value >> 16) & 0xff <= 0xff) by (bit_vector);
            assert((value >> 24) & 0xff <= 0xff) by (bit_vector);
        }
        let b0 = (value & 0xff) as u8;
        let b1 = ((value >> 8) & 0xff) as u8;
        let b2 = ((value >> 16) & 0xff) as u8;
        let b3 = ((value >> 24) & 0xff) as u8;
        let r: Vec<u8> = vec![b0, b1, b2, b3];
        proof {
            assert((value & 0xff) | (((value >> 8) & 0xff) << 8) | (((value >> 16) & 0xff) << 16)
                | (((value >> 24) & 0xff) << 24) == value) by (bit_vector);
        }
        r
    }

    /// The wire payload of a 64-bit value write: eight bytes, low byte
    /// first.
    pub fn qword_value_payload(value: u64) -> (r: Vec<u8>)
        ensures
            r@.len() == 8,
            crate::api::spec_u64_le(r@, 0) == value,
    {
        proof {
            assert(value & 0xff <= 0xff) by (bit_vector);
            assert((value >> 8) & 0xff <= 0xff) by (bit_vector);
            assert((value >> 16) & 0xff <= 0xff) by (bit_vector);
            assert((value >> 24) & 0xff <= 0xff) by (bit_vector);
            assert((value >> 32) & 0xff <= 0xff) by (bit_vector);
            assert((value >> 40) & 0xff <= 0xff) by (bit_vector);
            assert((value >> 48) & 0xff <= 0xff) by (bit_vector);
            assert((value >> 56) & 0xff <= 0xff) by (bit_vector);
        }
        let b0 = (value & 0xff) as u8;
        let b1 = ((value >> 8) & 0xff) as u8;
        let b2 = ((value >> 16) & 0xff) as u8;
        let b3 = ((value >> 24) & 0xff) as u8;
        let b4 = ((value >> 32) & 0xff) as u8;
        let b5 = ((value >> 40) & 0xff) as u8;
        let b6 = ((value >> 48) & 0xff) as u8;
        let b7 = ((value >> 56) & 0xff) as u8;
        let r: Vec<u8> = vec![b0, b1, b2, b3, b4, b5, b6, b7];
        proof {
            assert((value & 0xff) | (((value >> 8) & 0xff) << 8) | (((value >> 16) & 0xff) << 16)
                | (((value >> 24) & 0xff) << 24) | (((value >> 32) & 0xff) << 32) | (((value >> 40)
                & 0xff) << 40) | (((value >> 48) & 0xff) << 48) | (((value >> 56) & 0xff) << 56)
                == value) by (bit_vector);
        }
        r
    }
}

} // verus!
