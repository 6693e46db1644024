use vstd::prelude::*;

verus! {

/// Errors encountered while processing subkeys.
#[derive(Debug, Clone, PartialEq, Eq, Structural)]
pub enum SubKeyError {
    /// Converting a subkey name to text failed.
    ConvertName,
}

/// Errors encountered while decoding registry value records.
#[derive(Debug, Clone, PartialEq, Eq, Structural)]
pub enum RegValueError {
    /// Extracting a registry value's name as text failed.
    ConvertName,
    /// The buffer holds fewer name bytes than the header claims.
    SmallNameBlob,
    /// The buffer is shorter than the fixed value header.
    SmallDataBlob,
    /// The record carries a type the decoder does not support.
    UnknownType,
    /// The payload region is too small for a fixed-width numeric value.
    DwordConversion,
    /// The buffer is shorter than the fixed value header fields.
    ReadKeyValueFullInformation,
    /// The buffer is shorter than the fixed key header fields.
    ReadKeyBasicInformation,
    /// Writing a value failed; carries the transport's status code.
    Write(u32),
    /// The transport refused access.
    AccessDenied,
    /// The transport ran out of resources.
    InsufficientResources,
    /// The handle given to the transport is not valid.
    InvalidHandle,
    /// No value of the given name exists.
    NameNotFound,
}

/// Errors encountered while deleting keys.
#[derive(Debug, Clone, PartialEq, Eq, Structural)]
pub enum RegKeyError {
    /// The transport refused to delete the key.
    DeleteAccessDenied,
    /// The handle given to the transport is not valid.
    DeleteInvalidHandle,
}

/// Errors produced while parsing registry records or talking to the transport.
#[derive(Debug, Clone)]
pub enum Error {
    /// Opening a registry key failed; carries the path and the raw status code.
    KeyError(String, u32),
    /// A subkey could not be processed.
    SubKeyError {
        /// Source of this error.
        source: SubKeyError,
    },
    /// A registry value record could not be decoded.
    RegValueError {
        /// Source of this error.
        source: RegValueError,
    },
    /// A key operation failed.
    RegKeyError {
        /// Source of this error.
        source: RegKeyError,
    },
    /// A code-unit sequence extracted from a record is not valid text.
    StringConversion,
}

} // verus!
