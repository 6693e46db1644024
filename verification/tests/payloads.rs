use winregnt::wide::{decode_name, decode_wide, encode_wide, strip_terminators, units_to_bytes};
use winregnt::{Error, KeyInformationClass, KeyValueInformationClass, RegKey, RegKeyError, RegValueError};

#[test]
fn name_round_trip_through_extractor() {
    let text = "testing";
    let units = encode_wide(text);
    let bytes = units_to_bytes(&units);
    let extracted = decode_name(&bytes, 0, units.len() as u32);
    assert_eq!(extracted, units);
    let back = decode_wide(&strip_terminators(&extracted)).unwrap();
    assert_eq!(back, text);
}

#[test]
fn name_round_trip_non_ascii() {
    let text = "Ωmega schlüssel";
    let units = encode_wide(text);
    let bytes = units_to_bytes(&units);
    let extracted = decode_name(&bytes, 0, units.len() as u32);
    let back = decode_wide(&extracted).unwrap();
    assert_eq!(back, text);
}

#[test]
fn encode_wide_is_utf16() {
    assert_eq!(encode_wide("Run"), vec![0x52u16, 0x75, 0x6E]);
    // A character outside the basic plane becomes a surrogate pair.
    assert_eq!(encode_wide("𝄞"), vec![0xD834u16, 0xDD1E]);
}

#[test]
fn decode_wide_rejects_lone_surrogate() {
    assert!(decode_wide(&[0xD834u16]).is_none());
    assert_eq!(decode_wide(&[0xD834u16, 0xDD1E]).unwrap(), "𝄞");
}

#[test]
fn decode_name_short_buffer_is_empty() {
    let bytes = vec![1u8, 2, 3];
    assert!(decode_name(&bytes, 0, 2).is_empty());
    assert!(decode_name(&bytes, 10, 1).is_empty());
    assert_eq!(decode_name(&bytes, 1, 1), vec![0x0302u16]);
}

#[test]
fn string_value_payload_layout() {
    let payload = RegKey::string_value_payload("Hi");
    assert_eq!(payload, vec![0x48, 0x00, 0x69, 0x00, 0x00, 0x00]);
}

#[test]
fn dword_value_payload_layout() {
    assert_eq!(RegKey::dword_value_payload(1337), vec![0x39, 0x05, 0x00, 0x00]);
}

#[test]
fn qword_value_payload_layout() {
    assert_eq!(
        RegKey::qword_value_payload(13371337),
        vec![0xC9, 0x07, 0xCC, 0x00, 0x00, 0x00, 0x00, 0x00]
    );
}

#[test]
fn open_result_success_builds_key() {
    let key = RegKey::open_result(r"\Registry\Machine\Software", 0, 7).unwrap();
    assert_eq!(key.handle(), 7);
    let mut expected: Vec<u16> = r"\Registry\Machine\Software".encode_utf16().collect();
    expected.push(0);
    assert_eq!(key.name, expected);
}

#[test]
fn open_result_failure_carries_path_and_status() {
    let r = RegKey::open_result(r"\Registry\Machine\Missing", 0xC0000034, 0);
    match r {
        Err(Error::KeyError(path, status)) => {
            assert_eq!(path, r"\Registry\Machine\Missing");
            assert_eq!(status, 0xC0000034);
        }
        _ => panic!("expected an open error"),
    }
}

#[test]
fn delete_result_classification() {
    assert!(RegKey::delete_result(0).is_ok());
    assert!(RegKey::delete_result(0xC0000001).is_ok());
    assert!(matches!(
        RegKey::delete_result(0xC0000022),
        Err(Error::RegKeyError {
            source: RegKeyError::DeleteAccessDenied
        })
    ));
    assert!(matches!(
        RegKey::delete_result(0xC0000008),
        Err(Error::RegKeyError {
            source: RegKeyError::DeleteInvalidHandle
        })
    ));
}

#[test]
fn delete_value_result_classification() {
    assert!(RegKey::delete_value_result(0).is_ok());
    assert!(matches!(
        RegKey::delete_value_result(0xC0000022),
        Err(Error::RegValueError {
            source: RegValueError::AccessDenied
        })
    ));
    assert!(matches!(
        RegKey::delete_value_result(0xC000009A),
        Err(Error::RegValueError {
            source: RegValueError::InsufficientResources
        })
    ));
    assert!(matches!(
        RegKey::delete_value_result(0xC0000008),
        Err(Error::RegValueError {
            source: RegValueError::InvalidHandle
        })
    ));
    assert!(matches!(
        RegKey::delete_value_result(0xC0000034),
        Err(Error::RegValueError {
            source: RegValueError::NameNotFound
        })
    ));
}

#[test]
fn write_result_classification() {
    assert!(RegKey::write_result(0).is_ok());
    match RegKey::write_result(0xC0000022) {
        Err(Error::RegValueError {
            source: RegValueError::Write(status),
        }) => assert_eq!(status, 0xC0000022),
        _ => panic!("expected a write error"),
    }
}

#[test]
fn information_class_codes() {
    assert_eq!(KeyInformationClass::KeyBasicInformation.code(), 0);
    assert_eq!(KeyInformationClass::KeyNodeInformation.code(), 1);
    assert_eq!(KeyInformationClass::KeyFullInformation.code(), 2);
    assert_eq!(KeyValueInformationClass::KeyValueFullInformation.code(), 1);
    assert_eq!(KeyValueInformationClass::MaxKeyValueInfoClass.code(), 6);
}
