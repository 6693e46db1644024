use winregnt::{Error, RegKey, RegValue, RegValueError, RegValueItem};

fn le16(units: &[u16]) -> Vec<u8> {
    let mut out = Vec::new();
    for u in units {
        out.extend_from_slice(&u.to_le_bytes());
    }
    out
}

fn name_units(name: &str) -> Vec<u16> {
    name.encode_utf16().collect()
}

/// A key basic-information record: timestamp, two fields, name bytes.
fn key_record(name: &str) -> Vec<u8> {
    let name_bytes = le16(&name_units(name));
    let mut buf = Vec::new();
    buf.extend_from_slice(&0u64.to_le_bytes());
    buf.extend_from_slice(&0u32.to_le_bytes());
    buf.extend_from_slice(&(name_bytes.len() as u32).to_le_bytes());
    buf.extend_from_slice(&name_bytes);
    buf
}

/// A value full-information record with a little-endian 32-bit payload.
fn dword_record(name: &str, value: u32) -> Vec<u8> {
    let name_bytes = le16(&name_units(name));
    let data_offset = (20 + name_bytes.len()) as u32;
    let mut buf = Vec::new();
    buf.extend_from_slice(&0u32.to_le_bytes());
    buf.extend_from_slice(&4u32.to_le_bytes());
    buf.extend_from_slice(&data_offset.to_le_bytes());
    buf.extend_from_slice(&4u32.to_le_bytes());
    buf.extend_from_slice(&(name_bytes.len() as u32).to_le_bytes());
    buf.extend_from_slice(&name_bytes);
    buf.extend_from_slice(&value.to_le_bytes());
    buf
}

fn open(path: &str) -> RegKey {
    RegKey::open_result(path, 0, 42).unwrap()
}

#[test]
fn key_iterator_decodes_a_record() {
    let key = open(r"\Registry\Machine\Software\Demo");
    let mut iter = key.enum_keys();
    let sk = iter.next(Some(key_record("Run"))).unwrap();
    assert_eq!(sk.name(), "Run");
    assert_eq!(iter.index, 1);
    assert!(!iter.exhausted);
}

#[test]
fn key_iterator_advances_across_pulls() {
    let key = open(r"\Registry\Machine\Software\Demo");
    let mut iter = key.enum_keys();
    let first = iter.next(Some(key_record("Alpha"))).unwrap();
    let second = iter.next(Some(key_record("Beta"))).unwrap();
    assert_eq!(first.name(), "Alpha");
    assert_eq!(second.name(), "Beta");
    assert_eq!(iter.index, 2);
    assert!(iter.next(None).is_none());
    assert!(iter.exhausted);
}

#[test]
fn value_item_binary_value_copies_bytes() {
    let key = open(r"\Registry\Machine\Software\Demo");
    let mut iter = key.enum_values();
    let mut record = Vec::new();
    record.extend_from_slice(&0u32.to_le_bytes());
    record.extend_from_slice(&3u32.to_le_bytes());
    record.extend_from_slice(&20u32.to_le_bytes());
    record.extend_from_slice(&3u32.to_le_bytes());
    record.extend_from_slice(&0u32.to_le_bytes());
    record.extend_from_slice(&[0xAA, 0xBB, 0xCC]);
    let item = iter.next(Some(record)).unwrap();
    assert_eq!(item.value(), RegValue::Binary(vec![0xAA, 0xBB, 0xCC]));
}

#[test]
fn key_iterator_no_more_entries_is_terminal() {
    let key = open(r"\Registry\Machine\Software\Demo");
    let mut iter = key.enum_keys();
    assert!(iter.next(None).is_none());
    // Even a well-formed record on a later pull produces nothing.
    assert!(iter.next(Some(key_record("Run"))).is_none());
    assert!(iter.next(Some(key_record("Run"))).is_none());
    assert_eq!(iter.index, 0);
}

#[test]
fn key_iterator_decode_failure_is_terminal() {
    let key = open(r"\Registry\Machine\Software\Demo");
    let mut iter = key.enum_keys();
    // Too short for the fixed header.
    assert!(iter.next(Some(vec![0u8; 5])).is_none());
    assert!(iter.exhausted);
    assert!(iter.next(Some(key_record("Run"))).is_none());
}

#[test]
fn key_iterator_bad_text_is_terminal() {
    let key = open(r"\Registry\Machine\Software\Demo");
    let mut iter = key.enum_keys();
    let mut record = Vec::new();
    record.extend_from_slice(&0u64.to_le_bytes());
    record.extend_from_slice(&0u32.to_le_bytes());
    record.extend_from_slice(&2u32.to_le_bytes());
    record.extend_from_slice(&0xD800u16.to_le_bytes());
    assert!(iter.next(Some(record)).is_none());
    assert!(iter.exhausted);
}

#[test]
fn key_iterator_short_name_blob_is_empty_name() {
    let key = open(r"\Registry\Machine\Software\Demo");
    let mut iter = key.enum_keys();
    let mut record = Vec::new();
    record.extend_from_slice(&0u64.to_le_bytes());
    record.extend_from_slice(&0u32.to_le_bytes());
    record.extend_from_slice(&64u32.to_le_bytes());
    record.extend_from_slice(&le16(&name_units("x")));
    let sk = iter.next(Some(record)).unwrap();
    assert_eq!(sk.name(), "");
}

#[test]
fn subkey_name_strips_embedded_terminators() {
    let key = open(r"\Registry\Machine\Software\Demo");
    let mut iter = key.enum_keys();
    let units: Vec<u16> = vec![0x52, 0x00, 0x75, 0x6E, 0x00];
    let mut record = Vec::new();
    record.extend_from_slice(&0u64.to_le_bytes());
    record.extend_from_slice(&0u32.to_le_bytes());
    record.extend_from_slice(&((units.len() * 2) as u32).to_le_bytes());
    record.extend_from_slice(&le16(&units));
    let sk = iter.next(Some(record)).unwrap();
    assert_eq!(sk.name(), "Run");
}

#[test]
fn reg_key_iterator_enumerate() {
    let key = open(r"\Registry\Machine\Software\Microsoft\Windows\CurrentVersion");
    let mut iter = key.enum_keys();
    assert!(iter.next(Some(key_record("Run"))).is_some());
}

#[test]
fn subkey_path_reconstruction() {
    let key = open(r"\Registry\Machine\Software\Microsoft\Windows\CurrentVersion");
    let mut iter = key.enum_keys();
    let sk = iter.next(Some(key_record("Run"))).unwrap();
    assert_eq!(
        sk.path().unwrap(),
        r"\Registry\Machine\Software\Microsoft\Windows\CurrentVersion\Run"
    );
}

#[test]
fn subkey_path_invalid_parent_fails() {
    let sk = winregnt::RegSubkey {
        name: "Run".to_string(),
        parent: vec![0xD800, 0x0000],
    };
    assert!(matches!(
        sk.path(),
        Err(Error::SubKeyError {
            source: winregnt::SubKeyError::ConvertName
        })
    ));
}

#[test]
fn reg_value_iterator_enumerate() {
    let key = open(r"\Registry\Machine\Software\Microsoft\Windows\CurrentVersion");
    let mut iter = key.enum_values();
    assert!(iter.next(Some(dword_record("Version", 11))).is_some());
}

#[test]
fn value_iterator_decodes_a_record() {
    let key = open(r"\Registry\Machine\Software\Demo");
    let mut iter = key.enum_values();
    let item = iter.next(Some(dword_record("Level", 1337))).unwrap();
    assert_eq!(item.name().unwrap(), "Level");
    assert_eq!(item.value(), RegValue::Dword(1337));
    assert_eq!(iter.index, 1);
}

#[test]
fn value_iterator_no_more_entries_is_terminal() {
    let key = open(r"\Registry\Machine\Software\Demo");
    let mut iter = key.enum_values();
    assert!(iter.next(None).is_none());
    assert!(iter.next(Some(dword_record("Level", 1))).is_none());
    assert!(iter.next(Some(dword_record("Level", 1))).is_none());
}

#[test]
fn value_iterator_decode_failure_is_terminal() {
    let key = open(r"\Registry\Machine\Software\Demo");
    let mut iter = key.enum_values();
    assert!(iter.next(Some(vec![1u8, 2, 3])).is_none());
    assert!(iter.exhausted);
    assert!(iter.next(Some(dword_record("Level", 1))).is_none());
}

#[test]
fn value_item_try_from_small_data_blob() {
    let r = RegValueItem::try_from(vec![0u8; 10]);
    assert!(matches!(
        r,
        Err(Error::RegValueError {
            source: RegValueError::SmallDataBlob
        })
    ));
}

#[test]
fn value_item_try_from_small_name_blob() {
    let mut record = Vec::new();
    record.extend_from_slice(&0u32.to_le_bytes());
    record.extend_from_slice(&4u32.to_le_bytes());
    record.extend_from_slice(&20u32.to_le_bytes());
    record.extend_from_slice(&0u32.to_le_bytes());
    record.extend_from_slice(&64u32.to_le_bytes());
    let r = RegValueItem::try_from(record);
    assert!(matches!(
        r,
        Err(Error::RegValueError {
            source: RegValueError::SmallNameBlob
        })
    ));
}

#[test]
fn value_item_name_conversion_failure() {
    let mut record = Vec::new();
    record.extend_from_slice(&0u32.to_le_bytes());
    record.extend_from_slice(&0u32.to_le_bytes());
    record.extend_from_slice(&22u32.to_le_bytes());
    record.extend_from_slice(&0u32.to_le_bytes());
    record.extend_from_slice(&2u32.to_le_bytes());
    record.extend_from_slice(&0xD800u16.to_le_bytes());
    let item = RegValueItem::try_from(record).unwrap();
    assert!(matches!(
        item.name(),
        Err(Error::RegValueError {
            source: RegValueError::ConvertName
        })
    ));
    assert_eq!(item.value(), RegValue::NoValue);
}
