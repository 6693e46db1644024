use winregnt::UnicodeString;

#[test]
fn unicode() {
    let s = UnicodeString::from_text("testing").unwrap();
    assert_eq!(s.length, 14);
}

#[test]
fn unicode_capacity_counts_one_terminator() {
    let s = UnicodeString::from_text("testing").unwrap();
    assert_eq!(s.maximum_length, 16);
    // The buffer carries the content and the two terminator units fed to
    // the transport's initializer.
    assert_eq!(s.buffer.len(), 9);
}

#[test]
fn unicode_empty_text() {
    let s = UnicodeString::from_text("").unwrap();
    assert_eq!(s.length, 0);
    assert_eq!(s.maximum_length, 2);
}

#[test]
fn unicode_from_units_stops_at_first_terminator() {
    let units: Vec<u16> = vec![0x52, 0x75, 0x6E, 0x00, 0x58, 0x00];
    let s = UnicodeString::from_units(&units);
    assert_eq!(s.length, 6);
    assert_eq!(s.maximum_length, 8);
    assert_eq!(s.buffer, units);
}

#[test]
fn unicode_from_units_without_terminator() {
    let units: Vec<u16> = vec![0x52, 0x75, 0x6E];
    let s = UnicodeString::from_units(&units);
    assert_eq!(s.length, 6);
}

#[test]
fn unicode_default_is_empty() {
    let s = UnicodeString::default();
    assert_eq!(s.length, 0);
    assert_eq!(s.maximum_length, 0);
    assert!(s.buffer.is_empty());
}
