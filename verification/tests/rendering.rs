use eisen::report::{date_string, size_string, uuid_string, version_string};

#[test]
fn version_line() {
    let mut name = [0u8; 16];
    name[..6].copy_from_slice(b"Kestre");
    assert_eq!(version_string(0, 1, 2, &name, 0), "0.1.2 \"Kestre\" ");
    assert_eq!(version_string(10, 0, 255, &name, 0b1111), "10.0.255 \"Kestre\" [ alpha beta rc experimental ]");
    assert_eq!(version_string(1, 1, 1, &name, 0b0010), "1.1.1 \"Kestre\" [ beta ]");
    assert_eq!(version_string(1, 1, 1, &name, 0b1_0000), "1.1.1 \"Kestre\" ");
}

#[test]
fn version_name_keeps_inner_nul_and_unicode() {
    let mut name = [0u8; 16];
    name[..3].copy_from_slice(b"a\0b");
    name[3..5].copy_from_slice("é".as_bytes());
    assert_eq!(version_string(1, 2, 3, &name, 0), "1.2.3 \"a\0bé\" ");
    let full = [b'z'; 16];
    assert_eq!(version_string(1, 2, 3, &full, 0), "1.2.3 \"zzzzzzzzzzzzzzzz\" ");
}

#[test]
fn dates_are_zero_padded() {
    assert_eq!(date_string(2025, 3, 7), "2025-03-07");
    assert_eq!(date_string(999, 12, 31), "0999-12-31");
    assert_eq!(date_string(12345, 0, 100), "12345-00-100");
}

#[test]
fn sizes_in_units() {
    assert_eq!(size_string(0), "0B");
    assert_eq!(size_string(0x3FF), "1023B");
    assert_eq!(size_string(0x400), "1K");
    assert_eq!(size_string(0xFFFFF), "1023K");
    assert_eq!(size_string(0x10_0000), "1M");
    assert_eq!(size_string(0x3FFF_FFFF), "1023M");
    assert_eq!(size_string(0x4000_0000), "1G");
    assert_eq!(size_string(u64::MAX), "17179869183G");
}

#[test]
fn uuid_grouping() {
    let u = [0x94, 0x59, 0x5C, 0x96, 0xBD, 0x12, 0x40, 0xE1, 0xA7, 0xFB, 0x61, 0xC5, 0x0F, 0x3D, 0xCA, 0x9A];
    assert_eq!(uuid_string(&u), "94595C96-BD12-40E1-A7FB-61C5F3DCA9A");
    assert_eq!(uuid_string(&[0u8; 16]), "0000-00-00-00-000000");
}
