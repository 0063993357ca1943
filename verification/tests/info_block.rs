use eisen::bootinfo;
use eisen::legacy_bootinfo;
use eisen::stub::{self, new_stub_buffer, KernelType, Stub, StubBuffer, STUB_SIZE};

const EISEN_UUID: [u8; 16] = [
    0x94, 0x59, 0x5C, 0x96, 0xBD, 0x12, 0x40, 0xE1, 0xA7, 0xFB, 0x61, 0xC5, 0x0F, 0x3D, 0xCA, 0x9A,
];

fn crc32(bytes: &[u8]) -> u32 {
    crc::Crc::<u32>::new(&crc::CRC_32_ISO_HDLC).checksum(bytes)
}

fn put_u16(img: &mut [u8], off: usize, v: u16) {
    img[off..off + 2].copy_from_slice(&v.to_le_bytes());
}

fn put_u32(img: &mut [u8], off: usize, v: u32) {
    img[off..off + 4].copy_from_slice(&v.to_le_bytes());
}

fn put_u64(img: &mut [u8], off: usize, v: u64) {
    img[off..off + 8].copy_from_slice(&v.to_le_bytes());
}

/// An unsealed info block in the current layout: magic numbers, a signature, the Eisen
/// UUID spread over its eight fields, and a few descriptive fields.
fn current_image(uuid_offsets: &[usize; 8]) -> [u8; 512] {
    let mut img = [0u8; 512];
    img[0..6].copy_from_slice(b"Eisen\0");
    img[504..512].copy_from_slice(b"InfoEnd\x1A");
    for i in 0..16 {
        img[16 + i] = 0x10 + i as u8;
    }
    for k in 0..8 {
        let v = u16::from_be_bytes([EISEN_UUID[2 * k], EISEN_UUID[2 * k + 1]]);
        put_u16(&mut img, uuid_offsets[k], v);
    }
    put_u16(&mut img, 36, 2025);
    img[38] = 3;
    img[39] = 7;
    img[40] = 1;
    img[41] = 22;
    img[42] = 77;
    img[43] = 0b0101;
    img[48..53].copy_from_slice(b"Hello");
    put_u64(&mut img, 72, 0xFFFF_8000_0010_0000);
    put_u64(&mut img, 112, 3 * 0x10_0000 + 5);
    img
}

fn seal(img: &mut [u8; 512], off: usize) {
    put_u32(img, off, 0);
    let c = crc32(img);
    put_u32(img, off, c);
}

const CURRENT_UUID_OFFSETS: [usize; 8] = [64, 128, 192, 256, 320, 384, 448, 498];
const LEGACY_UUID_OFFSETS: [usize; 8] = [64, 66, 128, 192, 256, 320, 322, 324];

fn sealed_current() -> [u8; 512] {
    let mut img = current_image(&CURRENT_UUID_OFFSETS);
    seal(&mut img, 500);
    img
}

fn stub_of(info: &[u8; 512]) -> StubBuffer {
    let mut buf = new_stub_buffer();
    buf[0x1FE] = 0x55;
    buf[0x1FF] = 0xAA;
    buf[0x200..0x400].copy_from_slice(info);
    buf
}

#[test]
fn new_stub_buffer_is_zeroed() {
    let buf = new_stub_buffer();
    assert_eq!(buf.len(), STUB_SIZE);
    assert!(buf.iter().all(|b| *b == 0));
}

#[test]
fn stub_parse_accepts_sealed_block() {
    let info = sealed_current();
    let stub = Stub::from(stub_of(&info));
    let bi = stub::BootInfo::parse(&stub).expect("sealed block accepted");
    assert_eq!(bi.build_year(), 2025);
    assert_eq!(bi.build_month(), 3);
    assert_eq!(bi.build_day(), 7);
    assert_eq!(bi.major_version(), 1);
    assert_eq!(bi.minor_version(), 22);
    assert_eq!(bi.patch_version(), 77);
    assert_eq!(bi.kentry(), 0xFFFF_8000_0010_0000);
    assert_eq!(bi.kernel_size(), 3 * 0x10_0000 + 5);
    assert_eq!(bi.kernel_type(), Some(KernelType::Flat));
    assert_eq!(bi.checksum(), u32::from_le_bytes([info[500], info[501], info[502], info[503]]));
}

#[test]
fn stub_parse_ignores_the_protective_mbr() {
    let info = sealed_current();
    let mut buf = stub_of(&info);
    for b in buf[0..0x200].iter_mut() {
        *b = 0xEE;
    }
    assert!(stub::BootInfo::parse(&Stub::from(buf)).is_ok());
}

#[test]
fn stub_errors_name_the_first_failed_check() {
    let good = sealed_current();

    let mut img = good;
    img[0] = b'e';
    assert_eq!(stub::BootInfo::parse(&Stub::from(stub_of(&img))).err(), Some(stub::BootInfoInvalidError::MagicStart));

    let mut img = good;
    img[511] = 0;
    assert_eq!(stub::BootInfo::parse(&Stub::from(stub_of(&img))).err(), Some(stub::BootInfoInvalidError::MagicEnd));

    let mut img = good;
    img[16..32].copy_from_slice(&[0u8; 16]);
    assert_eq!(stub::BootInfo::parse(&Stub::from(stub_of(&img))).err(), Some(stub::BootInfoInvalidError::Unsigned));

    let mut img = good;
    img[448] ^= 1;
    assert_eq!(stub::BootInfo::parse(&Stub::from(stub_of(&img))).err(), Some(stub::BootInfoInvalidError::EisenUUID));

    let mut img = good;
    img[200] ^= 0x80;
    assert_eq!(stub::BootInfo::parse(&Stub::from(stub_of(&img))).err(), Some(stub::BootInfoInvalidError::Hash));
}

#[test]
fn stub_validate_with_given_checksum() {
    let info = sealed_current();
    let bi = stub::BootInfo::from(stub_of(&info));
    let stored = bi.checksum();
    assert_eq!(bi.validate_with_checksum(stored), None);
    assert_eq!(bi.validate_with_checksum(stored ^ 1), Some(stub::BootInfoInvalidError::Hash));
}

#[test]
fn stub_renders_fields() {
    let info = sealed_current();
    let bi = stub::BootInfo::from(stub_of(&info));
    assert_eq!(bi.version_info(), "1.22.77 \"Hello\" [ alpha rc ]");
    assert_eq!(bi.date(), "2025-03-07");
    assert_eq!(bi.kernel_size_pretty(), "3M");
    assert_eq!(bi.uuid_pretty(), "10111213-1415-1617-1819-1A1B1C1D1E1F");
}

#[test]
fn stub_uuid_bytes_are_not_padded() {
    let mut info = sealed_current();
    info[16..32].copy_from_slice(&[0x01, 0x0A, 0xFF, 0x00, 0, 0, 0, 0, 0, 0, 0, 0, 0, 0, 0, 0x9]);
    let bi = stub::BootInfo::from(stub_of(&info));
    assert_eq!(bi.uuid_pretty(), "1AFF0-00-00-00-000009");
}

#[test]
fn stub_kernel_type_byte() {
    let mut info = sealed_current();
    info[7] = 1;
    assert_eq!(stub::BootInfo::from(stub_of(&info)).kernel_type(), Some(KernelType::Elf));
    info[7] = 2;
    assert_eq!(stub::BootInfo::from(stub_of(&info)).kernel_type(), None);
}

#[test]
fn current_parse_accepts_and_refuses() {
    let good = sealed_current();
    let bi = bootinfo::BootInfo::parse(good).expect("sealed block accepted");
    assert_eq!(bi.install_uuid()[0], 0x10);
    assert_eq!(bi.magic_start(), *b"Eisen\0");
    assert_eq!(bi.magic_end(), *b"InfoEnd\x1A");
    assert_eq!(bi.uuid_part(0), 0x9459);
    assert_eq!(bi.uuid_part(7), 0xCA9A);
    assert_eq!(bi.version_info(), "1.22.77 \"Hello\" [ alpha rc ]");
    assert_eq!(bi.date(), "2025-03-07");
    assert_eq!(bi.kernel_size_pretty(), "3M");

    let mut img = good;
    img[5] = 1;
    assert_eq!(bootinfo::BootInfo::parse(img).err(), Some(bootinfo::BootInfoInvalidError::MagicStart));
    let mut img = good;
    img[504] = 0;
    assert_eq!(bootinfo::BootInfo::parse(img).err(), Some(bootinfo::BootInfoInvalidError::MagicEnd));
    let mut img = good;
    img[16..32].copy_from_slice(&[0u8; 16]);
    assert_eq!(bootinfo::BootInfo::parse(img).err(), Some(bootinfo::BootInfoInvalidError::Unsigned));
    let mut img = good;
    img[65] ^= 0x40;
    assert_eq!(bootinfo::BootInfo::parse(img).err(), Some(bootinfo::BootInfoInvalidError::EisenUUID));
    let mut img = good;
    img[100] = 1;
    assert_eq!(bootinfo::BootInfo::parse(img).err(), Some(bootinfo::BootInfoInvalidError::Hash));
}

#[test]
fn sealed_image_is_accepted_whatever_its_contents() {
    // The checksum covers everything but itself: resealing after any change is accepted.
    let mut img = current_image(&CURRENT_UUID_OFFSETS);
    img[120] = 0xAB;
    img[300] = 0xCD;
    put_u32(&mut img, 500, 0xDEAD_BEEF);
    seal(&mut img, 500);
    assert!(bootinfo::BootInfo::parse(img).is_ok());
}

#[test]
fn legacy_parse_accepts_and_refuses() {
    let mut good = current_image(&LEGACY_UUID_OFFSETS);
    good[36..64].copy_from_slice(&[0u8; 28]);
    good[33] = 2;
    good[34] = 4;
    good[35] = 6;
    good[36] = 0b1000;
    put_u64(&mut good, 80, 0x2000);
    seal(&mut good, 480);
    let bi = legacy_bootinfo::BootInfo::parse(good).expect("sealed block accepted");
    assert_eq!(bi.major_version(), 2);
    assert_eq!(bi.minor_version(), 4);
    assert_eq!(bi.patch_version(), 6);
    assert_eq!(bi.version_flags(), 0b1000);
    assert_eq!(bi.kargs(), 0x2000);
    assert_eq!(bi.uuid_part(1), 0x5C96);
    assert_eq!(bi.os_uuid()[15], 0x1F);

    // The legacy block has no signature check.
    let mut unsigned = good;
    unsigned[16..32].copy_from_slice(&[0u8; 16]);
    seal(&mut unsigned, 480);
    assert!(legacy_bootinfo::BootInfo::parse(unsigned).is_ok());

    let mut img = good;
    img[1] = 0;
    assert_eq!(legacy_bootinfo::BootInfo::parse(img).err(), Some(legacy_bootinfo::BootInfoInvalidError::MagicStart));
    let mut img = good;
    img[505] = 0;
    assert_eq!(legacy_bootinfo::BootInfo::parse(img).err(), Some(legacy_bootinfo::BootInfoInvalidError::MagicEnd));
    let mut img = good;
    img[324] ^= 1;
    assert_eq!(legacy_bootinfo::BootInfo::parse(img).err(), Some(legacy_bootinfo::BootInfoInvalidError::EisenUUID));
    let mut img = good;
    img[500] ^= 1;
    assert_eq!(legacy_bootinfo::BootInfo::parse(img).err(), Some(legacy_bootinfo::BootInfoInvalidError::Hash));
}

#[test]
fn crc32_check_value_decides_acceptance() {
    // CRC-32/ISO-HDLC of "123456789" is 0xCBF43926.
    assert_eq!(crc32(b"123456789"), 0xCBF4_3926);
    let mut img = sealed_current();
    let stored = u32::from_le_bytes([img[500], img[501], img[502], img[503]]);
    put_u32(&mut img, 500, !stored);
    assert_eq!(bootinfo::BootInfo::parse(img).err(), Some(bootinfo::BootInfoInvalidError::Hash));
}

fn in_uuid_field(offsets: &[usize; 8], i: usize) -> bool {
    offsets.iter().any(|&o| o <= i && i < o + 2)
}

#[test]
fn every_single_byte_change_is_refused_for_its_checksum() {
    let good = sealed_current();
    for i in 6..504 {
        if in_uuid_field(&CURRENT_UUID_OFFSETS, i) {
            continue;
        }
        for x in [good[i] ^ 0x01, good[i] ^ 0x80, good[i].wrapping_add(0x5A)] {
            let mut img = good;
            img[i] = x;
            assert_eq!(
                bootinfo::BootInfo::parse(img).err(),
                Some(bootinfo::BootInfoInvalidError::Hash),
                "byte {} set to {:#04x}",
                i,
                x
            );
            assert_eq!(
                stub::BootInfo::parse(&Stub::from(stub_of(&img))).err(),
                Some(stub::BootInfoInvalidError::Hash)
            );
        }
    }
}

#[test]
fn every_single_byte_change_of_a_legacy_block_is_refused_for_its_checksum() {
    let mut good = current_image(&LEGACY_UUID_OFFSETS);
    seal(&mut good, 480);
    assert!(legacy_bootinfo::BootInfo::parse(good).is_ok());
    for i in 6..504 {
        if in_uuid_field(&LEGACY_UUID_OFFSETS, i) {
            continue;
        }
        let mut img = good;
        img[i] ^= 0x10;
        assert_eq!(
            legacy_bootinfo::BootInfo::parse(img).err(),
            Some(legacy_bootinfo::BootInfoInvalidError::Hash)
        );
    }
}
