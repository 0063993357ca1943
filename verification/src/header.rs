//! The layout shared by every revision of the Eisen info block: a 512-byte image that
//! opens with `"Eisen\0"`, closes with `"InfoEnd\x1A"`, carries the Eisen UUID as eight
//! 16-bit fields spread over the image, and a CRC-32 of itself; and the checks of the
//! current revision, which the kernel stub and the boot driver both apply.
use vstd::prelude::*;
use crate::bytes::{holds_at, le16, le32, matches_at, read_u16_le};
use crate::integrity::{crc32_iso_hdlc, lemma_crc32_detects_byte_change};

verus! {

/// Size in bytes of an info block image.
pub const INFO_SIZE: usize = 0x200;

/// `"Eisen\0"`.
pub const MAGIC_START: [u8; 6] = [0x45, 0x69, 0x73, 0x65, 0x6E, 0x00];

/// `"InfoEnd\x1A"`.
pub const MAGIC_END: [u8; 8] = [0x49, 0x6E, 0x66, 0x6F, 0x45, 0x6E, 0x64, 0x1A];

/// 94595C96-BD12-40E1-A7FB-61C50F3DCA9A.
pub const EISEN_UUID: [u8; 16] = [
    0x94, 0x59, 0x5C, 0x96, 0xBD, 0x12, 0x40, 0xE1, 0xA7, 0xFB, 0x61, 0xC5, 0x0F, 0x3D, 0xCA, 0x9A,
];

/// Offset of the closing magic number.
pub const MAGIC_END_OFFSET: usize = 0x1F8;

pub open spec fn magic_start() -> Seq<u8> {
    seq![0x45u8, 0x69u8, 0x73u8, 0x65u8, 0x6Eu8, 0x00u8]
}

pub open spec fn magic_end() -> Seq<u8> {
    seq![0x49u8, 0x6Eu8, 0x66u8, 0x6Fu8, 0x45u8, 0x6Eu8, 0x64u8, 0x1Au8]
}

pub open spec fn eisen_uuid() -> Seq<u8> {
    seq![
        0x94u8, 0x59u8, 0x5Cu8, 0x96u8, 0xBDu8, 0x12u8, 0x40u8, 0xE1u8,
        0xA7u8, 0xFBu8, 0x61u8, 0xC5u8, 0x0Fu8, 0x3Du8, 0xCAu8, 0x9Au8,
    ]
}

/// The two bytes of a 16-bit value, most significant first.
pub open spec fn be16_bytes(v: int) -> Seq<u8> {
    seq![(v / 256) as u8, (v % 256) as u8]
}

/// The UUID spelt by eight little-endian 16-bit fields of `s` at `offsets`, each field
/// written out most significant byte first.
pub open spec fn assembled_uuid(s: Seq<u8>, offsets: Seq<int>) -> Seq<u8> {
    Seq::new(
        16,
        |i: int| be16_bytes(le16(s, offsets[i / 2]))[i % 2],
    )
}

/// `s` with the four bytes of the checksum field at `off` set to zero.
pub open spec fn checksum_cleared(s: Seq<u8>, off: int) -> Seq<u8> {
    Seq::new(s.len(), |i: int| if off <= i < off + 4 { 0u8 } else { s[i] })
}

/// The CRC-32 of an image taken with its checksum field at `off` cleared.
pub open spec fn image_checksum(s: Seq<u8>, off: int) -> u32 {
    crc32_iso_hdlc(checksum_cleared(s, off))
}

pub open spec fn has_magic_start(s: Seq<u8>) -> bool {
    holds_at(s, 0, magic_start())
}

pub open spec fn has_magic_end(s: Seq<u8>) -> bool {
    holds_at(s, MAGIC_END_OFFSET as int, magic_end())
}

/// `s` with the 32-bit value `v` written little-endian at `off`.
pub open spec fn with_checksum(s: Seq<u8>, off: int, v: u32) -> Seq<u8> {
    Seq::new(
        s.len(),
        |i: int|
            if i == off {
                (v % 0x100) as u8
            } else if i == off + 1 {
                ((v / 0x100) % 0x100) as u8
            } else if i == off + 2 {
                ((v / 0x1_0000) % 0x100) as u8
            } else if i == off + 3 {
                (v / 0x100_0000) as u8
            } else {
                s[i]
            },
    )
}

/// Writing a checksum changes nothing but its field: the image with the field cleared is
/// the same, and the field then reads back the value written.
pub proof fn lemma_with_checksum(s: Seq<u8>, off: int, v: u32)
    requires
        0 <= off,
        off + 4 <= s.len(),
    ensures
        checksum_cleared(with_checksum(s, off, v), off) == checksum_cleared(s, off),
        le32(with_checksum(s, off, v), off) == v,
        forall|i: int| 0 <= i < s.len() && !(off <= i < off + 4) ==> #[trigger] with_checksum(s, off, v)[i] == s[i],
        with_checksum(s, off, v).len() == s.len(),
{
    assert(checksum_cleared(with_checksum(s, off, v), off) =~= checksum_cleared(s, off));
    let t = with_checksum(s, off, v);
    assert(t[off] == v % 0x100);
    assert(t[off + 1] == (v / 0x100) % 0x100);
    assert(t[off + 2] == (v / 0x1_0000) % 0x100);
    assert(t[off + 3] == v / 0x100_0000);
}

pub fn check_magic_start(raw: &[u8; 512]) -> (r: bool)
    ensures
        r == has_magic_start(raw@),
{
    let m = MAGIC_START;
    assert(m@ == magic_start());
    matches_at(raw, 0, &m)
}

pub fn check_magic_end(raw: &[u8; 512]) -> (r: bool)
    ensures
        r == has_magic_end(raw@),
{
    let m = MAGIC_END;
    assert(m@ == magic_end());
    matches_at(raw, MAGIC_END_OFFSET, &m)
}

/// Lays the eight 16-bit fields at `offsets` out big-endian, one after another.
pub fn assemble_uuid(raw: &[u8; 512], offsets: &[usize; 8]) -> (r: [u8; 16])
    requires
        forall|k: int| 0 <= k < 8 ==> offsets@[k] + 2 <= 512,
    ensures
        r@ == assembled_uuid(raw@, offsets@.map_values(|o: usize| o as int)),
{
    let ghost offs = offsets@.map_values(|o: usize| o as int);
    let mut out = [0u8; 16];
    let mut k: usize = 0;
    while k < 8
        invariant
            k <= 8,
            out@.len() == 16,
            forall|j: int| 0 <= j < 8 ==> offsets@[j] + 2 <= 512,
            offs == offsets@.map_values(|o: usize| o as int),
            forall|i: int| 0 <= i < 2 * k ==> out@[i] == assembled_uuid(raw@, offs)[i],
        decreases 8 - k,
    {
        let v = read_u16_le(raw, offsets[k]);
        out[2 * k] = (v / 256) as u8;
        out[2 * k + 1] = (v % 256) as u8;
        proof {
            assert(offs[k as int] == offsets@[k as int] as int);
            assert((2 * k) / 2 == k);
            assert((2 * k + 1) / 2 == k);
            assert((2 * k) % 2 == 0);
            assert((2 * k + 1) % 2 == 1);
        }
        k = k + 1;
    }
    assert(out@ =~= assembled_uuid(raw@, offs));
    out
}

/// A copy of the image with its checksum field at `off` cleared.
pub fn clear_checksum(raw: &[u8; 512], off: usize) -> (r: [u8; 512])
    requires
        off + 4 <= 512,
    ensures
        r@ == checksum_cleared(raw@, off as int),
{
    let mut out = *raw;
    out[off] = 0;
    out[off + 1] = 0;
    out[off + 2] = 0;
    out[off + 3] = 0;
    assert(out@ =~= checksum_cleared(raw@, off as int));
    out
}

/// Whatever single byte of an image changes, a checksum that matched no longer does:
/// either the field itself changed, or the image it covers did, and CRC-32 tells any two
/// images apart that differ in one byte.
pub proof fn lemma_checksum_detects_byte_change(s: Seq<u8>, off: int, i: int, x: u8)
    requires
        0 <= off,
        off + 4 <= s.len(),
        0 <= i < s.len(),
        x != s[i],
        image_checksum(s, off) == le32(s, off),
    ensures
        image_checksum(s.update(i, x), off) != le32(s.update(i, x), off),
{
    let t = s.update(i, x);
    if off <= i < off + 4 {
        assert(checksum_cleared(t, off) =~= checksum_cleared(s, off));
        assert(le32(t, off) != le32(s, off));
    } else {
        let c = checksum_cleared(s, off);
        assert(checksum_cleared(t, off) =~= c.update(i, x));
        lemma_crc32_detects_byte_change(c, i, x);
        assert(le32(t, off) == le32(s, off));
    }
}

// The checks of the current revision of the info block.

/// Offset of the CRC-32 field.
pub const CHECKSUM_OFFSET: usize = 500;

/// Offsets of the eight 16-bit fields that spell the Eisen UUID.
pub const UUID_OFFSETS: [usize; 8] = [64, 128, 192, 256, 320, 384, 448, 498];

/// Why an info block was refused.
#[derive(Clone, Copy, Debug, PartialEq, Eq, Structural)]
pub enum BootInfoInvalidError {
    MagicStart,
    MagicEnd,
    Unsigned,
    EisenUUID,
    Hash,
}

pub open spec fn uuid_offsets() -> Seq<int> {
    seq![64int, 128, 192, 256, 320, 384, 448, 498]
}

/// Whether the install UUID (bytes 16..32) is the nil UUID: the image was never signed.
pub open spec fn is_unsigned(s: Seq<u8>) -> bool {
    forall|i: int| 16 <= i < 32 ==> s[i] == 0
}

/// The first check that an info block image fails, given the CRC-32 of the image with
/// its checksum field cleared; `None` when it passes them all.
pub open spec fn invalidity(s: Seq<u8>, computed: u32) -> Option<BootInfoInvalidError> {
    if !has_magic_start(s) {
        Some(BootInfoInvalidError::MagicStart)
    } else if !has_magic_end(s) {
        Some(BootInfoInvalidError::MagicEnd)
    } else if is_unsigned(s) {
        Some(BootInfoInvalidError::Unsigned)
    } else if assembled_uuid(s, uuid_offsets()) != eisen_uuid() {
        Some(BootInfoInvalidError::EisenUUID)
    } else if computed != le32(s, CHECKSUM_OFFSET as int) {
        Some(BootInfoInvalidError::Hash)
    } else {
        None
    }
}

/// An image is refused as unsigned only when all sixteen bytes of its install UUID
/// (bytes 16..32) are zero: with its magic numbers right, one non-zero byte there is
/// enough for the image to count as signed.
pub proof fn lemma_unsigned_means_nil_install_uuid(s: Seq<u8>, computed: u32)
    ensures
        invalidity(s, computed) == Some(BootInfoInvalidError::Unsigned) ==> forall|i: int|
            16 <= i < 32 ==> s[i] == 0,
        has_magic_start(s) && has_magic_end(s) && (forall|i: int| 16 <= i < 32 ==> s[i] == 0)
            ==> invalidity(s, computed) == Some(BootInfoInvalidError::Unsigned),
        (exists|i: int| 16 <= i < 32 && s[i] != 0) ==> invalidity(s, computed) != Some(
            BootInfoInvalidError::Unsigned,
        ),
{
}

/// An image that passes every check but the checksum is accepted once its checksum field
/// holds the CRC-32 of the image taken with that field cleared: the checksum covers the
/// whole image except itself.
pub proof fn lemma_sealed_image_accepted(s: Seq<u8>)
    requires
        s.len() == INFO_SIZE,
        has_magic_start(s),
        has_magic_end(s),
        !is_unsigned(s),
        assembled_uuid(s, uuid_offsets()) == eisen_uuid(),
    ensures
        ({
            let t = with_checksum(s, CHECKSUM_OFFSET as int, image_checksum(s, CHECKSUM_OFFSET as int));
            invalidity(t, image_checksum(t, CHECKSUM_OFFSET as int)) is None
        }),
{
    let off = CHECKSUM_OFFSET as int;
    let v = image_checksum(s, off);
    let t = with_checksum(s, off, v);
    lemma_with_checksum(s, off, v);
    assert(t.subrange(0, 6) =~= s.subrange(0, 6));
    assert(t.subrange(MAGIC_END_OFFSET as int, MAGIC_END_OFFSET + 8) =~= s.subrange(
        MAGIC_END_OFFSET as int,
        MAGIC_END_OFFSET + 8,
    ));
    assert forall|i: int| 16 <= i < 32 implies t[i] == s[i] by {}
    assert(assembled_uuid(t, uuid_offsets()) =~= assembled_uuid(s, uuid_offsets()));
}

/// An accepted image with any one byte changed is refused for its checksum, unless the
/// byte lies in a magic number or a UUID field, or the change leaves the image unsigned:
/// those are refused by their own checks first.
pub proof fn lemma_single_byte_change_refused(s: Seq<u8>, i: int, x: u8)
    requires
        s.len() == INFO_SIZE,
        invalidity(s, image_checksum(s, CHECKSUM_OFFSET as int)) is None,
        0 <= i < INFO_SIZE,
        x != s[i],
        !(0 <= i < 6),
        !(MAGIC_END_OFFSET <= i < INFO_SIZE),
        forall|k: int| 0 <= k < 8 ==> !(uuid_offsets()[k] <= i < #[trigger] uuid_offsets()[k] + 2),
        !is_unsigned(s.update(i, x)),
    ensures
        ({
            let t = s.update(i, x);
            invalidity(t, image_checksum(t, CHECKSUM_OFFSET as int)) == Some(BootInfoInvalidError::Hash)
        }),
{
    let t = s.update(i, x);
    assert(t.subrange(0, 6) =~= s.subrange(0, 6));
    assert(t.subrange(MAGIC_END_OFFSET as int, MAGIC_END_OFFSET + 8) =~= s.subrange(
        MAGIC_END_OFFSET as int,
        MAGIC_END_OFFSET + 8,
    ));
    assert forall|k: int| 0 <= k < 8 implies le16(t, #[trigger] uuid_offsets()[k]) == le16(s, uuid_offsets()[k]) by {
        assert(!(uuid_offsets()[k] <= i < uuid_offsets()[k] + 2));
    }
    assert(assembled_uuid(t, uuid_offsets()) =~= assembled_uuid(s, uuid_offsets()));
    lemma_checksum_detects_byte_change(s, CHECKSUM_OFFSET as int, i, x);
}

} // verus!
