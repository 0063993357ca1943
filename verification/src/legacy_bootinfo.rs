//! The first revision of the Eisen info block, which had no build date, version name or
//! signature check.
use vstd::prelude::*;
use crate::bytes::{le16, le32, le64, read_u16_le, read_u32_le, read_u64_le, sub_array};
use crate::header::{
    assemble_uuid, assembled_uuid, check_magic_end, check_magic_start, clear_checksum,
    eisen_uuid, has_magic_end, has_magic_start, image_checksum,
    lemma_checksum_detects_byte_change, lemma_with_checksum, with_checksum, MAGIC_END_OFFSET,
    EISEN_UUID, INFO_SIZE,
};
use crate::integrity::{crc32, uuid_eq};

verus! {

/// Offset of the CRC-32 field.
pub const CHECKSUM_OFFSET: usize = 480;

/// Offsets of the eight 16-bit fields that spell the Eisen UUID.
pub const UUID_OFFSETS: [usize; 8] = [64, 66, 128, 192, 256, 320, 322, 324];

pub type BootInfoByteArray = [u8; INFO_SIZE];

/// Why an info block was refused.
#[derive(Clone, Copy, Debug, PartialEq, Eq, Structural)]
pub enum BootInfoInvalidError {
    MagicStart,
    MagicEnd,
    EisenUUID,
    Hash,
}

/// An info block, held as its 512-byte image.
#[derive(Clone, Copy, Debug)]
pub struct BootInfo {
    raw: BootInfoByteArray,
}

impl View for BootInfo {
    type V = Seq<u8>;

    closed spec fn view(&self) -> Seq<u8> {
        self.raw@
    }
}

pub open spec fn uuid_offsets() -> Seq<int> {
    seq![64int, 66, 128, 192, 256, 320, 322, 324]
}

/// The first check that an info block image fails, given the CRC-32 of the image with
/// its checksum field cleared; `None` when it passes them all.
pub open spec fn invalidity(s: Seq<u8>, computed: u32) -> Option<BootInfoInvalidError> {
    if !has_magic_start(s) {
        Some(BootInfoInvalidError::MagicStart)
    } else if !has_magic_end(s) {
        Some(BootInfoInvalidError::MagicEnd)
    } else if assembled_uuid(s, uuid_offsets()) != eisen_uuid() {
        Some(BootInfoInvalidError::EisenUUID)
    } else if computed != le32(s, CHECKSUM_OFFSET as int) {
        Some(BootInfoInvalidError::Hash)
    } else {
        None
    }
}

impl BootInfo {
    pub proof fn lemma_view_len(&self)
        ensures
            self@.len() == INFO_SIZE,
    {
    }

    /// Reads an info block image and accepts it only if it passes every check.
    pub fn parse(buffer: BootInfoByteArray) -> (r: Result<Self, BootInfoInvalidError>)
        ensures
            match r {
                Ok(b) => b@ == buffer@ && invalidity(
                    buffer@,
                    image_checksum(buffer@, CHECKSUM_OFFSET as int),
                ) is None,
                Err(e) => invalidity(buffer@, image_checksum(buffer@, CHECKSUM_OFFSET as int))
                    == Some(e),
            },
    {
        let ret = BootInfo { raw: buffer };
        match ret.validate() {
            None => Ok(ret),
            Some(e) => Err(e),
        }
    }

    /// Checks the image against the given CRC-32 of itself with its checksum field cleared.
    pub fn validate_with_checksum(&self, computed: u32) -> (r: Option<BootInfoInvalidError>)
        ensures
            r == invalidity(self@, computed),
    {
        if !check_magic_start(&self.raw) {
            return Some(BootInfoInvalidError::MagicStart);
        }
        if !check_magic_end(&self.raw) {
            return Some(BootInfoInvalidError::MagicEnd);
        }
        let offsets = UUID_OFFSETS;
        assert(offsets@.map_values(|o: usize| o as int) =~= uuid_offsets());
        let uuid = assemble_uuid(&self.raw, &offsets);
        let expected = EISEN_UUID;
        assert(expected@ == eisen_uuid());
        if !uuid_eq(uuid, expected) {
            return Some(BootInfoInvalidError::EisenUUID);
        }
        if computed != self.checksum() {
            return Some(BootInfoInvalidError::Hash);
        }
        None
    }

    fn validate(&self) -> (r: Option<BootInfoInvalidError>)
        ensures
            r == invalidity(self@, image_checksum(self@, CHECKSUM_OFFSET as int)),
    {
        let cleared = clear_checksum(&self.raw, CHECKSUM_OFFSET);
        let computed = crc32(&cleared);
        self.validate_with_checksum(computed)
    }

    pub fn magic_start(&self) -> (r: [u8; 6])
        ensures
            r@ == self@.subrange(0, 6),
    {
        sub_array::<6>(&self.raw, 0)
    }

    pub fn os_uuid(&self) -> (r: [u8; 16])
        ensures
            r@ == self@.subrange(16, 32),
    {
        sub_array::<16>(&self.raw, 16)
    }

    pub fn section_size(&self) -> (r: u8)
        ensures
            r == self@[32],
    {
        self.raw[32]
    }

    pub fn major_version(&self) -> (r: u8)
        ensures
            r == self@[33],
    {
        self.raw[33]
    }

    pub fn minor_version(&self) -> (r: u8)
        ensures
            r == self@[34],
    {
        self.raw[34]
    }

    pub fn patch_version(&self) -> (r: u8)
        ensures
            r == self@[35],
    {
        self.raw[35]
    }

    pub fn version_flags(&self) -> (r: u8)
        ensures
            r == self@[36],
    {
        self.raw[36]
    }

    /// The `k`-th of the eight 16-bit fields that spell the Eisen UUID.
    pub fn uuid_part(&self, k: usize) -> (r: u16)
        requires
            k < 8,
        ensures
            r == le16(self@, uuid_offsets()[k as int]),
    {
        let offsets = UUID_OFFSETS;
        assert(offsets@.map_values(|o: usize| o as int) =~= uuid_offsets());
        assert(offsets@[k as int] as int == uuid_offsets()[k as int]);
        read_u16_le(&self.raw, offsets[k])
    }

    /// Address of the kernel entry point.
    pub fn kentry(&self) -> (r: u64)
        ensures
            r == le64(self@, 72),
    {
        read_u64_le(&self.raw, 72)
    }

    /// Address of the kernel argument area.
    pub fn kargs(&self) -> (r: u64)
        ensures
            r == le64(self@, 80),
    {
        read_u64_le(&self.raw, 80)
    }

    pub fn checksum(&self) -> (r: u32)
        ensures
            r == le32(self@, CHECKSUM_OFFSET as int),
    {
        read_u32_le(&self.raw, CHECKSUM_OFFSET)
    }

    pub fn magic_end(&self) -> (r: [u8; 8])
        ensures
            r@ == self@.subrange(504, 512),
    {
        sub_array::<8>(&self.raw, 504)
    }
}

/// An image that passes every check but the checksum is accepted once its checksum field
/// holds the CRC-32 of the image taken with that field cleared: the checksum covers the
/// whole image except itself.
pub proof fn lemma_sealed_image_accepted(s: Seq<u8>)
    requires
        s.len() == INFO_SIZE,
        has_magic_start(s),
        has_magic_end(s),
        assembled_uuid(s, uuid_offsets()) == eisen_uuid(),
    ensures
        ({
            let t = with_checksum(s, CHECKSUM_OFFSET as int, image_checksum(s, CHECKSUM_OFFSET as int));
            invalidity(t, image_checksum(t, CHECKSUM_OFFSET as int)) is None
        }),
{
    let off = CHECKSUM_OFFSET as int;
    let v = image_checksum(s, off);
    let t = with_checksum(s, off, v);
    lemma_with_checksum(s, off, v);
    assert(t.subrange(0, 6) =~= s.subrange(0, 6));
    assert(t.subrange(MAGIC_END_OFFSET as int, MAGIC_END_OFFSET + 8) =~= s.subrange(
        MAGIC_END_OFFSET as int,
        MAGIC_END_OFFSET + 8,
    ));
    assert(assembled_uuid(t, uuid_offsets()) =~= assembled_uuid(s, uuid_offsets()));
}

/// An accepted image with any one byte changed is refused for its checksum, unless the
/// byte lies in a magic number or a UUID field: those are refused by their own checks
/// first.
pub proof fn lemma_single_byte_change_refused(s: Seq<u8>, i: int, x: u8)
    requires
        s.len() == INFO_SIZE,
        invalidity(s, image_checksum(s, CHECKSUM_OFFSET as int)) is None,
        0 <= i < INFO_SIZE,
        x != s[i],
        !(0 <= i < 6),
        !(MAGIC_END_OFFSET <= i < INFO_SIZE),
        forall|k: int| 0 <= k < 8 ==> !(uuid_offsets()[k] <= i < #[trigger] uuid_offsets()[k] + 2),
    ensures
        ({
            let t = s.update(i, x);
            invalidity(t, image_checksum(t, CHECKSUM_OFFSET as int)) == Some(BootInfoInvalidError::Hash)
        }),
{
    let t = s.update(i, x);
    assert(t.subrange(0, 6) =~= s.subrange(0, 6));
    assert(t.subrange(MAGIC_END_OFFSET as int, MAGIC_END_OFFSET + 8) =~= s.subrange(
        MAGIC_END_OFFSET as int,
        MAGIC_END_OFFSET + 8,
    ));
    assert forall|k: int| 0 <= k < 8 implies le16(t, #[trigger] uuid_offsets()[k]) == le16(s, uuid_offsets()[k]) by {
        assert(!(uuid_offsets()[k] <= i < uuid_offsets()[k] + 2));
    }
    assert(assembled_uuid(t, uuid_offsets()) =~= assembled_uuid(s, uuid_offsets()));
    lemma_checksum_detects_byte_change(s, CHECKSUM_OFFSET as int, i, x);
}

} // verus!
