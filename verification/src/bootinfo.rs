//! The info block that the Eisen boot driver reads from sector one of a kernel image.
use vstd::prelude::*;
use vstd::utf8::valid_utf8;
use crate::bytes::{le16, le32, le64, read_u16_le, read_u32_le, read_u64_le, sub_array};
use crate::header::{
    assemble_uuid, check_magic_end, check_magic_start, clear_checksum, eisen_uuid,
    image_checksum, EISEN_UUID, INFO_SIZE,
};
pub use crate::header::{
    invalidity, is_unsigned, lemma_sealed_image_accepted, lemma_single_byte_change_refused,
    uuid_offsets, BootInfoInvalidError, CHECKSUM_OFFSET, UUID_OFFSETS,
};
use crate::integrity::{crc32, uuid_eq, uuid_is_nil};
use crate::report::{
    date_string, date_text, size_string, size_text, version_name_text, version_string,
    version_text,
};

verus! {

pub type BootInfoByteArray = [u8; INFO_SIZE];

/// An info block, held as its 512-byte image.
#[derive(Clone, Copy, Debug)]
pub struct BootInfo {
    raw: BootInfoByteArray,
}

impl View for BootInfo {
    type V = Seq<u8>;

    closed spec fn view(&self) -> Seq<u8> {
        self.raw@
    }
}

impl BootInfo {
    pub const VERSION_FLAG_ALPHA: u8 = 0b00000001;
    pub const VERSION_FLAG_BETA: u8 = 0b00000010;
    pub const VERSION_FLAG_RC: u8 = 0b00000100;
    pub const VERSION_FLAG_XPER: u8 = 0b00001000;

    pub proof fn lemma_view_len(&self)
        ensures
            self@.len() == INFO_SIZE,
    {
    }

    /// Reads an info block image and accepts it only if it passes every check.
    pub fn parse(buffer: BootInfoByteArray) -> (r: Result<Self, BootInfoInvalidError>)
        ensures
            match r {
                Ok(b) => b@ == buffer@ && invalidity(
                    buffer@,
                    image_checksum(buffer@, CHECKSUM_OFFSET as int),
                ) is None,
                Err(e) => invalidity(buffer@, image_checksum(buffer@, CHECKSUM_OFFSET as int))
                    == Some(e),
            },
    {
        let ret = BootInfo { raw: buffer };
        match ret.validate() {
            None => Ok(ret),
            Some(e) => Err(e),
        }
    }

    /// Checks the image against the given CRC-32 of itself with its checksum field cleared.
    pub fn validate_with_checksum(&self, computed: u32) -> (r: Option<BootInfoInvalidError>)
        ensures
            r == invalidity(self@, computed),
    {
        if !check_magic_start(&self.raw) {
            return Some(BootInfoInvalidError::MagicStart);
        }
        if !check_magic_end(&self.raw) {
            return Some(BootInfoInvalidError::MagicEnd);
        }
        let install = self.install_uuid();
        proof {
            assert forall|i: int| 16 <= i < 32 implies install@[i - 16] == self@[i] by {}
            assert forall|j: int| 0 <= j < 16 implies install@[j] == self@[j + 16] by {}
        }
        if uuid_is_nil(install) {
            return Some(BootInfoInvalidError::Unsigned);
        }
        let offsets = UUID_OFFSETS;
        assert(offsets@.map_values(|o: usize| o as int) =~= uuid_offsets());
        let uuid = assemble_uuid(&self.raw, &offsets);
        let expected = EISEN_UUID;
        assert(expected@ == eisen_uuid());
        if !uuid_eq(uuid, expected) {
            return Some(BootInfoInvalidError::EisenUUID);
        }
        if computed != self.checksum() {
            return Some(BootInfoInvalidError::Hash);
        }
        None
    }

    fn validate(&self) -> (r: Option<BootInfoInvalidError>)
        ensures
            r == invalidity(self@, image_checksum(self@, CHECKSUM_OFFSET as int)),
    {
        let cleared = clear_checksum(&self.raw, CHECKSUM_OFFSET);
        let computed = crc32(&cleared);
        self.validate_with_checksum(computed)
    }

    pub fn magic_start(&self) -> (r: [u8; 6])
        ensures
            r@ == self@.subrange(0, 6),
    {
        sub_array::<6>(&self.raw, 0)
    }

    pub fn install_uuid(&self) -> (r: [u8; 16])
        ensures
            r@ == self@.subrange(16, 32),
    {
        sub_array::<16>(&self.raw, 16)
    }

    pub fn section_size(&self) -> (r: u8)
        ensures
            r == self@[32],
    {
        self.raw[32]
    }

    pub fn build_year(&self) -> (r: u16)
        ensures
            r == le16(self@, 36),
    {
        read_u16_le(&self.raw, 36)
    }

    pub fn build_month(&self) -> (r: u8)
        ensures
            r == self@[38],
    {
        self.raw[38]
    }

    pub fn build_day(&self) -> (r: u8)
        ensures
            r == self@[39],
    {
        self.raw[39]
    }

    pub fn major_version(&self) -> (r: u8)
        ensures
            r == self@[40],
    {
        self.raw[40]
    }

    pub fn minor_version(&self) -> (r: u8)
        ensures
            r == self@[41],
    {
        self.raw[41]
    }

    pub fn patch_version(&self) -> (r: u8)
        ensures
            r == self@[42],
    {
        self.raw[42]
    }

    pub fn version_flags(&self) -> (r: u8)
        ensures
            r == self@[43],
    {
        self.raw[43]
    }

    pub fn version_name(&self) -> (r: [u8; 16])
        ensures
            r@ == self@.subrange(48, 64),
    {
        sub_array::<16>(&self.raw, 48)
    }

    /// The `k`-th of the eight 16-bit fields that spell the Eisen UUID.
    pub fn uuid_part(&self, k: usize) -> (r: u16)
        requires
            k < 8,
        ensures
            r == le16(self@, uuid_offsets()[k as int]),
    {
        let offsets = UUID_OFFSETS;
        assert(offsets@.map_values(|o: usize| o as int) =~= uuid_offsets());
        assert(offsets@[k as int] as int == uuid_offsets()[k as int]);
        read_u16_le(&self.raw, offsets[k])
    }

    /// Address of the kernel entry point.
    pub fn kentry(&self) -> (r: u64)
        ensures
            r == le64(self@, 72),
    {
        read_u64_le(&self.raw, 72)
    }

    /// Address of the kernel argument area.
    pub fn kargs(&self) -> (r: u64)
        ensures
            r == le64(self@, 80),
    {
        read_u64_le(&self.raw, 80)
    }

    /// Address of the kernel's system information area.
    pub fn ksysinfo(&self) -> (r: u64)
        ensures
            r == le64(self@, 88),
    {
        read_u64_le(&self.raw, 88)
    }

    pub fn kloadaddr(&self) -> (r: u64)
        ensures
            r == le64(self@, 96),
    {
        read_u64_le(&self.raw, 96)
    }

    pub fn kernel_offset(&self) -> (r: u64)
        ensures
            r == le64(self@, 104),
    {
        read_u64_le(&self.raw, 104)
    }

    pub fn kernel_size(&self) -> (r: u64)
        ensures
            r == le64(self@, 112),
    {
        read_u64_le(&self.raw, 112)
    }

    pub fn checksum(&self) -> (r: u32)
        ensures
            r == le32(self@, CHECKSUM_OFFSET as int),
    {
        read_u32_le(&self.raw, CHECKSUM_OFFSET)
    }

    pub fn magic_end(&self) -> (r: [u8; 8])
        ensures
            r@ == self@.subrange(504, 512),
    {
        sub_array::<8>(&self.raw, 504)
    }

    /// `major.minor.patch "name" [ labels ]`.
    pub fn version_info(&self) -> (r: String)
        requires
            valid_utf8(self@.subrange(48, 64)),
        ensures
            r@ == version_text(
                self@[40],
                self@[41],
                self@[42],
                version_name_text(self@.subrange(48, 64)),
                self@[43],
            ),
    {
        let name = self.version_name();
        version_string(self.major_version(), self.minor_version(), self.patch_version(), &name, self.version_flags())
    }

    /// The build date, `YYYY-MM-DD`.
    pub fn date(&self) -> (r: String)
        ensures
            r@ == date_text(le16(self@, 36) as u16, self@[38], self@[39]),
    {
        date_string(self.build_year(), self.build_month(), self.build_day())
    }

    /// The kernel size in B, K, M or G.
    pub fn kernel_size_pretty(&self) -> (r: String)
        ensures
            r@ == size_text(le64(self@, 112) as u64),
    {
        size_string(self.kernel_size())
    }
}

} // verus!
