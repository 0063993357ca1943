//! The kernel stub: the first kilobyte of a kernel image, a protective MBR followed by
//! the kernel's info block.
use vstd::prelude::*;
use vstd::utf8::valid_utf8;
use crate::bytes::{all_zero, le16, le32, le64, read_u16_le, read_u32_le, read_u64_le, sub_array};
use crate::header::{
    assemble_uuid, check_magic_end, check_magic_start, clear_checksum,
    eisen_uuid, image_checksum, EISEN_UUID,
};
pub use crate::header::{
    invalidity, is_unsigned, lemma_sealed_image_accepted, lemma_single_byte_change_refused,
    uuid_offsets, BootInfoInvalidError, CHECKSUM_OFFSET, UUID_OFFSETS,
};
use crate::integrity::crc32;
use crate::report::{
    date_string, date_text, size_string, size_text, uuid_string, uuid_text, version_name_text,
    version_string, version_text,
};

verus! {

pub const STUB_SIZE: usize = 0x400;
pub const PMBR_SIZE: usize = 0x200;
pub const BOOT_INFO_SIZE: usize = 0x200;
pub const BOOT_INFO_OFFSET: usize = PMBR_SIZE;

pub type StubBuffer = [u8; STUB_SIZE];

pub type PMBR = [u8; PMBR_SIZE];

/// A kernel stub: the protective MBR (bytes `0..0x200`) and the info block
/// (bytes `0x200..0x400`), held as the image they were read from.
pub struct Stub {
    bytes: StubBuffer,
}

impl View for Stub {
    type V = Seq<u8>;

    closed spec fn view(&self) -> Seq<u8> {
        self.bytes@
    }
}

impl Stub {
    pub proof fn lemma_view_len(&self)
        ensures
            self@.len() == STUB_SIZE,
    {
    }
}

/// A zeroed buffer of the size of a kernel stub.
pub fn new_stub_buffer() -> (r: StubBuffer)
    ensures
        forall|i: int| 0 <= i < STUB_SIZE ==> r@[i] == 0,
{
    [0u8; STUB_SIZE]
}

impl From<StubBuffer> for Stub {
    fn from(value: StubBuffer) -> (r: Self)
        ensures
            r@ == value@,
    {
        Stub { bytes: value }
    }
}

impl vstd::std_specs::convert::FromSpecImpl<StubBuffer> for Stub {
    open spec fn obeys_from_spec() -> bool {
        true
    }

    closed spec fn from_spec(v: StubBuffer) -> Self {
        Stub { bytes: v }
    }
}

/// How the kernel image that follows the stub is laid out.
#[derive(Clone, Copy, Debug, PartialEq, Eq, Structural)]
pub enum KernelType {
    Flat,
    Elf,
}

/// The kernel type that a type byte names: 0 flat, 1 ELF.
pub open spec fn kernel_type_of(b: u8) -> Option<KernelType> {
    if b == 0 {
        Some(KernelType::Flat)
    } else if b == 1 {
        Some(KernelType::Elf)
    } else {
        None
    }
}

/// The info block of a kernel stub, held as its 512-byte image.
#[derive(Clone, Copy, Debug)]
pub struct BootInfo {
    raw: [u8; BOOT_INFO_SIZE],
}

impl View for BootInfo {
    type V = Seq<u8>;

    closed spec fn view(&self) -> Seq<u8> {
        self.raw@
    }
}

/// The info block image that a stub holds.
pub open spec fn stub_info(stub: Seq<u8>) -> Seq<u8> {
    stub.subrange(BOOT_INFO_OFFSET as int, STUB_SIZE as int)
}

impl BootInfo {
    pub const VERSION_FLAG_ALPHA: u8 = 0b00000001;
    pub const VERSION_FLAG_BETA: u8 = 0b00000010;
    pub const VERSION_FLAG_RC: u8 = 0b00000100;
    pub const VERSION_FLAG_XPER: u8 = 0b00001000;

    pub proof fn lemma_view_len(&self)
        ensures
            self@.len() == BOOT_INFO_SIZE,
    {
    }

    pub fn header_version(&self) -> (r: u8)
        ensures
            r == self@[6],
    {
        self.raw[6]
    }

    /// The kernel type, `None` when the type byte names none.
    pub fn kernel_type(&self) -> (r: Option<KernelType>)
        ensures
            r == kernel_type_of(self@[7]),
    {
        match self.raw[7] {
            0 => Some(KernelType::Flat),
            1 => Some(KernelType::Elf),
            _ => None,
        }
    }

    pub fn header_size(&self) -> (r: u16)
        ensures
            r == le16(self@, 8),
    {
        read_u16_le(&self.raw, 8)
    }

    pub fn install_uuid(&self) -> (r: [u8; 16])
        ensures
            r@ == self@.subrange(16, 32),
    {
        sub_array::<16>(&self.raw, 16)
    }

    pub fn section_size(&self) -> (r: u8)
        ensures
            r == self@[32],
    {
        self.raw[32]
    }

    pub fn build_year(&self) -> (r: u16)
        ensures
            r == le16(self@, 36),
    {
        read_u16_le(&self.raw, 36)
    }

    pub fn build_month(&self) -> (r: u8)
        ensures
            r == self@[38],
    {
        self.raw[38]
    }

    pub fn build_day(&self) -> (r: u8)
        ensures
            r == self@[39],
    {
        self.raw[39]
    }

    pub fn major_version(&self) -> (r: u8)
        ensures
            r == self@[40],
    {
        self.raw[40]
    }

    pub fn minor_version(&self) -> (r: u8)
        ensures
            r == self@[41],
    {
        self.raw[41]
    }

    pub fn patch_version(&self) -> (r: u8)
        ensures
            r == self@[42],
    {
        self.raw[42]
    }

    pub fn version_flags(&self) -> (r: u8)
        ensures
            r == self@[43],
    {
        self.raw[43]
    }

    pub fn version_name(&self) -> (r: [u8; 16])
        ensures
            r@ == self@.subrange(48, 64),
    {
        sub_array::<16>(&self.raw, 48)
    }

    /// Address of the kernel entry point.
    pub fn kentry(&self) -> (r: u64)
        ensures
            r == le64(self@, 72),
    {
        read_u64_le(&self.raw, 72)
    }

    /// Address of the kernel argument area.
    pub fn kargs(&self) -> (r: u64)
        ensures
            r == le64(self@, 80),
    {
        read_u64_le(&self.raw, 80)
    }

    /// Address of the kernel's system information area.
    pub fn ksysinfo(&self) -> (r: u64)
        ensures
            r == le64(self@, 88),
    {
        read_u64_le(&self.raw, 88)
    }

    pub fn stub_end(&self) -> (r: u64)
        ensures
            r == le64(self@, 96),
    {
        read_u64_le(&self.raw, 96)
    }

    pub fn kernel_vma(&self) -> (r: u64)
        ensures
            r == le64(self@, 104),
    {
        read_u64_le(&self.raw, 104)
    }

    pub fn kernel_size(&self) -> (r: u64)
        ensures
            r == le64(self@, 112),
    {
        read_u64_le(&self.raw, 112)
    }

    pub fn stack_top(&self) -> (r: u64)
        ensures
            r == le64(self@, 120),
    {
        read_u64_le(&self.raw, 120)
    }

    pub fn checksum(&self) -> (r: u32)
        ensures
            r == le32(self@, CHECKSUM_OFFSET as int),
    {
        read_u32_le(&self.raw, CHECKSUM_OFFSET)
    }

    /// Reads the info block of a stub and accepts it only if it passes every check.
    pub fn parse(buffer: &Stub) -> (r: Result<Self, BootInfoInvalidError>)
        ensures
            ({
                let s = stub_info(buffer@);
                match r {
                    Ok(b) => b@ == s && invalidity(s, image_checksum(s, CHECKSUM_OFFSET as int))
                        is None,
                    Err(e) => invalidity(s, image_checksum(s, CHECKSUM_OFFSET as int)) == Some(e),
                }
            }),
    {
        let ret = Self::from(buffer.bytes);
        match ret.validate() {
            None => Ok(ret),
            Some(e) => Err(e),
        }
    }

    /// Checks the image against the given CRC-32 of itself with its checksum field cleared.
    pub fn validate_with_checksum(&self, computed: u32) -> (r: Option<BootInfoInvalidError>)
        ensures
            r == invalidity(self@, computed),
    {
        if !check_magic_start(&self.raw) {
            return Some(BootInfoInvalidError::MagicStart);
        }
        if !check_magic_end(&self.raw) {
            return Some(BootInfoInvalidError::MagicEnd);
        }
        if all_zero(&self.raw, 16, 16) {
            return Some(BootInfoInvalidError::Unsigned);
        }
        let offsets = UUID_OFFSETS;
        assert(offsets@.map_values(|o: usize| o as int) =~= uuid_offsets());
        let uuid = assemble_uuid(&self.raw, &offsets);
        let expected = EISEN_UUID;
        assert(expected@ == eisen_uuid());
        if !bytes16_eq(&uuid, &expected) {
            return Some(BootInfoInvalidError::EisenUUID);
        }
        if computed != self.checksum() {
            return Some(BootInfoInvalidError::Hash);
        }
        None
    }

    fn validate(&self) -> (r: Option<BootInfoInvalidError>)
        ensures
            r == invalidity(self@, image_checksum(self@, CHECKSUM_OFFSET as int)),
    {
        let cleared = clear_checksum(&self.raw, CHECKSUM_OFFSET);
        let computed = crc32(&cleared);
        self.validate_with_checksum(computed)
    }

    /// `major.minor.patch "name" [ labels ]`.
    pub fn version_info(&self) -> (r: String)
        requires
            valid_utf8(self@.subrange(48, 64)),
        ensures
            r@ == version_text(
                self@[40],
                self@[41],
                self@[42],
                version_name_text(self@.subrange(48, 64)),
                self@[43],
            ),
    {
        let name = self.version_name();
        version_string(self.major_version(), self.minor_version(), self.patch_version(), &name, self.version_flags())
    }

    /// The build date, `YYYY-MM-DD`.
    pub fn date(&self) -> (r: String)
        ensures
            r@ == date_text(le16(self@, 36) as u16, self@[38], self@[39]),
    {
        date_string(self.build_year(), self.build_month(), self.build_day())
    }

    /// The install UUID in the 8-4-4-4-12 grouping.
    pub fn uuid_pretty(&self) -> (r: String)
        ensures
            r@ == uuid_text(self@.subrange(16, 32)),
    {
        let u = self.install_uuid();
        uuid_string(&u)
    }

    /// The kernel size in B, K, M or G.
    pub fn kernel_size_pretty(&self) -> (r: String)
        ensures
            r@ == size_text(le64(self@, 112) as u64),
    {
        size_string(self.kernel_size())
    }
}

fn bytes16_eq(a: &[u8; 16], b: &[u8; 16]) -> (r: bool)
    ensures
        r == (a@ == b@),
{
    let mut i: usize = 0;
    while i < 16
        invariant
            i <= 16,
            forall|j: int| 0 <= j < i ==> a@[j] == b@[j],
        decreases 16 - i,
    {
        if a[i] != b[i] {
            return false;
        }
        i = i + 1;
    }
    assert(a@ =~= b@);
    true
}

impl From<StubBuffer> for BootInfo {
    /// The info block of a stub image.
    fn from(value: StubBuffer) -> (r: Self)
        ensures
            r@ == stub_info(value@),
    {
        let raw = sub_array::<BOOT_INFO_SIZE>(&value, BOOT_INFO_OFFSET);
        let r = BootInfo { raw };
        proof {
            assert(r@ == stub_info(value@));
            let c = choose|b: BootInfo| b@ == stub_info(value@);
            assert(c.raw@ == r.raw@);
            assert(c.raw =~= r.raw);
            assert(c == r);
        }
        r
    }
}

impl vstd::std_specs::convert::FromSpecImpl<StubBuffer> for BootInfo {
    open spec fn obeys_from_spec() -> bool {
        true
    }

    closed spec fn from_spec(v: StubBuffer) -> Self {
        choose|b: BootInfo| b@ == stub_info(v@)
    }
}

/// Only the info block of a stub decides whether it is accepted: two stubs that differ
/// in their protective MBR alone have the same info block.
pub proof fn lemma_pmbr_irrelevant(a: Seq<u8>, b: Seq<u8>)
    requires
        a.len() == STUB_SIZE,
        b.len() == STUB_SIZE,
        forall|i: int| BOOT_INFO_OFFSET <= i < STUB_SIZE ==> a[i] == b[i],
    ensures
        stub_info(a) == stub_info(b),
        invalidity(stub_info(a), image_checksum(stub_info(a), CHECKSUM_OFFSET as int))
            == invalidity(stub_info(b), image_checksum(stub_info(b), CHECKSUM_OFFSET as int)),
{
    assert(stub_info(a) =~= stub_info(b));
}

} // verus!
