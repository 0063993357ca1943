//! The decisions of loading an ELF64 kernel: which headers are acceptable, where the
//! program header table lies, which segment is loaded, and how many pages it takes.
use vstd::prelude::*;
use crate::bytes::{le16, le32, le64, read_u16_le, read_u32_le, read_u64_le, sub_array};

verus! {

pub const PAGE_SIZE: usize = 4096;

/// Size of the identification part of an ELF header.
pub const IDENT_SIZE: usize = 16;

/// Size of the rest of an ELF64 header.
pub const HEADER64_SIZE: usize = 48;

/// Size of an ELF64 program header.
pub const PROGRAM_HEADER64_SIZE: usize = 56;

pub const ELF_MAGIC: [u8; 4] = [0x7F, 0x45, 0x4C, 0x46];

pub const CLASS_64: u8 = 2;
pub const DATA_LITTLE_ENDIAN: u8 = 1;
pub const TYPE_EXECUTABLE: u16 = 2;
pub const MACHINE_X86_64: u16 = 0x3E;
pub const SEGMENT_LOAD: u32 = 1;

pub open spec fn elf_magic() -> Seq<u8> {
    seq![0x7Fu8, 0x45u8, 0x4Cu8, 0x46u8]
}

/// The identification bytes that open an ELF file.
#[derive(Clone, Copy, Debug)]
pub struct ElfIdent {
    pub magic: [u8; 4],
    pub class: u8,
    pub data: u8,
    pub version: u8,
    pub os_abi: u8,
    pub abi_version: u8,
}

/// The ELF64 header fields that follow the identification bytes.
#[derive(Clone, Copy, Debug)]
pub struct ElfHeader64 {
    pub type_: u16,
    pub machine: u16,
    pub version: u32,
    pub entry_point: u64,
    pub ph_offset: u64,
    pub sh_offset: u64,
    pub flags: u32,
    pub header_size: u16,
    pub ph_entry_size: u16,
    pub ph_count: u16,
    pub sh_entry_size: u16,
    pub sh_count: u16,
    pub sh_str_index: u16,
}

/// An ELF64 program header.
#[derive(Clone, Copy, Debug)]
pub struct ProgramHeader64 {
    pub type_: u32,
    pub flags: u32,
    pub offset: u64,
    pub virtual_addr: u64,
    pub physical_addr: u64,
    pub file_size: u64,
    pub mem_size: u64,
    pub align: u64,
}

/// The program header that an image holds at `off`, field by field.
pub open spec fn program_header_at(s: Seq<u8>, off: int) -> ProgramHeader64 {
    ProgramHeader64 {
        type_: le32(s, off) as u32,
        flags: le32(s, off + 4) as u32,
        offset: le64(s, off + 8) as u64,
        virtual_addr: le64(s, off + 16) as u64,
        physical_addr: le64(s, off + 24) as u64,
        file_size: le64(s, off + 32) as u64,
        mem_size: le64(s, off + 40) as u64,
        align: le64(s, off + 48) as u64,
    }
}

impl ElfIdent {
    /// Reads the identification bytes.
    pub fn parse(bytes: &[u8; IDENT_SIZE]) -> (r: Self)
        ensures
            r.magic@ == bytes@.subrange(0, 4),
            r.class == bytes@[4],
            r.data == bytes@[5],
            r.version == bytes@[6],
            r.os_abi == bytes@[7],
            r.abi_version == bytes@[8],
    {
        ElfIdent {
            magic: sub_array::<4>(bytes, 0),
            class: bytes[4],
            data: bytes[5],
            version: bytes[6],
            os_abi: bytes[7],
            abi_version: bytes[8],
        }
    }
}

impl ElfHeader64 {
    /// Reads the header fields that follow the identification bytes, little-endian.
    pub fn parse(b: &[u8; HEADER64_SIZE]) -> (r: Self)
        ensures
            r.type_ == le16(b@, 0),
            r.machine == le16(b@, 2),
            r.version == le32(b@, 4),
            r.entry_point == le64(b@, 8),
            r.ph_offset == le64(b@, 16),
            r.sh_offset == le64(b@, 24),
            r.flags == le32(b@, 32),
            r.header_size == le16(b@, 36),
            r.ph_entry_size == le16(b@, 38),
            r.ph_count == le16(b@, 40),
            r.sh_entry_size == le16(b@, 42),
            r.sh_count == le16(b@, 44),
            r.sh_str_index == le16(b@, 46),
    {
        ElfHeader64 {
            type_: read_u16_le(b, 0),
            machine: read_u16_le(b, 2),
            version: read_u32_le(b, 4),
            entry_point: read_u64_le(b, 8),
            ph_offset: read_u64_le(b, 16),
            sh_offset: read_u64_le(b, 24),
            flags: read_u32_le(b, 32),
            header_size: read_u16_le(b, 36),
            ph_entry_size: read_u16_le(b, 38),
            ph_count: read_u16_le(b, 40),
            sh_entry_size: read_u16_le(b, 42),
            sh_count: read_u16_le(b, 44),
            sh_str_index: read_u16_le(b, 46),
        }
    }
}

/// Whether the headers describe a little-endian ELF64 executable for x86-64, version 1:
/// the only kind of kernel the loader accepts.
pub open spec fn is_kernel_header(ident: ElfIdent, header: ElfHeader64) -> bool {
    &&& ident.magic@ == elf_magic()
    &&& ident.class == CLASS_64
    &&& ident.data == DATA_LITTLE_ENDIAN
    &&& header.type_ == TYPE_EXECUTABLE
    &&& header.machine == MACHINE_X86_64
    &&& header.version == 1
}

pub fn accepts_kernel_header(ident: &ElfIdent, header: &ElfHeader64) -> (r: bool)
    ensures
        r == is_kernel_header(*ident, *header),
{
    let m = ELF_MAGIC;
    assert(m@ == elf_magic());
    let magic_ok = ident.magic[0] == m[0] && ident.magic[1] == m[1] && ident.magic[2] == m[2]
        && ident.magic[3] == m[3];
    assert(magic_ok == (ident.magic@ =~= elf_magic()));
    magic_ok && ident.class == CLASS_64 && ident.data == DATA_LITTLE_ENDIAN && header.type_
        == TYPE_EXECUTABLE && header.machine == MACHINE_X86_64 && header.version == 1
}

/// Size in bytes of the program header table, computed in 16 bits as the loader does.
pub fn program_table_size(header: &ElfHeader64) -> (r: usize)
    requires
        header.ph_entry_size * header.ph_count <= u16::MAX,
    ensures
        r == header.ph_entry_size * header.ph_count,
{
    (header.ph_entry_size * header.ph_count) as usize
}

/// Splits a program header table into 56-byte headers; trailing bytes that do not fill a
/// header are ignored.
pub fn parse_program_headers(table: &[u8]) -> (r: Vec<ProgramHeader64>)
    ensures
        r@.len() == table@.len() / (PROGRAM_HEADER64_SIZE as nat),
        forall|i: int|
            0 <= i < r@.len() ==> r@[i] == program_header_at(
                table@,
                i * PROGRAM_HEADER64_SIZE,
            ),
{
    let mut out: Vec<ProgramHeader64> = Vec::new();
    let count = table.len() / PROGRAM_HEADER64_SIZE;
    let mut i: usize = 0;
    while i < count
        invariant
            i <= count,
            count == table@.len() / (PROGRAM_HEADER64_SIZE as nat),
            out@.len() == i,
            forall|k: int|
                0 <= k < i ==> out@[k] == program_header_at(table@, k * PROGRAM_HEADER64_SIZE),
        decreases count - i,
    {
        assert((i + 1) * PROGRAM_HEADER64_SIZE <= table.len()) by (nonlinear_arith)
            requires
                i < count,
                count == table.len() / 56,
        ;
        let off = i * PROGRAM_HEADER64_SIZE;
        let ph = ProgramHeader64 {
            type_: read_u32_le(table, off),
            flags: read_u32_le(table, off + 4),
            offset: read_u64_le(table, off + 8),
            virtual_addr: read_u64_le(table, off + 16),
            physical_addr: read_u64_le(table, off + 24),
            file_size: read_u64_le(table, off + 32),
            mem_size: read_u64_le(table, off + 40),
            align: read_u64_le(table, off + 48),
        };
        out.push(ph);
        i = i + 1;
    }
    out
}

/// Whether a program header type is one the ELF reader recognises: the standard types
/// 0-7, the GNU RELRO type, and the OS- and processor-specific ranges.
pub open spec fn is_known_segment_type(t: u32) -> bool {
    ||| t <= 7
    ||| t == 0x6474E552
    ||| 0x6000_0000 <= t <= 0x6FFF_FFFF
    ||| 0x7000_0000 <= t <= 0x7FFF_FFFF
}

pub fn segment_type_known(t: u32) -> (r: bool)
    ensures
        r == is_known_segment_type(t),
{
    t <= 7 || t == 0x6474E552 || (0x6000_0000 <= t && t <= 0x6FFF_FFFF) || (0x7000_0000 <= t
        && t <= 0x7FFF_FFFF)
}

/// Whether every header up to and including the first loadable one has a recognised type:
/// the search for the loadable segment reads exactly those.
pub open spec fn searchable(phdrs: Seq<ProgramHeader64>) -> bool {
    forall|j: int|
        0 <= j < phdrs.len() && (forall|k: int| 0 <= k < j ==> phdrs[k].type_ != SEGMENT_LOAD)
            ==> is_known_segment_type(#[trigger] phdrs[j].type_)
}

pub fn program_headers_searchable(phdrs: &[ProgramHeader64]) -> (r: bool)
    ensures
        r == searchable(phdrs@),
{
    let mut i: usize = 0;
    while i < phdrs.len()
        invariant
            i <= phdrs@.len(),
            forall|k: int| 0 <= k < i ==> phdrs@[k].type_ != SEGMENT_LOAD,
            forall|j: int| 0 <= j < i ==> is_known_segment_type(#[trigger] phdrs@[j].type_),
        decreases phdrs@.len() - i,
    {
        if !segment_type_known(phdrs[i].type_) {
            return false;
        }
        if phdrs[i].type_ == SEGMENT_LOAD {
            return true;
        }
        i = i + 1;
    }
    true
}

/// Index of the first loadable segment.
pub fn first_load_segment(phdrs: &[ProgramHeader64]) -> (r: Option<usize>)
    requires
        searchable(phdrs@),
    ensures
        match r {
            Some(i) => i < phdrs@.len() && phdrs@[i as int].type_ == SEGMENT_LOAD && forall|k: int|
                0 <= k < i ==> phdrs@[k].type_ != SEGMENT_LOAD,
            None => forall|k: int| 0 <= k < phdrs@.len() ==> phdrs@[k].type_ != SEGMENT_LOAD,
        },
{
    let mut i: usize = 0;
    while i < phdrs.len()
        invariant
            i <= phdrs@.len(),
            forall|k: int| 0 <= k < i ==> phdrs@[k].type_ != SEGMENT_LOAD,
        decreases phdrs@.len() - i,
    {
        if phdrs[i].type_ == SEGMENT_LOAD {
            return Some(i);
        }
        i = i + 1;
    }
    None
}

/// The number of pages that hold `size` bytes, computed as
/// `(size + PAGE_SIZE - 1) / PAGE_SIZE`: the sum `size + PAGE_SIZE` is formed before one
/// is taken off, so sizes for which that sum overflows are left out.
pub fn pages_for(size: u64) -> (r: usize)
    requires
        size + PAGE_SIZE <= usize::MAX,
    ensures
        r == (size + PAGE_SIZE - 1) / PAGE_SIZE as int,
{
    let s = size as usize;
    assert(s == size);
    (s + PAGE_SIZE - 1) / PAGE_SIZE
}

/// The pages for a size are the fewest that hold it.
pub proof fn lemma_pages_cover(size: nat)
    ensures
        ((size + PAGE_SIZE - 1) / PAGE_SIZE as int) * PAGE_SIZE >= size,
        ((size + PAGE_SIZE - 1) / PAGE_SIZE as int) * PAGE_SIZE < size + PAGE_SIZE,
{
    let p = (size + PAGE_SIZE - 1) / PAGE_SIZE as int;
    assert(p * 4096 >= size && p * 4096 < size + 4096) by (nonlinear_arith)
        requires p == (size + 4095) / 4096, size >= 0;
}

/// Where a segment goes and what is read into it.
#[derive(Clone, Copy, Debug)]
pub struct SegmentLoad {
    /// Physical address of the first page.
    pub physical_addr: u64,
    /// Number of pages allocated there.
    pub pages: usize,
    /// Offset in the file of the bytes read into the pages.
    pub file_offset: u64,
    /// Number of bytes read: the whole of the allocated pages.
    pub read_len: usize,
}

/// The allocation and the read that load a segment at its physical address.
pub fn plan_segment_load(ph: &ProgramHeader64) -> (r: SegmentLoad)
    requires
        ph.mem_size + PAGE_SIZE <= usize::MAX,
    ensures
        r.physical_addr == ph.physical_addr,
        r.pages == (ph.mem_size + PAGE_SIZE - 1) / PAGE_SIZE as int,
        r.file_offset == ph.offset,
        r.read_len == r.pages * PAGE_SIZE,
{
    let pages = pages_for(ph.mem_size);
    assert(pages * PAGE_SIZE <= ph.mem_size + PAGE_SIZE - 1) by (nonlinear_arith)
        requires
            pages == (ph.mem_size + PAGE_SIZE - 1) / PAGE_SIZE as int,
    ;
    SegmentLoad {
        physical_addr: ph.physical_addr,
        pages,
        file_offset: ph.offset,
        read_len: pages * PAGE_SIZE,
    }
}

} // verus!
