//! The two ways the boot driver places a kernel in memory: a flat image copied whole, or
//! an ELF image whose loadable segments are copied to their virtual addresses.
use vstd::prelude::*;
use crate::elf::{pages_for, PAGE_SIZE, SEGMENT_LOAD};

verus! {

/// The program headers that `elf::ElfBytes::<LittleEndian>::minimal_parse` finds in an
/// image: `None` when it refuses the image, `Some(None)` when the image has no segment
/// table, otherwise each header as `(p_type, p_offset, p_vaddr, p_filesz, p_memsz)`.
pub uninterp spec fn elf_segment_table(image: Seq<u8>) -> Option<Option<Seq<(u32, u64, u64, u64, u64)>>>;

/// Parses an ELF image with the `elf` crate and lists its program headers. The contract
/// names the outcome only: it is a function of the bytes alone.
#[verifier::external_body]
fn read_segment_table(image: &[u8]) -> (r: Option<Option<Vec<(u32, u64, u64, u64, u64)>>>)
    ensures
        elf_segment_table(image@) == match r {
            None => None,
            Some(None) => Some(None),
            Some(Some(v)) => Some(Some(v@)),
        },
{
    match elf::ElfBytes::<elf::endian::LittleEndian>::minimal_parse(image) {
        Err(_) => None,
        Ok(file) => Some(file.segments().map(
            |t| t.iter().map(|p| (p.p_type, p.p_offset, p.p_vaddr, p.p_filesz, p.p_memsz)).collect(),
        )),
    }
}

/// A copy of part of the boot image to freshly allocated pages.
#[derive(Clone, Copy, Debug)]
pub struct SegmentCopy {
    /// Address at which the pages are allocated.
    pub load_addr: u64,
    /// Number of pages allocated.
    pub pages: usize,
    /// Offset in the boot image of the first byte copied.
    pub image_offset: u64,
    /// Number of bytes copied.
    pub len: u64,
}

/// The copy that loads one program header of an ELF image that starts at `elf_start`.
pub open spec fn segment_copy_of(ph: (u32, u64, u64, u64, u64), elf_start: u64) -> SegmentCopy {
    SegmentCopy {
        load_addr: ph.2,
        pages: ((ph.4 + PAGE_SIZE - 1) / PAGE_SIZE as int) as usize,
        image_offset: (elf_start + ph.1) as u64,
        len: ph.3,
    }
}

/// The copies for the loadable headers, in table order.
pub open spec fn load_copies(phs: Seq<(u32, u64, u64, u64, u64)>, elf_start: u64) -> Seq<SegmentCopy>
    decreases phs.len(),
{
    if phs.len() == 0 {
        Seq::empty()
    } else {
        let rest = load_copies(phs.drop_last(), elf_start);
        if phs.last().0 == SEGMENT_LOAD {
            rest.push(segment_copy_of(phs.last(), elf_start))
        } else {
            rest
        }
    }
}

/// The program headers of type PT_LOAD (1), in table order.
pub open spec fn pt_load_headers(phs: Seq<(u32, u64, u64, u64, u64)>) -> Seq<(u32, u64, u64, u64, u64)> {
    phs.filter(|p: (u32, u64, u64, u64, u64)| p.0 == 1u32)
}

/// The plan holds one copy per PT_LOAD header, in table order: the `k`-th copy loads the
/// `k`-th PT_LOAD header `(p_type, p_offset, p_vaddr, p_filesz, p_memsz)` to `p_vaddr`,
/// over the pages that hold `p_memsz` bytes, from `elf_start + p_offset` in the image,
/// `p_filesz` bytes long.
pub proof fn lemma_one_copy_per_load_header(phs: Seq<(u32, u64, u64, u64, u64)>, elf_start: u64)
    ensures
        load_copies(phs, elf_start).len() == pt_load_headers(phs).len(),
        forall|k: int|
            0 <= k < pt_load_headers(phs).len() ==> {
                let h = #[trigger] pt_load_headers(phs)[k];
                let c = load_copies(phs, elf_start)[k];
                &&& h.0 == 1
                &&& c.load_addr == h.2
                &&& c.pages == ((h.4 + 4095) / 4096) as usize
                &&& c.image_offset == (elf_start + h.1) as u64
                &&& c.len == h.3
            },
    decreases phs.len(),
{
    if phs.len() > 0 {
        lemma_one_copy_per_load_header(phs.drop_last(), elf_start);
        reveal(Seq::filter);
        assert(pt_load_headers(phs) == if phs.last().0 == 1u32 {
            pt_load_headers(phs.drop_last()).push(phs.last())
        } else {
            pt_load_headers(phs.drop_last())
        });
    }
}

/// Whether every loadable header can be sized and placed without overflow: its page
/// count forms `mem_size + PAGE_SIZE` (see `pages_for`), and its place in the image is
/// `elf_start + offset`.
pub open spec fn loads_fit(phs: Seq<(u32, u64, u64, u64, u64)>, elf_start: u64) -> bool {
    forall|i: int|
        0 <= i < phs.len() && (#[trigger] phs[i]).0 == SEGMENT_LOAD ==> phs[i].4 + PAGE_SIZE
            <= usize::MAX && elf_start + phs[i].1 <= u64::MAX
}

pub fn plan_segment_copies(phs: &[(u32, u64, u64, u64, u64)], elf_start: u64) -> (r: Vec<SegmentCopy>)
    requires
        loads_fit(phs@, elf_start),
    ensures
        r@ == load_copies(phs@, elf_start),
{
    let mut out: Vec<SegmentCopy> = Vec::new();
    let mut i: usize = 0;
    while i < phs.len()
        invariant
            i <= phs@.len(),
            loads_fit(phs@, elf_start),
            out@ == load_copies(phs@.subrange(0, i as int), elf_start),
        decreases phs@.len() - i,
    {
        let ph = phs[i];
        assert(phs@.subrange(0, i + 1).drop_last() =~= phs@.subrange(0, i as int));
        assert(phs@.subrange(0, i + 1).last() == ph);
        if ph.0 == SEGMENT_LOAD {
            assert(phs@[i as int].0 == SEGMENT_LOAD);
            out.push(
                SegmentCopy {
                    load_addr: ph.2,
                    pages: pages_for(ph.4),
                    image_offset: elf_start + ph.1,
                    len: ph.3,
                },
            );
        }
        i = i + 1;
    }
    assert(phs@.subrange(0, phs@.len() as int) =~= phs@);
    out
}

pub fn loads_fit_check(phs: &[(u32, u64, u64, u64, u64)], elf_start: u64) -> (r: bool)
    ensures
        r == loads_fit(phs@, elf_start),
{
    let mut i: usize = 0;
    while i < phs.len()
        invariant
            i <= phs@.len(),
            forall|j: int|
                0 <= j < i && (#[trigger] phs@[j]).0 == SEGMENT_LOAD ==> phs@[j].4 + PAGE_SIZE
                    <= usize::MAX && elf_start + phs@[j].1 <= u64::MAX,
        decreases phs@.len() - i,
    {
        let ph = phs[i];
        if ph.0 == SEGMENT_LOAD {
            if ph.4 > (usize::MAX - PAGE_SIZE) as u64 || ph.1 > u64::MAX - elf_start {
                return false;
            }
        }
        i = i + 1;
    }
    true
}

/// What loading an ELF kernel from the boot image comes to.
#[derive(Debug)]
pub enum ElfBootPlan {
    /// The ELF reader refused the image.
    Rejected,
    /// The image has no segment table.
    NoSegmentTable,
    /// A loadable segment is too large to size in pages or lies beyond the address space.
    Oversized,
    /// Copy these segments, in order.
    Load(Vec<SegmentCopy>),
}

/// Plans the load of the ELF kernel that starts at `stub_end` in the boot image.
pub fn plan_elf_boot(image: &[u8], stub_end: u64) -> (r: ElfBootPlan)
    requires
        stub_end <= image@.len(),
    ensures
        ({
            let elf = image@.subrange(stub_end as int, image@.len() as int);
            match elf_segment_table(elf) {
                None => r is Rejected,
                Some(None) => r is NoSegmentTable,
                Some(Some(phs)) => if loads_fit(phs, stub_end) {
                    r matches ElfBootPlan::Load(v) && v@ == load_copies(phs, stub_end)
                } else {
                    r is Oversized
                },
            }
        }),
{
    let elf = vstd::slice::slice_subrange(image, stub_end as usize, image.len());
    match read_segment_table(elf) {
        None => ElfBootPlan::Rejected,
        Some(None) => ElfBootPlan::NoSegmentTable,
        Some(Some(phs)) => {
            if loads_fit_check(phs.as_slice(), stub_end) {
                ElfBootPlan::Load(plan_segment_copies(phs.as_slice(), stub_end))
            } else {
                ElfBootPlan::Oversized
            }
        },
    }
}

/// The copy that loads a flat kernel: `kernel_size` bytes that follow a header of
/// `header_size` bytes, to pages allocated anywhere.
#[derive(Clone, Copy, Debug)]
pub struct FlatLoad {
    pub pages: usize,
    pub image_offset: u64,
    pub len: u64,
}

pub fn plan_flat_boot(kernel_size: u64, header_size: u16) -> (r: FlatLoad)
    requires
        kernel_size + (PAGE_SIZE - 1) <= usize::MAX,
    ensures
        r.pages == (kernel_size + PAGE_SIZE - 1) / PAGE_SIZE as int,
        r.image_offset == header_size,
        r.len == kernel_size,
{
    let size = kernel_size as usize;
    assert(size == kernel_size);
    let pages = (size + (PAGE_SIZE - 1)) / PAGE_SIZE;
    FlatLoad { pages, image_offset: header_size as u64, len: kernel_size }
}

} // verus!
