use eisen::boot_strategy::{loads_fit_check, plan_elf_boot, plan_flat_boot, ElfBootPlan};
use eisen::elf::{
    accepts_kernel_header, first_load_segment, pages_for, parse_program_headers, plan_segment_load,
    program_headers_searchable, program_table_size, segment_type_known, ElfHeader64, ElfIdent,
    ProgramHeader64,
};
use eisen::paging::{set_virt_map, MemoryDescriptor, CONVENTIONAL};

fn elf_header(phnum: u16) -> Vec<u8> {
    let mut h = vec![0u8; 64];
    h[0..4].copy_from_slice(&[0x7F, b'E', b'L', b'F']);
    h[4] = 2;
    h[5] = 1;
    h[6] = 1;
    h[16..18].copy_from_slice(&2u16.to_le_bytes());
    h[18..20].copy_from_slice(&0x3Eu16.to_le_bytes());
    h[20..24].copy_from_slice(&1u32.to_le_bytes());
    h[24..32].copy_from_slice(&0x10_0080u64.to_le_bytes());
    h[32..40].copy_from_slice(&64u64.to_le_bytes());
    h[52..54].copy_from_slice(&64u16.to_le_bytes());
    h[54..56].copy_from_slice(&56u16.to_le_bytes());
    h[56..58].copy_from_slice(&phnum.to_le_bytes());
    h[58..60].copy_from_slice(&64u16.to_le_bytes());
    h
}

fn phdr(p_type: u32, offset: u64, vaddr: u64, filesz: u64, memsz: u64) -> Vec<u8> {
    let mut p = vec![0u8; 56];
    p[0..4].copy_from_slice(&p_type.to_le_bytes());
    p[4..8].copy_from_slice(&5u32.to_le_bytes());
    p[8..16].copy_from_slice(&offset.to_le_bytes());
    p[16..24].copy_from_slice(&vaddr.to_le_bytes());
    p[24..32].copy_from_slice(&(vaddr - 0x1000).to_le_bytes());
    p[32..40].copy_from_slice(&filesz.to_le_bytes());
    p[40..48].copy_from_slice(&memsz.to_le_bytes());
    p[48..56].copy_from_slice(&0x1000u64.to_le_bytes());
    p
}

fn kernel_elf() -> Vec<u8> {
    let mut img = elf_header(2);
    img.extend(phdr(4, 0, 0x2000, 0, 0));
    img.extend(phdr(1, 0x100, 0x10_0000, 0x30, 0x2001));
    img.resize(0x200, 0xCC);
    img
}

#[test]
fn kernel_header_accepted() {
    let img = kernel_elf();
    let ident = ElfIdent::parse(img[0..16].try_into().unwrap());
    let header = ElfHeader64::parse(img[16..64].try_into().unwrap());
    assert_eq!(header.entry_point, 0x10_0080);
    assert_eq!(header.ph_offset, 64);
    assert_eq!(header.ph_count, 2);
    assert!(accepts_kernel_header(&ident, &header));
    assert_eq!(program_table_size(&header), 112);
}

#[test]
fn kernel_header_refused_for_other_kinds() {
    for (at, value) in [(0usize, 0u8), (4, 1), (5, 2), (16, 3), (18, 0x28), (20, 2)] {
        let mut img = kernel_elf();
        img[at] = value;
        let ident = ElfIdent::parse(img[0..16].try_into().unwrap());
        let header = ElfHeader64::parse(img[16..64].try_into().unwrap());
        assert!(!accepts_kernel_header(&ident, &header), "byte {} = {}", at, value);
    }
}

#[test]
fn program_headers_split_and_first_load_found() {
    let img = kernel_elf();
    let mut table = img[64..64 + 112].to_vec();
    table.extend([1, 2, 3]);
    let phdrs: Vec<ProgramHeader64> = parse_program_headers(&table);
    assert_eq!(phdrs.len(), 2);
    assert_eq!(phdrs[0].type_, 4);
    assert_eq!(phdrs[1].offset, 0x100);
    assert_eq!(phdrs[1].physical_addr, 0xF_F000);
    assert!(program_headers_searchable(&phdrs));
    assert_eq!(first_load_segment(&phdrs), Some(1));
    let plan = plan_segment_load(&phdrs[1]);
    assert_eq!(plan.physical_addr, 0xF_F000);
    assert_eq!(plan.pages, 3);
    assert_eq!(plan.file_offset, 0x100);
    assert_eq!(plan.read_len, 3 * 4096);
}

#[test]
fn unknown_segment_type_before_load_is_not_searchable() {
    let mut table = phdr(0x5000_0000, 0, 0x2000, 0, 0);
    table.extend(phdr(1, 0, 0x2000, 0, 0));
    let phdrs = parse_program_headers(&table);
    assert!(!program_headers_searchable(&phdrs));
    assert!(segment_type_known(0x6474_E552));
    assert!(segment_type_known(0x7FFF_FFFF));
    assert!(!segment_type_known(8));
}

#[test]
fn pages_round_up() {
    assert_eq!(pages_for(0), 0);
    assert_eq!(pages_for(1), 1);
    assert_eq!(pages_for(4096), 1);
    assert_eq!(pages_for(4097), 2);
    // The largest size whose `size + PAGE_SIZE` still fits.
    assert_eq!(pages_for(u64::MAX - 4096), (usize::MAX - 4096) / 4096 + 1);
}

#[test]
fn segment_sizes_are_refused_where_the_page_rounding_overflows() {
    let fits = [(1u32, 0u64, 0u64, 0u64, u64::MAX - 4096)];
    assert!(loads_fit_check(&fits, 0x400));
    // `size + PAGE_SIZE` overflows here, before one is taken off.
    let over = [(1u32, 0u64, 0u64, 0u64, u64::MAX - 4095)];
    assert!(!loads_fit_check(&over, 0x400));
    // A segment that is not loadable is never sized.
    let skipped = [(2u32, 0u64, 0u64, 0u64, u64::MAX)];
    assert!(loads_fit_check(&skipped, 0x400));
}

#[test]
fn elf_boot_plans_loadable_segments() {
    let mut image = vec![0xAAu8; 0x400];
    let stub_end = image.len() as u64;
    image.extend(kernel_elf());
    match plan_elf_boot(&image, stub_end) {
        ElfBootPlan::Load(copies) => {
            assert_eq!(copies.len(), 1);
            assert_eq!(copies[0].load_addr, 0x10_0000);
            assert_eq!(copies[0].pages, 3);
            assert_eq!(copies[0].image_offset, 0x400 + 0x100);
            assert_eq!(copies[0].len, 0x30);
        }
        other => panic!("unexpected plan {:?}", other),
    }
}

#[test]
fn elf_boot_rejects_non_elf() {
    let image = vec![0u8; 0x80];
    assert!(matches!(plan_elf_boot(&image, 0), ElfBootPlan::Rejected));
}

#[test]
fn flat_boot_plan() {
    let plan = plan_flat_boot(10_000, 0x400);
    assert_eq!(plan.pages, 3);
    assert_eq!(plan.image_offset, 0x400);
    assert_eq!(plan.len, 10_000);
}

#[test]
fn virt_map_identity_and_reclaim() {
    let d = |ty: u32, phys: u64| MemoryDescriptor { ty, phys_start: phys, virt_start: 0xDEAD, page_count: 4, att: 0xF };
    let mut map = vec![d(1, 0x1000), d(5, 0x2000), d(4, 0x3000), d(0x8000_0001, 0x4000), d(0x8000_0002, 0x5000), d(0x8000_0003, 0x6000)];
    set_virt_map(&mut map, 0x8000_0001, 0x8000_0002);
    let types: Vec<u32> = map.iter().map(|e| e.ty).collect();
    assert_eq!(types, vec![CONVENTIONAL, 5, CONVENTIONAL, CONVENTIONAL, CONVENTIONAL, 0x8000_0003]);
    assert!(map.iter().all(|e| e.virt_start == e.phys_start && e.page_count == 4 && e.att == 0xF));
    let once = map.clone();
    set_virt_map(&mut map, 0x8000_0001, 0x8000_0002);
    assert_eq!(map, once);
}
