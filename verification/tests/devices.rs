use eisen::allocator::Allocator;
use eisen::config::{Config, LOGLEVEL_NORMAL};
use eisen::debug::DebugWriter;
use eisen::font::{Font, FontBuilder};
use eisen::graphics::{select_mode, try_select_mode, BootInfo, GraphicsInfo, ModeInfo, PixelBitmask, MMAP_CAPACITY};
use eisen::idt::{entry_options, external_interrupt_vectors, PrivilegeLevel, EXTERNAL_ENTRY_ATTRS};
use eisen::kdata::{kargs, KARGS_SIZE};
use eisen::paging::MemoryDescriptor;
use eisen::pic::{disable_sequence, enable_sequence, eoi_port, irq_line_of_vector, irq_line_port, masked, remap_sequence, unmasked};
use eisen::ports::{Port, PortNumber};
use eisen::psf2::{PSF2Header, PSF2};
use eisen::sysinfo::{PixelFormat, SysGraphicsInfo, SysInfo, SysMemInfo};

#[test]
fn port_numbers() {
    assert_eq!(Port::PIC1Command.as_u16(), 0x20);
    assert_eq!(Port::PIC1Data.as_u16(), 0x21);
    assert_eq!(Port::PIC2Command.as_u16(), 0xA0);
    assert_eq!(Port::PIC2Data.as_u16(), 0xA1);
    assert_eq!(Port::DebugOut.as_u16(), 0xE9);
    assert_eq!(0x80u16.as_u16(), 0x80);
}

#[test]
fn irq_lines_map_to_controllers() {
    assert_eq!(irq_line_port(3), (Port::PIC1Data, 3));
    assert_eq!(irq_line_port(8), (Port::PIC2Data, 0));
    assert_eq!(irq_line_port(15), (Port::PIC2Data, 7));
}

#[test]
fn mask_and_unmask() {
    assert_eq!(masked(0b0000_0001, 3), 0b0000_1001);
    assert_eq!(masked(0, 12), 0b0001_0000);
    assert_eq!(unmasked(0xFF, 9), 0b1111_1101);
    assert_eq!(unmasked(masked(0x40, 5), 5), 0x40);
    assert_eq!(masked(unmasked(0x60, 5), 5), 0x60);
    assert_eq!(masked(masked(0x01, 0), 0), 0x01);
}

#[test]
fn pic_sequences() {
    assert_eq!(
        remap_sequence(0x20, 0x28),
        vec![
            (Port::PIC1Command, 0x11),
            (Port::PIC2Command, 0x11),
            (Port::PIC1Data, 0x20),
            (Port::PIC2Data, 0x28),
            (Port::PIC1Data, 0x04),
            (Port::PIC2Data, 0x02),
            (Port::PIC1Data, 0x01),
            (Port::PIC2Data, 0x01),
            (Port::PIC1Data, 0x00),
            (Port::PIC2Data, 0x00),
        ]
    );
    assert_eq!(enable_sequence(), vec![(Port::PIC1Data, 0), (Port::PIC2Data, 0)]);
    assert_eq!(disable_sequence(), vec![(Port::PIC1Data, 0xFF), (Port::PIC2Data, 0xFF)]);
    assert_eq!(eoi_port(7), Port::PIC1Command);
    assert_eq!(eoi_port(8), Port::PIC2Command);
    assert_eq!(irq_line_of_vector(0x21), 1);
    assert_eq!(irq_line_of_vector(0x20 + 0x1FF), 0xFF);
}

#[test]
fn idt_entries() {
    let opts = entry_options(EXTERNAL_ENTRY_ATTRS);
    assert!(opts.present);
    assert_eq!(opts.privilege_level, PrivilegeLevel::Ring2);
    let opts = entry_options(0x6C);
    assert!(!opts.present);
    assert_eq!(opts.privilege_level, PrivilegeLevel::Ring0);
    assert_eq!(entry_options(0x01).privilege_level, PrivilegeLevel::Ring1);
    assert_eq!(entry_options(0x03).privilege_level, PrivilegeLevel::Ring3);
    let ext = external_interrupt_vectors();
    assert_eq!(ext.first(), Some(&32));
    assert_eq!(ext.last(), Some(&255));
    assert_eq!(ext.len(), 224);
}

fn mode(h: u32, v: u32, format: PixelFormat) -> ModeInfo {
    let bitmask = if format == PixelFormat::Bitmask {
        Some(PixelBitmask { red: 0xFF0000, green: 0xFF00, blue: 0xFF, reserved: 0 })
    } else {
        None
    };
    ModeInfo { res_h: h, res_v: v, format, bitmask }
}

#[test]
fn mode_selection() {
    let modes = [
        mode(640, 480, PixelFormat::BlueGreenRed),
        mode(1024, 768, PixelFormat::Bitmask),
        mode(800, 1280, PixelFormat::RedGreenBlue),
        mode(8000, 4000, PixelFormat::RedGreenBlue),
        mode(1920, 1080, PixelFormat::BlueGreenRed),
    ];
    let c = select_mode(&modes);
    assert_eq!((c.mode, c.res_h, c.res_v), (4, 1920, 1080));
    assert_eq!(c.format, PixelFormat::BlueGreenRed);
    assert_eq!(c.bitmask.red, 0xFF0000);
    let none = select_mode(&[]);
    assert_eq!((none.mode, none.res_h, none.res_v), (0, 1, 1));
    let info = GraphicsInfo::from_choice(&c, 0x8000_0000, 1920 * 1080 * 4);
    assert_eq!(info.res_h, 1920);
    assert_eq!(info.base, 0x8000_0000);
}

#[test]
fn mode_selection_refuses_only_a_chosen_bitmask_mode_without_bitmask() {
    let mut bare = mode(1024, 768, PixelFormat::Bitmask);
    bare.bitmask = None;
    // Displaced by nothing before it: chosen, and its bitmask is missing.
    assert!(try_select_mode(&[mode(640, 480, PixelFormat::RedGreenBlue), bare]).is_none());
    // Smaller than the mode before it: never chosen, so its missing bitmask is not read.
    let mut small = mode(320, 200, PixelFormat::Bitmask);
    small.bitmask = None;
    let c = try_select_mode(&[mode(640, 480, PixelFormat::RedGreenBlue), small]).expect("a choice");
    assert_eq!((c.mode, c.res_h, c.res_v), (0, 640, 480));
    let modes = [mode(640, 480, PixelFormat::BlueGreenRed), mode(1024, 768, PixelFormat::Bitmask)];
    assert_eq!(try_select_mode(&modes), Some(select_mode(&modes)));
}

#[test]
fn handoff_holds_at_most_256_entries() {
    let g = GraphicsInfo::from_choice(&select_mode(&[]), 0, 0);
    let d = MemoryDescriptor { ty: 7, phys_start: 0, virt_start: 0, page_count: 1, att: 0 };
    assert!(BootInfo::new(g, vec![d; MMAP_CAPACITY], 0x1000).is_some());
    assert!(BootInfo::new(g, vec![d; MMAP_CAPACITY + 1], 0x1000).is_none());
}

fn psf2_font() -> Vec<u8> {
    let mut data = vec![0u8; 32];
    data[0..4].copy_from_slice(&[0x72, 0xB5, 0x4A, 0x86]);
    let fields: [u32; 7] = [0, 32, 0, 128, 16, 16, 8];
    for (i, f) in fields.iter().enumerate() {
        data[4 + 4 * i..8 + 4 * i].copy_from_slice(&f.to_le_bytes());
    }
    for g in 0..128u32 {
        data.extend(std::iter::repeat(g as u8).take(16));
    }
    data
}

#[test]
fn psf2_header_and_glyphs() {
    let data = psf2_font();
    let header = PSF2Header::read(&data);
    assert!(header.validate());
    assert!(!header.supports_unicode());
    assert_eq!(header.glyph_count, 128);
    let mut psf = PSF2::default();
    assert_eq!(psf.length(), 0);
    assert!(psf.init(&data).is_ok());
    assert_eq!(psf.dimensions(), (8, 16));
    assert_eq!(psf.length(), 128);
    let g = psf.get_glyph(&data, 'A').expect("glyph for A");
    assert_eq!(g.0, &[65u8; 16][..]);
    assert!(psf.get_glyph(&data, 'é').is_none());
    let mut bad = data.clone();
    bad[0] = 0;
    assert!(!PSF2Header::read(&bad).validate());
}

#[test]
fn psf2_glyph_past_the_end_is_absent() {
    let mut data = psf2_font();
    data[16..20].copy_from_slice(&65u32.to_le_bytes());
    data[12..16].copy_from_slice(&1u32.to_le_bytes());
    let mut psf = PSF2::default();
    psf.init(&data).unwrap();
    assert!(psf.get_glyph(&data, 'A').is_none());
    assert!(psf.get_glyph(&data, '@').is_some());
    assert!(psf.get_glyph(&data, 'é').is_none());
}

#[test]
fn font_takes_glyph_size() {
    let data = psf2_font();
    let mut psf = PSF2::default();
    let font = Font::parse(&data, &mut psf).expect("font");
    assert_eq!(font.width, 8);
    assert_eq!(font.height, 16);
    assert_eq!(font.values.len(), 0);
}

#[test]
fn allocator_starts_empty() {
    let _a = Allocator::new();
}

#[test]
fn kargs_reads_the_area() {
    let mut area = [0u8; KARGS_SIZE];
    area[..9].copy_from_slice(b"quiet a=1");
    let text = kargs(&area);
    assert!(text.starts_with("quiet a=1"));
    assert_eq!(text.len(), KARGS_SIZE);
    assert_eq!(text.trim_end_matches('\0'), "quiet a=1");
}

#[test]
fn debug_bytes() {
    let w = DebugWriter;
    assert_eq!(w.char_byte('A'), 0x41);
    assert_eq!(w.char_byte('é'), 0xE9);
    assert_eq!(w.char_byte('\u{263A}'), 0x3A);
    assert_eq!(w.str_bytes("hé!"), vec![b'h', 0xE9, b'!']);
}

#[test]
fn config_defaults() {
    let d = Config::default_config();
    assert_eq!(d.cmdline, "");
    assert_eq!(d.loglevel, LOGLEVEL_NORMAL);
    let c = Config::parsed_or_default(Some(Config { cmdline: String::from("root=/"), loglevel: 3 }));
    assert_eq!(c.cmdline, "root=/");
    assert_eq!(c.loglevel, 3);
    assert_eq!(Config::parsed_or_default(None).cmdline, "");
    assert!(c.cmdline_fits());
    let long = Config { cmdline: "x".repeat(KARGS_SIZE + 1), loglevel: 0 };
    assert!(!long.cmdline_fits());
    let exact = Config { cmdline: "é".repeat(KARGS_SIZE / 2), loglevel: 0 };
    assert!(exact.cmdline_fits());
}

#[test]
fn sysinfo_defaults() {
    let s = SysInfo::new();
    assert_eq!(s.acpi_addr, 0);
    assert_eq!(s.graphicsinfo.pixel_info, 3);
    assert_eq!(PixelFormat::BltOnly.code(), 3);
    assert_eq!(PixelFormat::Bitmask.code(), 2);
    let g = SysGraphicsInfo::new();
    assert_eq!(g.resolution, (0, 0));
    let m = SysMemInfo::new();
    assert_eq!(m.map_size, 0);
}
