//! What the boot driver tells the kernel about the machine: where the ACPI tables, the
//! framebuffer and the memory map are. Addresses are held as integers.
use vstd::prelude::*;

verus! {

/// The layout of a framebuffer pixel.
#[derive(Clone, Copy, Debug, PartialEq, Eq, Structural)]
pub enum PixelFormat {
    RedGreenBlue,
    BlueGreenRed,
    Bitmask,
    BltOnly,
}

/// The number that stands for each pixel format in `SysGraphicsInfo::pixel_info`.
pub open spec fn pixel_format_code(f: PixelFormat) -> u8 {
    match f {
        PixelFormat::RedGreenBlue => 0,
        PixelFormat::BlueGreenRed => 1,
        PixelFormat::Bitmask => 2,
        PixelFormat::BltOnly => 3,
    }
}

impl PixelFormat {
    pub fn code(&self) -> (r: u8)
        ensures
            r == pixel_format_code(*self),
    {
        match self {
            PixelFormat::RedGreenBlue => 0,
            PixelFormat::BlueGreenRed => 1,
            PixelFormat::Bitmask => 2,
            PixelFormat::BltOnly => 3,
        }
    }
}

/// The framebuffer.
#[derive(Clone, Copy, Debug)]
pub struct SysGraphicsInfo {
    pub framebuffer_base: usize,
    pub framebuffer_size: usize,
    pub resolution: (u32, u32),
    pub pixels_per_line: u32,
    /// A `PixelFormat` code.
    pub pixel_info: u8,
}

impl SysGraphicsInfo {
    /// No framebuffer: nothing mapped, and a format that only allows block transfers.
    pub fn new() -> (r: Self)
        ensures
            r.framebuffer_base == 0,
            r.framebuffer_size == 0,
            r.resolution == (0u32, 0u32),
            r.pixels_per_line == 0,
            r.pixel_info == pixel_format_code(PixelFormat::BltOnly),
    {
        SysGraphicsInfo {
            framebuffer_base: 0,
            framebuffer_size: 0,
            resolution: (0, 0),
            pixels_per_line: 0,
            pixel_info: 3,
        }
    }
}

/// The firmware memory map.
#[derive(Clone, Copy, Debug)]
pub struct SysMemInfo {
    pub map_base: usize,
    pub map_size: usize,
}

impl SysMemInfo {
    /// No memory map.
    pub fn new() -> (r: Self)
        ensures
            r.map_base == 0,
            r.map_size == 0,
    {
        SysMemInfo { map_base: 0, map_size: 0 }
    }
}

/// Everything the kernel is told about the machine.
#[derive(Clone, Copy, Debug)]
pub struct SysInfo {
    pub acpi_addr: usize,
    pub acpi_entries: usize,
    pub graphicsinfo: SysGraphicsInfo,
    pub meminfo: SysMemInfo,
}

impl SysInfo {
    /// Nothing known yet.
    pub fn new() -> (r: Self)
        ensures
            r.acpi_addr == 0,
            r.acpi_entries == 0,
            r.graphicsinfo.framebuffer_base == 0,
            r.graphicsinfo.framebuffer_size == 0,
            r.graphicsinfo.resolution == (0u32, 0u32),
            r.graphicsinfo.pixels_per_line == 0,
            r.graphicsinfo.pixel_info == pixel_format_code(PixelFormat::BltOnly),
            r.meminfo.map_base == 0,
            r.meminfo.map_size == 0,
    {
        SysInfo {
            acpi_addr: 0,
            acpi_entries: 0,
            graphicsinfo: SysGraphicsInfo::new(),
            meminfo: SysMemInfo::new(),
        }
    }
}

} // verus!
