//! Verified core of the Eisen boot chain and kernel.
use vstd::prelude::*;

pub mod bytes;
pub mod text;
pub mod integrity;
pub mod header;
pub mod report;
pub mod stub;
pub mod bootinfo;
pub mod legacy_bootinfo;
pub mod elf;
pub mod boot_strategy;
pub mod paging;
pub mod sysinfo;
pub mod graphics;
pub mod ports;
pub mod pic;
pub mod idt;
pub mod font;
pub mod psf2;
pub mod allocator;
pub mod kdata;
pub mod entry;
pub mod debug;
pub mod config;

verus! {
} // verus!
