//! The virtual address map handed to the firmware before the kernel runs: every region
//! identity-mapped, and the memory of the loader and its drivers given back.
use vstd::prelude::*;

verus! {

pub const LOADER_CODE: u32 = 1;
pub const LOADER_DATA: u32 = 2;
pub const BOOT_SERVICES_CODE: u32 = 3;
pub const BOOT_SERVICES_DATA: u32 = 4;
pub const CONVENTIONAL: u32 = 7;

/// Memory type under which the boot driver keeps the kernel mapped meanwhile.
pub const TEMP_MAP_MEMORY_TYPE: u32 = 0xEBBA003C;

/// A firmware memory map entry.
#[derive(Clone, Copy, Debug, PartialEq, Eq, Structural)]
pub struct MemoryDescriptor {
    pub ty: u32,
    pub phys_start: u64,
    pub virt_start: u64,
    pub page_count: u64,
    pub att: u64,
}

/// Whether memory of type `ty` is given back to the kernel: that of the loader, of the
/// boot services, and the I/O memory of the two drivers.
pub open spec fn is_reclaimed(ty: u32, boot_driver_io: u32, fsys_driver_io: u32) -> bool {
    ty == LOADER_CODE || ty == LOADER_DATA || ty == BOOT_SERVICES_CODE || ty == BOOT_SERVICES_DATA
        || ty == boot_driver_io || ty == fsys_driver_io
}

/// An entry identity-mapped, and made conventional memory if reclaimed.
pub open spec fn remapped(d: MemoryDescriptor, boot_driver_io: u32, fsys_driver_io: u32) -> MemoryDescriptor {
    MemoryDescriptor {
        ty: if is_reclaimed(d.ty, boot_driver_io, fsys_driver_io) {
            CONVENTIONAL
        } else {
            d.ty
        },
        virt_start: d.phys_start,
        ..d
    }
}

pub fn reclaimed(ty: u32, boot_driver_io: u32, fsys_driver_io: u32) -> (r: bool)
    ensures
        r == is_reclaimed(ty, boot_driver_io, fsys_driver_io),
        r == (ty == 1 || ty == 2 || ty == 3 || ty == 4 || ty == boot_driver_io || ty
            == fsys_driver_io),
{
    ty == LOADER_CODE || ty == LOADER_DATA || ty == BOOT_SERVICES_CODE || ty == BOOT_SERVICES_DATA
        || ty == boot_driver_io || ty == fsys_driver_io
}

/// Identity-maps every entry of the map and turns the reclaimed ones into conventional
/// memory. `boot_driver_io` and `fsys_driver_io` are the memory types of the two drivers'
/// I/O buffers.
pub fn set_virt_map(mem_map: &mut Vec<MemoryDescriptor>, boot_driver_io: u32, fsys_driver_io: u32)
    ensures
        final(mem_map)@.len() == old(mem_map)@.len(),
        forall|i: int|
            0 <= i < old(mem_map)@.len() ==> final(mem_map)@[i] == remapped(
                old(mem_map)@[i],
                boot_driver_io,
                fsys_driver_io,
            ),
        forall|i: int|
            #![trigger final(mem_map)@[i]]
            0 <= i < old(mem_map)@.len() ==> {
                let o = old(mem_map)@[i];
                let n = final(mem_map)@[i];
                &&& n.virt_start == o.phys_start
                &&& n.phys_start == o.phys_start
                &&& n.page_count == o.page_count
                &&& n.att == o.att
                &&& n.ty == if o.ty == 1 || o.ty == 2 || o.ty == 3 || o.ty == 4 || o.ty
                    == boot_driver_io || o.ty == fsys_driver_io {
                    7
                } else {
                    o.ty
                }
            },
{
    let mut i: usize = 0;
    while i < mem_map.len()
        invariant
            i <= mem_map@.len(),
            mem_map@.len() == old(mem_map)@.len(),
            forall|j: int|
                0 <= j < i ==> mem_map@[j] == remapped(old(mem_map)@[j], boot_driver_io, fsys_driver_io),
            forall|j: int| i <= j < mem_map@.len() ==> mem_map@[j] == old(mem_map)@[j],
        decreases mem_map@.len() - i,
    {
        let mut entry = mem_map[i];
        if reclaimed(entry.ty, boot_driver_io, fsys_driver_io) {
            entry.ty = CONVENTIONAL;
        }
        entry.virt_start = entry.phys_start;
        mem_map.set(i, entry);
        i = i + 1;
    }
}

/// The memory given back to the kernel is exactly that of the loader (types 1 and 2),
/// of the boot services (types 3 and 4) and the I/O memory of the two drivers: it becomes
/// conventional memory (type 7), and every other entry keeps its type. Every entry is
/// identity-mapped over the same physical pages with the same attributes.
pub proof fn lemma_remap_reclaims(d: MemoryDescriptor, boot_driver_io: u32, fsys_driver_io: u32)
    ensures
        ({
            let e = remapped(d, boot_driver_io, fsys_driver_io);
            &&& (d.ty == 1 || d.ty == 2 || d.ty == 3 || d.ty == 4 || d.ty == boot_driver_io
                || d.ty == fsys_driver_io) ==> e.ty == 7
            &&& !(d.ty == 1 || d.ty == 2 || d.ty == 3 || d.ty == 4 || d.ty == boot_driver_io
                || d.ty == fsys_driver_io) ==> e.ty == d.ty
            &&& e.virt_start == d.phys_start
            &&& e.phys_start == d.phys_start
            &&& e.page_count == d.page_count
            &&& e.att == d.att
        }),
{
}

/// Remapping is idempotent: a map already remapped is left as it is.
pub proof fn lemma_remap_idempotent(d: MemoryDescriptor, boot_driver_io: u32, fsys_driver_io: u32)
    ensures
        remapped(remapped(d, boot_driver_io, fsys_driver_io), boot_driver_io, fsys_driver_io)
            == remapped(d, boot_driver_io, fsys_driver_io),
{
}

/// After remapping, an entry is identity-mapped and keeps its physical range and
/// attributes; a reclaimed entry becomes conventional memory, any other keeps its type.
pub proof fn lemma_remap_identity(d: MemoryDescriptor, boot_driver_io: u32, fsys_driver_io: u32)
    ensures
        ({
            let e = remapped(d, boot_driver_io, fsys_driver_io);
            &&& e.virt_start == e.phys_start
            &&& e.phys_start == d.phys_start
            &&& e.page_count == d.page_count
            &&& e.att == d.att
            &&& is_reclaimed(d.ty, boot_driver_io, fsys_driver_io) ==> e.ty == CONVENTIONAL
            &&& !is_reclaimed(d.ty, boot_driver_io, fsys_driver_io) ==> e.ty == d.ty
        }),
{
}

} // verus!
