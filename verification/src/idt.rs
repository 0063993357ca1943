//! The external interrupt vectors that receive a handler, and the entry options that an
//! attribute value selects.
use vstd::prelude::*;

verus! {

/// A CPU privilege ring.
#[derive(Clone, Copy, Debug, PartialEq, Eq, Structural)]
pub enum PrivilegeLevel {
    Ring0,
    Ring1,
    Ring2,
    Ring3,
}

pub open spec fn ring_of(n: u8) -> PrivilegeLevel {
    if n == 0 {
        PrivilegeLevel::Ring0
    } else if n == 1 {
        PrivilegeLevel::Ring1
    } else if n == 2 {
        PrivilegeLevel::Ring2
    } else {
        PrivilegeLevel::Ring3
    }
}

/// The options set on a gate.
#[derive(Clone, Copy, Debug, PartialEq, Eq, Structural)]
pub struct EntryOptions {
    pub present: bool,
    pub privilege_level: PrivilegeLevel,
}

/// Attribute byte of the entries of external interrupts: present, ring 0, interrupt gate type.
pub const EXTERNAL_ENTRY_ATTRS: u8 = 0x8E;

/// The entry options of an attrs byte: present when bit 7 is set. The privilege level
/// is `attrs & 0x60 >> 5`; as `>>` binds tighter than `&`, that is `attrs & 3`, the two
/// low bits.
pub fn entry_options(attrs: u8) -> (r: EntryOptions)
    ensures
        r.present == (attrs & 0x80 != 0),
        r.privilege_level == ring_of(attrs & 0x03),
{
    let level = match attrs & 0x60 >> 5 {
        0 => PrivilegeLevel::Ring0,
        1 => PrivilegeLevel::Ring1,
        2 => PrivilegeLevel::Ring2,
        _ => PrivilegeLevel::Ring3,
    };
    assert(0x60u8 >> 5u8 == 3u8) by (bit_vector);
    assert(attrs & 0x03 <= 3) by (bit_vector);
    EntryOptions { present: attrs & 0x80 != 0, privilege_level: level }
}

/// The external interrupt vectors, 32 to 255, in order.
pub fn external_interrupt_vectors() -> (r: Vec<u8>)
    ensures
        r@.len() == 224,
        forall|i: int| 0 <= i < 224 ==> r@[i] == 32 + i,
{
    let mut r: Vec<u8> = Vec::new();
    let mut v: u16 = 32;
    while v <= 255
        invariant
            32 <= v <= 256,
            r@.len() == v - 32,
            forall|i: int| 0 <= i < r@.len() ==> r@[i] == 32 + i,
        decreases 256 - v,
    {
        r.push(v as u8);
        v = v + 1;
    }
    r
}

} // verus!
