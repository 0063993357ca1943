//! The programming of the two cascaded 8259 interrupt controllers: which port and which
//! bit an IRQ line has, and the byte sequences that remap, enable and disable them.
use vstd::prelude::*;
use crate::ports::Port;

verus! {

/// The end-of-interrupt command.
pub const PIC_EOI: u8 = 0x20;

/// First interrupt vector of the remapped IRQs.
pub const IRQ_VECTOR_BASE: u64 = 0x20;

/// The data port and mask bit of an IRQ line: lines 0-7 on the first controller, 8-15 on
/// the second.
pub open spec fn line_port(line: u8) -> Port {
    if line < 8 {
        Port::PIC1Data
    } else {
        Port::PIC2Data
    }
}

pub open spec fn line_bit(line: u8) -> u8 {
    if line < 8 {
        line
    } else {
        (line - 8) as u8
    }
}

pub fn irq_line_port(line: u8) -> (r: (Port, u8))
    requires
        line < 16,
    ensures
        r.0 == line_port(line),
        r.1 == line_bit(line),
        r.1 < 8,
{
    if line < 8 {
        (Port::PIC1Data, line)
    } else {
        (Port::PIC2Data, line - 8)
    }
}

/// The mask register value with the line's bit set: the line is masked.
pub fn masked(current: u8, line: u8) -> (r: u8)
    requires
        line < 16,
    ensures
        r == current | (1u8 << line_bit(line)),
{
    let (_, bit) = irq_line_port(line);
    current | (1u8 << bit)
}

/// The mask register value with the line's bit cleared: the line is unmasked.
pub fn unmasked(current: u8, line: u8) -> (r: u8)
    requires
        line < 16,
    ensures
        r == current & !(1u8 << line_bit(line)),
{
    let (_, bit) = irq_line_port(line);
    current & !(1u8 << bit)
}

/// Whether bit `b` of `x` is set.
pub open spec fn bit_set(x: u8, b: u8) -> bool {
    (x >> b) & 1 == 1
}

/// Masking sets the line's bit and leaves the others; unmasking clears it and leaves the
/// others.
pub proof fn lemma_mask_bits(current: u8, line: u8)
    requires
        line < 16,
    ensures
        bit_set(current | (1u8 << line_bit(line)), line_bit(line)),
        !bit_set(current & !(1u8 << line_bit(line)), line_bit(line)),
        forall|b: u8|
            b < 8 && b != line_bit(line) ==> (bit_set(current | (1u8 << line_bit(line)), b)
                == bit_set(current, b) && bit_set(current & !(1u8 << line_bit(line)), b)
                == bit_set(current, b)),
{
    let k = line_bit(line);
    assert(k < 8);
    assert(bit_set(current | (1u8 << k), k)) by (bit_vector)
        requires k < 8;
    assert(!bit_set(current & !(1u8 << k), k)) by (bit_vector)
        requires k < 8;
    assert forall|b: u8| b < 8 && b != k implies (bit_set(current | (1u8 << k), b) == bit_set(
        current,
        b,
    ) && bit_set(current & !(1u8 << k), b) == bit_set(current, b)) by {
        assert(bit_set(current | (1u8 << k), b) == bit_set(current, b)) by (bit_vector)
            requires k < 8, b < 8, b != k;
        assert(bit_set(current & !(1u8 << k), b) == bit_set(current, b)) by (bit_vector)
            requires k < 8, b < 8, b != k;
    }
}

/// Unmasking a line undoes masking it when it was unmasked before, and masking undoes
/// unmasking when it was masked before; each is idempotent.
pub proof fn lemma_mask_unmask_inverse(current: u8, line: u8)
    requires
        line < 16,
    ensures
        !bit_set(current, line_bit(line)) ==> (current | (1u8 << line_bit(line))) & !(1u8
            << line_bit(line)) == current,
        bit_set(current, line_bit(line)) ==> (current & !(1u8 << line_bit(line))) | (1u8
            << line_bit(line)) == current,
        (current | (1u8 << line_bit(line))) | (1u8 << line_bit(line)) == current | (1u8
            << line_bit(line)),
        (current & !(1u8 << line_bit(line))) & !(1u8 << line_bit(line)) == current & !(1u8
            << line_bit(line)),
{
    let k = line_bit(line);
    assert(k < 8);
    assert(!bit_set(current, k) ==> (current | (1u8 << k)) & !(1u8 << k) == current)
        by (bit_vector)
        requires k < 8;
    assert(bit_set(current, k) ==> (current & !(1u8 << k)) | (1u8 << k) == current)
        by (bit_vector)
        requires k < 8;
    assert((current | (1u8 << k)) | (1u8 << k) == current | (1u8 << k)) by (bit_vector);
    assert((current & !(1u8 << k)) & !(1u8 << k) == current & !(1u8 << k)) by (bit_vector);
}

/// The command port that acknowledges an interrupt of the given line: the first
/// controller's for lines 0-7, otherwise the second's.
pub fn eoi_port(line: u8) -> (r: Port)
    ensures
        r == (if line < 8 {
            Port::PIC1Command
        } else {
            Port::PIC2Command
        }),
{
    if line < 8 {
        Port::PIC1Command
    } else {
        Port::PIC2Command
    }
}

/// The IRQ line of a remapped interrupt vector, truncated to a byte.
pub fn irq_line_of_vector(vector: u64) -> (r: u8)
    requires
        vector >= IRQ_VECTOR_BASE,
    ensures
        r == (vector - IRQ_VECTOR_BASE) as u8,
{
    (vector - IRQ_VECTOR_BASE) as u8
}

/// The writes that reinitialise both controllers with the given vector offsets, in the
/// order they are made, each followed by an I/O wait: the init command, the offsets, the
/// cascade wiring (slave on line 2, slave identity 2), 8086 mode, and all lines unmasked.
pub open spec fn remap_writes(pic1_offset: u8, pic2_offset: u8) -> Seq<(Port, u8)> {
    seq![
        (Port::PIC1Command, 0x11u8),
        (Port::PIC2Command, 0x11u8),
        (Port::PIC1Data, pic1_offset),
        (Port::PIC2Data, pic2_offset),
        (Port::PIC1Data, 0x04u8),
        (Port::PIC2Data, 0x02u8),
        (Port::PIC1Data, 0x01u8),
        (Port::PIC2Data, 0x01u8),
        (Port::PIC1Data, 0x00u8),
        (Port::PIC2Data, 0x00u8),
    ]
}

pub fn remap_sequence(pic1_offset: u8, pic2_offset: u8) -> (r: Vec<(Port, u8)>)
    ensures
        r@ == remap_writes(pic1_offset, pic2_offset),
{
    let r = vec![
        (Port::PIC1Command, 0x11u8),
        (Port::PIC2Command, 0x11u8),
        (Port::PIC1Data, pic1_offset),
        (Port::PIC2Data, pic2_offset),
        (Port::PIC1Data, 0x04u8),
        (Port::PIC2Data, 0x02u8),
        (Port::PIC1Data, 0x01u8),
        (Port::PIC2Data, 0x01u8),
        (Port::PIC1Data, 0x00u8),
        (Port::PIC2Data, 0x00u8),
    ];
    assert(r@ =~= remap_writes(pic1_offset, pic2_offset));
    r
}

/// The writes that unmask every line of both controllers.
pub fn enable_sequence() -> (r: Vec<(Port, u8)>)
    ensures
        r@ == seq![(Port::PIC1Data, 0x00u8), (Port::PIC2Data, 0x00u8)],
{
    let r = vec![(Port::PIC1Data, 0x00u8), (Port::PIC2Data, 0x00u8)];
    assert(r@ =~= seq![(Port::PIC1Data, 0x00u8), (Port::PIC2Data, 0x00u8)]);
    r
}

/// The writes that mask every line of both controllers.
pub fn disable_sequence() -> (r: Vec<(Port, u8)>)
    ensures
        r@ == seq![(Port::PIC1Data, 0xFFu8), (Port::PIC2Data, 0xFFu8)],
{
    let r = vec![(Port::PIC1Data, 0xFFu8), (Port::PIC2Data, 0xFFu8)];
    assert(r@ =~= seq![(Port::PIC1Data, 0xFFu8), (Port::PIC2Data, 0xFFu8)]);
    r
}

} // verus!
