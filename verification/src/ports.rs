//! The I/O ports the kernel talks to.
use vstd::prelude::*;

verus! {

/// The ports of the two interrupt controllers and the debug console.
#[derive(Clone, Copy, Debug, PartialEq, Eq, Structural)]
pub enum Port {
    PIC1Command,
    PIC1Data,
    PIC2Command,
    PIC2Data,
    DebugOut,
}

pub open spec fn port_number(p: Port) -> u16 {
    match p {
        Port::PIC1Command => 0x0020,
        Port::PIC1Data => 0x0021,
        Port::PIC2Command => 0x00A0,
        Port::PIC2Data => 0x00A1,
        Port::DebugOut => 0x00E9,
    }
}

/// The port written to pause for an I/O cycle.
pub const IO_WAIT_PORT: u16 = 0x80;

/// Anything that names an I/O port.
pub trait PortNumber {
    spec fn number(&self) -> u16;

    fn as_u16(&self) -> (r: u16)
        ensures
            r == self.number(),
    ;
}

impl PortNumber for Port {
    open spec fn number(&self) -> u16 {
        port_number(*self)
    }

    fn as_u16(&self) -> (r: u16) {
        match self {
            Port::PIC1Command => 0x0020,
            Port::PIC1Data => 0x0021,
            Port::PIC2Command => 0x00A0,
            Port::PIC2Data => 0x00A1,
            Port::DebugOut => 0x00E9,
        }
    }
}

impl PortNumber for u16 {
    open spec fn number(&self) -> u16 {
        *self
    }

    fn as_u16(&self) -> (r: u16) {
        *self
    }
}

} // verus!
