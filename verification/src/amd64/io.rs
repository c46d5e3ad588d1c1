//! The 16550-compatible serial port on amd64: the port accesses that set it
//! up and the line-status bits that gate reads and writes.
use vstd::prelude::*;

verus! {

/// The I/O base port of COM1.
pub const COM1_PORT: u16 = 0x3F8;

/// A byte-wide access to an I/O port.
#[derive(Debug, Copy, Clone, PartialEq, Eq, Structural)]
pub enum PortAccess {
    /// Write `value` to `port`.
    Write { port: u16, value: u8 },
    /// Read `port` and discard the value.
    Read { port: u16 },
}

/// A 16550 UART at an I/O base port.
#[derive(Debug, Copy, Clone, PartialEq, Eq, Structural)]
pub struct SerialPort {
    pub base_port: u16,
}

/// The accesses that set up a UART at `base`: interrupts off, the divisor
/// latch opened to set 38400 baud (divisor 3), 8 data bits, no parity, one
/// stop bit, the FIFOs enabled and cleared with a 14-byte threshold, DTR,
/// RTS and OUT2 raised, and the line status read to clear pending errors.
pub open spec fn init_accesses(base: u16) -> Seq<PortAccess> {
    seq![
        PortAccess::Write { port: (base + 1) as u16, value: 0x00 },
        PortAccess::Write { port: (base + 3) as u16, value: 0x80 },
        PortAccess::Write { port: base, value: 0x03 },
        PortAccess::Write { port: (base + 1) as u16, value: 0x00 },
        PortAccess::Write { port: (base + 3) as u16, value: 0x03 },
        PortAccess::Write { port: (base + 2) as u16, value: 0xC7 },
        PortAccess::Write { port: (base + 4) as u16, value: 0x0B },
        PortAccess::Read { port: (base + 5) as u16 },
    ]
}

impl SerialPort {
    /// The UART at I/O base `base_port`.
    pub fn new(base_port: u16) -> (r: Self)
        ensures
            r.base_port == base_port,
    {
        SerialPort { base_port }
    }

    /// The port accesses that set the UART up, in order.
    pub fn init(&self) -> (r: Vec<PortAccess>)
        requires
            self.base_port + 5 <= u16::MAX,
        ensures
            r@ == init_accesses(self.base_port),
    {
        let port = self.base_port;
        let mut v: Vec<PortAccess> = Vec::new();
        v.push(PortAccess::Write { port: port + 1, value: 0x00 });
        v.push(PortAccess::Write { port: port + 3, value: 0x80 });
        v.push(PortAccess::Write { port: port + 0, value: 0x03 });
        v.push(PortAccess::Write { port: port + 1, value: 0x00 });
        v.push(PortAccess::Write { port: port + 3, value: 0x03 });
        v.push(PortAccess::Write { port: port + 2, value: 0xC7 });
        v.push(PortAccess::Write { port: port + 4, value: 0x0B });
        v.push(PortAccess::Read { port: port + 5 });
        assert(v@ =~= init_accesses(self.base_port));
        v
    }

    /// The data register (read and transmit).
    pub fn data_port(&self) -> (r: u16)
        ensures
            r == self.base_port,
    {
        self.base_port
    }

    /// The line-status register.
    pub fn line_status_port(&self) -> (r: u16)
        requires
            self.base_port + 5 <= u16::MAX,
        ensures
            r == self.base_port + 5,
    {
        self.base_port + 5
    }

    /// Whether the line status `lsr` says the transmit holding register is
    /// empty (bit 5).
    pub fn is_transmit_empty(&self, lsr: u8) -> (r: bool)
        ensures
            r == (lsr & 0x20 != 0),
    {
        lsr & 0x20 != 0
    }

    /// Whether the line status `lsr` says a received byte is waiting
    /// (bit 0).
    pub fn is_data_available(&self, lsr: u8) -> (r: bool)
        ensures
            r == (lsr & 0x01 != 0),
    {
        lsr & 0x01 != 0
    }
}

} // verus!
