//! I/O ports and the values written to them.
use vstd::prelude::*;

verus! {

/// One byte written to one I/O port.
#[derive(Clone, Copy, Debug, PartialEq, Eq, Structural)]
pub struct PortWrite {
    pub port: u16,
    pub value: u8,
}

/// An I/O port, known by its address.
#[derive(Clone, Copy, Debug, PartialEq, Eq, Structural)]
pub struct Port {
    address: u16,
}

impl View for Port {
    type V = u16;

    closed spec fn view(&self) -> u16 {
        self.address
    }
}

impl Port {
    pub fn new(address: u16) -> (result: Port)
        ensures
            result@ == address,
    {
        Port { address }
    }

    pub fn address(&self) -> (result: u16)
        ensures
            result == self@,
    {
        self.address
    }

    /// The write of `value` to this port.
    pub fn write(&self, value: u8) -> (result: PortWrite)
        ensures
            result == (PortWrite { port: self@, value }),
    {
        PortWrite { port: self.address, value }
    }

    /// The write of `value` to the port `offset` places after this one.
    pub fn write_offset(&self, offset: u8, value: u8) -> (result: PortWrite)
        requires
            self@ + offset <= u16::MAX,
        ensures
            result == (PortWrite { port: (self@ + offset) as u16, value }),
    {
        PortWrite { port: self.address + offset as u16, value }
    }

    /// The address of the port `offset` places after this one, to read from.
    pub fn read_offset(&self, offset: u8) -> (result: u16)
        requires
            self@ + offset <= u16::MAX,
        ensures
            result == self@ + offset,
    {
        self.address + offset as u16
    }
}

} // verus!
