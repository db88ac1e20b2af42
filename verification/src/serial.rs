//! The serial port that carries the diagnostic output.
use crate::port::{Port, PortWrite};
use vstd::prelude::*;

verus! {

/// The port of the first serial interface.
pub const COM1_ADDRESS: u16 = 0x3f8;

/// The byte that is sent through the loopback to try the chip.
pub const PROBE: u8 = 0xae;

/// The bit of the line status that says that the chip can take a byte.
pub const TRANSMIT_EMPTY: u8 = 0x20;

/// The serial chip did not give back the byte that was sent to try it.
#[derive(Clone, Copy, Debug, PartialEq, Eq, Structural)]
pub struct SerialIsFaulty;

/// A serial interface, known by its first port.
#[derive(Clone, Copy, Debug, PartialEq, Eq, Structural)]
pub struct SerialPort {
    port: Port,
}

/// The writes that set up the chip at `port` and send the probe through its
/// loopback: interrupts off, the divisor for 38400 baud, 8 bits without
/// parity and one stop bit, the queues on, and loopback mode.
pub open spec fn spec_init_writes(port: u16) -> Seq<PortWrite> {
    seq![
        PortWrite { port: (port + 1) as u16, value: 0x00 },
        PortWrite { port: (port + 3) as u16, value: 0x80 },
        PortWrite { port: port, value: 0x03 },
        PortWrite { port: (port + 1) as u16, value: 0x00 },
        PortWrite { port: (port + 3) as u16, value: 0x03 },
        PortWrite { port: (port + 2) as u16, value: 0xc7 },
        PortWrite { port: (port + 4) as u16, value: 0x0b },
        PortWrite { port: (port + 4) as u16, value: 0x1e },
        PortWrite { port: port, value: PROBE },
    ]
}

/// The bytes of `message` as writes to `port`, one for each character: the
/// low 8 bits of its number.
pub open spec fn spec_string_writes(port: u16, message: Seq<char>) -> Seq<PortWrite> {
    Seq::new(message.len(), |i: int| PortWrite { port, value: message[i] as u8 })
}

impl SerialPort {
    /// The first port of the interface.
    pub closed spec fn spec_port(&self) -> u16 {
        self.port@
    }

    /// The interface has its eight ports.
    pub open spec fn wf(&self) -> bool {
        self.spec_port() + 7 <= u16::MAX
    }

    /// The writes to make, in this order, before the reply of the chip is read
    /// from `port` and handed to `create_and_init`.
    pub fn init_writes(port: u16) -> (result: Vec<PortWrite>)
        requires
            port + 7 <= u16::MAX,
        ensures
            result@ == spec_init_writes(port),
    {
        let base = Port::new(port);
        let mut writes: Vec<PortWrite> = Vec::new();
        writes.push(base.write_offset(1, 0x00));
        writes.push(base.write_offset(3, 0x80));
        writes.push(base.write_offset(0, 0x03));
        writes.push(base.write_offset(1, 0x00));
        writes.push(base.write_offset(3, 0x03));
        writes.push(base.write_offset(2, 0xc7));
        writes.push(base.write_offset(4, 0x0b));
        writes.push(base.write_offset(4, 0x1e));
        writes.push(base.write_offset(0, PROBE));
        assert(writes@ =~= spec_init_writes(port));
        writes
    }

    /// The interface at `port`, if the chip gave the probe back: `reply` is
    /// the byte read from `port` after the writes of `init_writes`. A chip that
    /// gave anything else is faulty.
    pub fn create_and_init(port: u16, reply: u8) -> (result: Result<SerialPort, SerialIsFaulty>)
        requires
            port + 7 <= u16::MAX,
        ensures
            reply == PROBE <==> result is Ok,
            result is Ok ==> result->Ok_0.spec_port() == port && result->Ok_0.wf(),
    {
        let serial = SerialPort { port: Port::new(port) };
        match serial.init(reply) {
            Ok(_) => Ok(serial),
            Err(err) => Err(err),
        }
    }

    fn init(&self, reply: u8) -> (result: Result<(), SerialIsFaulty>)
        ensures
            reply == PROBE <==> result is Ok,
    {
        if reply != PROBE {
            return Err(SerialIsFaulty);
        }
        Ok(())
    }

    /// The write that takes the chip out of loopback into normal operation,
    /// to make once `create_and_init` has accepted the chip.
    pub fn normal_mode(&self) -> (result: PortWrite)
        requires
            self.wf(),
        ensures
            result == (PortWrite { port: (self.spec_port() + 4) as u16, value: 0x0f }),
    {
        self.port.write_offset(4, 0x0f)
    }

    /// The port from which the line status is read.
    pub fn status_port(&self) -> (result: u16)
        requires
            self.wf(),
        ensures
            result == self.spec_port() + 5,
    {
        self.port.read_offset(5)
    }

    /// What the line status `status` says of the transmit buffer: not zero
    /// when the chip can take a byte.
    pub fn is_transmit_empty(status: u8) -> (result: u8)
        ensures
            result == status & TRANSMIT_EMPTY,
    {
        status & TRANSMIT_EMPTY
    }

    /// The write that sends `a`: the low 8 bits of its number.
    pub fn write_char(&self, a: char) -> (result: PortWrite)
        ensures
            result == (PortWrite { port: self.spec_port(), value: a as u8 }),
    {
        self.port.write(a as u8)
    }

    /// The writes that send `message`, character by character.
    pub fn write_string(&self, message: &str) -> (result: Vec<PortWrite>)
        ensures
            result@ == spec_string_writes(self.spec_port(), message@),
    {
        let mut writes: Vec<PortWrite> = Vec::new();
        let count: usize = message.unicode_len();
        let mut index: usize = 0;
        while index < count
            invariant
                index <= count,
                count == message@.len(),
                writes@ == spec_string_writes(self.spec_port(), message@.take(index as int)),
            decreases count - index,
        {
            let letter = message.get_char(index);
            writes.push(self.write_char(letter));
            assert(writes@ =~= spec_string_writes(
                self.spec_port(),
                message@.take(index + 1),
            ));
            index = index + 1;
        }
        assert(message@.take(index as int) =~= message@);
        writes
    }
}

} // verus!
