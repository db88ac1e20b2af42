//! The pair of chained 8259 interrupt controllers.
use crate::interrupts::table::InterruptType;
use crate::port::{Port, PortWrite};
use vstd::prelude::*;

verus! {

/// Command sent to begin the initialization of a controller.
pub const CMD_INIT: u8 = 0x11;

/// Command sent to acknowledge an interrupt.
pub const CMD_END_OF_INTERRUPT: u8 = 0x20;

/// The mode in which the controllers run.
pub const MODE_8086: u8 = 0x01;

pub const PIC1_ADDRESS: u16 = 0x20;

pub const PIC2_ADDRESS: u16 = 0xa0;

/// Port that nothing listens on; a write to it gives old hardware time to
/// settle.
pub const WAIT_PORT: u16 = 0x80;

/// First vector of the first controller.
pub const PIC_1_OFFSET: u8 = 32;

/// First vector of the second controller.
pub const PIC_2_OFFSET: u8 = 40;

/// What the first controller is told of the chain: the second one hangs on
/// its line 2.
pub const CHAIN_MASTER: u8 = 4;

/// What the second controller is told of the chain: its cascade identity.
pub const CHAIN_SLAVE: u8 = 2;

/// One controller: its command port, its data port, and the vector of its
/// first line.
struct PIC {
    interrupt_offset: u8,
    command: Port,
    data: Port,
}

impl PIC {
    fn new(offset: u8, address: u16) -> (result: PIC)
        requires
            address < u16::MAX,
        ensures
            result.interrupt_offset == offset,
            result.command@ == address,
            result.data@ == address + 1,
    {
        PIC { interrupt_offset: offset, command: Port::new(address), data: Port::new(address + 1) }
    }

    fn send_end_of_interrupt(&self) -> (result: PortWrite)
        ensures
            result == (PortWrite { port: self.command@, value: CMD_END_OF_INTERRUPT }),
    {
        self.command.write(CMD_END_OF_INTERRUPT)
    }
}

/// The two controllers of a PC: the first at ports 0x20 and 0x21, the second,
/// chained to line 2 of the first, at 0xa0 and 0xa1.
#[allow(non_camel_case_types)]
pub struct x86PIC {
    pic1: PIC,
    pic2: PIC,
}

/// The write that gives old hardware time to settle.
pub open spec fn spec_wait() -> PortWrite {
    PortWrite { port: WAIT_PORT, value: 0 }
}

/// The writes that remap the two controllers to the vectors from `offset1` and
/// from `offset2` and then restore the masks `mask1` and `mask2`: the
/// initialization command to both, the vector offsets, the chaining bytes, the
/// mode, and the masks, with a wait after each byte but the masks.
pub open spec fn spec_init_sequence(offset1: u8, offset2: u8, mask1: u8, mask2: u8) -> Seq<
    PortWrite,
> {
    seq![
        PortWrite { port: 0x20, value: CMD_INIT },
        spec_wait(),
        PortWrite { port: 0xa0, value: CMD_INIT },
        spec_wait(),
        PortWrite { port: 0x21, value: offset1 },
        spec_wait(),
        PortWrite { port: 0xa1, value: offset2 },
        spec_wait(),
        PortWrite { port: 0x21, value: CHAIN_MASTER },
        spec_wait(),
        PortWrite { port: 0xa1, value: CHAIN_SLAVE },
        spec_wait(),
        PortWrite { port: 0x21, value: MODE_8086 },
        spec_wait(),
        PortWrite { port: 0xa1, value: MODE_8086 },
        spec_wait(),
        PortWrite { port: 0x21, value: mask1 },
        PortWrite { port: 0xa1, value: mask2 },
    ]
}

/// The writes that acknowledge the interrupt of `line`: none for a line that
/// the controllers do not have; for a line of the second controller (8 to 15)
/// one to the second and then one to the first; else one to the first.
pub open spec fn spec_end_of_interrupt(line: int) -> Seq<PortWrite> {
    if line > 15 {
        seq![]
    } else if line > 7 {
        seq![
            PortWrite { port: PIC2_ADDRESS, value: CMD_END_OF_INTERRUPT },
            PortWrite { port: PIC1_ADDRESS, value: CMD_END_OF_INTERRUPT },
        ]
    } else {
        seq![PortWrite { port: PIC1_ADDRESS, value: CMD_END_OF_INTERRUPT }]
    }
}

/// An interrupt that came over the second controller is acknowledged to the
/// second controller first and to the first controller after it, and to
/// nothing else.
pub proof fn lemma_slave_acknowledged_before_master(line: int)
    requires
        8 <= line <= 15,
    ensures
        spec_end_of_interrupt(line).len() == 2,
        spec_end_of_interrupt(line)[0] == (PortWrite {
            port: PIC2_ADDRESS,
            value: CMD_END_OF_INTERRUPT,
        }),
        spec_end_of_interrupt(line)[1] == (PortWrite {
            port: PIC1_ADDRESS,
            value: CMD_END_OF_INTERRUPT,
        }),
{
}

impl x86PIC {
    /// The vector of the first line of the first controller.
    pub closed spec fn spec_offset1(&self) -> u8 {
        self.pic1.interrupt_offset
    }

    /// The vector of the first line of the second controller.
    pub closed spec fn spec_offset2(&self) -> u8 {
        self.pic2.interrupt_offset
    }

    /// Both controllers are bound to the ports of a PC.
    pub closed spec fn wf(&self) -> bool {
        &&& self.pic1.command@ == PIC1_ADDRESS
        &&& self.pic1.data@ == PIC1_ADDRESS + 1
        &&& self.pic2.command@ == PIC2_ADDRESS
        &&& self.pic2.data@ == PIC2_ADDRESS + 1
    }

    pub fn new(interrupt_offset_pic1: u8, interrupt_offset_pic2: u8) -> (result: x86PIC)
        ensures
            result.wf(),
            result.spec_offset1() == interrupt_offset_pic1,
            result.spec_offset2() == interrupt_offset_pic2,
    {
        x86PIC {
            pic1: PIC::new(interrupt_offset_pic1, PIC1_ADDRESS),
            pic2: PIC::new(interrupt_offset_pic2, PIC2_ADDRESS),
        }
    }

    /// The data ports of the first and of the second controller, from which the
    /// masks are read before `init`.
    pub fn mask_ports(&self) -> (result: (u16, u16))
        requires
            self.wf(),
        ensures
            result == (0x21u16, 0xa1u16),
    {
        (self.pic1.data.address(), self.pic2.data.address())
    }

    /// The writes that remap both controllers, in the order in which they must
    /// be made. `saved_mask1` and `saved_mask2` are the masks read from the data
    /// ports beforehand; the last two writes restore them.
    pub fn init(&self, saved_mask1: u8, saved_mask2: u8) -> (result: Vec<PortWrite>)
        requires
            self.wf(),
        ensures
            result@ == spec_init_sequence(
                self.spec_offset1(),
                self.spec_offset2(),
                saved_mask1,
                saved_mask2,
            ),
    {
        let wait_port = Port::new(WAIT_PORT);
        let mut writes: Vec<PortWrite> = Vec::new();
        writes.push(self.pic1.command.write(CMD_INIT));
        writes.push(wait_port.write(0));
        writes.push(self.pic2.command.write(CMD_INIT));
        writes.push(wait_port.write(0));
        writes.push(self.pic1.data.write(self.pic1.interrupt_offset));
        writes.push(wait_port.write(0));
        writes.push(self.pic2.data.write(self.pic2.interrupt_offset));
        writes.push(wait_port.write(0));
        writes.push(self.pic1.data.write(CHAIN_MASTER));
        writes.push(wait_port.write(0));
        writes.push(self.pic2.data.write(CHAIN_SLAVE));
        writes.push(wait_port.write(0));
        writes.push(self.pic1.data.write(MODE_8086));
        writes.push(wait_port.write(0));
        writes.push(self.pic2.data.write(MODE_8086));
        writes.push(wait_port.write(0));
        writes.push(self.pic1.data.write(saved_mask1));
        writes.push(self.pic2.data.write(saved_mask2));
        assert(writes@ =~= spec_init_sequence(
            self.spec_offset1(),
            self.spec_offset2(),
            saved_mask1,
            saved_mask2,
        ));
        writes
    }

    /// The writes that acknowledge `interrupt`.
    pub fn send_end_of_interrupt(&self, interrupt: InterruptType) -> (result: Vec<PortWrite>)
        requires
            self.wf(),
        ensures
            result@ == spec_end_of_interrupt(interrupt.spec_as_usize() as int),
    {
        self.end_of_interrupt_for_line(interrupt.as_usize())
    }

    /// The writes that acknowledge the interrupt of `line`, counted from the
    /// first line of the first controller.
    pub fn end_of_interrupt_for_line(&self, line: usize) -> (result: Vec<PortWrite>)
        requires
            self.wf(),
        ensures
            result@ == spec_end_of_interrupt(line as int),
    {
        let mut writes: Vec<PortWrite> = Vec::new();
        if line > 15 {
            assert(writes@ =~= spec_end_of_interrupt(line as int));
            return writes;
        }
        if line > 7 {
            writes.push(self.pic2.send_end_of_interrupt());
        }
        writes.push(self.pic1.send_end_of_interrupt());
        assert(writes@ =~= spec_end_of_interrupt(line as int));
        writes
    }
}

} // verus!
