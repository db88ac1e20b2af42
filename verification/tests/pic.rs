use yaos::interrupts::interrupt_handler::{
    breakpoint_handler, divide_by_zero_handler, double_fault_handler, keyboard_handler,
    page_fault_handler, timer_handler, KeyEvent, Outcome,
};
use yaos::interrupts::interrupt_stack_frame::InterruptStackFrame;
use yaos::interrupts::table::InterruptType;
use yaos::paging::page_fault_error_code::{PageFaultCause, PageFaultErrorCode};
use yaos::pic::{x86PIC, PIC_1_OFFSET, PIC_2_OFFSET};
use yaos::port::{Port, PortWrite};
use yaos::registers::{
    are_interrupts_enabled, enable_nxe_bit, enable_write_protect_bit, rdmsr, wrmsr, FlagMask,
};
use yaos::virt_addr::VirtAddr;

fn write(port: u16, value: u8) -> PortWrite {
    PortWrite { port, value }
}

#[test]
fn init_writes_the_documented_sequence() {
    let pics = x86PIC::new(PIC_1_OFFSET, PIC_2_OFFSET);
    assert_eq!(pics.mask_ports(), (0x21, 0xa1));
    let writes = pics.init(0xfb, 0xff);
    let expected = vec![
        write(0x20, 0x11),
        write(0x80, 0),
        write(0xa0, 0x11),
        write(0x80, 0),
        write(0x21, 32),
        write(0x80, 0),
        write(0xa1, 40),
        write(0x80, 0),
        write(0x21, 4),
        write(0x80, 0),
        write(0xa1, 2),
        write(0x80, 0),
        write(0x21, 0x01),
        write(0x80, 0),
        write(0xa1, 0x01),
        write(0x80, 0),
        write(0x21, 0xfb),
        write(0xa1, 0xff),
    ];
    assert_eq!(writes, expected);
}

#[test]
fn master_line_is_acknowledged_on_the_master_only() {
    let pics = x86PIC::new(32, 40);
    for line in 0..=7 {
        assert_eq!(pics.end_of_interrupt_for_line(line), vec![write(0x20, 0x20)]);
    }
}

#[test]
fn slave_line_is_acknowledged_on_the_slave_first() {
    let pics = x86PIC::new(32, 40);
    for line in 8..=15 {
        assert_eq!(
            pics.end_of_interrupt_for_line(line),
            vec![write(0xa0, 0x20), write(0x20, 0x20)]
        );
    }
}

#[test]
fn lines_beyond_the_controllers_are_ignored() {
    let pics = x86PIC::new(32, 40);
    assert_eq!(pics.end_of_interrupt_for_line(16), vec![]);
    assert_eq!(pics.end_of_interrupt_for_line(usize::MAX), vec![]);
}

#[test]
fn timer_and_keyboard_are_lines_of_the_master() {
    let pics = x86PIC::new(32, 40);
    assert_eq!(pics.send_end_of_interrupt(InterruptType::Timer), vec![write(0x20, 0x20)]);
    assert_eq!(pics.send_end_of_interrupt(InterruptType::Keyboard), vec![write(0x20, 0x20)]);
}

#[test]
fn port_builds_writes() {
    let port = Port::new(0x3f8);
    assert_eq!(port.address(), 0x3f8);
    assert_eq!(port.write(7), write(0x3f8, 7));
    assert_eq!(port.write_offset(4, 0x0f), write(0x3fc, 0x0f));
    assert_eq!(port.read_offset(5), 0x3fd);
}

#[test]
fn page_fault_code_3_is_a_write_protection_violation() {
    let cause = PageFaultErrorCode::new(0b0011).decode();
    assert_eq!(
        cause,
        PageFaultCause {
            protection_violation: true,
            caused_by_write: true,
            user_mode: false,
            malformed_table: false,
        }
    );
    assert_eq!(PageFaultErrorCode::new(0b0011).fields(), [1, 1, 0, 0]);
}

#[test]
fn page_fault_code_facets() {
    assert_eq!(PageFaultErrorCode::new(0).fields(), [0, 0, 0, 0]);
    assert_eq!(PageFaultErrorCode::new(0b1100).fields(), [0, 0, 1, 1]);
    assert_eq!(PageFaultErrorCode::new(0xffff_fff0).fields(), [0, 0, 0, 0]);
    let cause = PageFaultErrorCode::new(0b1111).decode();
    assert!(cause.protection_violation && cause.caused_by_write && cause.user_mode && cause.malformed_table);
}

#[test]
fn fatal_and_resuming_handlers() {
    assert_eq!(divide_by_zero_handler(), Outcome::Halt);
    assert_eq!(breakpoint_handler(), Outcome::Resume);
    assert_eq!(double_fault_handler(7), (7, Outcome::Halt));
    let report = page_fault_handler(PageFaultErrorCode::new(0b10), 0xdead_beef);
    assert_eq!(report.accessed_address, 0xdead_beef);
    assert_eq!(report.outcome, Outcome::Halt);
    assert!(report.cause.caused_by_write);
    assert!(!report.cause.protection_violation);
}

#[test]
fn timer_handler_acknowledges_and_resumes() {
    let pics = x86PIC::new(32, 40);
    let (writes, outcome) = timer_handler(&pics);
    assert_eq!(writes, vec![write(0x20, 0x20)]);
    assert_eq!(outcome, Outcome::Resume);
}

#[test]
fn keyboard_handler_decodes_press_and_release() {
    let pics = x86PIC::new(32, 40);
    let (event, writes, outcome) = keyboard_handler(&pics, 0x1e);
    assert_eq!(event, KeyEvent::Press(0x1e));
    assert_eq!(writes, vec![write(0x20, 0x20)]);
    assert_eq!(outcome, Outcome::Resume);
    let (event, _, _) = keyboard_handler(&pics, 0x9e);
    assert_eq!(event, KeyEvent::Release(0x1e));
    let (event, _, _) = keyboard_handler(&pics, 0x80);
    assert_eq!(event, KeyEvent::Release(0));
}

#[test]
fn stack_frame_words() {
    let frame = InterruptStackFrame {
        instruction_pointer: VirtAddr::new(0x1000),
        code_segment: 8,
        cpu_flags: 0x202,
        stack_pointer: VirtAddr::new(0x7000),
        stack_segment: 0,
    };
    assert_eq!(frame.words(), [0x1000, 8, 0x202, 0x7000, 0]);
}

#[test]
fn register_values() {
    assert_eq!(enable_nxe_bit(0x500), 0xd00);
    assert_eq!(enable_nxe_bit(0x800), 0x800);
    assert_eq!(enable_write_protect_bit(0x8000_0011), 0x8001_0011);
    assert!(are_interrupts_enabled(0x202));
    assert!(!are_interrupts_enabled(0x002));
    assert_eq!(FlagMask::InterruptEnable.get_mask(), 0x200);
    assert_eq!(wrmsr(0x1234_5678_9abc_def0), (0x9abc_def0, 0x1234_5678));
    assert_eq!(rdmsr(0x1234_5678, 0x9abc_def0), 0x1234_5678_9abc_def0);
}
