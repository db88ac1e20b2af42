use yaos::interrupts::entry::{HandlerKind, IDTEntry};
use yaos::interrupts::entry_options::IDTEntryOptions;
use yaos::interrupts::idt::IDT;
use yaos::interrupts::interrupt_types::IDTType;
use yaos::interrupts::table::{InterruptDescriptorTable, InterruptType};
use yaos::interrupts::{init_idt, HandlerAddresses};
use yaos::privilege_level::PrivilegeLevel;
use yaos::segment_selector::SegmentSelector;
use yaos::virtual_address::VirtualAddress;

fn code_segment() -> SegmentSelector {
    SegmentSelector::new(1, PrivilegeLevel::Ring0)
}

#[test]
fn fresh_table_has_no_present_entry() {
    let table = InterruptDescriptorTable::new();
    for vector in 0..=255u8 {
        let entry = table.entry(vector);
        assert!(!entry.options().is_present());
        assert_eq!(entry.options().value() & 0x8000, 0);
        assert_eq!(entry.handler_address(), 0);
        assert_eq!(entry.selector().value(), 0);
    }
}

#[test]
fn fresh_table_knows_the_calling_convention_of_each_vector() {
    let table = InterruptDescriptorTable::new();
    assert_eq!(table.entry(0).kind(), HandlerKind::HandlerFunc);
    assert_eq!(table.entry(8).kind(), HandlerKind::NonReturnHandlerFuncWithErrorCode);
    assert_eq!(table.entry(10).kind(), HandlerKind::HandlerFuncWithErrorCode);
    assert_eq!(table.entry(14).kind(), HandlerKind::PageFaultHandlerFunc);
    assert_eq!(table.entry(18).kind(), HandlerKind::NonReturnHandlerFunc);
    assert_eq!(table.entry(30).kind(), HandlerKind::HandlerFuncWithErrorCode);
    assert_eq!(table.entry(200).kind(), HandlerKind::HandlerFunc);
    assert_eq!(table.double_fault.kind(), HandlerKind::NonReturnHandlerFuncWithErrorCode);
}

#[test]
fn set_handler_reads_back_present_with_the_same_pointer() {
    let handler: u64 = 0xffff_8000_dead_beef;
    for vector in [0u8, 3, 8, 14, 21, 29, 30, 31, 32, 33, 255] {
        let mut table = InterruptDescriptorTable::new();
        {
            let options = table.set_handler(vector, code_segment(), handler);
            assert!(options.is_present());
        }
        let entry = table.entry(vector);
        assert!(entry.options().is_present());
        assert_eq!(entry.options().value(), 0x8e00);
        assert_eq!(entry.handler_address(), handler);
        assert_eq!(entry.selector(), code_segment());
        for other in 0..=255u8 {
            if other != vector {
                assert!(!table.entry(other).options().is_present());
            }
        }
    }
}

#[test]
fn named_fields_are_the_numbered_vectors() {
    let mut table = InterruptDescriptorTable::new();
    table.breakpoint.set_handler(code_segment(), 0x1111);
    table.page_fault.set_handler(code_segment(), 0x2222);
    table.interrupts[1].set_handler(code_segment(), 0x3333);
    assert_eq!(table.entry(3).handler_address(), 0x1111);
    assert_eq!(table.entry(14).handler_address(), 0x2222);
    assert_eq!(table.entry(33).handler_address(), 0x3333);
    table.interrupt_mut(InterruptType::Timer).set_handler(code_segment(), 0x4444);
    assert_eq!(table.interrupts[0].handler_address(), 0x4444);
    assert_eq!(table.entry_mut(33).handler_address(), 0x3333);
}

#[test]
fn handler_pointer_is_split_and_put_together_again() {
    for handler in [0u64, 1, 0xffff, 0x1_0000, 0xffff_ffff, 0x1_0000_0000, u64::MAX, 0x0123_4567_89ab_cdef] {
        let entry = IDTEntry::new(code_segment(), handler);
        assert_eq!(entry.handler_address(), handler);
        assert!(entry.options().is_present());
    }
}

#[test]
fn missing_entry_is_not_present() {
    let entry = IDTEntry::missing(HandlerKind::HandlerFunc);
    assert_eq!(entry.options().value(), 0b1110_0000_0000);
    assert!(!entry.options().is_present());
    assert_eq!(entry.handler_address(), 0);
}

#[test]
fn options_bits() {
    assert_eq!(IDTEntryOptions::minimal().value(), 0x0e00);
    assert_eq!(IDTEntryOptions::present().value(), 0x8e00);

    let mut options = IDTEntryOptions::minimal();
    options.set_present(true);
    assert_eq!(options.value(), 0x8e00);
    options.set_present(false);
    assert_eq!(options.value(), 0x0e00);

    options.disable_interrupts(false);
    assert_eq!(options.value(), 0x0f00);
    options.disable_interrupts(true);
    assert_eq!(options.value(), 0x0e00);

    options.set_privilege_level(3);
    assert_eq!(options.value(), 0x6e00);
    options.set_privilege_level(1);
    assert_eq!(options.value(), 0x2e00);
    options.set_privilege_level(2);
    assert_eq!(options.value(), 0x4e00);
    options.set_privilege_level(0);
    assert_eq!(options.value(), 0x0e00);

    options.set_stack_index(0);
    assert_eq!(options.value(), 0x0e01);
    options.set_stack_index(6);
    assert_eq!(options.value(), 0x0e07);
    options.set_stack_index(2);
    assert_eq!(options.value(), 0x0e03);
}

#[test]
fn options_chain() {
    let mut options = IDTEntryOptions::minimal();
    options.set_present(true).set_privilege_level(3).set_stack_index(1);
    assert_eq!(options.value(), 0xee02);
}

#[test]
fn options_handle_of_set_handler_changes_the_entry() {
    let mut table = InterruptDescriptorTable::new();
    table.set_handler(8, code_segment(), 0x5000).set_stack_index(0);
    assert_eq!(table.entry(8).options().value(), 0x8e01);
    table.entry_mut(8).options_mut().set_present(false);
    assert_eq!(table.entry(8).options().value(), 0x0e01);
    assert_eq!(table.entry(8).handler_address(), 0x5000);
}

#[test]
fn kernel_table_installs_the_five_handlers() {
    let handlers = HandlerAddresses {
        divide_by_zero: 0x1000,
        breakpoint: 0x2000,
        double_fault: 0x3000,
        page_fault: 0x4000,
        timer: 0x5000,
    };
    let table = init_idt(code_segment(), handlers);
    assert_eq!(table.entry(0).handler_address(), 0x1000);
    assert_eq!(table.entry(3).handler_address(), 0x2000);
    assert_eq!(table.entry(8).handler_address(), 0x3000);
    assert_eq!(table.entry(14).handler_address(), 0x4000);
    assert_eq!(table.entry(32).handler_address(), 0x5000);
    assert_eq!(table.entry(8).options().value(), 0x8e01);
    assert_eq!(table.entry(14).options().value(), 0x8e00);
    let present: Vec<u8> = (0..=255u8).filter(|v| table.entry(*v).options().is_present()).collect();
    assert_eq!(present, vec![0, 3, 8, 14, 32]);
}

#[test]
fn table_pointer_covers_all_entries() {
    let table = InterruptDescriptorTable::new();
    let base = VirtualAddress::new(0xC040_0000).unwrap();
    let pointer = table.pointer(base);
    assert_eq!(pointer.limit, 256 * 16 - 1);
    assert_eq!(pointer.base, base);
}

#[test]
fn interrupt_lines() {
    assert_eq!(InterruptType::Timer.as_usize(), 0);
    assert_eq!(InterruptType::Keyboard.as_usize(), 1);
}

#[test]
fn small_table_starts_missing_and_takes_handlers() {
    let mut table = IDT::new();
    assert!(table.0.iter().all(|entry| !entry.options().is_present()));
    {
        let entry = table.set_handler(IDTType::Breakpoint, code_segment(), 0xabcd_0000_1234);
        assert!(entry.options().is_present());
    }
    assert_eq!(table.0[3].handler_address(), 0xabcd_0000_1234);
    table.set_handler(IDTType::PageFault, code_segment(), 0x77);
    assert_eq!(table.0[14].handler_address(), 0x77);
    let present: Vec<usize> = (0..16).filter(|v| table.0[*v].options().is_present()).collect();
    assert_eq!(present, vec![3, 14]);
    assert_eq!(table.pointer(VirtualAddress::zero()).limit, 255);
}

#[test]
fn exception_vectors() {
    assert_eq!(IDTType::DivideByZero.vector(), 0x00);
    assert_eq!(IDTType::Breakpoint.vector(), 0x03);
    assert_eq!(IDTType::DoubleFault.vector(), 0x08);
    assert_eq!(IDTType::PageFault.vector(), 0x0e);
}

#[test]
fn options_fields_read_back() {
    let mut options = IDTEntryOptions::present();
    assert_eq!(options.stack_field(), 0);
    assert_eq!(options.privilege_level(), 0);
    assert!(options.interrupts_disabled());
    options.set_stack_index(4).set_privilege_level(3).disable_interrupts(false);
    assert_eq!(options.stack_field(), 5);
    assert_eq!(options.privilege_level(), 3);
    assert!(!options.interrupts_disabled());
    assert!(options.is_present());
}

#[test]
fn entry_is_laid_out_as_the_processor_reads_it() {
    let entry = IDTEntry::new(SegmentSelector::from_value(0x0008), 0x1122_3344_5566_7788);
    let halves = entry.encode();
    assert_eq!(halves[0], 0x5566_8e00_0008_7788);
    assert_eq!(halves[1], 0x0000_0000_1122_3344);
    let mut bytes = Vec::new();
    bytes.extend_from_slice(&halves[0].to_le_bytes());
    bytes.extend_from_slice(&halves[1].to_le_bytes());
    assert_eq!(bytes.len(), 16);
    assert_eq!(&bytes[0..2], &[0x88, 0x77]); // pointer, low
    assert_eq!(&bytes[2..4], &[0x08, 0x00]); // selector
    assert_eq!(&bytes[4..6], &[0x00, 0x8e]); // options
    assert_eq!(&bytes[6..8], &[0x66, 0x55]); // pointer, middle
    assert_eq!(&bytes[8..12], &[0x44, 0x33, 0x22, 0x11]); // pointer, high
    assert_eq!(&bytes[12..16], &[0, 0, 0, 0]); // reserved
    let missing = IDTEntry::missing(HandlerKind::HandlerFunc).encode();
    assert_eq!(missing, [0x0000_0e00_0000_0000, 0]);
    assert_eq!((missing[0] >> 47) & 1, 0);
}
