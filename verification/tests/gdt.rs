use yaos::gdt_entry::Entry;
use yaos::global_descriptor_table::{init, GlobalDescriptorTable, MAX_ENTRIES};
use yaos::privilege_level::PrivilegeLevel;
use yaos::segment_selector::SegmentSelector;
use yaos::task_state_segment::{TaskStateSegment, DOUBLE_FAULT_STACK_INDEX, STACK_SIZE};
use yaos::virtual_address::VirtualAddress;

#[test]
fn adding_up_to_capacity_succeeds() {
    let mut table = GlobalDescriptorTable::new();
    assert_eq!(MAX_ENTRIES, 8);
    assert_eq!(table.len(), 0);
    for slot in 0..8u16 {
        assert!(table.len() < MAX_ENTRIES);
        let selector = table.add_entry(Entry::kernel_code_segment());
        assert_eq!(selector.value(), slot << 3);
        assert_eq!(selector.index(), slot);
    }
    // The table is full: a ninth descriptor has no slot.
    assert_eq!(table.len(), MAX_ENTRIES);
    for slot in 0..8usize {
        assert_eq!(table.entry(slot).value(), 0x0020_9800_0000_0000);
    }
}

#[test]
fn null_and_empty_descriptors_are_zero() {
    assert_eq!(Entry::empty().value(), 0);
    assert_eq!(Entry::null_segment().value(), 0);
}

#[test]
fn kernel_code_segment_has_the_documented_bits() {
    let entry = Entry::kernel_code_segment().value();
    assert_eq!(entry, (1 << 43) | (1 << 44) | (1 << 47) | (1 << 53));
    assert_eq!((entry >> 40) & 0xff, 0x98);
}

#[test]
fn tss_descriptor_reassembles_base_and_limit() {
    let base: u64 = 0xffff_8000_1234_5678;
    let halves = Entry::tss_segment(base);
    let low = halves[0].value();
    let high = halves[1].value();
    let base_low = ((low >> 16) & 0xff_ffff) | (((low >> 56) & 0xff) << 24);
    assert_eq!(base_low | (high << 32), base);
    let limit = (low & 0xffff) | (((low >> 48) & 0xf) << 16);
    assert_eq!(limit, 103);
    assert_eq!((low >> 40) & 0xff, 0x89);
    assert_eq!((low >> 52) & 0xf, 0);
    assert_eq!(high, 0xffff_8000);
    assert_eq!(low, 0x1200_8934_5678_0067);
}

#[test]
fn add_tss_takes_two_slots() {
    let mut table = GlobalDescriptorTable::new();
    table.add_entry(Entry::null_segment());
    let selector = table.add_tss(0x0000_0001_0020_3000);
    assert_eq!(selector.index(), 1);
    assert_eq!(table.len(), 3);
    assert_eq!(table.entry(2).value(), 1);
    assert_eq!(table.entry(1).value(), Entry::tss_segment(0x0000_0001_0020_3000)[0].value());
}

#[test]
fn kernel_table_has_null_code_and_tss() {
    let (table, selectors) = init(0x0000_0000_0010_0000);
    assert_eq!(table.len(), 4);
    assert_eq!(table.entry(0).value(), 0);
    assert_eq!(table.entry(1).value(), 0x0020_9800_0000_0000);
    assert_eq!(table.entry(3).value(), 0);
    assert_eq!(selectors.cs.value(), 8);
    assert_eq!(selectors.tss.value(), 16);
}

#[test]
fn table_pointer_limit_counts_the_slots_in_use() {
    let (table, _) = init(0x1000);
    let base = VirtualAddress::new(0xC020_0000).unwrap();
    let pointer = table.pointer(base);
    assert_eq!(pointer.limit, 31);
    assert_eq!(pointer.base, base);
}

#[test]
fn selector_packs_index_and_level() {
    assert_eq!(SegmentSelector::new(1, PrivilegeLevel::Ring0).value(), 8);
    assert_eq!(SegmentSelector::new(2, PrivilegeLevel::Ring3).value(), 0x13);
    assert_eq!(SegmentSelector::new(5, PrivilegeLevel::Ring1).index(), 5);
    assert_eq!(SegmentSelector::from_value(0x2b).value(), 0x2b);
    assert_eq!(PrivilegeLevel::Ring2.number(), 2);
}

#[test]
fn new_task_state_segment_is_blank() {
    let tss = TaskStateSegment::new();
    assert!(tss.interrupt_stack_table.iter().all(|slot| slot.value() == 0));
    assert!(tss.privileged_stack_table.iter().all(|slot| slot.value() == 0));
    assert_eq!(tss.io_map_base_address, 0);
}

#[test]
fn double_fault_stack_slot_points_at_the_top_of_its_stack() {
    let start = VirtualAddress::new(0xC030_0000).unwrap();
    let tss = TaskStateSegment::with_double_fault_stack(start);
    assert_eq!(STACK_SIZE, 4096 * 5);
    assert_eq!(
        tss.interrupt_stack_table[DOUBLE_FAULT_STACK_INDEX as usize].value(),
        0xC030_0000 + 4096 * 5
    );
    for slot in 1..7 {
        assert_eq!(tss.interrupt_stack_table[slot].value(), 0);
    }
}

#[test]
fn descriptor_fields_read_back() {
    let code = Entry::kernel_code_segment();
    assert_eq!(code.access(), 0x98);
    assert_eq!(code.flags(), 0x2);
    assert_eq!(code.base(), 0);
    assert_eq!(code.limit(), 0);
    let tss = Entry::tss_segment(0x0000_0000_8765_4321)[0];
    assert_eq!(tss.base(), 0x8765_4321);
    assert_eq!(tss.limit(), 103);
    assert_eq!(tss.access(), 0x89);
    assert_eq!(tss.flags(), 0);
}

#[test]
fn start_takes_its_steps_in_the_one_order() {
    let steps = yaos::kernel::init();
    assert_eq!(
        steps,
        vec![
            yaos::kernel::InitStep::LoadDescriptorTable,
            yaos::kernel::InitStep::ReloadCodeSegment,
            yaos::kernel::InitStep::LoadTaskStateSegment,
            yaos::kernel::InitStep::LoadInterruptTable,
            yaos::kernel::InitStep::RemapInterruptControllers,
            yaos::kernel::InitStep::EnableInterrupts,
        ]
    );
}

#[test]
fn task_state_segment_is_laid_out_in_104_bytes() {
    let start = VirtualAddress::new(0xffff_8000_0030_0000).unwrap();
    let tss = TaskStateSegment::with_double_fault_stack(start);
    let words = tss.encode();
    assert_eq!(words.len() * 4, 104);
    let mut expected = [0u32; 26];
    // The first interrupt stack lies at byte 36: words 9 and 10.
    expected[9] = 0x0030_5000;
    expected[10] = 0xffff_8000;
    assert_eq!(words, expected);
    let mut full = TaskStateSegment::new();
    full.privileged_stack_table[2] = VirtualAddress::new(0x0000_1234_5678_9000).unwrap();
    full.interrupt_stack_table[6] = VirtualAddress::new(0x0000_0abc_def0_1000).unwrap();
    full.io_map_base_address = 0x68;
    let words = full.encode();
    assert_eq!((words[5], words[6]), (0x5678_9000, 0x0000_1234));
    assert_eq!((words[21], words[22]), (0xdef0_1000, 0x0000_0abc));
    assert_eq!(words[25], 0x0068_0000);
}
