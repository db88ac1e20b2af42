use yaos::physical_address::{PhysicalAddress, PHYSICAL_MEMORY_OFFSET};
use yaos::virt_addr::{VirtAddr, VirtAddrNotValid};
use yaos::virtual_address::{InvalidAddress, VirtualAddress};

#[test]
fn canonical_low_address_is_accepted_unchanged() {
    let address = VirtualAddress::new(0x0000_7fff_ffff_f000).unwrap();
    assert_eq!(address.value(), 0x0000_7fff_ffff_f000);
}

#[test]
fn canonical_high_address_is_accepted_unchanged() {
    let address = VirtualAddress::new(0xffff_8000_0000_0000).unwrap();
    assert_eq!(address.value(), 0xffff_8000_0000_0000);
    let top = VirtualAddress::new(0xffff_ffff_ffff_ffff).unwrap();
    assert_eq!(top.value(), 0xffff_ffff_ffff_ffff);
}

#[test]
fn address_with_garbage_in_upper_bits_is_refused() {
    assert_eq!(
        VirtualAddress::new(0x0001_0000_0000_0000),
        Err(InvalidAddress(0x0001_0000_0000_0000))
    );
    assert_eq!(
        VirtualAddress::new(0xfffe_8000_0000_0000),
        Err(InvalidAddress(0xfffe_8000_0000_0000))
    );
    assert!(VirtualAddress::new(0x7fff_ffff_ffff_ffff).is_err());
    assert!(VirtualAddress::new(0xffff_0000_0000_0000).is_err());
}

#[test]
fn address_with_clear_upper_bits_is_sign_extended() {
    let address = VirtualAddress::new(0x0000_8000_0000_0000).unwrap();
    assert_eq!(address.value(), 0xffff_8000_0000_0000);
    let other = VirtualAddress::new(0x0000_ffff_ffff_f123).unwrap();
    assert_eq!(other.value(), 0xffff_ffff_ffff_f123);
}

#[test]
fn new_truncate_copies_bit_47_upwards() {
    assert_eq!(VirtualAddress::new_truncate(0x1234_8000_0000_0000).value(), 0xffff_8000_0000_0000);
    assert_eq!(VirtualAddress::new_truncate(0xffff_7000_0000_0abc).value(), 0x0000_7000_0000_0abc);
    assert_eq!(VirtualAddress::new_truncate(0x1000).value(), 0x1000);
}

#[test]
fn zero_is_zero() {
    assert_eq!(VirtualAddress::zero().value(), 0);
    assert_eq!(VirtAddr::zero().get(), 0);
}

#[test]
fn physical_virtual_round_trip() {
    for raw in [0usize, 0x1000, 0x0010_0000, 0x7fff_f000, 0x1234_5000] {
        let physical = PhysicalAddress::new(raw);
        let there = physical.get_virtual_address();
        assert_eq!(there.value(), raw + PHYSICAL_MEMORY_OFFSET);
        assert_eq!(there.get_physical_address(), physical);
    }
}

#[test]
fn physical_offset_is_the_documented_constant() {
    assert_eq!(PHYSICAL_MEMORY_OFFSET, 0xC000_0000);
    assert_eq!(PhysicalAddress::new(0).get_virtual_address().value(), 0xC000_0000);
}

#[test]
fn physical_address_constructors() {
    assert_eq!(PhysicalAddress::new(0x1234).value(), 0x1234);
    assert_eq!(PhysicalAddress::invalid().value(), usize::MAX);
    assert_eq!(PhysicalAddress::from_64bit(0x1_0000_0000).value(), 0x1_0000_0000);
    assert_eq!(PhysicalAddress::from_32bit(0xffff_ffff).value(), 0xffff_ffff);
}

#[test]
fn physical_address_arithmetic() {
    let address = PhysicalAddress::new(0x1001);
    assert_eq!(address.offset(0x10).value(), 0x1011);
    assert_eq!(address.round_up().value(), 0x2000);
    assert_eq!(address.round_down().value(), 0x1000);
    assert_eq!(PhysicalAddress::new(0x3000).round_up().value(), 0x3000);
    assert_eq!(PhysicalAddress::new(0x3000).round_down().value(), 0x3000);
    let mut moving = PhysicalAddress::new(0x5000);
    moving.advance(4096);
    assert_eq!(moving.value(), 0x6000);
}

#[test]
fn physical_addresses_order_by_value() {
    assert!(PhysicalAddress::new(1) < PhysicalAddress::new(2));
    assert!(PhysicalAddress::new(2) >= PhysicalAddress::new(2));
}

#[test]
fn page_table_indices_are_the_four_nine_bit_fields() {
    let address = VirtualAddress::new((3 << 39) | (5 << 30) | (7 << 21) | (9 << 12)).unwrap();
    assert_eq!(address.get_page_table_indices(), (3, 5, 7, 9));
    let high = VirtualAddress::new(0xffff_ffff_ffff_f000).unwrap();
    assert_eq!(high.get_page_table_indices(), (511, 511, 511, 511));
    assert_eq!(VirtualAddress::zero().get_page_table_indices(), (0, 0, 0, 0));
    let kernel = VirtualAddress::new(0xC010_0000).unwrap();
    assert_eq!(kernel.get_page_table_indices(), (0, 3, 0, 256));
}

#[test]
fn virtual_address_offset() {
    let address = VirtualAddress::new(0x1000).unwrap();
    assert_eq!(address.offset(0x234).value(), 0x1234);
}

#[test]
fn virt_addr_try_new_accepts_canonical() {
    assert_eq!(VirtAddr::try_new(0x0000_7fff_ffff_ffff).unwrap().get(), 0x0000_7fff_ffff_ffff);
    assert_eq!(VirtAddr::try_new(0xffff_8000_0000_0000).unwrap().get(), 0xffff_8000_0000_0000);
}

#[test]
fn virt_addr_try_new_sign_extends() {
    assert_eq!(VirtAddr::try_new(0x0000_8000_0000_0000).unwrap().get(), 0xffff_8000_0000_0000);
}

#[test]
fn virt_addr_try_new_refuses_the_rest() {
    assert_eq!(
        VirtAddr::try_new(0x0001_8000_0000_0123),
        Err(VirtAddrNotValid(0x0001_8000_0000_0000))
    );
    assert_eq!(
        VirtAddr::try_new(0x8000_0000_0000_0000),
        Err(VirtAddrNotValid(0x8000_0000_0000_0000))
    );
}

#[test]
fn virt_addr_new_and_truncate() {
    assert_eq!(VirtAddr::new(0x1234).get(), 0x1234);
    assert_eq!(VirtAddr::new(0x0000_8000_0000_0000).get(), 0xffff_8000_0000_0000);
    assert_eq!(VirtAddr::new_truncate(0xabcd_0000_0000_1000).get(), 0x1000);
    assert_eq!(VirtAddr::new_truncate(0x0000_8000_0000_1000).get(), 0xffff_8000_0000_1000);
}

#[test]
fn canonical_test() {
    assert!(yaos::virtual_address::is_canonical(0));
    assert!(yaos::virtual_address::is_canonical(0x0000_7fff_ffff_ffff));
    assert!(yaos::virtual_address::is_canonical(0xffff_8000_0000_0000));
    assert!(!yaos::virtual_address::is_canonical(0x0000_8000_0000_0000));
    assert!(!yaos::virtual_address::is_canonical(0xfffe_ffff_ffff_ffff));
}

#[test]
fn addresses_add_a_number_of_bytes() {
    assert_eq!((PhysicalAddress::new(0x1000) + 0x234).value(), 0x1234);
    assert_eq!((VirtualAddress::new(0xC000_0000).unwrap() + 0x1000).value(), 0xC000_1000);
}
