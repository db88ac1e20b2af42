//! Interrupt and privilege-transition core of a small x86_64 kernel: descriptor
//! tables, the legacy interrupt controller, physical frame allocation and the
//! four-level page-table walk, stated over plain values and verified.
pub mod bit_manipulator;
pub mod physical_address;
pub mod virtual_address;
pub mod virt_addr;
pub mod privilege_level;
pub mod segment_selector;
pub mod descriptor_table_pointer;
pub mod task_state_segment;
pub mod gdt_entry;
pub mod global_descriptor_table;
pub mod interrupts;
pub mod port;
pub mod pic;
pub mod boot;
pub mod allocator;
pub mod paging;
pub mod registers;
pub mod serial;
pub mod lazy;
pub mod kernel;
