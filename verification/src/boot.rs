//! What the boot loader hands over: the memory map and the sections of the
//! kernel image.
pub mod multiboot_memory_map;
pub mod multiboot_tags;
pub mod multiboot_elf_symbols;
pub mod multiboot_header;
pub mod multiboot_bytes;
