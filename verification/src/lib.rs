//! A small x86_64 kernel's testable core: the VGA text-mode writer, the QEMU
//! exit protocol, the test runner and the address arithmetic of paging.

pub mod vga_buffer;
pub mod vga_laws;
pub mod qemu;
pub mod paging;
pub mod interrupts;
