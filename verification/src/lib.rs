//! Verified core of a small x86 kernel: the VGA text-mode writer, the
//! layout of the global descriptor table and the exception banners.

pub mod vga_buffer;
pub mod interrupts;
pub mod gdt;
