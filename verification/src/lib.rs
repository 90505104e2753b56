//! Interrupt-dispatch data structures of a small x86-64 kernel: the entries
//! of the interrupt descriptor table, the diagnostics of its exception
//! handlers, and a pixel writer for a linear framebuffer.

pub mod framebuffer;
pub mod interrupts;
