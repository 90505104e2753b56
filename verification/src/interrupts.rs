//! The interrupt descriptor table and what is built around it.

pub mod bits;
pub mod exceptions;
pub mod idt;
pub mod options;
pub mod segment;
pub mod text;

use crate::interrupts::exceptions::HardwareException;
use crate::interrupts::idt::{EntryView, Idt};
use vstd::prelude::*;

verus! {

/// The descriptor `gate` is that of the handler at `handler`, in some code
/// segment, with the options of a gate in use.
pub open spec fn dispatches_to(gate: EntryView, handler: u64) -> bool {
    &&& gate == EntryView::gate(gate.gdt_selector, handler, gate.options)
    &&& gate.handler_address() == handler
    &&& gate.options@ == 0x8E00
    &&& gate.options.present()
    &&& !gate.options.interrupts_enabled()
    &&& gate.options.privilege_level() == 0
    &&& gate.options.stack_index() == 0
}

/// Builds the table of this kernel: the three exceptions that have a
/// handler dispatch to the entry stubs at the given addresses, in the code
/// segment that the processor is in now; every other vector is missing.
pub fn init(divide_by_zero: u64, invalid_opcode: u64, page_fault: u64) -> (table: Idt)
    ensures
        table@.len() == 16,
        table.wf(),
        dispatches_to(table@[HardwareException::DivideByZero.vector() as int], divide_by_zero),
        dispatches_to(table@[HardwareException::InvalidOpcode.vector() as int], invalid_opcode),
        dispatches_to(table@[HardwareException::PageFault.vector() as int], page_fault),
        forall|vector: int|
            0 <= vector < 16 && vector != 0 && vector != 6 && vector != 14 ==> (
            #[trigger] table@[vector]).is_missing(),
{
    let mut table = Idt::new();
    table.set_handler(HardwareException::DivideByZero.vector(), divide_by_zero);
    table.set_handler(HardwareException::InvalidOpcode.vector(), invalid_opcode);
    table.set_handler(HardwareException::PageFault.vector(), page_fault);
    table
}

} // verus!
