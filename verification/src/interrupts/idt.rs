//! The interrupt descriptor table: gate descriptors and the table of
//! sixteen of them.

pub use crate::interrupts::options::EntryOptions;
use crate::interrupts::segment::{current_code_segment, selector, selector_word};
use vstd::prelude::*;

verus! {

/// What a gate descriptor holds, field by field, in the order of its layout.
pub struct EntryView {
    /// Bits 0 to 15 of the handler's address.
    pub pointer_low: u16,
    /// The selector of the code segment that the handler runs in.
    pub gdt_selector: u16,
    /// The options word.
    pub options: EntryOptions,
    /// Bits 16 to 31 of the handler's address.
    pub pointer_middle: u16,
    /// Bits 32 to 63 of the handler's address.
    pub pointer_high: u32,
    /// Padding, always zero.
    pub reserved: u32,
}

impl EntryView {
    /// The handler's address, put together from its three parts.
    pub open spec fn handler_address(self) -> u64 {
        ((self.pointer_high as u64) << 32) | ((self.pointer_middle as u64) << 16) | (
        self.pointer_low as u64)
    }

    /// The padding is zero and the reserved bits of the options read `111`.
    pub open spec fn wf(self) -> bool {
        self.reserved == 0 && self.options.wf()
    }

    /// The descriptor of a vector without a handler.
    pub open spec fn is_missing(self) -> bool {
        &&& self.pointer_low == 0
        &&& self.gdt_selector == 0
        &&& self.options@ == 0x0E00
        &&& self.pointer_middle == 0
        &&& self.pointer_high == 0
        &&& self.reserved == 0
    }

    /// The descriptor of a handler at address `handler`, running in the
    /// code segment `gdt_selector`, with the options `options`.
    pub open spec fn gate(gdt_selector: u16, handler: u64, options: EntryOptions) -> EntryView {
        EntryView {
            pointer_low: handler as u16,
            gdt_selector,
            options,
            pointer_middle: (handler >> 16) as u16,
            pointer_high: (handler >> 32) as u32,
            reserved: 0,
        }
    }

    /// The sixteen bytes that the processor reads: each field in turn, the
    /// low byte first.
    pub open spec fn encoding(self) -> Seq<u8> {
        le_bytes_u16(self.pointer_low) + le_bytes_u16(self.gdt_selector) + le_bytes_u16(
            self.options@,
        ) + le_bytes_u16(self.pointer_middle) + le_bytes_u32(self.pointer_high) + le_bytes_u32(
            self.reserved,
        )
    }
}

/// Splitting a handler's address over the three pointer fields loses
/// nothing: put together again they give the address, whatever its 64 bits
/// are, and the selector and the options stand beside it unchanged.
pub proof fn lemma_gate_keeps_address(gdt_selector: u16, handler: u64, options: EntryOptions)
    ensures
        EntryView::gate(gdt_selector, handler, options).handler_address() == handler,
        EntryView::gate(gdt_selector, handler, options).gdt_selector == gdt_selector,
        EntryView::gate(gdt_selector, handler, options).options == options,
        EntryView::gate(gdt_selector, handler, options).reserved == 0,
{
    lemma_address_parts(handler);
}

/// The two bytes of a 16-bit word, the low byte first.
pub open spec fn le_bytes_u16(word: u16) -> Seq<u8> {
    seq![word as u8, (word >> 8) as u8]
}

/// The four bytes of a 32-bit word, the low byte first.
pub open spec fn le_bytes_u32(word: u32) -> Seq<u8> {
    seq![word as u8, (word >> 8) as u8, (word >> 16) as u8, (word >> 24) as u8]
}

/// One gate descriptor of the interrupt table.
#[derive(Debug, Clone, Copy)]
pub struct Entry {
    pointer_low: u16,
    gdt_selector: u16,
    options: EntryOptions,
    pointer_middle: u16,
    pointer_high: u32,
    reserved: u32,
}

impl View for Entry {
    type V = EntryView;

    closed spec fn view(&self) -> EntryView {
        EntryView {
            pointer_low: self.pointer_low,
            gdt_selector: self.gdt_selector,
            options: self.options,
            pointer_middle: self.pointer_middle,
            pointer_high: self.pointer_high,
            reserved: self.reserved,
        }
    }
}

impl Entry {
    /// The descriptor of a handler at address `handler` that runs in the
    /// code segment `gdt_selector`: present, with interrupts disabled, at
    /// privilege level 0 and without a stack switch.
    pub fn new(gdt_selector: u16, handler: u64) -> (entry: Entry)
        ensures
            entry@.options@ == 0x8E00,
            entry@.options.present(),
            !entry@.options.interrupts_enabled(),
            entry@.options.privilege_level() == 0,
            entry@.options.stack_index() == 0,
            entry@ == EntryView::gate(gdt_selector, handler, entry@.options),
            entry@.handler_address() == handler,
            entry@.wf(),
    {
        let options = EntryOptions::new();
        proof {
            lemma_gate_keeps_address(gdt_selector, handler, options);
        }
        Entry {
            pointer_low: #[verifier::truncate] (handler as u16),
            gdt_selector,
            options,
            pointer_middle: #[verifier::truncate] ((handler >> 16) as u16),
            pointer_high: #[verifier::truncate] ((handler >> 32) as u32),
            reserved: 0,
        }
    }

    /// The descriptor of a vector without a handler: not present, with the
    /// null selector and a zero address.
    pub fn missing() -> (entry: Entry)
        ensures
            entry@.is_missing(),
            entry@.wf(),
            !entry@.options.present(),
            entry@.handler_address() == 0,
    {
        proof {
            lemma_null_words();
        }
        Entry {
            pointer_low: 0,
            gdt_selector: selector(0, 0),
            options: EntryOptions::minimal(),
            pointer_middle: 0,
            pointer_high: 0,
            reserved: 0,
        }
    }
}

impl Entry {
    /// Bits 0 to 15 of the handler's address.
    pub fn pointer_low(&self) -> (word: u16)
        ensures
            word == self@.pointer_low,
    {
        self.pointer_low
    }

    /// The selector of the code segment that the handler runs in.
    pub fn gdt_selector(&self) -> (word: u16)
        ensures
            word == self@.gdt_selector,
    {
        self.gdt_selector
    }

    /// The options of the entry.
    pub fn options(&self) -> (options: EntryOptions)
        ensures
            options == self@.options,
    {
        self.options
    }

    /// Bits 16 to 31 of the handler's address.
    pub fn pointer_middle(&self) -> (word: u16)
        ensures
            word == self@.pointer_middle,
    {
        self.pointer_middle
    }

    /// Bits 32 to 63 of the handler's address.
    pub fn pointer_high(&self) -> (word: u32)
        ensures
            word == self@.pointer_high,
    {
        self.pointer_high
    }

    /// The handler's address, put together from its three parts.
    pub fn handler_address(&self) -> (address: u64)
        ensures
            address == self@.handler_address(),
    {
        ((self.pointer_high as u64) << 32) | ((self.pointer_middle as u64) << 16) | (
        self.pointer_low as u64)
    }

    /// The descriptor as the sixteen bytes that the processor reads.
    pub fn to_bytes(&self) -> (bytes: [u8; 16])
        ensures
            bytes@ == self@.encoding(),
    {
        let low: u16 = self.pointer_low;
        let selector: u16 = self.gdt_selector;
        let options: u16 = self.options.bits();
        let middle: u16 = self.pointer_middle;
        let high: u32 = self.pointer_high;
        let reserved: u32 = self.reserved;
        let bytes: [u8; 16] = [
            #[verifier::truncate] (low as u8),
            #[verifier::truncate] ((low >> 8) as u8),
            #[verifier::truncate] (selector as u8),
            #[verifier::truncate] ((selector >> 8) as u8),
            #[verifier::truncate] (options as u8),
            #[verifier::truncate] ((options >> 8) as u8),
            #[verifier::truncate] (middle as u8),
            #[verifier::truncate] ((middle >> 8) as u8),
            #[verifier::truncate] (high as u8),
            #[verifier::truncate] ((high >> 8) as u8),
            #[verifier::truncate] ((high >> 16) as u8),
            #[verifier::truncate] ((high >> 24) as u8),
            #[verifier::truncate] (reserved as u8),
            #[verifier::truncate] ((reserved >> 8) as u8),
            #[verifier::truncate] ((reserved >> 16) as u8),
            #[verifier::truncate] ((reserved >> 24) as u8),
        ];
        assert(bytes@ =~= self@.encoding());
        bytes
    }
}

/// What the processor's table register is loaded with: where the table
/// stands and the offset of its last byte.
#[derive(Debug, Clone, Copy, PartialEq, Eq, Structural)]
pub struct TablePointer {
    /// The table's size in bytes, less one.
    pub limit: u16,
    /// The address of the table's first byte.
    pub base: u64,
}

/// The number of vectors that the table has a descriptor for.
pub const ENTRY_COUNT: usize = 16;

/// The size of one descriptor in bytes.
pub const ENTRY_SIZE: usize = 16;

/// The interrupt descriptor table: sixteen gate descriptors, one for each
/// of the vectors 0 to 15.
#[derive(Debug)]
pub struct Idt {
    entries: [Entry; 16],
}

impl View for Idt {
    type V = Seq<EntryView>;

    closed spec fn view(&self) -> Seq<EntryView> {
        self.entries@.map_values(|entry: Entry| entry@)
    }
}

impl Idt {
    /// The 256 bytes that the processor reads: the sixteen descriptors'
    /// bytes, vector after vector.
    pub open spec fn encoding(&self) -> Seq<u8> {
        Seq::new(256, |i: int| self@[i / 16].encoding()[i % 16])
    }

    /// Every descriptor of the table is well formed.
    pub open spec fn wf(&self) -> bool {
        forall|vector: int| 0 <= vector < 16 ==> (#[trigger] self@[vector]).wf()
    }

    /// A table has sixteen descriptors of sixteen bytes each, 256 bytes in
    /// all, whatever it holds.
    pub proof fn lemma_table_size(&self)
        ensures
            self@.len() == ENTRY_COUNT,
            forall|vector: int|
                0 <= vector < 16 ==> (#[trigger] self@[vector]).encoding().len() == ENTRY_SIZE,
            self.encoding().len() == ENTRY_COUNT * ENTRY_SIZE == 256,
    {
    }

    /// A table in which no vector has a handler.
    pub fn new() -> (table: Idt)
        ensures
            table@.len() == 16,
            table.wf(),
            forall|vector: int|
                0 <= vector < 16 ==> {
                    &&& (#[trigger] table@[vector]).is_missing()
                    &&& !table@[vector].options.present()
                    &&& table@[vector].options.reserved() == 7
                },
    {
        Idt { entries: [Entry::missing(); 16] }
    }

    /// Installs the handler at address `handler` for the vector `entry`, to
    /// run in the code segment `gdt_selector`, with the options of a gate
    /// in use. The options of the new descriptor are handed out, so that
    /// the caller may go on to change them.
    pub fn set_handler_in_segment(&mut self, entry: u8, gdt_selector: u16, handler: u64) -> (options:
        &mut EntryOptions)
        requires
            entry < 16,
        ensures
            options@ == 0x8E00,
            options.wf(),
            options.present(),
            !options.interrupts_enabled(),
            options.privilege_level() == 0,
            options.stack_index() == 0,
            final(self)@ == old(self)@.update(
                entry as int,
                EntryView::gate(gdt_selector, handler, *final(options)),
            ),
            final(self)@[entry as int].handler_address() == handler,
            old(self).wf() && final(options).wf() ==> final(self).wf(),
    {
        let vector: usize = entry as usize;
        self.entries[vector] = Entry::new(gdt_selector, handler);
        &mut self.entries[vector].options
    }

    /// Installs the handler at address `handler` for the vector `entry`, to
    /// run in the code segment that the processor is in now, with the
    /// options of a gate in use. The options of the new descriptor are
    /// handed out, so that the caller may go on to change them.
    ///
    /// The selector is read from the processor, so it is whatever the new
    /// descriptor holds; all else is as `set_handler_in_segment` gives it.
    pub fn set_handler(&mut self, entry: u8, handler: u64) -> (options: &mut EntryOptions)
        requires
            entry < 16,
        ensures
            options@ == 0x8E00,
            options.wf(),
            options.present(),
            !options.interrupts_enabled(),
            options.privilege_level() == 0,
            options.stack_index() == 0,
            final(self)@ == old(self)@.update(
                entry as int,
                EntryView::gate(
                    final(self)@[entry as int].gdt_selector,
                    handler,
                    *final(options),
                ),
            ),
            final(self)@[entry as int].handler_address() == handler,
            old(self).wf() && final(options).wf() ==> final(self).wf(),
    {
        let gdt_selector: u16 = current_code_segment();
        self.set_handler_in_segment(entry, gdt_selector, handler)
    }

    /// The descriptor of the vector `vector`.
    pub fn entry(&self, vector: u8) -> (entry: Entry)
        requires
            vector < 16,
        ensures
            entry@ == self@[vector as int],
    {
        self.entries[vector as usize]
    }

    /// The table as the 256 bytes that the processor reads.
    pub fn to_bytes(&self) -> (bytes: [u8; 256])
        ensures
            bytes@ == self.encoding(),
    {
        let mut bytes: [u8; 256] = [0u8; 256];
        let mut vector: usize = 0;
        while vector < 16
            invariant
                vector <= 16,
                forall|i: int|
                    0 <= i < 16 * vector ==> bytes@[i] == (#[trigger] self.encoding()[i]),
            decreases 16 - vector,
        {
            let gate: [u8; 16] = self.entries[vector].to_bytes();
            let mut offset: usize = 0;
            while offset < 16
                invariant
                    vector < 16,
                    offset <= 16,
                    gate@ == self@[vector as int].encoding(),
                    forall|i: int|
                        0 <= i < 16 * vector + offset ==> bytes@[i] == (
                        #[trigger] self.encoding()[i]),
                decreases 16 - offset,
            {
                bytes[16 * vector + offset] = gate[offset];
                offset += 1;
            }
            vector += 1;
        }
        assert(bytes@ =~= self.encoding());
        bytes
    }

    /// The value for the processor's table register, for a table whose
    /// bytes stand at the address `base`: the address and the table's size
    /// less one.
    pub fn load(&self, base: u64) -> (pointer: TablePointer)
        ensures
            pointer.base == base,
            pointer.limit == 255,
            pointer.limit == self.encoding().len() - 1,
    {
        let size: usize = ENTRY_COUNT * ENTRY_SIZE;
        TablePointer { limit: (size - 1) as u16, base }
    }
}

/// The three parts of an address, put together again, give the address.
proof fn lemma_address_parts(handler: u64)
    by (bit_vector)
    ensures
        ((((handler >> 32) as u32) as u64) << 32) | ((((handler >> 16) as u16) as u64) << 16) | ((
        handler as u16) as u64) == handler,
{
}

/// The null selector is the zero word, and zero parts give the zero address.
proof fn lemma_null_words()
    by (bit_vector)
    ensures
        selector_word(0, 0) == 0,
        ((0u32 as u64) << 32) | ((0u16 as u64) << 16) | (0u16 as u64) == 0,
{
}

} // verus!
