//! The options word of a gate descriptor, and its four fields.

use crate::interrupts::bits::{
    bit_at, bits_at, fits_range, get_bit, get_bits, set_bit, set_bits, with_bit, with_bits,
};
use vstd::prelude::*;

verus! {

/// The options word of a gate descriptor.
///
/// Bit 15 marks the entry present, bit 8 leaves interrupts enabled while the
/// handler runs, bits 13 and 14 hold the privilege level, bits 0 to 2 the
/// index of the stack to switch to. Bits 9 to 11 always read `111`.
#[derive(Debug, Clone, Copy)]
pub struct EntryOptions(u16);

impl View for EntryOptions {
    type V = u16;

    closed spec fn view(&self) -> u16 {
        self.0
    }
}

impl EntryOptions {
    /// Whether the entry is present.
    pub open spec fn spec_present(&self) -> bool {
        self@ & 0x8000 != 0
    }

    /// Whether interrupts stay enabled while the handler runs.
    pub open spec fn spec_interrupts_enabled(&self) -> bool {
        self@ & 0x0100 != 0
    }

    /// The privilege level needed to call the handler, 0 to 3.
    pub open spec fn spec_privilege_level(&self) -> u16 {
        (self@ >> 13) & 3
    }

    /// The index of the stack to switch to, 0 to 7.
    pub open spec fn spec_stack_index(&self) -> u16 {
        self@ & 7
    }

    /// The three reserved bits, 9 to 11.
    pub open spec fn reserved(&self) -> u16 {
        (self@ >> 9) & 7
    }

    /// The reserved bits read `111`.
    pub open spec fn wf(&self) -> bool {
        self.reserved() == 7
    }

    /// The options of a gate that is not there: the reserved bits and nothing else.
    pub fn minimal() -> (options: Self)
        ensures
            options@ == 0x0E00,
            options.wf(),
            !options.present(),
            !options.interrupts_enabled(),
            options.privilege_level() == 0,
            options.stack_index() == 0,
    {
        let mut word: u16 = 0;
        proof {
            lemma_constant_words();
        }
        set_bits(&mut word, 9, 12, 0b111);
        EntryOptions(word)
    }

    /// The options of a gate in use: present, with interrupts disabled while
    /// the handler runs, at privilege level 0 and without a stack switch.
    pub fn new() -> (options: Self)
        ensures
            options@ == 0x8E00,
            options.wf(),
            options.present(),
            !options.interrupts_enabled(),
            options.privilege_level() == 0,
            options.stack_index() == 0,
    {
        let mut options = Self::minimal();
        proof {
            lemma_constant_words();
        }
        options.set_present(true).disable_interrupts(true);
        options
    }

    /// Marks the entry present or absent.
    pub fn set_present(&mut self, present: bool) -> (ret: &mut Self)
        ensures
            ret@ == with_bit(old(self)@, 15, present),
            ret.present() == present,
            ret.interrupts_enabled() == old(self).interrupts_enabled(),
            ret.privilege_level() == old(self).privilege_level(),
            ret.stack_index() == old(self).stack_index(),
            ret.reserved() == old(self).reserved(),
            *final(self) == *final(ret),
    {
        proof {
            lemma_bit_15(self.0, present);
        }
        set_bit(&mut self.0, 15, present);
        self
    }

    /// Leaves interrupts enabled while the handler runs, or disables them.
    pub fn set_interrupts_enabled(&mut self, enabled: bool) -> (ret: &mut Self)
        ensures
            ret@ == with_bit(old(self)@, 8, enabled),
            ret.interrupts_enabled() == enabled,
            ret.present() == old(self).present(),
            ret.privilege_level() == old(self).privilege_level(),
            ret.stack_index() == old(self).stack_index(),
            ret.reserved() == old(self).reserved(),
            *final(self) == *final(ret),
    {
        proof {
            lemma_bit_8(self.0, enabled);
        }
        set_bit(&mut self.0, 8, enabled);
        self
    }

    /// Disables interrupts while the handler runs, or, with `false`, leaves
    /// them enabled.
    pub fn disable_interrupts(&mut self, disable: bool) -> (ret: &mut Self)
        ensures
            ret@ == with_bit(old(self)@, 8, !disable),
            ret.interrupts_enabled() == !disable,
            ret.present() == old(self).present(),
            ret.privilege_level() == old(self).privilege_level(),
            ret.stack_index() == old(self).stack_index(),
            ret.reserved() == old(self).reserved(),
            *final(self) == *final(ret),
    {
        self.set_interrupts_enabled(!disable)
    }

    /// Sets the privilege level needed to call the handler.
    pub fn set_privilege_level(&mut self, dpl: u16) -> (ret: &mut Self)
        requires
            dpl <= 3,
        ensures
            ret@ == with_bits(old(self)@, 13, 15, dpl),
            ret.privilege_level() == dpl,
            ret.present() == old(self).present(),
            ret.interrupts_enabled() == old(self).interrupts_enabled(),
            ret.stack_index() == old(self).stack_index(),
            ret.reserved() == old(self).reserved(),
            *final(self) == *final(ret),
    {
        proof {
            lemma_bits_13_to_15(self.0, dpl);
        }
        set_bits(&mut self.0, 13, 15, dpl);
        self
    }

    /// Sets the index of the stack that the processor switches to; 0 means
    /// no switch.
    pub fn set_stack_index(&mut self, index: u16) -> (ret: &mut Self)
        requires
            index <= 7,
        ensures
            ret@ == with_bits(old(self)@, 0, 3, index),
            ret.stack_index() == index,
            ret.present() == old(self).present(),
            ret.interrupts_enabled() == old(self).interrupts_enabled(),
            ret.privilege_level() == old(self).privilege_level(),
            ret.reserved() == old(self).reserved(),
            *final(self) == *final(ret),
    {
        proof {
            lemma_bits_0_to_3(self.0, index);
        }
        set_bits(&mut self.0, 0, 3, index);
        self
    }

    /// The options word as the processor reads it.
    pub fn bits(&self) -> (word: u16)
        ensures
            word == self@,
    {
        self.0
    }

    /// Whether the entry is present.
    #[verifier::when_used_as_spec(spec_present)]
    pub fn present(&self) -> (value: bool)
        ensures
            value == self.present(),
    {
        proof {
            lemma_readers(self.0);
        }
        get_bit(self.0, 15)
    }

    /// Whether interrupts stay enabled while the handler runs.
    #[verifier::when_used_as_spec(spec_interrupts_enabled)]
    pub fn interrupts_enabled(&self) -> (value: bool)
        ensures
            value == self.interrupts_enabled(),
    {
        proof {
            lemma_readers(self.0);
        }
        get_bit(self.0, 8)
    }

    /// The privilege level needed to call the handler.
    #[verifier::when_used_as_spec(spec_privilege_level)]
    pub fn privilege_level(&self) -> (level: u16)
        ensures
            level == self.privilege_level(),
            level <= 3,
    {
        proof {
            lemma_readers(self.0);
        }
        get_bits(self.0, 13, 15)
    }

    /// The index of the stack that the processor switches to.
    #[verifier::when_used_as_spec(spec_stack_index)]
    pub fn stack_index(&self) -> (index: u16)
        ensures
            index == self.stack_index(),
            index <= 7,
    {
        proof {
            lemma_readers(self.0);
        }
        get_bits(self.0, 0, 3)
    }
}

/// The words that the two constructors go through.
proof fn lemma_constant_words()
    by (bit_vector)
    ensures
        fits_range(9, 12, 7),
        with_bits(0, 9, 12, 7) == 0x0E00,
        (0x0E00u16 >> 9) & 7 == 7,
        0x0E00u16 & 0x8000 == 0,
        0x0E00u16 & 0x0100 == 0,
        (0x0E00u16 >> 13) & 3 == 0,
        0x0E00u16 & 7 == 0,
        with_bit(with_bit(0x0E00, 15, true), 8, false) == 0x8E00,
        (0x8E00u16 >> 9) & 7 == 7,
        0x8E00u16 & 0x8000 != 0,
        0x8E00u16 & 0x0100 == 0,
        (0x8E00u16 >> 13) & 3 == 0,
        0x8E00u16 & 7 == 0,
{
}

/// Writing bit 15 changes the present flag and no other field.
proof fn lemma_bit_15(word: u16, value: bool)
    by (bit_vector)
    ensures
        (with_bit(word, 15, value) & 0x8000 != 0) == value,
        with_bit(word, 15, value) & 0x0100 == word & 0x0100,
        (with_bit(word, 15, value) >> 13) & 3 == (word >> 13) & 3,
        with_bit(word, 15, value) & 7 == word & 7,
        (with_bit(word, 15, value) >> 9) & 7 == (word >> 9) & 7,
{
}

/// Writing bit 8 changes the interrupt flag and no other field.
proof fn lemma_bit_8(word: u16, value: bool)
    by (bit_vector)
    ensures
        (with_bit(word, 8, value) & 0x0100 != 0) == value,
        with_bit(word, 8, value) & 0x8000 == word & 0x8000,
        (with_bit(word, 8, value) >> 13) & 3 == (word >> 13) & 3,
        with_bit(word, 8, value) & 7 == word & 7,
        (with_bit(word, 8, value) >> 9) & 7 == (word >> 9) & 7,
{
}

/// A level up to 3 fits bits 13 and 14, and writing them changes no other field.
proof fn lemma_bits_13_to_15(word: u16, value: u16)
    by (bit_vector)
    requires
        value <= 3,
    ensures
        fits_range(13, 15, value),
        (with_bits(word, 13, 15, value) >> 13) & 3 == value,
        with_bits(word, 13, 15, value) & 0x8000 == word & 0x8000,
        with_bits(word, 13, 15, value) & 0x0100 == word & 0x0100,
        with_bits(word, 13, 15, value) & 7 == word & 7,
        (with_bits(word, 13, 15, value) >> 9) & 7 == (word >> 9) & 7,
{
}

/// An index up to 7 fits bits 0 to 2, and writing them changes no other field.
proof fn lemma_bits_0_to_3(word: u16, value: u16)
    by (bit_vector)
    requires
        value <= 7,
    ensures
        fits_range(0, 3, value),
        with_bits(word, 0, 3, value) & 7 == value,
        with_bits(word, 0, 3, value) & 0x8000 == word & 0x8000,
        with_bits(word, 0, 3, value) & 0x0100 == word & 0x0100,
        (with_bits(word, 0, 3, value) >> 13) & 3 == (word >> 13) & 3,
        (with_bits(word, 0, 3, value) >> 9) & 7 == (word >> 9) & 7,
{
}

/// What the readers of single bits and of bit ranges give for the four fields.
proof fn lemma_readers(word: u16)
    by (bit_vector)
    ensures
        bit_at(word, 15) == (word & 0x8000 != 0),
        bit_at(word, 8) == (word & 0x0100 != 0),
        bits_at(word, 13, 15) == (word >> 13) & 3,
        bits_at(word, 0, 3) == word & 7,
        (word >> 13) & 3 <= 3,
        word & 7 <= 7,
{
}

} // verus!
