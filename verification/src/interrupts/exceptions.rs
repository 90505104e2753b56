//! The processor exceptions that have a handler, and what their handlers
//! report before they halt.

use crate::interrupts::text::{decimal, hexadecimal, push_numeral, push_str};
use vstd::prelude::*;

verus! {

/// What the processor pushes onto the stack when it enters a handler, from
/// the lowest address upwards.
#[derive(Debug, Clone, Copy, PartialEq, Eq, Structural)]
pub struct ExceptionStackFrame {
    pub instruction_pointer: u64,
    pub code_segment: u64,
    pub cpu_flags: u64,
    pub stack_pointer: u64,
    pub stack_segment: u64,
}

/// The exceptions that have a handler. Each of them is fatal.
#[derive(Debug, Clone, Copy, PartialEq, Eq, Structural)]
pub enum HardwareException {
    DivideByZero,
    InvalidOpcode,
    PageFault,
}

impl HardwareException {
    /// The vector that the processor raises the exception on.
    pub open spec fn spec_vector(&self) -> u8 {
        match self {
            HardwareException::DivideByZero => 0,
            HardwareException::InvalidOpcode => 6,
            HardwareException::PageFault => 14,
        }
    }

    /// The vector that the processor raises the exception on.
    #[verifier::when_used_as_spec(spec_vector)]
    pub fn vector(&self) -> (vector: u8)
        ensures
            vector == self.vector(),
            vector < 16,
    {
        match self {
            HardwareException::DivideByZero => 0,
            HardwareException::InvalidOpcode => 6,
            HardwareException::PageFault => 14,
        }
    }

    /// Whether the processor pushes an error code below the stack frame,
    /// which the entry stub has to take off the stack.
    pub fn pushes_error_code(&self) -> (pushes: bool)
        ensures
            pushes == (*self == HardwareException::PageFault),
    {
        match self {
            HardwareException::PageFault => true,
            _ => false,
        }
    }
}

/// One line of a frame's text: the field's name and its value in hexadecimal.
pub open spec fn field_line(name: Seq<char>, value: u64) -> Seq<char> {
    "    "@ + name + ": "@ + hexadecimal(value) + ",\n"@
}

/// The text of a stack frame: its five fields, in their order, one on each line.
pub open spec fn frame_text(frame: ExceptionStackFrame) -> Seq<char> {
    "ExceptionStackFrame {\n"@ + field_line("instruction_pointer"@, frame.instruction_pointer)
        + field_line("code_segment"@, frame.code_segment) + field_line(
        "cpu_flags"@,
        frame.cpu_flags,
    ) + field_line("stack_pointer"@, frame.stack_pointer) + field_line(
        "stack_segment"@,
        frame.stack_segment,
    ) + "}"@
}

/// What the handler of a division by zero reports.
pub open spec fn divide_by_zero_text(frame: ExceptionStackFrame) -> Seq<char> {
    "\nEXCEPTION: DIVIDE BY ZERO\n"@ + frame_text(frame)
}

/// What the handler of an invalid opcode reports.
pub open spec fn invalid_opcode_text(frame: ExceptionStackFrame) -> Seq<char> {
    "\nEXCEPTION: INVALID OPCODE AT "@ + hexadecimal(frame.instruction_pointer) + "\n"@
        + frame_text(frame)
}

/// What the handler of a page fault reports.
pub open spec fn page_fault_text(frame: ExceptionStackFrame, error_code: u64) -> Seq<char> {
    "\nEXCEPTION: PAGE FAULT WITH ERROR CODE "@ + decimal(error_code) + "\n"@ + frame_text(frame)
}

/// Appends `value` in hexadecimal, after `0x`.
fn push_hexadecimal(text: &mut String, value: u64)
    ensures
        final(text)@ == old(text)@ + hexadecimal(value),
{
    push_str(text, "0x");
    proof {
        reveal_strlit("0x");
        assert("0x"@ =~= seq!['0', 'x']);
    }
    push_numeral(text, value, 16);
    assert(text@ =~= old(text)@ + hexadecimal(value));
}

/// Appends one line of a frame's text.
fn push_field(text: &mut String, name: &str, value: u64)
    ensures
        final(text)@ == old(text)@ + field_line(name@, value),
{
    push_str(text, "    ");
    push_str(text, name);
    push_str(text, ": ");
    push_hexadecimal(text, value);
    push_str(text, ",\n");
    assert(text@ =~= old(text)@ + field_line(name@, value));
}

/// Appends the text of a stack frame.
fn push_frame(text: &mut String, frame: &ExceptionStackFrame)
    ensures
        final(text)@ == old(text)@ + frame_text(*frame),
{
    push_str(text, "ExceptionStackFrame {\n");
    push_field(text, "instruction_pointer", frame.instruction_pointer);
    push_field(text, "code_segment", frame.code_segment);
    push_field(text, "cpu_flags", frame.cpu_flags);
    push_field(text, "stack_pointer", frame.stack_pointer);
    push_field(text, "stack_segment", frame.stack_segment);
    push_str(text, "}");
    assert(text@ =~= old(text)@ + frame_text(*frame));
}

/// The report of a division by zero: the exception's name, then the stack
/// frame.
pub fn divide_by_zero_message(frame: &ExceptionStackFrame) -> (message: String)
    ensures
        message@ == divide_by_zero_text(*frame),
{
    let mut message = String::new();
    push_str(&mut message, "\nEXCEPTION: DIVIDE BY ZERO\n");
    push_frame(&mut message, frame);
    assert(message@ =~= divide_by_zero_text(*frame));
    message
}

/// The report of an invalid opcode: the exception's name, the address of
/// the instruction, then the stack frame.
pub fn invalid_opcode_message(frame: &ExceptionStackFrame) -> (message: String)
    ensures
        message@ == invalid_opcode_text(*frame),
{
    let mut message = String::new();
    push_str(&mut message, "\nEXCEPTION: INVALID OPCODE AT ");
    push_hexadecimal(&mut message, frame.instruction_pointer);
    push_str(&mut message, "\n");
    push_frame(&mut message, frame);
    assert(message@ =~= invalid_opcode_text(*frame));
    message
}

/// The report of a page fault: the exception's name, the error code that
/// the processor pushed, then the stack frame.
pub fn page_fault_message(frame: &ExceptionStackFrame, error_code: u64) -> (message: String)
    ensures
        message@ == page_fault_text(*frame, error_code),
{
    let mut message = String::new();
    push_str(&mut message, "\nEXCEPTION: PAGE FAULT WITH ERROR CODE ");
    push_numeral(&mut message, error_code, 10);
    push_str(&mut message, "\n");
    push_frame(&mut message, frame);
    assert(message@ =~= page_fault_text(*frame, error_code));
    message
}

} // verus!
