//! The faults that stop an instruction.

use vstd::prelude::*;

verus! {

/// Why an instruction could not be decoded or executed.
///
/// The first four variants say that the byte stream selects something outside the implemented
/// subset; the last two say that an address left the 64 KiB address space. A faulting
/// instruction changes neither the registers nor memory.
#[derive(Debug, Clone, Copy, PartialEq, Eq, Structural)]
pub enum Fault {
    /// The opcode byte has no decode routine, or its width and sign bits select a form that
    /// is not implemented.
    UnimplementedOpcode(u8),
    /// The mod/reg/rm byte holds a `reg` field that the instruction does not define.
    UnimplementedSubfield(u8),
    /// The arithmetic slot (2 for `adc`, 3 for `sbb`) is reserved.
    UnimplementedArithmetic(u8),
    /// The conditional-jump slot is one of the fourteen reserved predicates.
    UnimplementedConditionalJump(u8),
    /// The instruction that starts at this address does not end before the last byte of
    /// memory, so the instruction pointer could not be advanced past it.
    FetchOutOfRange(u16),
    /// A word operand at this address would reach past the last byte of memory.
    AccessOutOfRange(u16),
}

} // verus!
