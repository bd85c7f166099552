//! Decoded instructions and their assembly text.

use vstd::prelude::*;
use crate::arithmetic::{arithmetic_instruction_encoding, arithmetic_name};
use crate::control_transfer::{
    conditional_jump_instruction_encoding, conditional_jump_name, loop_instruction_encoding,
    loop_name,
};
use crate::registers::{
    byte_register_name, expression_name, reg_expression_encoding, reg_field_encoding_16_bit,
    reg_field_encoding_8_bit, word_register_name,
};
use crate::text::{append_decimal, append_signed_decimal, decimal, signed_decimal};

verus! {

/// One operand of a decoded instruction.
#[derive(Debug, Clone, Copy, PartialEq, Eq, Structural)]
pub enum Operand {
    /// A register, by its field index in the index space of the instruction's width.
    Register(u8),
    /// The memory operand at a literal address.
    Direct(u16),
    /// The memory operand at a base and index sum, selected by its `rm` field, plus a signed
    /// displacement.
    Indexed(u8, i16),
    /// A literal value, printed unsigned.
    Immediate(u16),
    /// A literal byte that is sign-extended to the instruction's width, printed signed.
    SignedImmediate(i8),
}

/// A decoded instruction.
#[derive(Debug, Clone, Copy, PartialEq, Eq, Structural)]
pub enum Instruction {
    /// `mov destination, source`.
    Mov { wide: bool, destination: Operand, source: Operand },
    /// The arithmetic operation in `slot`, on `destination` with `source`.
    Arithmetic { slot: u8, wide: bool, destination: Operand, source: Operand },
    /// The conditional jump in `slot`, by `offset` bytes from the next instruction.
    ConditionalJump { slot: u8, offset: i8 },
    /// The loop instruction in `slot`, by `offset` bytes from the next instruction.
    Loop { slot: u8, offset: i8 },
}

/// A decoded instruction with the address of the byte that follows it.
#[derive(Debug, Clone, Copy, PartialEq, Eq, Structural)]
pub struct Decoded {
    pub instruction: Instruction,
    pub next_ip: u16,
}

/// The 16-bit value that a sign-extended byte stands for.
pub open spec fn sign_extended(value: i8) -> u16 {
    if value >= 0 {
        value as u16
    } else {
        (0x1_0000 + value) as u16
    }
}

/// The size keyword of a memory operand: `word` or `byte`.
pub open spec fn size_name(wide: bool) -> Seq<char> {
    if wide {
        "word"@
    } else {
        "byte"@
    }
}

/// The displacement as it is printed inside the brackets: nothing for zero, else a sign
/// between spaces and the magnitude.
pub open spec fn displacement_text(displacement: i16) -> Seq<char> {
    if displacement == 0 {
        Seq::empty()
    } else if displacement > 0 {
        " + "@ + decimal(displacement as nat)
    } else {
        " - "@ + decimal((-displacement) as nat)
    }
}

impl Operand {
    /// Whether the operand is in memory.
    pub open spec fn is_memory(self) -> bool {
        self is Direct || self is Indexed
    }

    /// Whether the operand is a literal.
    pub open spec fn is_immediate(self) -> bool {
        self is Immediate || self is SignedImmediate
    }

    /// Whether the operand can stand in an instruction of the given width: indexes are below
    /// 8, a literal fits the width, and only a wide instruction sign-extends a literal.
    pub open spec fn well_formed(self, wide: bool) -> bool {
        match self {
            Operand::Register(index) => index < 8,
            Operand::Direct(_) => true,
            Operand::Indexed(expression, _) => expression < 8,
            Operand::Immediate(value) => wide || value < 0x100,
            Operand::SignedImmediate(_) => wide,
        }
    }

    /// The operand as it is printed in an instruction of the given width.
    pub open spec fn text(self, wide: bool) -> Seq<char> {
        match self {
            Operand::Register(index) => if wide {
                word_register_name(index)
            } else {
                byte_register_name(index)
            },
            Operand::Direct(address) => "["@ + decimal(address as nat) + "]"@,
            Operand::Indexed(expression, displacement) => "["@ + expression_name(expression)
                + displacement_text(displacement) + "]"@,
            Operand::Immediate(value) => decimal(value as nat),
            Operand::SignedImmediate(value) => signed_decimal(value as int),
        }
    }
}

/// Whether `destination` and `source` can be the two operands of one instruction: the
/// destination is a register or in memory, and at most one of the two is in memory.
pub open spec fn operands_well_formed(wide: bool, destination: Operand, source: Operand) -> bool {
    &&& destination.well_formed(wide)
    &&& source.well_formed(wide)
    &&& !destination.is_immediate()
    &&& !(destination.is_memory() && source.is_memory())
}

impl Instruction {
    /// Whether the instruction is one that the encodings can express: its slot exists and its
    /// operands go together. A reserved slot is well formed; it has a mnemonic, though the
    /// machine cannot run it.
    pub open spec fn well_formed(self) -> bool {
        match self {
            Instruction::Mov { wide, destination, source } => {
                &&& operands_well_formed(wide, destination, source)
                &&& !(source is SignedImmediate)
            },
            Instruction::Arithmetic { slot, wide, destination, source } => {
                &&& slot < 8
                &&& operands_well_formed(wide, destination, source)
            },
            Instruction::ConditionalJump { slot, offset } => slot < 16,
            Instruction::Loop { slot, offset } => slot < 4,
        }
    }

    /// The line of assembly text for the instruction.
    ///
    /// Two operands are printed destination first. Where a literal is stored to memory the
    /// operand size is spelled out: before the literal for `mov`, before the memory operand
    /// for the arithmetic instructions.
    pub open spec fn text(self) -> Seq<char> {
        match self {
            Instruction::Mov { wide, destination, source } => {
                if destination.is_memory() && source.is_immediate() {
                    "mov "@ + destination.text(wide) + ", "@ + size_name(wide) + " "@ + source.text(
                        wide,
                    )
                } else {
                    "mov "@ + destination.text(wide) + ", "@ + source.text(wide)
                }
            },
            Instruction::Arithmetic { slot, wide, destination, source } => {
                if destination.is_memory() && source.is_immediate() {
                    arithmetic_name(slot) + " "@ + size_name(wide) + " "@ + destination.text(wide)
                        + ", "@ + source.text(wide)
                } else {
                    arithmetic_name(slot) + " "@ + destination.text(wide) + ", "@ + source.text(
                        wide,
                    )
                }
            },
            Instruction::ConditionalJump { slot, offset } => conditional_jump_name(slot) + " "@
                + signed_decimal(offset as int),
            Instruction::Loop { slot, offset } => loop_name(slot) + " "@ + signed_decimal(
                offset as int,
            ),
        }
    }
}

/// The size keyword of a memory operand.
fn size_keyword(wide: bool) -> (name: &'static str)
    ensures
        name@ == size_name(wide),
{
    if wide {
        "word"
    } else {
        "byte"
    }
}

/// Appends the text of an operand.
fn append_operand(text: &mut String, operand: Operand, wide: bool)
    requires
        operand.well_formed(wide),
    ensures
        final(text)@ == old(text)@ + operand.text(wide),
{
    match operand {
        Operand::Register(index) => {
            if wide {
                text.append(reg_field_encoding_16_bit(index));
            } else {
                text.append(reg_field_encoding_8_bit(index));
            }
        },
        Operand::Direct(address) => {
            text.append("[");
            append_decimal(text, address as u32);
            text.append("]");
        },
        Operand::Indexed(expression, displacement) => {
            text.append("[");
            text.append(reg_expression_encoding(expression));
            if displacement > 0 {
                text.append(" + ");
                append_decimal(text, displacement as u32);
            } else if displacement < 0 {
                text.append(" - ");
                append_decimal(text, (-(displacement as i32)) as u32);
            }
            text.append("]");
        },
        Operand::Immediate(value) => {
            append_decimal(text, value as u32);
        },
        Operand::SignedImmediate(value) => {
            append_signed_decimal(text, value as i32);
        },
    }
}

impl Instruction {
    /// Renders the instruction as one line of assembly text.
    pub fn to_text(&self) -> (line: String)
        requires
            self.well_formed(),
        ensures
            line@ == self.text(),
    {
        match *self {
            Instruction::Mov { wide, destination, source } => {
                let sized: bool = is_memory(destination) && is_immediate(source);
                let mut line = String::from_str("mov ");
                append_operand(&mut line, destination, wide);
                line.append(", ");
                if sized {
                    line.append(size_keyword(wide));
                    line.append(" ");
                }
                append_operand(&mut line, source, wide);
                line
            },
            Instruction::Arithmetic { slot, wide, destination, source } => {
                let sized: bool = is_memory(destination) && is_immediate(source);
                let mut line = String::from_str(arithmetic_instruction_encoding(slot));
                line.append(" ");
                if sized {
                    line.append(size_keyword(wide));
                    line.append(" ");
                }
                append_operand(&mut line, destination, wide);
                line.append(", ");
                append_operand(&mut line, source, wide);
                line
            },
            Instruction::ConditionalJump { slot, offset } => {
                let mut line = String::from_str(conditional_jump_instruction_encoding(slot));
                line.append(" ");
                append_signed_decimal(&mut line, offset as i32);
                line
            },
            Instruction::Loop { slot, offset } => {
                let mut line = String::from_str(loop_instruction_encoding(slot));
                line.append(" ");
                append_signed_decimal(&mut line, offset as i32);
                line
            },
        }
    }
}

/// Whether the operand is in memory.
pub fn is_memory(operand: Operand) -> (answer: bool)
    ensures
        answer == operand.is_memory(),
{
    match operand {
        Operand::Direct(_) => true,
        Operand::Indexed(_, _) => true,
        _ => false,
    }
}

/// Whether the operand is a literal.
pub fn is_immediate(operand: Operand) -> (answer: bool)
    ensures
        answer == operand.is_immediate(),
{
    match operand {
        Operand::Immediate(_) => true,
        Operand::SignedImmediate(_) => true,
        _ => false,
    }
}

} // verus!
