//! The control-transfer unit: the conditional jumps and the loop family.

use vstd::prelude::*;
use crate::arithmetic::difference_16;
use crate::decoding::{complete, fits, step_agrees, stepped};
use crate::execution::machine;
use crate::fault::Fault;
use crate::fields::{as_signed_byte, conditional_jump_slot_of, loop_slot_of, signed_byte};
use crate::instruction::{Decoded, Instruction};
use crate::memory::{byte_at, grab_instruction_byte, Memory};
use crate::registers::{zero_flag, Registers, ZF_FLAG_BIT};

verus! {

/// The mnemonic of the conditional-jump slot `instruction_index`.
pub open spec fn conditional_jump_name(instruction_index: u8) -> Seq<char> {
    if instruction_index == 0 {
        "jo"@
    } else if instruction_index == 1 {
        "jno"@
    } else if instruction_index == 2 {
        "jb"@
    } else if instruction_index == 3 {
        "jnb"@
    } else if instruction_index == 4 {
        "je"@
    } else if instruction_index == 5 {
        "jne"@
    } else if instruction_index == 6 {
        "jbe"@
    } else if instruction_index == 7 {
        "ja"@
    } else if instruction_index == 8 {
        "js"@
    } else if instruction_index == 9 {
        "jns"@
    } else if instruction_index == 10 {
        "jp"@
    } else if instruction_index == 11 {
        "jnp"@
    } else if instruction_index == 12 {
        "jl"@
    } else if instruction_index == 13 {
        "jnl"@
    } else if instruction_index == 14 {
        "jle"@
    } else {
        "jg"@
    }
}

/// The mnemonic of a conditional-jump slot.
pub fn conditional_jump_instruction_encoding(instruction_index: u8) -> (name: &'static str)
    requires
        instruction_index < 16,
    ensures
        name@ == conditional_jump_name(instruction_index),
{
    match instruction_index {
        0 => "jo",
        1 => "jno",
        2 => "jb",
        3 => "jnb",
        4 => "je",
        5 => "jne",
        6 => "jbe",
        7 => "ja",
        8 => "js",
        9 => "jns",
        10 => "jp",
        11 => "jnp",
        12 => "jl",
        13 => "jnl",
        14 => "jle",
        _ => "jg",
    }
}

/// Whether the predicate of the conditional-jump slot is implemented: `je` and `jne` are.
pub open spec fn conditional_jump_implemented(instruction_index: u8) -> bool {
    instruction_index == 4 || instruction_index == 5
}

/// Whether the conditional jump in an implemented slot is taken: `je` jumps when the zero
/// flag is set, `jne` when it is clear.
pub open spec fn conditional_jump_taken(instruction_index: u8, flags: u16) -> bool {
    if instruction_index == 4 {
        zero_flag(flags)
    } else {
        !zero_flag(flags)
    }
}

/// The entry of the fourteen reserved conditional-jump slots: there is no predicate to
/// evaluate.
pub fn unimplemented_conditional_jump_instruction_test(
    _flags_register: u16,
) -> (answer: Option<bool>)
    ensures
        answer is None,
{
    None
}

/// The predicate of `je`: the zero flag is set.
pub fn je_test(flags_register: u16) -> (taken: bool)
    ensures
        taken == zero_flag(flags_register),
{
    flags_register & ZF_FLAG_BIT != 0
}

/// The predicate of `jne`: the zero flag is clear.
pub fn jne_test(flags_register: u16) -> (taken: bool)
    ensures
        taken == !zero_flag(flags_register),
{
    flags_register & ZF_FLAG_BIT == 0
}

/// Evaluates the predicate of a conditional-jump slot, if it is implemented.
pub fn conditional_jump_test(instruction_index: u8, flags_register: u16) -> (answer: Option<bool>)
    ensures
        conditional_jump_implemented(instruction_index) ==> answer == Some(
            conditional_jump_taken(instruction_index, flags_register),
        ),
        !conditional_jump_implemented(instruction_index) ==> answer is None,
{
    match instruction_index {
        4 => Some(je_test(flags_register)),
        5 => Some(jne_test(flags_register)),
        _ => unimplemented_conditional_jump_instruction_test(flags_register),
    }
}

/// The instruction pointer after a branch by `offset` from `ip`, modulo 2^16.
pub open spec fn branch_target(ip: u16, offset: i8) -> u16 {
    ((ip + offset) % 0x1_0000) as u16
}

/// Moves the instruction pointer by `offset`, modulo 2^16.
pub fn branch(ip: &mut u16, offset: i8)
    ensures
        *final(ip) == branch_target(*old(ip), offset),
{
    *ip = ip.wrapping_add_signed(offset as i16);
}

/// The conditional jump whose opcode byte is at `ip`: the four low bits of the opcode select
/// the predicate, and the next byte is the signed offset.
pub open spec fn conditional_jump_at(memory: Seq<u8>, ip: u16) -> Result<Decoded, Fault> {
    if !fits(ip, 2) {
        Err(Fault::FetchOutOfRange(ip))
    } else {
        Ok(
            Decoded {
                instruction: Instruction::ConditionalJump {
                    slot: byte_at(memory, ip) % 16,
                    offset: signed_byte(byte_at(memory, (ip + 1) as u16)),
                },
                next_ip: (ip + 2) as u16,
            },
        )
    }
}

/// Reads a conditional jump.
pub fn read_conditional_jump(memory: &Memory, ip: u16) -> (decoded: Result<Decoded, Fault>)
    ensures
        decoded == conditional_jump_at(memory@, ip),
        decoded matches Ok(decoded) ==> decoded.instruction.well_formed(),
{
    if ip > 0xFFFF - 2 {
        return Err(Fault::FetchOutOfRange(ip));
    }
    let mut cursor: u16 = ip;
    let opcode: u8 = grab_instruction_byte(memory, &mut cursor);
    let instruction_index: u8 = conditional_jump_slot_of(opcode);
    let offset: i8 = as_signed_byte(grab_instruction_byte(memory, &mut cursor));
    Ok(
        Decoded {
            instruction: Instruction::ConditionalJump { slot: instruction_index, offset },
            next_ip: cursor,
        },
    )
}

/// Decodes and runs the conditional jump at the instruction pointer, and returns its line of
/// assembly text.
pub fn decode_conditional_jump_encoding(
    registers: &mut Registers,
    memory: &mut Memory,
) -> (result: Result<String, Fault>)
    ensures
        step_agrees(
            stepped(
                conditional_jump_at(old(memory)@, old(registers).ip),
                *old(registers),
                old(memory)@,
            ),
            result,
            machine(*old(registers), old(memory)@),
            machine(*final(registers), final(memory)@),
        ),
{
    let decoded = read_conditional_jump(memory, registers.ip);
    complete(decoded, registers, memory)
}

/// The mnemonic of the loop slot `instruction_index`.
pub open spec fn loop_name(instruction_index: u8) -> Seq<char> {
    if instruction_index == 0 {
        "loopnz"@
    } else if instruction_index == 1 {
        "loopz"@
    } else if instruction_index == 2 {
        "loop"@
    } else {
        "jcxz"@
    }
}

/// The mnemonic of a loop slot.
pub fn loop_instruction_encoding(instruction_index: u8) -> (name: &'static str)
    requires
        instruction_index < 4,
    ensures
        name@ == loop_name(instruction_index),
{
    match instruction_index {
        0 => "loopnz",
        1 => "loopz",
        2 => "loop",
        _ => "jcxz",
    }
}

/// The register file after the test of the loop instruction in `instruction_index`:
/// `loopnz`, `loopz` and `loop` count `cx` down by one, modulo 2^16; `jcxz` changes nothing.
pub open spec fn loop_counted(registers: Registers, instruction_index: u8) -> Registers {
    if instruction_index == 3 {
        registers
    } else {
        Registers { cx: difference_16(registers.cx, 1), ..registers }
    }
}

/// Whether the loop instruction in `instruction_index` branches, given the register file
/// after its count: `loop` when `cx` is not zero, `loopz` when moreover the zero flag is set,
/// `loopnz` when moreover it is clear, and `jcxz` when `cx` is zero.
pub open spec fn loop_taken(registers: Registers, instruction_index: u8) -> bool {
    if instruction_index == 0 {
        registers.cx != 0 && !zero_flag(registers.flags)
    } else if instruction_index == 1 {
        registers.cx != 0 && zero_flag(registers.flags)
    } else if instruction_index == 2 {
        registers.cx != 0
    } else {
        registers.cx == 0
    }
}

/// The test of `loopnz`: counts `cx` down, and branches while it is not zero and the zero flag
/// is clear.
pub fn loopnz_test(registers: &mut Registers) -> (taken: bool)
    ensures
        *final(registers) == loop_counted(*old(registers), 0),
        taken == loop_taken(*final(registers), 0),
{
    registers.cx = registers.cx.wrapping_sub(1);
    registers.cx != 0 && registers.flags & ZF_FLAG_BIT == 0
}

/// The test of `loopz`: counts `cx` down, and branches while it is not zero and the zero flag
/// is set.
pub fn loopz_test(registers: &mut Registers) -> (taken: bool)
    ensures
        *final(registers) == loop_counted(*old(registers), 1),
        taken == loop_taken(*final(registers), 1),
{
    registers.cx = registers.cx.wrapping_sub(1);
    registers.cx != 0 && registers.flags & ZF_FLAG_BIT != 0
}

/// The test of `loop`: counts `cx` down, and branches while it is not zero.
pub fn loop_test(registers: &mut Registers) -> (taken: bool)
    ensures
        *final(registers) == loop_counted(*old(registers), 2),
        taken == loop_taken(*final(registers), 2),
{
    registers.cx = registers.cx.wrapping_sub(1);
    registers.cx != 0
}

/// The test of `jcxz`: branches when `cx` is zero, and counts nothing.
pub fn jcxz_test(registers: &mut Registers) -> (taken: bool)
    ensures
        *final(registers) == loop_counted(*old(registers), 3),
        taken == loop_taken(*final(registers), 3),
{
    registers.cx == 0
}

/// Runs the test of a loop slot: counts `cx` down where the instruction does, and says
/// whether it branches.
pub fn loop_instruction_test(instruction_index: u8, registers: &mut Registers) -> (taken: bool)
    requires
        instruction_index < 4,
    ensures
        *final(registers) == loop_counted(*old(registers), instruction_index),
        taken == loop_taken(*final(registers), instruction_index),
{
    match instruction_index {
        0 => loopnz_test(registers),
        1 => loopz_test(registers),
        2 => loop_test(registers),
        _ => jcxz_test(registers),
    }
}

/// The loop instruction whose opcode byte is at `ip`: the two low bits of the opcode select
/// the instruction, and the next byte is the signed offset.
pub open spec fn loop_at(memory: Seq<u8>, ip: u16) -> Result<Decoded, Fault> {
    if !fits(ip, 2) {
        Err(Fault::FetchOutOfRange(ip))
    } else {
        Ok(
            Decoded {
                instruction: Instruction::Loop {
                    slot: byte_at(memory, ip) % 4,
                    offset: signed_byte(byte_at(memory, (ip + 1) as u16)),
                },
                next_ip: (ip + 2) as u16,
            },
        )
    }
}

/// Reads a loop instruction.
pub fn read_loop(memory: &Memory, ip: u16) -> (decoded: Result<Decoded, Fault>)
    ensures
        decoded == loop_at(memory@, ip),
        decoded matches Ok(decoded) ==> decoded.instruction.well_formed(),
{
    if ip > 0xFFFF - 2 {
        return Err(Fault::FetchOutOfRange(ip));
    }
    let mut cursor: u16 = ip;
    let opcode: u8 = grab_instruction_byte(memory, &mut cursor);
    let instruction_index: u8 = loop_slot_of(opcode);
    let offset: i8 = as_signed_byte(grab_instruction_byte(memory, &mut cursor));
    Ok(
        Decoded {
            instruction: Instruction::Loop { slot: instruction_index, offset },
            next_ip: cursor,
        },
    )
}

/// Decodes and runs the loop instruction at the instruction pointer, and returns its line of
/// assembly text.
pub fn decode_loop_encoding(
    registers: &mut Registers,
    memory: &mut Memory,
) -> (result: Result<String, Fault>)
    ensures
        step_agrees(
            stepped(
                loop_at(old(memory)@, old(registers).ip),
                *old(registers),
                old(memory)@,
            ),
            result,
            machine(*old(registers), old(memory)@),
            machine(*final(registers), final(memory)@),
        ),
{
    let decoded = read_loop(memory, registers.ip);
    complete(decoded, registers, memory)
}

} // verus!
