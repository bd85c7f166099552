//! The data-transfer unit: `mov` in its five encodings.

use vstd::prelude::*;
use crate::decoding::{
    complete, fits, immediate_at, immediate_length, read_immediate, read_rm_form, rm_form_at,
    step_agrees, stepped,
};
use crate::execution::machine;
use crate::fault::Fault;
use crate::fields::{
    d_bit, d_bit_of, reg_field, reg_field_of, register_w_bit, register_w_bit_of, rm_field,
    rm_field_of, w_bit, w_bit_of,
};
use crate::instruction::{Decoded, Instruction, Operand};
use crate::memory::{byte_at, grab_instruction_word, load_byte, word_at, Memory};
use crate::registers::Registers;

verus! {

/// The `mov` between a register and a register or memory operand whose opcode byte is at
/// `ip`: the width bit selects the width, and the direction bit says whether the `reg` field
/// is the destination.
pub open spec fn mov_mem_reg_to_from_reg_at(memory: Seq<u8>, ip: u16) -> Result<Decoded, Fault> {
    let opcode = byte_at(memory, ip);
    match rm_form_at(memory, ip) {
        None => Err(Fault::FetchOutOfRange(ip)),
        Some(form) => Ok(
            Decoded {
                instruction: Instruction::Mov {
                    wide: w_bit(opcode),
                    destination: if d_bit(opcode) {
                        Operand::Register(form.reg)
                    } else {
                        form.operand
                    },
                    source: if d_bit(opcode) {
                        form.operand
                    } else {
                        Operand::Register(form.reg)
                    },
                },
                next_ip: form.next_ip,
            },
        ),
    }
}

/// Reads a `mov` between a register and a register or memory operand.
pub fn read_mov_mem_reg_to_from_reg(memory: &Memory, ip: u16) -> (decoded: Result<Decoded, Fault>)
    ensures
        decoded == mov_mem_reg_to_from_reg_at(memory@, ip),
        decoded matches Ok(decoded) ==> decoded.instruction.well_formed(),
{
    let opcode: u8 = load_byte(memory, ip);
    let wide: bool = w_bit_of(opcode);
    let to_register: bool = d_bit_of(opcode);
    match read_rm_form(memory, ip) {
        None => Err(Fault::FetchOutOfRange(ip)),
        Some(form) => {
            let register: Operand = Operand::Register(form.reg);
            let instruction: Instruction = if to_register {
                Instruction::Mov { wide, destination: register, source: form.operand }
            } else {
                Instruction::Mov { wide, destination: form.operand, source: register }
            };
            Ok(Decoded { instruction, next_ip: form.next_ip })
        },
    }
}

/// Decodes and runs the `mov` between a register and a register or memory operand at the
/// instruction pointer, and returns its line of assembly text.
pub fn decode_mov_mem_reg_to_from_reg_encoding(
    registers: &mut Registers,
    memory: &mut Memory,
) -> (result: Result<String, Fault>)
    ensures
        step_agrees(
            stepped(
                mov_mem_reg_to_from_reg_at(old(memory)@, old(registers).ip),
                *old(registers),
                old(memory)@,
            ),
            result,
            machine(*old(registers), old(memory)@),
            machine(*final(registers), final(memory)@),
        ),
{
    let decoded = read_mov_mem_reg_to_from_reg(memory, registers.ip);
    complete(decoded, registers, memory)
}

/// The `mov` of a literal to a register or memory operand whose opcode byte is at `ip`. The
/// `reg` field of its mod/reg/rm byte must be zero; the literal follows the displacement.
pub open spec fn mov_imm_to_reg_mem_at(memory: Seq<u8>, ip: u16) -> Result<Decoded, Fault> {
    let wide = w_bit(byte_at(memory, ip));
    let modrm = byte_at(memory, (ip + 1) as u16);
    if !fits(ip, 2) {
        Err(Fault::FetchOutOfRange(ip))
    } else if reg_field(modrm) != 0 {
        Err(Fault::UnimplementedSubfield(modrm))
    } else {
        match rm_form_at(memory, ip) {
            None => Err(Fault::FetchOutOfRange(ip)),
            Some(form) => if !fits(form.next_ip, immediate_length(wide)) {
                Err(Fault::FetchOutOfRange(ip))
            } else {
                Ok(
                    Decoded {
                        instruction: Instruction::Mov {
                            wide,
                            destination: form.operand,
                            source: immediate_at(memory, form.next_ip, wide),
                        },
                        next_ip: (form.next_ip + immediate_length(wide)) as u16,
                    },
                )
            },
        }
    }
}

/// Reads a `mov` of a literal to a register or memory operand.
pub fn read_mov_imm_to_reg_mem(memory: &Memory, ip: u16) -> (decoded: Result<Decoded, Fault>)
    ensures
        decoded == mov_imm_to_reg_mem_at(memory@, ip),
        decoded matches Ok(decoded) ==> decoded.instruction.well_formed(),
{
    let wide: bool = w_bit_of(load_byte(memory, ip));
    if ip > 0xFFFF - 2 {
        return Err(Fault::FetchOutOfRange(ip));
    }
    let modrm: u8 = load_byte(memory, ip + 1);
    if reg_field_of(modrm) != 0 {
        return Err(Fault::UnimplementedSubfield(modrm));
    }
    match read_rm_form(memory, ip) {
        None => Err(Fault::FetchOutOfRange(ip)),
        Some(form) => {
            let needed: u16 = if wide {
                2
            } else {
                1
            };
            if form.next_ip > 0xFFFF - needed {
                return Err(Fault::FetchOutOfRange(ip));
            }
            let mut cursor: u16 = form.next_ip;
            let source: Operand = read_immediate(memory, &mut cursor, wide);
            Ok(
                Decoded {
                    instruction: Instruction::Mov { wide, destination: form.operand, source },
                    next_ip: cursor,
                },
            )
        },
    }
}

/// Decodes and runs the `mov` of a literal to a register or memory operand at the instruction
/// pointer, and returns its line of assembly text.
pub fn decode_mov_imm_to_reg_mem_encoding(
    registers: &mut Registers,
    memory: &mut Memory,
) -> (result: Result<String, Fault>)
    ensures
        step_agrees(
            stepped(
                mov_imm_to_reg_mem_at(old(memory)@, old(registers).ip),
                *old(registers),
                old(memory)@,
            ),
            result,
            machine(*old(registers), old(memory)@),
            machine(*final(registers), final(memory)@),
        ),
{
    let decoded = read_mov_imm_to_reg_mem(memory, registers.ip);
    complete(decoded, registers, memory)
}

/// The `mov` of a literal to a register whose one-byte opcode is at `ip`: the three low bits
/// of the opcode select the register and bit 3 the width.
pub open spec fn mov_imm_to_reg_at(memory: Seq<u8>, ip: u16) -> Result<Decoded, Fault> {
    let opcode = byte_at(memory, ip);
    let wide = register_w_bit(opcode);
    if !fits(ip, 1 + immediate_length(wide)) {
        Err(Fault::FetchOutOfRange(ip))
    } else {
        Ok(
            Decoded {
                instruction: Instruction::Mov {
                    wide,
                    destination: Operand::Register(rm_field(opcode)),
                    source: immediate_at(memory, (ip + 1) as u16, wide),
                },
                next_ip: (ip + 1 + immediate_length(wide)) as u16,
            },
        )
    }
}

/// Reads a `mov` of a literal to a register.
pub fn read_mov_imm_to_reg(memory: &Memory, ip: u16) -> (decoded: Result<Decoded, Fault>)
    ensures
        decoded == mov_imm_to_reg_at(memory@, ip),
        decoded matches Ok(decoded) ==> decoded.instruction.well_formed(),
{
    let opcode: u8 = load_byte(memory, ip);
    let wide: bool = register_w_bit_of(opcode);
    let reg_field: u8 = rm_field_of(opcode);
    let needed: u16 = if wide {
        3
    } else {
        2
    };
    if ip > 0xFFFF - needed {
        return Err(Fault::FetchOutOfRange(ip));
    }
    let mut cursor: u16 = ip + 1;
    let source: Operand = read_immediate(memory, &mut cursor, wide);
    Ok(
        Decoded {
            instruction: Instruction::Mov {
                wide,
                destination: Operand::Register(reg_field),
                source,
            },
            next_ip: cursor,
        },
    )
}

/// Decodes and runs the `mov` of a literal to a register at the instruction pointer, and
/// returns its line of assembly text.
pub fn decode_mov_imm_to_reg_encoding(
    registers: &mut Registers,
    memory: &mut Memory,
) -> (result: Result<String, Fault>)
    ensures
        step_agrees(
            stepped(
                mov_imm_to_reg_at(old(memory)@, old(registers).ip),
                *old(registers),
                old(memory)@,
            ),
            result,
            machine(*old(registers), old(memory)@),
            machine(*final(registers), final(memory)@),
        ),
{
    let decoded = read_mov_imm_to_reg(memory, registers.ip);
    complete(decoded, registers, memory)
}

/// The `mov` from a literal address to the accumulator whose opcode byte is at `ip`.
pub open spec fn mov_mem_to_acc_at(memory: Seq<u8>, ip: u16) -> Result<Decoded, Fault> {
    if !fits(ip, 3) {
        Err(Fault::FetchOutOfRange(ip))
    } else {
        Ok(
            Decoded {
                instruction: Instruction::Mov {
                    wide: w_bit(byte_at(memory, ip)),
                    destination: Operand::Register(0),
                    source: Operand::Direct(word_at(memory, (ip + 1) as u16)),
                },
                next_ip: (ip + 3) as u16,
            },
        )
    }
}

/// Reads a `mov` from a literal address to the accumulator.
pub fn read_mov_mem_to_acc(memory: &Memory, ip: u16) -> (decoded: Result<Decoded, Fault>)
    ensures
        decoded == mov_mem_to_acc_at(memory@, ip),
        decoded matches Ok(decoded) ==> decoded.instruction.well_formed(),
{
    let wide: bool = w_bit_of(load_byte(memory, ip));
    if ip > 0xFFFF - 3 {
        return Err(Fault::FetchOutOfRange(ip));
    }
    let mut cursor: u16 = ip + 1;
    let address: u16 = grab_instruction_word(memory, &mut cursor);
    Ok(
        Decoded {
            instruction: Instruction::Mov {
                wide,
                destination: Operand::Register(0),
                source: Operand::Direct(address),
            },
            next_ip: cursor,
        },
    )
}

/// Decodes and runs the `mov` from a literal address to the accumulator at the instruction
/// pointer, and returns its line of assembly text.
pub fn decode_mov_mem_to_acc_encoding(
    registers: &mut Registers,
    memory: &mut Memory,
) -> (result: Result<String, Fault>)
    ensures
        step_agrees(
            stepped(
                mov_mem_to_acc_at(old(memory)@, old(registers).ip),
                *old(registers),
                old(memory)@,
            ),
            result,
            machine(*old(registers), old(memory)@),
            machine(*final(registers), final(memory)@),
        ),
{
    let decoded = read_mov_mem_to_acc(memory, registers.ip);
    complete(decoded, registers, memory)
}

/// The `mov` from the accumulator to a literal address whose opcode byte is at `ip`.
pub open spec fn mov_acc_to_mem_at(memory: Seq<u8>, ip: u16) -> Result<Decoded, Fault> {
    if !fits(ip, 3) {
        Err(Fault::FetchOutOfRange(ip))
    } else {
        Ok(
            Decoded {
                instruction: Instruction::Mov {
                    wide: w_bit(byte_at(memory, ip)),
                    destination: Operand::Direct(word_at(memory, (ip + 1) as u16)),
                    source: Operand::Register(0),
                },
                next_ip: (ip + 3) as u16,
            },
        )
    }
}

/// Reads a `mov` from the accumulator to a literal address.
pub fn read_mov_acc_to_mem(memory: &Memory, ip: u16) -> (decoded: Result<Decoded, Fault>)
    ensures
        decoded == mov_acc_to_mem_at(memory@, ip),
        decoded matches Ok(decoded) ==> decoded.instruction.well_formed(),
{
    let wide: bool = w_bit_of(load_byte(memory, ip));
    if ip > 0xFFFF - 3 {
        return Err(Fault::FetchOutOfRange(ip));
    }
    let mut cursor: u16 = ip + 1;
    let address: u16 = grab_instruction_word(memory, &mut cursor);
    Ok(
        Decoded {
            instruction: Instruction::Mov {
                wide,
                destination: Operand::Direct(address),
                source: Operand::Register(0),
            },
            next_ip: cursor,
        },
    )
}

/// Decodes and runs the `mov` from the accumulator to a literal address at the instruction
/// pointer, and returns its line of assembly text.
pub fn decode_mov_acc_to_mem_encoding(
    registers: &mut Registers,
    memory: &mut Memory,
) -> (result: Result<String, Fault>)
    ensures
        step_agrees(
            stepped(
                mov_acc_to_mem_at(old(memory)@, old(registers).ip),
                *old(registers),
                old(memory)@,
            ),
            result,
            machine(*old(registers), old(memory)@),
            machine(*final(registers), final(memory)@),
        ),
{
    let decoded = read_mov_acc_to_mem(memory, registers.ip);
    complete(decoded, registers, memory)
}

} // verus!
