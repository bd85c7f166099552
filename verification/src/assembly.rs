//! The machine code of each instruction, and the proof that the decoder inverts it.

use vstd::prelude::*;
use crate::arithmetic::arithmetic_immediate_at;
use crate::decoding::{fits, immediate_length, rm_form_at, stepped};
use crate::dispatch::decoded_at;
use crate::fault::Fault;
use crate::fields::{mod_field, reg_field, rm_field};
use crate::instruction::{Decoded, Instruction, Operand};
use crate::registers::Registers;

verus! {

/// The byte that holds `value` in two's complement.
pub open spec fn signed_byte_code(value: i8) -> u8 {
    if value >= 0 {
        value as u8
    } else {
        (value + 0x100) as u8
    }
}

/// The word that holds `value` in two's complement.
pub open spec fn signed_word_code(value: i16) -> u16 {
    if value >= 0 {
        value as u16
    } else {
        (value + 0x1_0000) as u16
    }
}

/// The two bytes of a word, low byte first.
pub open spec fn word_code(word: u16) -> Seq<u8> {
    seq![(word % 256) as u8, (word / 256) as u8]
}

/// The mod/reg/rm byte with the given fields.
pub open spec fn modrm_code(mod_field: u8, reg_field: u8, rm_field: u8) -> u8 {
    (64 * mod_field + 8 * reg_field + rm_field) as u8
}

/// 1 for a set bit and 0 for a clear one.
pub open spec fn bit_code(set: bool) -> int {
    if set {
        1
    } else {
        0
    }
}

/// Whether a base and index sum with this displacement is written without displacement
/// bytes. `bp` alone has no such form: its place is taken by the literal address.
pub open spec fn plain(expression: u8, displacement: i16) -> bool {
    displacement == 0 && expression != 6
}

/// The `mod` field that encodes a register or memory operand: the shortest displacement that
/// holds the value is chosen.
pub open spec fn operand_mod(operand: Operand) -> u8 {
    match operand {
        Operand::Direct(_) => 0,
        Operand::Indexed(expression, displacement) => if plain(expression, displacement) {
            0
        } else if -128 <= displacement <= 127 {
            1
        } else {
            2
        },
        _ => 3,
    }
}

/// The `rm` field that encodes a register or memory operand.
pub open spec fn operand_rm(operand: Operand) -> u8 {
    match operand {
        Operand::Register(index) => index,
        Operand::Indexed(expression, _) => expression,
        _ => 6,
    }
}

/// The displacement bytes that follow the mod/reg/rm byte of a register or memory operand.
pub open spec fn operand_displacement(operand: Operand) -> Seq<u8> {
    match operand {
        Operand::Direct(address) => word_code(address),
        Operand::Indexed(expression, displacement) => if plain(expression, displacement) {
            Seq::empty()
        } else if -128 <= displacement <= 127 {
            seq![signed_byte_code(displacement as i8)]
        } else {
            word_code(signed_word_code(displacement))
        },
        _ => Seq::empty(),
    }
}

/// The mod/reg/rm byte and displacement for the `reg` field `reg_field` and a register or
/// memory operand.
pub open spec fn rm_code(reg_field: u8, operand: Operand) -> Seq<u8> {
    seq![modrm_code(operand_mod(operand), reg_field, operand_rm(operand))] + operand_displacement(
        operand,
    )
}

/// The bytes of a literal operand in an instruction of the given width.
pub open spec fn immediate_code(operand: Operand, wide: bool) -> Seq<u8> {
    match operand {
        Operand::SignedImmediate(value) => seq![signed_byte_code(value)],
        Operand::Immediate(value) => if wide {
            word_code(value)
        } else {
            seq![value as u8]
        },
        _ => Seq::empty(),
    }
}

/// The machine code of `mov destination, source`.
///
/// A literal goes to a register by the one-byte register opcode; the accumulator and a
/// literal address exchange by the accumulator opcodes; every other pair uses a mod/reg/rm
/// byte, with the direction bit clear between two registers.
pub open spec fn mov_code(wide: bool, destination: Operand, source: Operand) -> Seq<u8> {
    let w = bit_code(wide);
    match (destination, source) {
        (Operand::Register(index), Operand::Immediate(_)) => seq![(0xB0 + 8 * w + index) as u8]
            + immediate_code(source, wide),
        (Operand::Register(0), Operand::Direct(address)) => seq![(0xA0 + w) as u8] + word_code(
            address,
        ),
        (Operand::Direct(address), Operand::Register(0)) => seq![(0xA2 + w) as u8] + word_code(
            address,
        ),
        (_, Operand::Immediate(_)) => seq![(0xC6 + w) as u8] + rm_code(0, destination)
            + immediate_code(source, wide),
        (_, Operand::Register(index)) => seq![(0x88 + w) as u8] + rm_code(index, destination),
        (Operand::Register(index), _) => seq![(0x8A + w) as u8] + rm_code(index, source),
        _ => Seq::empty(),
    }
}

/// The machine code of the arithmetic instruction in `slot`.
///
/// A literal goes to the accumulator by the accumulator opcode of the slot, unless it is a
/// sign-extended byte; every other literal uses the immediate group, whose `reg` field holds
/// the slot; and registers and memory use the opcodes of the slot, with the direction bit
/// clear between two registers.
pub open spec fn arithmetic_code(
    slot: u8,
    wide: bool,
    destination: Operand,
    source: Operand,
) -> Seq<u8> {
    let w = bit_code(wide);
    match (destination, source) {
        (Operand::Register(0), Operand::Immediate(_)) => seq![(8 * slot + 4 + w) as u8]
            + immediate_code(source, wide),
        (_, Operand::Immediate(_)) => seq![(0x80 + w) as u8] + rm_code(slot, destination)
            + immediate_code(source, wide),
        (_, Operand::SignedImmediate(_)) => seq![(0x82 + w) as u8] + rm_code(slot, destination)
            + immediate_code(source, wide),
        (_, Operand::Register(index)) => seq![(8 * slot + w) as u8] + rm_code(index, destination),
        (Operand::Register(index), _) => seq![(8 * slot + 2 + w) as u8] + rm_code(index, source),
        _ => Seq::empty(),
    }
}

/// The machine code of an instruction: what an assembler writes for its mnemonic and
/// operands.
pub open spec fn assembled(instruction: Instruction) -> Seq<u8> {
    match instruction {
        Instruction::Mov { wide, destination, source } => mov_code(wide, destination, source),
        Instruction::Arithmetic { slot, wide, destination, source } => arithmetic_code(
            slot,
            wide,
            destination,
            source,
        ),
        Instruction::ConditionalJump { slot, offset } => seq![
            (0x70 + slot) as u8,
            signed_byte_code(offset),
        ],
        Instruction::Loop { slot, offset } => seq![(0xE0 + slot) as u8, signed_byte_code(offset)],
    }
}

/// Whether the decoder succeeded with the given instruction and the given address after it.
pub open spec fn decodes_to(
    decoded: Result<Decoded, Fault>,
    instruction: Instruction,
    next_ip: int,
) -> bool {
    decoded matches Ok(decoded) && decoded.instruction == instruction && decoded.next_ip == next_ip
}

/// Whether `memory` holds `code` from address `ip` on.
pub open spec fn holds(memory: Seq<u8>, ip: u16, code: Seq<u8>) -> bool {
    &&& memory.len() == 0x1_0000
    &&& ip + code.len() <= 0x1_0000
    &&& forall|i: int| 0 <= i < code.len() ==> memory[ip + i] == #[trigger] code[i]
}

/// The fields of an assembled mod/reg/rm byte are the fields it was assembled from.
proof fn lemma_modrm_fields(mode: u8, reg: u8, rm: u8)
    requires
        mode < 4,
        reg < 8,
        rm < 8,
    ensures
        mod_field(modrm_code(mode, reg, rm)) == mode,
        reg_field(modrm_code(mode, reg, rm)) == reg,
        rm_field(modrm_code(mode, reg, rm)) == rm,
{
}

/// Code whose second byte starts the mod/reg/rm part of `reg` and `operand` decodes to them.
proof fn lemma_rm_form(memory: Seq<u8>, ip: u16, code: Seq<u8>, reg: u8, operand: Operand)
    requires
        reg < 8,
        operand.well_formed(true),
        !operand.is_immediate(),
        holds(memory, ip, code),
        fits(ip, code.len() as int),
        code.len() >= 1 + rm_code(reg, operand).len(),
        code.subrange(1, 1 + rm_code(reg, operand).len() as int) == rm_code(reg, operand),
    ensures
        rm_form_at(memory, ip) matches Some(form) && form.reg == reg && form.operand == operand
            && form.next_ip == ip + 1 + rm_code(reg, operand).len(),
{
    let part = rm_code(reg, operand);
    let mod_value = operand_mod(operand);
    let rm_value = operand_rm(operand);
    lemma_modrm_fields(mod_value, reg, rm_value);
    assert(part[0] == modrm_code(mod_value, reg, rm_value));
    if part.len() >= 2 {
        assert(part[1] == operand_displacement(operand)[0]);
    }
    if part.len() >= 3 {
        assert(part[2] == operand_displacement(operand)[1]);
    }
}

/// Code that ends in the bytes of a literal decodes to that literal.
proof fn lemma_immediate(
    memory: Seq<u8>,
    ip: u16,
    code: Seq<u8>,
    at: int,
    operand: Operand,
    wide: bool,
)
    requires
        operand.well_formed(wide),
        operand.is_immediate(),
        holds(memory, ip, code),
        fits(ip, code.len() as int),
        0 <= at,
        code.len() == at + immediate_code(operand, wide).len(),
        code.subrange(at, code.len() as int) == immediate_code(operand, wide),
    ensures
        arithmetic_immediate_at(memory, (ip + at) as u16, wide, operand is SignedImmediate)
            == operand,
        immediate_code(operand, wide).len() == immediate_length(
            wide && !(operand is SignedImmediate),
        ),
{
    let window = code.subrange(at, code.len() as int);
    assert(window[0] == code[at]);
}

/// Decoding inverts the assembly of `mov`.
proof fn lemma_mov(wide: bool, destination: Operand, source: Operand, memory: Seq<u8>, ip: u16)
    requires
        (Instruction::Mov { wide, destination, source }).well_formed(),
        holds(memory, ip, mov_code(wide, destination, source)),
        fits(ip, mov_code(wide, destination, source).len() as int),
    ensures
        decodes_to(
            decoded_at(memory, ip),
            (Instruction::Mov { wide, destination, source }),
            ip + mov_code(wide, destination, source).len(),
        ),
{
    let code = mov_code(wide, destination, source);
    assert(memory[ip + 0] == code[0]);
    match (destination, source) {
        (Operand::Register(index), Operand::Immediate(_)) => {
            assert(code.subrange(1, code.len() as int) == immediate_code(source, wide));
            lemma_immediate(memory, ip, code, 1, source, wide);
        },
        (Operand::Register(0), Operand::Direct(address)) => {
            assert(memory[ip + 1] == code[1]);
            assert(memory[ip + 2] == code[2]);
        },
        (Operand::Direct(address), Operand::Register(0)) => {
            assert(memory[ip + 1] == code[1]);
            assert(memory[ip + 2] == code[2]);
        },
        (_, Operand::Immediate(_)) => {
            let part = rm_code(0, destination);
            assert(code.subrange(1, 1 + part.len() as int) == part);
            lemma_rm_form(memory, ip, code, 0, destination);
            lemma_modrm_fields(operand_mod(destination), 0, operand_rm(destination));
            assert(code.subrange(1 + part.len() as int, code.len() as int) == immediate_code(
                source,
                wide,
            ));
            lemma_immediate(memory, ip, code, 1 + part.len() as int, source, wide);
        },
        (_, Operand::Register(index)) => {
            let part = rm_code(index, destination);
            assert(code.subrange(1, 1 + part.len() as int) == part);
            lemma_rm_form(memory, ip, code, index, destination);
        },
        (Operand::Register(index), _) => {
            let part = rm_code(index, source);
            assert(code.subrange(1, 1 + part.len() as int) == part);
            lemma_rm_form(memory, ip, code, index, source);
        },
        _ => {},
    }
}

/// Decoding inverts the assembly of the arithmetic instructions.
proof fn lemma_arithmetic(
    slot: u8,
    wide: bool,
    destination: Operand,
    source: Operand,
    memory: Seq<u8>,
    ip: u16,
)
    requires
        (Instruction::Arithmetic { slot, wide, destination, source }).well_formed(),
        holds(memory, ip, arithmetic_code(slot, wide, destination, source)),
        fits(ip, arithmetic_code(slot, wide, destination, source).len() as int),
    ensures
        decodes_to(
            decoded_at(memory, ip),
            (Instruction::Arithmetic { slot, wide, destination, source }),
            ip + arithmetic_code(slot, wide, destination, source).len(),
        ),
{
    let code = arithmetic_code(slot, wide, destination, source);
    assert(memory[ip + 0] == code[0]);
    match (destination, source) {
        (Operand::Register(0), Operand::Immediate(_)) => {
            assert(code.subrange(1, code.len() as int) == immediate_code(source, wide));
            lemma_immediate(memory, ip, code, 1, source, wide);
        },
        (_, Operand::Immediate(_)) => {
            let part = rm_code(slot, destination);
            assert(code.subrange(1, 1 + part.len() as int) == part);
            lemma_rm_form(memory, ip, code, slot, destination);
            assert(code.subrange(1 + part.len() as int, code.len() as int) == immediate_code(
                source,
                wide,
            ));
            lemma_immediate(memory, ip, code, 1 + part.len() as int, source, wide);
        },
        (_, Operand::SignedImmediate(_)) => {
            let part = rm_code(slot, destination);
            assert(code.subrange(1, 1 + part.len() as int) == part);
            lemma_rm_form(memory, ip, code, slot, destination);
            assert(code.subrange(1 + part.len() as int, code.len() as int) == immediate_code(
                source,
                wide,
            ));
            lemma_immediate(memory, ip, code, 1 + part.len() as int, source, wide);
        },
        (_, Operand::Register(index)) => {
            let part = rm_code(index, destination);
            assert(code.subrange(1, 1 + part.len() as int) == part);
            lemma_rm_form(memory, ip, code, index, destination);
        },
        (Operand::Register(index), _) => {
            let part = rm_code(index, source);
            assert(code.subrange(1, 1 + part.len() as int) == part);
            lemma_rm_form(memory, ip, code, index, source);
        },
        _ => {},
    }
}

/// Decoding inverts assembly: where memory holds the machine code of a well-formed
/// instruction and the instruction ends before the last byte of memory, the decoder returns
/// that instruction and the address after it, so the line that is printed is the text of the
/// instruction that was assembled.
pub proof fn decoding_inverts_assembly(instruction: Instruction, memory: Seq<u8>, ip: u16)
    requires
        instruction.well_formed(),
        holds(memory, ip, assembled(instruction)),
        fits(ip, assembled(instruction).len() as int),
    ensures
        decodes_to(decoded_at(memory, ip), instruction, ip + assembled(instruction).len()),
        forall|registers: Registers|
            #[trigger] stepped(decoded_at(memory, ip), registers, memory) matches Ok(outcome)
                ==> outcome.line == instruction.text(),
{
    match instruction {
        Instruction::Mov { wide, destination, source } => {
            lemma_mov(wide, destination, source, memory, ip);
        },
        Instruction::Arithmetic { slot, wide, destination, source } => {
            lemma_arithmetic(slot, wide, destination, source, memory, ip);
        },
        _ => {},
    }
}

} // verus!
