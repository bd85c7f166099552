//! What the decode routines share: the mod/reg/rm part of an instruction, its literal, and the
//! contract of a routine that decodes, runs and prints one instruction.

use vstd::prelude::*;
use crate::addressing::{decode_rm_operand, displacement_length, rm_operand};
use crate::execution::{execute, executed, machine, State};
use crate::fault::Fault;
use crate::fields::{mod_field, mod_field_of, reg_field, reg_field_of, rm_field, rm_field_of};
use crate::instruction::{Decoded, Operand};
use crate::memory::{
    byte_at, grab_instruction_byte, grab_instruction_word, load_byte, word_at, Memory,
};
use crate::registers::Registers;

verus! {

/// Whether an instruction of `length` bytes that starts at `ip` ends before the last byte of
/// memory, so that the instruction pointer can be moved past it.
pub open spec fn fits(ip: u16, length: int) -> bool {
    ip + length <= 0xFFFF
}

/// The part of an instruction that a mod/reg/rm byte and its displacement encode.
#[derive(Debug, Clone, Copy, PartialEq, Eq, Structural)]
pub struct RmForm {
    /// The `reg` field.
    pub reg: u8,
    /// The operand that `mod` and `rm` select.
    pub operand: Operand,
    /// The address of the byte after the displacement.
    pub next_ip: u16,
}

/// The mod/reg/rm part of the instruction whose opcode byte is at `ip`, or `None` where the
/// mod/reg/rm byte and the displacement do not fit.
pub open spec fn rm_form_at(memory: Seq<u8>, ip: u16) -> Option<RmForm> {
    let modrm = byte_at(memory, (ip + 1) as u16);
    let length = 2 + displacement_length(mod_field(modrm), rm_field(modrm));
    if fits(ip, 2) && fits(ip, length) {
        Some(
            RmForm {
                reg: reg_field(modrm),
                operand: rm_operand(memory, (ip + 2) as u16, mod_field(modrm), rm_field(modrm)),
                next_ip: (ip + length) as u16,
            },
        )
    } else {
        None
    }
}

/// Reads the mod/reg/rm byte and the displacement of the instruction at `ip`.
pub fn read_rm_form(memory: &Memory, ip: u16) -> (form: Option<RmForm>)
    ensures
        form == rm_form_at(memory@, ip),
        form matches Some(form) ==> ({
            &&& form.reg < 8
            &&& form.operand.well_formed(true)
            &&& form.operand.well_formed(false)
            &&& !form.operand.is_immediate()
            &&& form.next_ip >= ip + 2
        }),
{
    if ip > 0xFFFF - 2 {
        return None;
    }
    let modrm: u8 = load_byte(memory, ip + 1);
    let mod_field: u8 = mod_field_of(modrm);
    let rm_field: u8 = rm_field_of(modrm);
    let needed: u16 = if mod_field == 1 {
        1
    } else if mod_field == 2 || (mod_field == 0 && rm_field == 6) {
        2
    } else {
        0
    };
    if ip + 2 > 0xFFFF - needed {
        return None;
    }
    let mut cursor: u16 = ip + 2;
    let operand: Operand = decode_rm_operand(memory, &mut cursor, mod_field, rm_field);
    Some(RmForm { reg: reg_field_of(modrm), operand, next_ip: cursor })
}

/// How many bytes a literal of the given width takes.
pub open spec fn immediate_length(wide: bool) -> int {
    if wide {
        2
    } else {
        1
    }
}

/// The literal of the given width that is stored at `address`.
pub open spec fn immediate_at(memory: Seq<u8>, address: u16, wide: bool) -> Operand {
    if wide {
        Operand::Immediate(word_at(memory, address))
    } else {
        Operand::Immediate(byte_at(memory, address) as u16)
    }
}

/// Reads a literal of the given width at `ip` and moves `ip` past it.
pub fn read_immediate(memory: &Memory, ip: &mut u16, wide: bool) -> (operand: Operand)
    requires
        *old(ip) + immediate_length(wide) <= 0xFFFF,
    ensures
        operand == immediate_at(memory@, *old(ip), wide),
        *final(ip) == *old(ip) + immediate_length(wide),
        operand.well_formed(wide),
        operand is Immediate,
{
    if wide {
        Operand::Immediate(grab_instruction_word(memory, ip))
    } else {
        Operand::Immediate(grab_instruction_byte(memory, ip) as u16)
    }
}

/// What one decode routine does to the machine.
pub struct Outcome {
    /// The registers and memory after the instruction.
    pub state: State,
    /// The line of assembly text for the instruction.
    pub line: Seq<char>,
}

/// The outcome of running what was decoded: the fault of the decoder, or the fault of the
/// execution, or the state after the instruction with its text.
pub open spec fn stepped(
    decoded: Result<Decoded, Fault>,
    registers: Registers,
    memory: Seq<u8>,
) -> Result<Outcome, Fault> {
    match decoded {
        Err(fault) => Err(fault),
        Ok(decoded) => match executed(decoded, registers, memory) {
            Err(fault) => Err(fault),
            Ok(state) => Ok(Outcome { state, line: decoded.instruction.text() }),
        },
    }
}

/// Whether a decode routine did what `expected` says: on success it returns the expected line
/// and leaves the expected state; on a fault it returns the expected fault and leaves the
/// machine as it was.
pub open spec fn step_agrees(
    expected: Result<Outcome, Fault>,
    result: Result<String, Fault>,
    before: State,
    after: State,
) -> bool {
    match expected {
        Ok(outcome) => result is Ok && result->Ok_0@ == outcome.line && after == outcome.state,
        Err(fault) => result == Err::<String, Fault>(fault) && after == before,
    }
}

/// Runs what a decoder returned and renders its line.
pub fn complete(
    decoded: Result<Decoded, Fault>,
    registers: &mut Registers,
    memory: &mut Memory,
) -> (result: Result<String, Fault>)
    requires
        decoded matches Ok(decoded) ==> decoded.instruction.well_formed(),
    ensures
        step_agrees(
            stepped(decoded, *old(registers), old(memory)@),
            result,
            machine(*old(registers), old(memory)@),
            machine(*final(registers), final(memory)@),
        ),
{
    match decoded {
        Err(fault) => Err(fault),
        Ok(decoded) => match execute(decoded, registers, memory) {
            Err(fault) => Err(fault),
            Ok(_) => Ok(decoded.instruction.to_text()),
        },
    }
}

} // verus!
