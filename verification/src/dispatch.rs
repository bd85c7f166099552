//! The dispatch table from the first byte of an instruction to its decode routine, and the
//! fetch, decode and execute loop.

use vstd::prelude::*;
use crate::arithmetic::{
    arithmetic_imm_to_acc_at, arithmetic_mem_reg_with_reg_to_either_at,
    arithmetic_signed_imm_to_reg_mem_at, decode_arithmetic_imm_to_acc_encoding,
    decode_arithmetic_mem_reg_with_reg_to_either_encoding,
    decode_arithmetic_signed_imm_to_reg_mem_encoding, read_arithmetic_imm_to_acc,
    read_arithmetic_mem_reg_with_reg_to_either, read_arithmetic_signed_imm_to_reg_mem,
};
use crate::control_transfer::{
    conditional_jump_at, decode_conditional_jump_encoding, decode_loop_encoding, loop_at,
    read_conditional_jump, read_loop,
};
use crate::data_transfer::{
    decode_mov_acc_to_mem_encoding, decode_mov_imm_to_reg_encoding,
    decode_mov_imm_to_reg_mem_encoding, decode_mov_mem_reg_to_from_reg_encoding,
    decode_mov_mem_to_acc_encoding, mov_acc_to_mem_at, mov_imm_to_reg_at, mov_imm_to_reg_mem_at,
    mov_mem_reg_to_from_reg_at, mov_mem_to_acc_at, read_mov_acc_to_mem, read_mov_imm_to_reg,
    read_mov_imm_to_reg_mem, read_mov_mem_reg_to_from_reg, read_mov_mem_to_acc,
};
use crate::decoding::{step_agrees, stepped};
use crate::execution::{machine, State};
use crate::fault::Fault;
use crate::instruction::Decoded;
use crate::memory::{byte_at, load_byte, Memory};
use crate::registers::Registers;

verus! {

/// The decode routines that the first byte of an instruction can select.
#[derive(Debug, Clone, Copy, PartialEq, Eq, Structural)]
pub enum Routine {
    /// Arithmetic between a register and a register or memory operand.
    ArithmeticMemRegWithRegToEither,
    /// Arithmetic on the accumulator with a literal.
    ArithmeticImmToAcc,
    /// Arithmetic on a register or memory operand with a literal.
    ArithmeticSignedImmToRegMem,
    /// The sixteen conditional jumps.
    ConditionalJump,
    /// `loopnz`, `loopz`, `loop` and `jcxz`.
    Loop,
    /// `mov` between a register and a register or memory operand.
    MovMemRegToFromReg,
    /// `mov` of a literal to a register or memory operand.
    MovImmToRegMem,
    /// `mov` of a literal to a register.
    MovImmToReg,
    /// `mov` from a literal address to the accumulator.
    MovMemToAcc,
    /// `mov` from the accumulator to a literal address.
    MovAccToMem,
    /// No routine: the opcode is not implemented.
    Unimplemented,
}

/// The dispatch table: the routine for each value of the first byte.
///
/// Below 0x40 every group of eight opcodes is one arithmetic slot: four register and memory
/// forms, two accumulator forms, and two opcodes that are not implemented.
pub open spec fn routine_for(opcode: u8) -> Routine {
    if opcode < 0x40 {
        if opcode % 8 < 4 {
            Routine::ArithmeticMemRegWithRegToEither
        } else if opcode % 8 < 6 {
            Routine::ArithmeticImmToAcc
        } else {
            Routine::Unimplemented
        }
    } else if 0x70 <= opcode <= 0x7F {
        Routine::ConditionalJump
    } else if 0x80 <= opcode <= 0x83 {
        Routine::ArithmeticSignedImmToRegMem
    } else if 0x88 <= opcode <= 0x8B {
        Routine::MovMemRegToFromReg
    } else if 0xA0 <= opcode <= 0xA1 {
        Routine::MovMemToAcc
    } else if 0xA2 <= opcode <= 0xA3 {
        Routine::MovAccToMem
    } else if 0xB0 <= opcode <= 0xBF {
        Routine::MovImmToReg
    } else if 0xC6 <= opcode <= 0xC7 {
        Routine::MovImmToRegMem
    } else if 0xE0 <= opcode <= 0xE3 {
        Routine::Loop
    } else {
        Routine::Unimplemented
    }
}

/// Looks the first byte of an instruction up in the dispatch table.
pub fn lookup(opcode: u8) -> (routine: Routine)
    ensures
        routine == routine_for(opcode),
{
    match opcode {
        0x00..=0x03 | 0x08..=0x0B | 0x10..=0x13 | 0x18..=0x1B | 0x20..=0x23 | 0x28..=0x2B
        | 0x30..=0x33 | 0x38..=0x3B => Routine::ArithmeticMemRegWithRegToEither,
        0x04..=0x05 | 0x0C..=0x0D | 0x14..=0x15 | 0x1C..=0x1D | 0x24..=0x25 | 0x2C..=0x2D
        | 0x34..=0x35 | 0x3C..=0x3D => Routine::ArithmeticImmToAcc,
        0x70..=0x7F => Routine::ConditionalJump,
        0x80..=0x83 => Routine::ArithmeticSignedImmToRegMem,
        0x88..=0x8B => Routine::MovMemRegToFromReg,
        0xA0..=0xA1 => Routine::MovMemToAcc,
        0xA2..=0xA3 => Routine::MovAccToMem,
        0xB0..=0xBF => Routine::MovImmToReg,
        0xC6..=0xC7 => Routine::MovImmToRegMem,
        0xE0..=0xE3 => Routine::Loop,
        _ => Routine::Unimplemented,
    }
}

/// The instruction that starts at `ip`, as the routine for its first byte decodes it.
pub open spec fn decoded_at(memory: Seq<u8>, ip: u16) -> Result<Decoded, Fault> {
    match routine_for(byte_at(memory, ip)) {
        Routine::ArithmeticMemRegWithRegToEither => arithmetic_mem_reg_with_reg_to_either_at(
            memory,
            ip,
        ),
        Routine::ArithmeticImmToAcc => arithmetic_imm_to_acc_at(memory, ip),
        Routine::ArithmeticSignedImmToRegMem => arithmetic_signed_imm_to_reg_mem_at(memory, ip),
        Routine::ConditionalJump => conditional_jump_at(memory, ip),
        Routine::Loop => loop_at(memory, ip),
        Routine::MovMemRegToFromReg => mov_mem_reg_to_from_reg_at(memory, ip),
        Routine::MovImmToRegMem => mov_imm_to_reg_mem_at(memory, ip),
        Routine::MovImmToReg => mov_imm_to_reg_at(memory, ip),
        Routine::MovMemToAcc => mov_mem_to_acc_at(memory, ip),
        Routine::MovAccToMem => mov_acc_to_mem_at(memory, ip),
        Routine::Unimplemented => Err(Fault::UnimplementedOpcode(byte_at(memory, ip))),
    }
}

/// Decodes the instruction at `ip` without running it.
pub fn decode_instruction(memory: &Memory, ip: u16) -> (decoded: Result<Decoded, Fault>)
    ensures
        decoded == decoded_at(memory@, ip),
        decoded matches Ok(decoded) ==> decoded.instruction.well_formed(),
{
    let opcode: u8 = load_byte(memory, ip);
    match lookup(opcode) {
        Routine::ArithmeticMemRegWithRegToEither => read_arithmetic_mem_reg_with_reg_to_either(
            memory,
            ip,
        ),
        Routine::ArithmeticImmToAcc => read_arithmetic_imm_to_acc(memory, ip),
        Routine::ArithmeticSignedImmToRegMem => read_arithmetic_signed_imm_to_reg_mem(memory, ip),
        Routine::ConditionalJump => read_conditional_jump(memory, ip),
        Routine::Loop => read_loop(memory, ip),
        Routine::MovMemRegToFromReg => read_mov_mem_reg_to_from_reg(memory, ip),
        Routine::MovImmToRegMem => read_mov_imm_to_reg_mem(memory, ip),
        Routine::MovImmToReg => read_mov_imm_to_reg(memory, ip),
        Routine::MovMemToAcc => read_mov_mem_to_acc(memory, ip),
        Routine::MovAccToMem => read_mov_acc_to_mem(memory, ip),
        Routine::Unimplemented => Err(Fault::UnimplementedOpcode(opcode)),
    }
}

/// The routine of every opcode without an implementation: it reports the opcode and changes
/// nothing.
pub fn unimplemented_op(
    registers: &mut Registers,
    memory: &mut Memory,
) -> (result: Result<String, Fault>)
    ensures
        result == Err::<String, Fault>(
            Fault::UnimplementedOpcode(byte_at(old(memory)@, old(registers).ip)),
        ),
        *final(registers) == *old(registers),
        final(memory)@ == old(memory)@,
{
    Err(Fault::UnimplementedOpcode(load_byte(memory, registers.ip)))
}

/// Decodes and runs the instruction at the instruction pointer, and returns its line of
/// assembly text.
pub fn step(registers: &mut Registers, memory: &mut Memory) -> (result: Result<String, Fault>)
    ensures
        step_agrees(
            stepped(decoded_at(old(memory)@, old(registers).ip), *old(registers), old(memory)@),
            result,
            machine(*old(registers), old(memory)@),
            machine(*final(registers), final(memory)@),
        ),
{
    let opcode: u8 = load_byte(memory, registers.ip);
    match lookup(opcode) {
        Routine::ArithmeticMemRegWithRegToEither => {
            decode_arithmetic_mem_reg_with_reg_to_either_encoding(registers, memory)
        },
        Routine::ArithmeticImmToAcc => decode_arithmetic_imm_to_acc_encoding(registers, memory),
        Routine::ArithmeticSignedImmToRegMem => decode_arithmetic_signed_imm_to_reg_mem_encoding(
            registers,
            memory,
        ),
        Routine::ConditionalJump => decode_conditional_jump_encoding(registers, memory),
        Routine::Loop => decode_loop_encoding(registers, memory),
        Routine::MovMemRegToFromReg => decode_mov_mem_reg_to_from_reg_encoding(registers, memory),
        Routine::MovImmToRegMem => decode_mov_imm_to_reg_mem_encoding(registers, memory),
        Routine::MovImmToReg => decode_mov_imm_to_reg_encoding(registers, memory),
        Routine::MovMemToAcc => decode_mov_mem_to_acc_encoding(registers, memory),
        Routine::MovAccToMem => decode_mov_acc_to_mem_encoding(registers, memory),
        Routine::Unimplemented => unimplemented_op(registers, memory),
    }
}

/// Why a run came to an end.
#[derive(Debug, Clone, Copy, PartialEq, Eq, Structural)]
pub enum Halt {
    /// The instruction pointer reached the end of the program.
    Finished,
    /// The allowed number of instructions ran and the program had not ended.
    StepLimit,
    /// An instruction could not be decoded or executed.
    Faulted(Fault),
}

/// What a run produced: the listing, one line for each instruction that ran, and why the run
/// ended.
#[derive(Debug)]
pub struct Report {
    pub lines: Vec<String>,
    pub halt: Halt,
}

/// A run of the machine: the state it ended in, the lines of the instructions that ran, and
/// why it ended.
pub struct Trace {
    pub state: State,
    pub lines: Seq<Seq<char>>,
    pub halt: Halt,
}

/// The run of at most `steps` instructions of a program of `byte_count` bytes.
///
/// The run is finished once the instruction pointer is at or past `byte_count`. An
/// instruction that faults ends the run and leaves the state that it found.
pub open spec fn ran(registers: Registers, memory: Seq<u8>, byte_count: nat, steps: nat) -> Trace
    decreases steps,
{
    let state = State { registers, memory };
    if registers.ip >= byte_count {
        Trace { state, lines: Seq::empty(), halt: Halt::Finished }
    } else if steps == 0 {
        Trace { state, lines: Seq::empty(), halt: Halt::StepLimit }
    } else {
        match stepped(decoded_at(memory, registers.ip), registers, memory) {
            Err(fault) => Trace { state, lines: Seq::empty(), halt: Halt::Faulted(fault) },
            Ok(outcome) => {
                let rest = ran(
                    outcome.state.registers,
                    outcome.state.memory,
                    byte_count,
                    (steps - 1) as nat,
                );
                Trace { state: rest.state, lines: seq![outcome.line] + rest.lines, halt: rest.halt }
            },
        }
    }
}

/// Runs the program of `byte_count` bytes at the start of memory until the instruction
/// pointer leaves it, an instruction faults, or `step_limit` instructions have run.
pub fn run(
    registers: &mut Registers,
    memory: &mut Memory,
    byte_count: usize,
    step_limit: usize,
) -> (report: Report)
    ensures
        ({
            let trace = ran(*old(registers), old(memory)@, byte_count as nat, step_limit as nat);
            &&& report.halt == trace.halt
            &&& report.lines.deep_view() == trace.lines
            &&& machine(*final(registers), final(memory)@) == trace.state
        }),
{
    let mut lines: Vec<String> = Vec::new();
    let mut steps: usize = 0;
    let ghost whole = ran(*old(registers), old(memory)@, byte_count as nat, step_limit as nat);
    loop
        invariant
            steps <= step_limit,
            whole == ran(*old(registers), old(memory)@, byte_count as nat, step_limit as nat),
            ({
                let rest = ran(*registers, memory@, byte_count as nat, (step_limit - steps) as nat);
                &&& whole.halt == rest.halt
                &&& whole.state == rest.state
                &&& whole.lines == lines.deep_view() + rest.lines
            }),
        decreases step_limit - steps,
    {
        if registers.ip as usize >= byte_count {
            return Report { lines, halt: Halt::Finished };
        }
        if steps == step_limit {
            return Report { lines, halt: Halt::StepLimit };
        }
        match step(registers, memory) {
            Err(fault) => {
                return Report { lines, halt: Halt::Faulted(fault) };
            },
            Ok(line) => {
                lines.push(line);
                steps += 1;
            },
        }
    }
}

/// The listing of the instructions that ran: the `bits 16` directive, then each line on a
/// line of its own.
pub open spec fn listing_text(lines: Seq<Seq<char>>) -> Seq<char>
    decreases lines.len(),
{
    if lines.len() == 0 {
        "bits 16"@
    } else {
        listing_text(lines.drop_last()) + "\n"@ + lines.last()
    }
}

/// Renders the listing of the given lines: the `bits 16` directive first, then one line for
/// each instruction.
pub fn listing(lines: &Vec<String>) -> (text: String)
    ensures
        text@ == listing_text(lines.deep_view()),
{
    let mut text = String::from_str("bits 16");
    let mut i: usize = 0;
    while i < lines.len()
        invariant
            i <= lines.len(),
            text@ == listing_text(lines.deep_view().take(i as int)),
        decreases lines.len() - i,
    {
        text.append("\n");
        text.append(lines[i].as_str());
        proof {
            let upto = lines.deep_view().take(i + 1);
            assert(upto.drop_last() == lines.deep_view().take(i as int));
        }
        i += 1;
    }
    assert(lines.deep_view().take(i as int) == lines.deep_view());
    text
}

} // verus!
