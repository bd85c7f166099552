//! What a decoded instruction does to the registers and to memory.

use vstd::prelude::*;
use crate::addressing::{calculate_effective_address, effective_address};
use crate::arithmetic::{
    arithmetic_implemented, is_arithmetic_implemented, arithmetic_op_with_mem_16_bit,
    arithmetic_op_with_mem_8_bit, arithmetic_op_with_reg_16_bit, arithmetic_op_with_reg_8_bit,
    arithmetic_result_16, arithmetic_result_8, byte_in_memory_operated, byte_register_operated,
    flags_after_16, flags_after_8, with_flags, word_in_memory_operated, word_register_operated,
};
use crate::control_transfer::{
    branch, branch_target, conditional_jump_implemented, conditional_jump_taken,
    conditional_jump_test, loop_counted, loop_instruction_test, loop_taken,
};
use crate::fault::Fault;
use crate::instruction::{is_memory, sign_extended, Decoded, Instruction, Operand};
use crate::memory::{
    byte_at, load_byte, load_word, store_byte, store_word, with_byte_at, with_word_at, word_at,
    Memory,
};
use crate::registers::{
    get_16_bit_register, get_8_bit_register, set_16_bit_register, set_8_bit_register, Registers,
};

verus! {

/// The registers and the memory of the machine.
pub struct State {
    pub registers: Registers,
    pub memory: Seq<u8>,
}

/// The state with the given registers and memory.
pub open spec fn machine(registers: Registers, memory: Seq<u8>) -> State {
    State { registers, memory }
}

/// Whether the operand is a word in memory that starts at the last byte of memory, so that
/// its high byte has no address.
pub open spec fn out_of_range(registers: Registers, wide: bool, operand: Operand) -> bool {
    wide && operand.is_memory() && effective_address(registers, operand) == 0xFFFF
}

/// The 16-bit value of an operand.
pub open spec fn operand_word(registers: Registers, memory: Seq<u8>, operand: Operand) -> u16 {
    match operand {
        Operand::Register(index) => registers.word(index),
        Operand::Immediate(value) => value,
        Operand::SignedImmediate(value) => sign_extended(value),
        _ => word_at(memory, effective_address(registers, operand)),
    }
}

/// The 8-bit value of an operand.
pub open spec fn operand_byte(registers: Registers, memory: Seq<u8>, operand: Operand) -> u8 {
    match operand {
        Operand::Register(index) => registers.byte(index),
        Operand::Immediate(value) => value as u8,
        Operand::SignedImmediate(value) => 0,
        _ => byte_at(memory, effective_address(registers, operand)),
    }
}

/// The state after `mov destination, source`.
pub open spec fn moved(
    registers: Registers,
    memory: Seq<u8>,
    wide: bool,
    destination: Operand,
    source: Operand,
) -> State {
    let address = effective_address(registers, destination);
    if wide {
        let value = operand_word(registers, memory, source);
        match destination {
            Operand::Register(index) => State {
                registers: registers.with_word(index, value),
                memory,
            },
            _ => State { registers, memory: with_word_at(memory, address, value) },
        }
    } else {
        let value = operand_byte(registers, memory, source);
        match destination {
            Operand::Register(index) => State {
                registers: registers.with_byte(index, value),
                memory,
            },
            _ => State { registers, memory: with_byte_at(memory, address, value) },
        }
    }
}

/// The state after the arithmetic operation in `slot` on `destination` with `source`: the
/// flags follow the result, and the result is stored unless the slot only compares.
pub open spec fn operated(
    registers: Registers,
    memory: Seq<u8>,
    slot: u8,
    wide: bool,
    destination: Operand,
    source: Operand,
) -> State {
    let address = effective_address(registers, destination);
    if wide {
        let value = operand_word(registers, memory, source);
        match destination {
            Operand::Register(index) => State {
                registers: word_register_operated(registers, index, slot, value),
                memory,
            },
            _ => State {
                registers: with_flags(
                    registers,
                    flags_after_16(
                        registers.flags,
                        arithmetic_result_16(slot, word_at(memory, address), value),
                    ),
                ),
                memory: word_in_memory_operated(memory, address, slot, value),
            },
        }
    } else {
        let value = operand_byte(registers, memory, source);
        match destination {
            Operand::Register(index) => State {
                registers: byte_register_operated(registers, index, slot, value),
                memory,
            },
            _ => State {
                registers: with_flags(
                    registers,
                    flags_after_8(
                        registers.flags,
                        arithmetic_result_8(slot, byte_at(memory, address), value),
                    ),
                ),
                memory: byte_in_memory_operated(memory, address, slot, value),
            },
        }
    }
}

/// `registers` with the instruction pointer replaced by `ip`.
pub open spec fn with_ip(registers: Registers, ip: u16) -> Registers {
    Registers { ip, ..registers }
}

/// The state after the decoded instruction has run, or the fault that stopped it.
///
/// The instruction pointer first moves past the instruction; a branch that is taken then adds
/// its offset. A word operand that starts at the last byte of memory is a fault, and so is a
/// reserved slot; where both hold, the operand is reported.
pub open spec fn executed(
    decoded: Decoded,
    registers: Registers,
    memory: Seq<u8>,
) -> Result<State, Fault> {
    let advanced = with_ip(registers, decoded.next_ip);
    match decoded.instruction {
        Instruction::Mov { wide, destination, source } => {
            if out_of_range(registers, wide, destination) {
                Err(Fault::AccessOutOfRange(effective_address(registers, destination)))
            } else if out_of_range(registers, wide, source) {
                Err(Fault::AccessOutOfRange(effective_address(registers, source)))
            } else {
                Ok(moved(advanced, memory, wide, destination, source))
            }
        },
        Instruction::Arithmetic { slot, wide, destination, source } => {
            if out_of_range(registers, wide, destination) {
                Err(Fault::AccessOutOfRange(effective_address(registers, destination)))
            } else if out_of_range(registers, wide, source) {
                Err(Fault::AccessOutOfRange(effective_address(registers, source)))
            } else if !arithmetic_implemented(slot) {
                Err(Fault::UnimplementedArithmetic(slot))
            } else {
                Ok(operated(advanced, memory, slot, wide, destination, source))
            }
        },
        Instruction::ConditionalJump { slot, offset } => {
            if !conditional_jump_implemented(slot) {
                Err(Fault::UnimplementedConditionalJump(slot))
            } else if conditional_jump_taken(slot, registers.flags) {
                Ok(
                    State {
                        registers: with_ip(registers, branch_target(decoded.next_ip, offset)),
                        memory,
                    },
                )
            } else {
                Ok(State { registers: advanced, memory })
            }
        },
        Instruction::Loop { slot, offset } => {
            let counted = loop_counted(advanced, slot);
            if loop_taken(counted, slot) {
                Ok(
                    State {
                        registers: with_ip(counted, branch_target(decoded.next_ip, offset)),
                        memory,
                    },
                )
            } else {
                Ok(State { registers: counted, memory })
            }
        },
    }
}

/// Whether the run of an instruction agrees with `expected`: on success the registers and
/// memory are those of the expected state; on a fault it is the expected fault and nothing
/// has changed.
pub open spec fn agrees(
    expected: Result<State, Fault>,
    result: Result<(), Fault>,
    before: State,
    after: State,
) -> bool {
    match expected {
        Ok(state) => result is Ok && after == state,
        Err(fault) => result == Err::<(), Fault>(fault) && after == before,
    }
}

/// A comparison changes nothing but the flags: after it has run, memory is as it was, and so
/// is every register but the flags word and the instruction pointer, which has moved past the
/// instruction.
pub proof fn comparison_keeps_operands(decoded: Decoded, registers: Registers, memory: Seq<u8>)
    requires
        decoded.instruction is Arithmetic,
        decoded.instruction->Arithmetic_slot == 7,
    ensures
        executed(decoded, registers, memory) matches Ok(state) ==> state.memory == memory,
        executed(decoded, registers, memory) matches Ok(state) ==> with_flags(
            state.registers,
            registers.flags,
        ) == with_ip(registers, decoded.next_ip),
{
}

/// No `mov` touches the flags.
pub proof fn mov_keeps_flags(decoded: Decoded, registers: Registers, memory: Seq<u8>)
    requires
        decoded.instruction is Mov,
    ensures
        executed(decoded, registers, memory) matches Ok(state) ==> state.registers.flags
            == registers.flags,
{
}

/// A jump or a loop instruction is a change of the instruction pointer and, where it counts,
/// of `cx`: it leaves memory, the flags and every other register alone.
pub proof fn control_transfer_moves_only_ip(
    decoded: Decoded,
    registers: Registers,
    memory: Seq<u8>,
)
    requires
        decoded.instruction is ConditionalJump || decoded.instruction is Loop,
    ensures
        executed(decoded, registers, memory) matches Ok(state) ==> state.memory == memory,
        decoded.instruction is ConditionalJump ==> (executed(decoded, registers, memory)
            matches Ok(state) ==> with_ip(state.registers, registers.ip) == registers),
        decoded.instruction is Loop ==> (executed(decoded, registers, memory) matches Ok(state)
            ==> with_ip(state.registers, registers.ip) == loop_counted(
            registers,
            decoded.instruction->Loop_slot,
        )),
{
}

/// Refuses a word operand that starts at the last byte of memory.
fn check_access(registers: &Registers, wide: bool, operand: Operand) -> (result: Result<(), Fault>)
    requires
        operand.well_formed(wide),
    ensures
        out_of_range(*registers, wide, operand) ==> result == Err::<(), Fault>(
            Fault::AccessOutOfRange(effective_address(*registers, operand)),
        ),
        !out_of_range(*registers, wide, operand) ==> result is Ok,
{
    if wide && is_memory(operand) {
        let address: u16 = calculate_effective_address(registers, operand);
        if address == 0xFFFF {
            return Err(Fault::AccessOutOfRange(address));
        }
    }
    Ok(())
}

/// Reads the 16-bit value of an operand.
fn read_word(registers: &Registers, memory: &Memory, operand: Operand) -> (value: u16)
    requires
        operand.well_formed(true),
        !out_of_range(*registers, true, operand),
    ensures
        value == operand_word(*registers, memory@, operand),
{
    match operand {
        Operand::Register(index) => get_16_bit_register(registers, index),
        Operand::Immediate(value) => value,
        Operand::SignedImmediate(value) => {
            if value >= 0 {
                value as u16
            } else {
                (0x1_0000i32 + value as i32) as u16
            }
        },
        _ => load_word(memory, calculate_effective_address(registers, operand)),
    }
}

/// Reads the 8-bit value of an operand.
fn read_byte(registers: &Registers, memory: &Memory, operand: Operand) -> (value: u8)
    requires
        operand.well_formed(false),
    ensures
        value == operand_byte(*registers, memory@, operand),
{
    match operand {
        Operand::Register(index) => get_8_bit_register(registers, index),
        Operand::Immediate(value) => value as u8,
        Operand::SignedImmediate(_) => 0,
        _ => load_byte(memory, calculate_effective_address(registers, operand)),
    }
}

/// Runs `mov destination, source` on operands that are in range.
fn execute_mov(
    registers: &mut Registers,
    memory: &mut Memory,
    wide: bool,
    destination: Operand,
    source: Operand,
)
    requires
        (Instruction::Mov { wide, destination, source }).well_formed(),
        !out_of_range(*old(registers), wide, destination),
        !out_of_range(*old(registers), wide, source),
    ensures
        machine(*final(registers), final(memory)@) == moved(
            *old(registers),
            old(memory)@,
            wide,
            destination,
            source,
        ),
{
    if wide {
        let value: u16 = read_word(registers, memory, source);
        match destination {
            Operand::Register(index) => {
                set_16_bit_register(registers, index, value);
            },
            _ => {
                let address: u16 = calculate_effective_address(registers, destination);
                store_word(memory, address, value);
            },
        }
    } else {
        let value: u8 = read_byte(registers, memory, source);
        match destination {
            Operand::Register(index) => {
                set_8_bit_register(registers, index, value);
            },
            _ => {
                let address: u16 = calculate_effective_address(registers, destination);
                store_byte(memory, address, value);
            },
        }
    }
}

/// Runs the arithmetic operation of an implemented slot on operands that are in range.
fn execute_arithmetic(
    registers: &mut Registers,
    memory: &mut Memory,
    slot: u8,
    wide: bool,
    destination: Operand,
    source: Operand,
)
    requires
        (Instruction::Arithmetic { slot, wide, destination, source }).well_formed(),
        arithmetic_implemented(slot),
        !out_of_range(*old(registers), wide, destination),
        !out_of_range(*old(registers), wide, source),
    ensures
        machine(*final(registers), final(memory)@) == operated(
            *old(registers),
            old(memory)@,
            slot,
            wide,
            destination,
            source,
        ),
{
    if wide {
        let immediate: u16 = read_word(registers, memory, source);
        match destination {
            Operand::Register(index) => {
                arithmetic_op_with_reg_16_bit(registers, index, slot, immediate);
            },
            _ => {
                let address: u16 = calculate_effective_address(registers, destination);
                arithmetic_op_with_mem_16_bit(registers, memory, address, slot, immediate);
            },
        }
    } else {
        let immediate: u8 = read_byte(registers, memory, source);
        match destination {
            Operand::Register(index) => {
                arithmetic_op_with_reg_8_bit(registers, index, slot, immediate);
            },
            _ => {
                let address: u16 = calculate_effective_address(registers, destination);
                arithmetic_op_with_mem_8_bit(registers, memory, address, slot, immediate);
            },
        }
    }
}

/// Runs a decoded instruction on the registers and memory.
///
/// A fault is found before anything is written, so that a faulting instruction leaves the
/// machine as it was.
pub fn execute(
    decoded: Decoded,
    registers: &mut Registers,
    memory: &mut Memory,
) -> (result: Result<(), Fault>)
    requires
        decoded.instruction.well_formed(),
    ensures
        agrees(
            executed(decoded, *old(registers), old(memory)@),
            result,
            machine(*old(registers), old(memory)@),
            machine(*final(registers), final(memory)@),
        ),
{
    match decoded.instruction {
        Instruction::Mov { wide, destination, source } => {
            match check_access(registers, wide, destination) {
                Err(fault) => {
                    return Err(fault);
                },
                Ok(_) => {},
            }
            match check_access(registers, wide, source) {
                Err(fault) => {
                    return Err(fault);
                },
                Ok(_) => {},
            }
            registers.ip = decoded.next_ip;
            execute_mov(registers, memory, wide, destination, source);
        },
        Instruction::Arithmetic { slot, wide, destination, source } => {
            match check_access(registers, wide, destination) {
                Err(fault) => {
                    return Err(fault);
                },
                Ok(_) => {},
            }
            match check_access(registers, wide, source) {
                Err(fault) => {
                    return Err(fault);
                },
                Ok(_) => {},
            }
            if !is_arithmetic_implemented(slot) {
                return Err(Fault::UnimplementedArithmetic(slot));
            }
            registers.ip = decoded.next_ip;
            execute_arithmetic(registers, memory, slot, wide, destination, source);
        },
        Instruction::ConditionalJump { slot, offset } => {
            match conditional_jump_test(slot, registers.flags) {
                None => {
                    return Err(Fault::UnimplementedConditionalJump(slot));
                },
                Some(taken) => {
                    registers.ip = decoded.next_ip;
                    if taken {
                        branch(&mut registers.ip, offset);
                    }
                },
            }
        },
        Instruction::Loop { slot, offset } => {
            registers.ip = decoded.next_ip;
            if loop_instruction_test(slot, registers) {
                branch(&mut registers.ip, offset);
            }
        },
    }
    Ok(())
}

} // verus!
