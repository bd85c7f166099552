//! The addressing-mode decoder: what the `mod` and `rm` fields of a mod/reg/rm byte select, and
//! the address of a memory operand.

use vstd::prelude::*;
use crate::fields::{as_signed_byte, as_signed_word, signed_byte, signed_word};
use crate::instruction::Operand;
use crate::memory::{byte_at, grab_instruction_byte, grab_instruction_word, word_at, Memory};
use crate::registers::{calculate_reg_expression, Registers};

verus! {

/// `mod` = 00: a memory operand without displacement, or, with `rm` = 110, at a literal
/// address.
pub const MODE_MEM_NO_DISP: u8 = 0;

/// `mod` = 01: a memory operand with a sign-extended 8-bit displacement.
pub const MODE_MEM_8_BIT_DISP: u8 = 1;

/// `mod` = 10: a memory operand with a 16-bit displacement.
pub const MODE_MEM_16_BIT_DISP: u8 = 2;

/// `mod` = 11: `rm` names a register.
pub const MODE_REG: u8 = 3;

/// The `rm` value that, with `mod` = 00, selects a literal address.
pub const DIRECT_ADDRESS_RM: u8 = 6;

/// How many bytes of displacement or literal address follow the mod/reg/rm byte.
pub open spec fn displacement_length(mod_field: u8, rm_field: u8) -> int {
    if mod_field == MODE_MEM_NO_DISP {
        if rm_field == DIRECT_ADDRESS_RM {
            2
        } else {
            0
        }
    } else if mod_field == MODE_MEM_8_BIT_DISP {
        1
    } else if mod_field == MODE_MEM_16_BIT_DISP {
        2
    } else {
        0
    }
}

/// The operand that the `mod` and `rm` fields select, where the bytes that follow the
/// mod/reg/rm byte start at `address`.
pub open spec fn rm_operand(
    memory: Seq<u8>,
    address: u16,
    mod_field: u8,
    rm_field: u8,
) -> Operand {
    if mod_field == MODE_REG {
        Operand::Register(rm_field)
    } else if mod_field == MODE_MEM_NO_DISP {
        if rm_field == DIRECT_ADDRESS_RM {
            Operand::Direct(word_at(memory, address))
        } else {
            Operand::Indexed(rm_field, 0)
        }
    } else if mod_field == MODE_MEM_8_BIT_DISP {
        Operand::Indexed(rm_field, signed_byte(byte_at(memory, address)) as i16)
    } else {
        Operand::Indexed(rm_field, signed_word(word_at(memory, address)))
    }
}

/// The address of a memory operand: the literal address, or the base and index sum plus the
/// displacement, modulo 2^16.
pub open spec fn effective_address(registers: Registers, operand: Operand) -> u16 {
    match operand {
        Operand::Direct(address) => address,
        Operand::Indexed(expression, displacement) => ((registers.expression(expression)
            + displacement) % 0x1_0000) as u16,
        _ => 0,
    }
}

/// Decodes the operand that `mod` and `rm` select, and moves `ip` past its displacement.
pub fn decode_rm_operand(
    memory: &Memory,
    ip: &mut u16,
    mod_field: u8,
    rm_field: u8,
) -> (operand: Operand)
    requires
        mod_field < 4,
        rm_field < 8,
        *old(ip) + displacement_length(mod_field, rm_field) <= 0xFFFF,
    ensures
        operand == rm_operand(memory@, *old(ip), mod_field, rm_field),
        *final(ip) == *old(ip) + displacement_length(mod_field, rm_field),
        !operand.is_immediate(),
        operand.well_formed(true),
        operand.well_formed(false),
{
    if mod_field == MODE_REG {
        Operand::Register(rm_field)
    } else if mod_field == MODE_MEM_NO_DISP {
        if rm_field == DIRECT_ADDRESS_RM {
            let address: u16 = grab_instruction_word(memory, ip);
            Operand::Direct(address)
        } else {
            Operand::Indexed(rm_field, 0)
        }
    } else if mod_field == MODE_MEM_8_BIT_DISP {
        let displacement: i8 = as_signed_byte(grab_instruction_byte(memory, ip));
        Operand::Indexed(rm_field, displacement as i16)
    } else {
        let displacement: i16 = as_signed_word(grab_instruction_word(memory, ip));
        Operand::Indexed(rm_field, displacement)
    }
}

/// Computes the address of a memory operand.
pub fn calculate_effective_address(registers: &Registers, operand: Operand) -> (address: u16)
    requires
        operand.is_memory(),
        operand.well_formed(true),
    ensures
        address == effective_address(*registers, operand),
{
    match operand {
        Operand::Direct(address) => address,
        Operand::Indexed(expression, displacement) => {
            let reg_expression: u16 = calculate_reg_expression(registers, expression);
            reg_expression.wrapping_add_signed(displacement)
        },
        _ => 0,
    }
}

/// Every pair of a `mod` and an `rm` value selects the documented operand: a register for
/// `mod` = 11; the literal address that follows for `mod` = 00 with `rm` = 110, and not `bp`
/// without displacement; else the base and index sum of `rm`, alone for `mod` = 00, plus the
/// sign-extended byte that follows for `mod` = 01, plus the word that follows for `mod` = 10,
/// each sum taken modulo 2^16.
pub proof fn addressing_modes_are_exhaustive(
    registers: Registers,
    memory: Seq<u8>,
    address: u16,
    mod_field: u8,
    rm_field: u8,
)
    requires
        mod_field < 4,
        rm_field < 8,
    ensures
        ({
            let operand = rm_operand(memory, address, mod_field, rm_field);
            let target = effective_address(registers, operand);
            &&& mod_field == 3 ==> operand == Operand::Register(rm_field)
            &&& mod_field != 3 ==> operand.is_memory()
            &&& mod_field == 0 && rm_field == 6 ==> operand is Direct && target == word_at(
                memory,
                address,
            )
            &&& mod_field == 0 && rm_field != 6 ==> target == registers.expression(rm_field)
            &&& mod_field == 1 ==> target == (registers.expression(rm_field) + signed_byte(
                byte_at(memory, address),
            )) % 0x1_0000
            &&& mod_field == 2 ==> target == (registers.expression(rm_field) + word_at(
                memory,
                address,
            )) % 0x1_0000
        }),
{
}

} // verus!
