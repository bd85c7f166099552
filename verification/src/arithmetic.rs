//! The arithmetic unit: the flags, the six operations on bytes and words, their use on
//! registers and memory, and the three encodings of the arithmetic instructions.

use vstd::prelude::*;
use crate::decoding::{
    complete, fits, immediate_at, immediate_length, read_immediate, read_rm_form, rm_form_at,
    step_agrees, stepped,
};
use crate::execution::machine;
use crate::fault::Fault;
use crate::fields::{
    as_signed_byte, d_bit, d_bit_of, reg_field, reg_field_of, s_bit, s_bit_of, signed_byte, w_bit,
    w_bit_of,
};
use crate::instruction::{Decoded, Instruction, Operand};
use crate::memory::{
    byte_at, grab_instruction_byte, load_byte, load_word, store_byte, store_word, with_byte_at,
    with_word_at, word_at, Memory,
};
use crate::registers::{
    get_16_bit_register, get_8_bit_register, set_16_bit_register, set_8_bit_register, sign_flag,
    zero_flag, Registers, SF_FLAG_BIT, ZF_FLAG_BIT,
};

verus! {

/// `x` with the bits of `bit_flag` set when `value` holds and cleared when it does not.
pub open spec fn with_bit(x: u16, bit_flag: u16, value: bool) -> u16 {
    if value {
        x | bit_flag
    } else {
        x & !bit_flag
    }
}

/// Sets or clears the bits of `bit_flag` in `x`.
pub fn set_bit(x: u16, bit_flag: u16, value: bool) -> (result: u16)
    ensures
        result == with_bit(x, bit_flag, value),
{
    if value {
        x | bit_flag
    } else {
        x & !bit_flag
    }
}

/// The flags word after an operation: the zero flag says whether the result was zero, the
/// sign flag whether its high bit was set, and every other bit is kept.
pub open spec fn flags_after(flags: u16, zero: bool, negative: bool) -> u16 {
    with_bit(with_bit(flags, ZF_FLAG_BIT, zero), SF_FLAG_BIT, negative)
}

/// Whether bit 15 of `result` is set.
pub open spec fn negative_16(result: u16) -> bool {
    result >= 0x8000
}

/// Whether bit 7 of `result` is set.
pub open spec fn negative_8(result: u8) -> bool {
    result >= 0x80
}

/// The flags word after a 16-bit operation that produced `result`.
pub open spec fn flags_after_16(flags: u16, result: u16) -> u16 {
    flags_after(flags, result == 0, negative_16(result))
}

/// The flags word after an 8-bit operation that produced `result`.
pub open spec fn flags_after_8(flags: u16, result: u8) -> u16 {
    flags_after(flags, result == 0, negative_8(result))
}

/// Setting and clearing the zero and sign bits gives a word in which exactly those two bits
/// answer as asked.
proof fn lemma_flag_bits(flags: u16, zero: bool, negative: bool)
    by (bit_vector)
    ensures
        (flags_after(flags, zero, negative) & 0x0040u16 != 0) == zero,
        (flags_after(flags, zero, negative) & 0x0080u16 != 0) == negative,
        flags_after(flags, zero, negative) & !0x00C0u16 == flags & !0x00C0u16,
{
}

/// The high bit of a word or of a byte is set exactly when the value is in the upper half of
/// its range.
proof fn lemma_high_bit(word: u16, byte: u8)
    by (bit_vector)
    ensures
        (word & 0x8000u16 != 0) == (word >= 0x8000u16),
        (byte & 0x80u8 != 0) == (byte >= 0x80u8),
{
}

/// The flags word after a 16-bit operation that produced `result`.
pub fn update_flags_register_16_bit(flags_register: u16, result: u16) -> (flags: u16)
    ensures
        flags == flags_after_16(flags_register, result),
        zero_flag(flags) <==> result == 0,
        sign_flag(flags) <==> negative_16(result),
        flags & !0x00C0u16 == flags_register & !0x00C0u16,
{
    proof {
        lemma_high_bit(result, 0);
        lemma_flag_bits(flags_register, result == 0, negative_16(result));
    }
    let is_zero: bool = result == 0;
    let zeroed: u16 = set_bit(flags_register, ZF_FLAG_BIT, is_zero);

    let is_signed: bool = result & 0x8000 != 0;
    set_bit(zeroed, SF_FLAG_BIT, is_signed)
}

/// The flags word after an 8-bit operation that produced `result`.
pub fn update_flags_register_8_bit(flags_register: u16, result: u8) -> (flags: u16)
    ensures
        flags == flags_after_8(flags_register, result),
        zero_flag(flags) <==> result == 0,
        sign_flag(flags) <==> negative_8(result),
        flags & !0x00C0u16 == flags_register & !0x00C0u16,
{
    proof {
        lemma_high_bit(0, result);
        lemma_flag_bits(flags_register, result == 0, negative_8(result));
    }
    let is_zero: bool = result == 0;
    let zeroed: u16 = set_bit(flags_register, ZF_FLAG_BIT, is_zero);

    let is_signed: bool = result & 0x80 != 0;
    set_bit(zeroed, SF_FLAG_BIT, is_signed)
}

/// `x + y` modulo 2^16.
pub open spec fn sum_16(x: u16, y: u16) -> u16 {
    ((x + y) % 0x1_0000) as u16
}

/// `x - y` modulo 2^16.
pub open spec fn difference_16(x: u16, y: u16) -> u16 {
    ((x - y) % 0x1_0000) as u16
}

/// Adds two words modulo 2^16 and sets the flags of the sum.
pub fn add_op_16_bit(x: u16, y: u16, flags_register: &mut u16) -> (result: u16)
    ensures
        result == sum_16(x, y),
        *final(flags_register) == flags_after_16(*old(flags_register), result),
        zero_flag(*final(flags_register)) <==> (x + y) % 0x1_0000 == 0,
        sign_flag(*final(flags_register)) <==> negative_16(result),
{
    let result: u16 = x.wrapping_add(y);
    *flags_register = update_flags_register_16_bit(*flags_register, result);
    result
}

/// Combines two words with bitwise or and sets the flags of the result.
pub fn or_op_16_bit(x: u16, y: u16, flags_register: &mut u16) -> (result: u16)
    ensures
        result == x | y,
        *final(flags_register) == flags_after_16(*old(flags_register), result),
        zero_flag(*final(flags_register)) <==> result == 0,
        sign_flag(*final(flags_register)) <==> negative_16(result),
{
    let result: u16 = x | y;
    *flags_register = update_flags_register_16_bit(*flags_register, result);
    result
}

/// Combines two words with bitwise and and sets the flags of the result.
pub fn and_op_16_bit(x: u16, y: u16, flags_register: &mut u16) -> (result: u16)
    ensures
        result == x & y,
        *final(flags_register) == flags_after_16(*old(flags_register), result),
        zero_flag(*final(flags_register)) <==> result == 0,
        sign_flag(*final(flags_register)) <==> negative_16(result),
{
    let result: u16 = x & y;
    *flags_register = update_flags_register_16_bit(*flags_register, result);
    result
}

/// Subtracts `y` from `x` modulo 2^16 and sets the flags of the difference.
pub fn sub_op_16_bit(x: u16, y: u16, flags_register: &mut u16) -> (result: u16)
    ensures
        result == difference_16(x, y),
        *final(flags_register) == flags_after_16(*old(flags_register), result),
        zero_flag(*final(flags_register)) <==> x == y,
        sign_flag(*final(flags_register)) <==> negative_16(result),
{
    let result: u16 = x.wrapping_sub(y);
    *flags_register = update_flags_register_16_bit(*flags_register, result);
    result
}

/// Combines two words with bitwise exclusive or and sets the flags of the result.
pub fn xor_op_16_bit(x: u16, y: u16, flags_register: &mut u16) -> (result: u16)
    ensures
        result == x ^ y,
        *final(flags_register) == flags_after_16(*old(flags_register), result),
        zero_flag(*final(flags_register)) <==> result == 0,
        sign_flag(*final(flags_register)) <==> negative_16(result),
{
    let result: u16 = x ^ y;
    *flags_register = update_flags_register_16_bit(*flags_register, result);
    result
}

/// Compares two words: sets the flags of `x - y` and returns nothing.
pub fn cmp_op_16_bit(x: u16, y: u16, flags_register: &mut u16)
    ensures
        *final(flags_register) == flags_after_16(*old(flags_register), difference_16(x, y)),
        zero_flag(*final(flags_register)) <==> x == y,
        sign_flag(*final(flags_register)) <==> negative_16(difference_16(x, y)),
{
    let result: u16 = x.wrapping_sub(y);
    *flags_register = update_flags_register_16_bit(*flags_register, result);
}

/// `x + y` modulo 2^8.
pub open spec fn sum_8(x: u8, y: u8) -> u8 {
    ((x + y) % 0x100) as u8
}

/// `x - y` modulo 2^8.
pub open spec fn difference_8(x: u8, y: u8) -> u8 {
    ((x - y) % 0x100) as u8
}

/// Adds two bytes modulo 2^8 and sets the flags of the sum.
pub fn add_op_8_bit(x: u8, y: u8, flags_register: &mut u16) -> (result: u8)
    ensures
        result == sum_8(x, y),
        *final(flags_register) == flags_after_8(*old(flags_register), result),
        zero_flag(*final(flags_register)) <==> (x + y) % 0x100 == 0,
        sign_flag(*final(flags_register)) <==> negative_8(result),
{
    let result: u8 = x.wrapping_add(y);
    *flags_register = update_flags_register_8_bit(*flags_register, result);
    result
}

/// Combines two bytes with bitwise or and sets the flags of the result.
pub fn or_op_8_bit(x: u8, y: u8, flags_register: &mut u16) -> (result: u8)
    ensures
        result == x | y,
        *final(flags_register) == flags_after_8(*old(flags_register), result),
        zero_flag(*final(flags_register)) <==> result == 0,
        sign_flag(*final(flags_register)) <==> negative_8(result),
{
    let result: u8 = x | y;
    *flags_register = update_flags_register_8_bit(*flags_register, result);
    result
}

/// Combines two bytes with bitwise and and sets the flags of the result.
pub fn and_op_8_bit(x: u8, y: u8, flags_register: &mut u16) -> (result: u8)
    ensures
        result == x & y,
        *final(flags_register) == flags_after_8(*old(flags_register), result),
        zero_flag(*final(flags_register)) <==> result == 0,
        sign_flag(*final(flags_register)) <==> negative_8(result),
{
    let result: u8 = x & y;
    *flags_register = update_flags_register_8_bit(*flags_register, result);
    result
}

/// Subtracts `y` from `x` modulo 2^8 and sets the flags of the difference.
pub fn sub_op_8_bit(x: u8, y: u8, flags_register: &mut u16) -> (result: u8)
    ensures
        result == difference_8(x, y),
        *final(flags_register) == flags_after_8(*old(flags_register), result),
        zero_flag(*final(flags_register)) <==> x == y,
        sign_flag(*final(flags_register)) <==> negative_8(result),
{
    let result: u8 = x.wrapping_sub(y);
    *flags_register = update_flags_register_8_bit(*flags_register, result);
    result
}

/// Combines two bytes with bitwise exclusive or and sets the flags of the result.
pub fn xor_op_8_bit(x: u8, y: u8, flags_register: &mut u16) -> (result: u8)
    ensures
        result == x ^ y,
        *final(flags_register) == flags_after_8(*old(flags_register), result),
        zero_flag(*final(flags_register)) <==> result == 0,
        sign_flag(*final(flags_register)) <==> negative_8(result),
{
    let result: u8 = x ^ y;
    *flags_register = update_flags_register_8_bit(*flags_register, result);
    result
}

/// Compares two bytes: sets the flags of `x - y` and returns nothing.
pub fn cmp_op_8_bit(x: u8, y: u8, flags_register: &mut u16)
    ensures
        *final(flags_register) == flags_after_8(*old(flags_register), difference_8(x, y)),
        zero_flag(*final(flags_register)) <==> x == y,
        sign_flag(*final(flags_register)) <==> negative_8(difference_8(x, y)),
{
    let result: u8 = x.wrapping_sub(y);
    *flags_register = update_flags_register_8_bit(*flags_register, result);
}

/// The mnemonic of the arithmetic slot `instruction_index`.
pub open spec fn arithmetic_name(instruction_index: u8) -> Seq<char> {
    if instruction_index == 0 {
        "add"@
    } else if instruction_index == 1 {
        "or"@
    } else if instruction_index == 2 {
        "adc"@
    } else if instruction_index == 3 {
        "sbb"@
    } else if instruction_index == 4 {
        "and"@
    } else if instruction_index == 5 {
        "sub"@
    } else if instruction_index == 6 {
        "xor"@
    } else {
        "cmp"@
    }
}

/// The mnemonic of an arithmetic slot.
pub fn arithmetic_instruction_encoding(instruction_index: u8) -> (name: &'static str)
    requires
        instruction_index < 8,
    ensures
        name@ == arithmetic_name(instruction_index),
{
    match instruction_index {
        0 => "add",
        1 => "or",
        2 => "adc",
        3 => "sbb",
        4 => "and",
        5 => "sub",
        6 => "xor",
        _ => "cmp",
    }
}

/// Whether the arithmetic slot `instruction_index` is implemented: `add`, `or`, `and`, `sub`,
/// `xor` and the comparison are; slots 2 and 3 are reserved.
pub open spec fn arithmetic_implemented(instruction_index: u8) -> bool {
    instruction_index == 0 || instruction_index == 1 || (4 <= instruction_index <= 7)
}

/// Whether an arithmetic slot is implemented.
pub fn is_arithmetic_implemented(instruction_index: u8) -> (answer: bool)
    ensures
        answer == arithmetic_implemented(instruction_index),
{
    instruction_index == 0 || instruction_index == 1 || (4 <= instruction_index
        && instruction_index <= 7)
}

/// Whether the slot stores its result in the destination: every slot but the comparison.
pub open spec fn arithmetic_writes_back(instruction_index: u8) -> bool {
    instruction_index != 7
}

/// What the 16-bit operation in slot `instruction_index` computes from destination `x` and
/// source `y`. The comparison computes the difference, as `sub` does.
pub open spec fn arithmetic_result_16(instruction_index: u8, x: u16, y: u16) -> u16 {
    if instruction_index == 0 {
        sum_16(x, y)
    } else if instruction_index == 1 {
        x | y
    } else if instruction_index == 4 {
        x & y
    } else if instruction_index == 6 {
        x ^ y
    } else {
        difference_16(x, y)
    }
}

/// What the 8-bit operation in slot `instruction_index` computes from destination `x` and
/// source `y`.
pub open spec fn arithmetic_result_8(instruction_index: u8, x: u8, y: u8) -> u8 {
    if instruction_index == 0 {
        sum_8(x, y)
    } else if instruction_index == 1 {
        x | y
    } else if instruction_index == 4 {
        x & y
    } else if instruction_index == 6 {
        x ^ y
    } else {
        difference_8(x, y)
    }
}

/// `registers` with the flags word replaced by `flags`.
pub open spec fn with_flags(registers: Registers, flags: u16) -> Registers {
    Registers { flags, ..registers }
}

/// The register file after the 16-bit operation in slot `instruction_index` on the word
/// register `field_index` with source value `immediate`.
pub open spec fn word_register_operated(
    registers: Registers,
    field_index: u8,
    instruction_index: u8,
    immediate: u16,
) -> Registers {
    let result = arithmetic_result_16(instruction_index, registers.word(field_index), immediate);
    let flagged = with_flags(registers, flags_after_16(registers.flags, result));
    if arithmetic_writes_back(instruction_index) {
        flagged.with_word(field_index, result)
    } else {
        flagged
    }
}

/// Runs the 16-bit operation of an implemented slot on a word register.
pub fn arithmetic_op_with_reg_16_bit(
    registers: &mut Registers,
    field_index: u8,
    instruction_index: u8,
    immediate: u16,
)
    requires
        field_index < 8,
        arithmetic_implemented(instruction_index),
    ensures
        *final(registers) == word_register_operated(
            *old(registers),
            field_index,
            instruction_index,
            immediate,
        ),
{
    let field_value: u16 = get_16_bit_register(registers, field_index);

    match instruction_index {
        0 => {
            let add_result: u16 = add_op_16_bit(field_value, immediate, &mut registers.flags);
            set_16_bit_register(registers, field_index, add_result);
        },
        1 => {
            let or_result: u16 = or_op_16_bit(field_value, immediate, &mut registers.flags);
            set_16_bit_register(registers, field_index, or_result);
        },
        4 => {
            let and_result: u16 = and_op_16_bit(field_value, immediate, &mut registers.flags);
            set_16_bit_register(registers, field_index, and_result);
        },
        5 => {
            let sub_result: u16 = sub_op_16_bit(field_value, immediate, &mut registers.flags);
            set_16_bit_register(registers, field_index, sub_result);
        },
        6 => {
            let xor_result: u16 = xor_op_16_bit(field_value, immediate, &mut registers.flags);
            set_16_bit_register(registers, field_index, xor_result);
        },
        7 => {
            cmp_op_16_bit(field_value, immediate, &mut registers.flags);
        },
        _ => {},
    }
}

/// Memory after the 16-bit operation in slot `instruction_index` on the word at `address`
/// with source value `immediate`.
pub open spec fn word_in_memory_operated(
    memory: Seq<u8>,
    address: u16,
    instruction_index: u8,
    immediate: u16,
) -> Seq<u8> {
    if arithmetic_writes_back(instruction_index) {
        with_word_at(
            memory,
            address,
            arithmetic_result_16(instruction_index, word_at(memory, address), immediate),
        )
    } else {
        memory
    }
}

/// Runs the 16-bit operation of an implemented slot on the word at `address`, which must end
/// within memory.
pub fn arithmetic_op_with_mem_16_bit(
    registers: &mut Registers,
    memory: &mut Memory,
    address: u16,
    instruction_index: u8,
    immediate: u16,
)
    requires
        address < 0xFFFF,
        arithmetic_implemented(instruction_index),
    ensures
        *final(registers) == with_flags(
            *old(registers),
            flags_after_16(
                old(registers).flags,
                arithmetic_result_16(instruction_index, word_at(old(memory)@, address), immediate),
            ),
        ),
        final(memory)@ == word_in_memory_operated(
            old(memory)@,
            address,
            instruction_index,
            immediate,
        ),
{
    let word: u16 = load_word(memory, address);

    match instruction_index {
        0 => {
            let add_result: u16 = add_op_16_bit(word, immediate, &mut registers.flags);
            store_word(memory, address, add_result);
        },
        1 => {
            let or_result: u16 = or_op_16_bit(word, immediate, &mut registers.flags);
            store_word(memory, address, or_result);
        },
        4 => {
            let and_result: u16 = and_op_16_bit(word, immediate, &mut registers.flags);
            store_word(memory, address, and_result);
        },
        5 => {
            let sub_result: u16 = sub_op_16_bit(word, immediate, &mut registers.flags);
            store_word(memory, address, sub_result);
        },
        6 => {
            let xor_result: u16 = xor_op_16_bit(word, immediate, &mut registers.flags);
            store_word(memory, address, xor_result);
        },
        7 => {
            cmp_op_16_bit(word, immediate, &mut registers.flags);
        },
        _ => {},
    }
}

/// The register file after the 8-bit operation in slot `instruction_index` on the byte
/// register `field_index` with source value `immediate`.
pub open spec fn byte_register_operated(
    registers: Registers,
    field_index: u8,
    instruction_index: u8,
    immediate: u8,
) -> Registers {
    let result = arithmetic_result_8(instruction_index, registers.byte(field_index), immediate);
    let flagged = with_flags(registers, flags_after_8(registers.flags, result));
    if arithmetic_writes_back(instruction_index) {
        flagged.with_byte(field_index, result)
    } else {
        flagged
    }
}

/// Runs the 8-bit operation of an implemented slot on a byte register.
pub fn arithmetic_op_with_reg_8_bit(
    registers: &mut Registers,
    field_index: u8,
    instruction_index: u8,
    immediate: u8,
)
    requires
        field_index < 8,
        arithmetic_implemented(instruction_index),
    ensures
        *final(registers) == byte_register_operated(
            *old(registers),
            field_index,
            instruction_index,
            immediate,
        ),
{
    let field_value: u8 = get_8_bit_register(registers, field_index);

    match instruction_index {
        0 => {
            let add_result: u8 = add_op_8_bit(field_value, immediate, &mut registers.flags);
            set_8_bit_register(registers, field_index, add_result);
        },
        1 => {
            let or_result: u8 = or_op_8_bit(field_value, immediate, &mut registers.flags);
            set_8_bit_register(registers, field_index, or_result);
        },
        4 => {
            let and_result: u8 = and_op_8_bit(field_value, immediate, &mut registers.flags);
            set_8_bit_register(registers, field_index, and_result);
        },
        5 => {
            let sub_result: u8 = sub_op_8_bit(field_value, immediate, &mut registers.flags);
            set_8_bit_register(registers, field_index, sub_result);
        },
        6 => {
            let xor_result: u8 = xor_op_8_bit(field_value, immediate, &mut registers.flags);
            set_8_bit_register(registers, field_index, xor_result);
        },
        7 => {
            cmp_op_8_bit(field_value, immediate, &mut registers.flags);
        },
        _ => {},
    }
}

/// Memory after the 8-bit operation in slot `instruction_index` on the byte at `address`
/// with source value `immediate`.
pub open spec fn byte_in_memory_operated(
    memory: Seq<u8>,
    address: u16,
    instruction_index: u8,
    immediate: u8,
) -> Seq<u8> {
    if arithmetic_writes_back(instruction_index) {
        with_byte_at(
            memory,
            address,
            arithmetic_result_8(instruction_index, byte_at(memory, address), immediate),
        )
    } else {
        memory
    }
}

/// Runs the 8-bit operation of an implemented slot on the byte at `address`.
pub fn arithmetic_op_with_mem_8_bit(
    registers: &mut Registers,
    memory: &mut Memory,
    address: u16,
    instruction_index: u8,
    immediate: u8,
)
    requires
        arithmetic_implemented(instruction_index),
    ensures
        *final(registers) == with_flags(
            *old(registers),
            flags_after_8(
                old(registers).flags,
                arithmetic_result_8(instruction_index, byte_at(old(memory)@, address), immediate),
            ),
        ),
        final(memory)@ == byte_in_memory_operated(
            old(memory)@,
            address,
            instruction_index,
            immediate,
        ),
{
    let byte: u8 = load_byte(memory, address);

    match instruction_index {
        0 => {
            let add_result: u8 = add_op_8_bit(byte, immediate, &mut registers.flags);
            store_byte(memory, address, add_result);
        },
        1 => {
            let or_result: u8 = or_op_8_bit(byte, immediate, &mut registers.flags);
            store_byte(memory, address, or_result);
        },
        4 => {
            let and_result: u8 = and_op_8_bit(byte, immediate, &mut registers.flags);
            store_byte(memory, address, and_result);
        },
        5 => {
            let sub_result: u8 = sub_op_8_bit(byte, immediate, &mut registers.flags);
            store_byte(memory, address, sub_result);
        },
        6 => {
            let xor_result: u8 = xor_op_8_bit(byte, immediate, &mut registers.flags);
            store_byte(memory, address, xor_result);
        },
        7 => {
            cmp_op_8_bit(byte, immediate, &mut registers.flags);
        },
        _ => {},
    }
}

/// The flags follow the result of every implemented 16-bit operation, for all operands: the
/// zero flag is set exactly when the result is zero, the sign flag exactly when bit 15 of the
/// result is set, and no other bit of the flags word changes. The result of `add` is the sum
/// modulo 2^16, that of `sub` and of the comparison the difference modulo 2^16, and that of
/// `or`, `and` and `xor` the bitwise combination.
pub proof fn flags_follow_result_16(instruction_index: u8, a: u16, b: u16, flags: u16)
    requires
        arithmetic_implemented(instruction_index),
    ensures
        ({
            let result = arithmetic_result_16(instruction_index, a, b);
            let after = flags_after_16(flags, result);
            &&& zero_flag(after) <==> result == 0
            &&& sign_flag(after) <==> result & 0x8000u16 != 0
            &&& after & !0x00C0u16 == flags & !0x00C0u16
            &&& instruction_index == 0 ==> result == (a + b) % 0x1_0000
            &&& instruction_index == 1 ==> result == a | b
            &&& instruction_index == 4 ==> result == a & b
            &&& instruction_index == 5 || instruction_index == 7 ==> result == (a - b) % 0x1_0000
            &&& instruction_index == 6 ==> result == a ^ b
        }),
{
    let result = arithmetic_result_16(instruction_index, a, b);
    lemma_high_bit(result, 0);
    lemma_flag_bits(flags, result == 0, negative_16(result));
}

/// The flags follow the result of every implemented 8-bit operation, for all operands: the
/// zero flag is set exactly when the result is zero, the sign flag exactly when bit 7 of the
/// result is set, and no other bit of the flags word changes.
pub proof fn flags_follow_result_8(instruction_index: u8, a: u8, b: u8, flags: u16)
    requires
        arithmetic_implemented(instruction_index),
    ensures
        ({
            let result = arithmetic_result_8(instruction_index, a, b);
            let after = flags_after_8(flags, result);
            &&& zero_flag(after) <==> result == 0
            &&& sign_flag(after) <==> result & 0x80u8 != 0
            &&& after & !0x00C0u16 == flags & !0x00C0u16
            &&& instruction_index == 0 ==> result == (a + b) % 0x100
            &&& instruction_index == 1 ==> result == a | b
            &&& instruction_index == 4 ==> result == a & b
            &&& instruction_index == 5 || instruction_index == 7 ==> result == (a - b) % 0x100
            &&& instruction_index == 6 ==> result == a ^ b
        }),
{
    let result = arithmetic_result_8(instruction_index, a, b);
    lemma_high_bit(0, result);
    lemma_flag_bits(flags, result == 0, negative_8(result));
}

/// The comparison writes nothing back: on a register it changes the flags word and nothing
/// else, and on memory it changes no byte.
pub proof fn comparison_writes_nothing(
    registers: Registers,
    memory: Seq<u8>,
    field_index: u8,
    address: u16,
    word: u16,
    byte: u8,
)
    ensures
        with_flags(word_register_operated(registers, field_index, 7, word), registers.flags)
            == registers,
        with_flags(byte_register_operated(registers, field_index, 7, byte), registers.flags)
            == registers,
        word_in_memory_operated(memory, address, 7, word) == memory,
        byte_in_memory_operated(memory, address, 7, byte) == memory,
{
}

/// The arithmetic instruction between a register and a register or memory operand whose
/// opcode byte is at `ip`: bits 3 to 5 of the opcode select the operation, the width bit the
/// width, and the direction bit says whether the `reg` field is the destination.
pub open spec fn arithmetic_mem_reg_with_reg_to_either_at(
    memory: Seq<u8>,
    ip: u16,
) -> Result<Decoded, Fault> {
    let opcode = byte_at(memory, ip);
    match rm_form_at(memory, ip) {
        None => Err(Fault::FetchOutOfRange(ip)),
        Some(form) => Ok(
            Decoded {
                instruction: Instruction::Arithmetic {
                    slot: reg_field(opcode),
                    wide: w_bit(opcode),
                    destination: if d_bit(opcode) {
                        Operand::Register(form.reg)
                    } else {
                        form.operand
                    },
                    source: if d_bit(opcode) {
                        form.operand
                    } else {
                        Operand::Register(form.reg)
                    },
                },
                next_ip: form.next_ip,
            },
        ),
    }
}

/// Reads an arithmetic instruction between a register and a register or memory operand.
pub fn read_arithmetic_mem_reg_with_reg_to_either(
    memory: &Memory,
    ip: u16,
) -> (decoded: Result<Decoded, Fault>)
    ensures
        decoded == arithmetic_mem_reg_with_reg_to_either_at(memory@, ip),
        decoded matches Ok(decoded) ==> decoded.instruction.well_formed(),
{
    let opcode: u8 = load_byte(memory, ip);
    let slot: u8 = reg_field_of(opcode);
    let to_register: bool = d_bit_of(opcode);
    let wide: bool = w_bit_of(opcode);
    match read_rm_form(memory, ip) {
        None => Err(Fault::FetchOutOfRange(ip)),
        Some(form) => {
            let register: Operand = Operand::Register(form.reg);
            let instruction: Instruction = if to_register {
                Instruction::Arithmetic { slot, wide, destination: register, source: form.operand }
            } else {
                Instruction::Arithmetic { slot, wide, destination: form.operand, source: register }
            };
            Ok(Decoded { instruction, next_ip: form.next_ip })
        },
    }
}

/// Decodes and runs the arithmetic instruction between a register and a register or memory
/// operand at the instruction pointer, and returns its line of assembly text.
pub fn decode_arithmetic_mem_reg_with_reg_to_either_encoding(
    registers: &mut Registers,
    memory: &mut Memory,
) -> (result: Result<String, Fault>)
    ensures
        step_agrees(
            stepped(
                arithmetic_mem_reg_with_reg_to_either_at(old(memory)@, old(registers).ip),
                *old(registers),
                old(memory)@,
            ),
            result,
            machine(*old(registers), old(memory)@),
            machine(*final(registers), final(memory)@),
        ),
{
    let decoded = read_arithmetic_mem_reg_with_reg_to_either(memory, registers.ip);
    complete(decoded, registers, memory)
}

/// The literal of an instruction of the immediate group, stored at `address`: a word, or a
/// byte, or, with the sign bit, a byte that is sign-extended.
pub open spec fn arithmetic_immediate_at(
    memory: Seq<u8>,
    address: u16,
    wide: bool,
    signed: bool,
) -> Operand {
    if signed {
        Operand::SignedImmediate(signed_byte(byte_at(memory, address)))
    } else {
        immediate_at(memory, address, wide)
    }
}

/// The arithmetic instruction with a literal source whose opcode byte is at `ip`: the `reg`
/// field of the mod/reg/rm byte selects the operation, and the literal follows the
/// displacement. The sign bit without the width bit is not implemented.
pub open spec fn arithmetic_signed_imm_to_reg_mem_at(
    memory: Seq<u8>,
    ip: u16,
) -> Result<Decoded, Fault> {
    let opcode = byte_at(memory, ip);
    let wide = w_bit(opcode);
    let signed = s_bit(opcode);
    let length = immediate_length(wide && !signed);
    if !fits(ip, 2) {
        Err(Fault::FetchOutOfRange(ip))
    } else if signed && !wide {
        Err(Fault::UnimplementedOpcode(opcode))
    } else {
        match rm_form_at(memory, ip) {
            None => Err(Fault::FetchOutOfRange(ip)),
            Some(form) => if !fits(form.next_ip, length) {
                Err(Fault::FetchOutOfRange(ip))
            } else {
                Ok(
                    Decoded {
                        instruction: Instruction::Arithmetic {
                            slot: form.reg,
                            wide,
                            destination: form.operand,
                            source: arithmetic_immediate_at(memory, form.next_ip, wide, signed),
                        },
                        next_ip: (form.next_ip + length) as u16,
                    },
                )
            },
        }
    }
}

/// Reads an arithmetic instruction with a literal source.
pub fn read_arithmetic_signed_imm_to_reg_mem(
    memory: &Memory,
    ip: u16,
) -> (decoded: Result<Decoded, Fault>)
    ensures
        decoded == arithmetic_signed_imm_to_reg_mem_at(memory@, ip),
        decoded matches Ok(decoded) ==> decoded.instruction.well_formed(),
{
    let opcode: u8 = load_byte(memory, ip);
    let signed: bool = s_bit_of(opcode);
    let wide: bool = w_bit_of(opcode);
    if ip > 0xFFFF - 2 {
        return Err(Fault::FetchOutOfRange(ip));
    }
    if signed && !wide {
        return Err(Fault::UnimplementedOpcode(opcode));
    }
    match read_rm_form(memory, ip) {
        None => Err(Fault::FetchOutOfRange(ip)),
        Some(form) => {
            let needed: u16 = if wide && !signed {
                2
            } else {
                1
            };
            if form.next_ip > 0xFFFF - needed {
                return Err(Fault::FetchOutOfRange(ip));
            }
            let mut cursor: u16 = form.next_ip;
            let source: Operand = if signed {
                Operand::SignedImmediate(as_signed_byte(grab_instruction_byte(memory, &mut cursor)))
            } else {
                read_immediate(memory, &mut cursor, wide)
            };
            Ok(
                Decoded {
                    instruction: Instruction::Arithmetic {
                        slot: form.reg,
                        wide,
                        destination: form.operand,
                        source,
                    },
                    next_ip: cursor,
                },
            )
        },
    }
}

/// Decodes and runs the arithmetic instruction with a literal source at the instruction
/// pointer, and returns its line of assembly text.
pub fn decode_arithmetic_signed_imm_to_reg_mem_encoding(
    registers: &mut Registers,
    memory: &mut Memory,
) -> (result: Result<String, Fault>)
    ensures
        step_agrees(
            stepped(
                arithmetic_signed_imm_to_reg_mem_at(old(memory)@, old(registers).ip),
                *old(registers),
                old(memory)@,
            ),
            result,
            machine(*old(registers), old(memory)@),
            machine(*final(registers), final(memory)@),
        ),
{
    let decoded = read_arithmetic_signed_imm_to_reg_mem(memory, registers.ip);
    complete(decoded, registers, memory)
}

/// The arithmetic instruction on the accumulator with a literal source whose opcode byte is
/// at `ip`: bits 3 to 5 of the opcode select the operation and the width bit the width.
pub open spec fn arithmetic_imm_to_acc_at(memory: Seq<u8>, ip: u16) -> Result<Decoded, Fault> {
    let opcode = byte_at(memory, ip);
    let wide = w_bit(opcode);
    if !fits(ip, 1 + immediate_length(wide)) {
        Err(Fault::FetchOutOfRange(ip))
    } else {
        Ok(
            Decoded {
                instruction: Instruction::Arithmetic {
                    slot: reg_field(opcode),
                    wide,
                    destination: Operand::Register(0),
                    source: immediate_at(memory, (ip + 1) as u16, wide),
                },
                next_ip: (ip + 1 + immediate_length(wide)) as u16,
            },
        )
    }
}

/// Reads an arithmetic instruction on the accumulator with a literal source.
pub fn read_arithmetic_imm_to_acc(memory: &Memory, ip: u16) -> (decoded: Result<Decoded, Fault>)
    ensures
        decoded == arithmetic_imm_to_acc_at(memory@, ip),
        decoded matches Ok(decoded) ==> decoded.instruction.well_formed(),
{
    let opcode: u8 = load_byte(memory, ip);
    let wide: bool = w_bit_of(opcode);
    let slot: u8 = reg_field_of(opcode);
    let needed: u16 = if wide {
        3
    } else {
        2
    };
    if ip > 0xFFFF - needed {
        return Err(Fault::FetchOutOfRange(ip));
    }
    let mut cursor: u16 = ip + 1;
    let source: Operand = read_immediate(memory, &mut cursor, wide);
    Ok(
        Decoded {
            instruction: Instruction::Arithmetic {
                slot,
                wide,
                destination: Operand::Register(0),
                source,
            },
            next_ip: cursor,
        },
    )
}

/// Decodes and runs the arithmetic instruction on the accumulator with a literal source at the
/// instruction pointer, and returns its line of assembly text.
pub fn decode_arithmetic_imm_to_acc_encoding(
    registers: &mut Registers,
    memory: &mut Memory,
) -> (result: Result<String, Fault>)
    ensures
        step_agrees(
            stepped(
                arithmetic_imm_to_acc_at(old(memory)@, old(registers).ip),
                *old(registers),
                old(memory)@,
            ),
            result,
            machine(*old(registers), old(memory)@),
            machine(*final(registers), final(memory)@),
        ),
{
    let decoded = read_arithmetic_imm_to_acc(memory, registers.ip);
    complete(decoded, registers, memory)
}

} // verus!
