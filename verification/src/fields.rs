//! The fields of opcode and mod/reg/rm bytes.

use vstd::prelude::*;

verus! {

/// The `mod` field of a mod/reg/rm byte: its two high bits.
pub open spec fn mod_field(byte: u8) -> u8 {
    byte / 64
}

/// The `reg` field of a mod/reg/rm byte, and the operation slot of an arithmetic opcode:
/// bits 3 to 5.
pub open spec fn reg_field(byte: u8) -> u8 {
    (byte / 8) % 8
}

/// The `rm` field of a mod/reg/rm byte, and the register of a one-byte register opcode: the
/// three low bits.
pub open spec fn rm_field(byte: u8) -> u8 {
    byte % 8
}

/// The width bit of an opcode: bit 0. Set for a 16-bit operation.
pub open spec fn w_bit(opcode: u8) -> bool {
    opcode % 2 == 1
}

/// The direction bit of an opcode: bit 1. Set when the `reg` field names the destination.
pub open spec fn d_bit(opcode: u8) -> bool {
    (opcode / 2) % 2 == 1
}

/// The sign bit of an opcode of the immediate group: bit 1. Set when the literal is one byte
/// that is sign-extended to the operation's width.
pub open spec fn s_bit(opcode: u8) -> bool {
    (opcode / 2) % 2 == 1
}

/// The width bit of a one-byte register opcode: bit 3.
pub open spec fn register_w_bit(opcode: u8) -> bool {
    (opcode / 8) % 2 == 1
}

/// The value of a byte read as a two's-complement number.
pub open spec fn signed_byte(byte: u8) -> i8 {
    if byte < 0x80 {
        byte as i8
    } else {
        (byte - 0x100) as i8
    }
}

/// The value of a word read as a two's-complement number.
pub open spec fn signed_word(word: u16) -> i16 {
    if word < 0x8000 {
        word as i16
    } else {
        (word - 0x1_0000) as i16
    }
}

/// The masks and shifts that extract a field agree with division and remainder.
proof fn lemma_fields(byte: u8)
    by (bit_vector)
    ensures
        (byte & 0xC0) >> 6 == byte / 64,
        (byte & 0x38) >> 3 == (byte / 8) % 8,
        byte & 0x07 == byte % 8,
        byte & 0x01 == byte % 2,
        (byte & 0x02) >> 1 == (byte / 2) % 2,
        (byte & 0x08) >> 3 == (byte / 8) % 2,
        byte & 0x0F == byte % 16,
        byte & 0x03 == byte % 4,
{
}

/// Extracts the `mod` field.
pub fn mod_field_of(byte: u8) -> (field: u8)
    ensures
        field == mod_field(byte),
        field < 4,
{
    proof {
        lemma_fields(byte);
    }
    (byte & 0xC0) >> 6
}

/// Extracts the `reg` field.
pub fn reg_field_of(byte: u8) -> (field: u8)
    ensures
        field == reg_field(byte),
        field < 8,
{
    proof {
        lemma_fields(byte);
    }
    (byte & 0x38) >> 3
}

/// Extracts the `rm` field.
pub fn rm_field_of(byte: u8) -> (field: u8)
    ensures
        field == rm_field(byte),
        field < 8,
{
    proof {
        lemma_fields(byte);
    }
    byte & 0x07
}

/// Extracts the width bit.
pub fn w_bit_of(opcode: u8) -> (set: bool)
    ensures
        set == w_bit(opcode),
{
    proof {
        lemma_fields(opcode);
    }
    opcode & 0x01 == 1
}

/// Extracts the direction bit.
pub fn d_bit_of(opcode: u8) -> (set: bool)
    ensures
        set == d_bit(opcode),
{
    proof {
        lemma_fields(opcode);
    }
    (opcode & 0x02) >> 1 == 1
}

/// Extracts the sign bit of an opcode of the immediate group.
pub fn s_bit_of(opcode: u8) -> (set: bool)
    ensures
        set == s_bit(opcode),
{
    proof {
        lemma_fields(opcode);
    }
    (opcode & 0x02) >> 1 == 1
}

/// Extracts the width bit of a one-byte register opcode.
pub fn register_w_bit_of(opcode: u8) -> (set: bool)
    ensures
        set == register_w_bit(opcode),
{
    proof {
        lemma_fields(opcode);
    }
    (opcode & 0x08) >> 3 == 1
}

/// Extracts the slot of a conditional-jump opcode: its four low bits.
pub fn conditional_jump_slot_of(opcode: u8) -> (slot: u8)
    ensures
        slot == opcode % 16,
{
    proof {
        lemma_fields(opcode);
    }
    opcode & 0x0F
}

/// Extracts the slot of a loop opcode: its two low bits.
pub fn loop_slot_of(opcode: u8) -> (slot: u8)
    ensures
        slot == opcode % 4,
{
    proof {
        lemma_fields(opcode);
    }
    opcode & 0x03
}

/// Reads a byte as a two's-complement number.
pub fn as_signed_byte(byte: u8) -> (value: i8)
    ensures
        value == signed_byte(byte),
{
    if byte < 0x80 {
        byte as i8
    } else {
        (byte as i16 - 0x100) as i8
    }
}

/// Reads a word as a two's-complement number.
pub fn as_signed_word(word: u16) -> (value: i16)
    ensures
        value == signed_word(word),
{
    if word < 0x8000 {
        word as i16
    } else {
        (word as i32 - 0x1_0000) as i16
    }
}

} // verus!
