//! The register file, with the byte registers as halves of the word registers.

use vstd::prelude::*;

verus! {

/// The register file: eight general word registers, the instruction pointer and the flags word.
///
/// `al`, `ah` and the other byte registers are not stored: they are the low and high halves of
/// `ax`, `cx`, `dx` and `bx`.
#[derive(Debug, Clone, Copy, PartialEq, Eq, Structural)]
pub struct Registers {
    pub ax: u16,
    pub bx: u16,
    pub cx: u16,
    pub dx: u16,
    pub sp: u16,
    pub bp: u16,
    pub si: u16,
    pub di: u16,
    pub ip: u16,
    pub flags: u16,
}

/// The bit of the flags word that holds the zero flag.
pub const ZF_FLAG_BIT: u16 = 0x0040;

/// The bit of the flags word that holds the sign flag.
pub const SF_FLAG_BIT: u16 = 0x0080;

/// Whether the zero flag is set in the flags word `flags`.
pub open spec fn zero_flag(flags: u16) -> bool {
    flags & ZF_FLAG_BIT != 0
}

/// Whether the sign flag is set in the flags word `flags`.
pub open spec fn sign_flag(flags: u16) -> bool {
    flags & SF_FLAG_BIT != 0
}

/// The low half of `word`.
pub open spec fn low_byte(word: u16) -> u8 {
    (word % 256) as u8
}

/// The high half of `word`.
pub open spec fn high_byte(word: u16) -> u8 {
    (word / 256) as u8
}

/// `word` with its low half replaced by `byte`.
pub open spec fn with_low_byte(word: u16, byte: u8) -> u16 {
    (high_byte(word) * 256 + byte) as u16
}

/// `word` with its high half replaced by `byte`.
pub open spec fn with_high_byte(word: u16, byte: u8) -> u16 {
    (byte * 256 + low_byte(word)) as u16
}

/// The masks and shifts that split and join a word agree with division and remainder.
proof fn lemma_halves(word: u16, byte: u8)
    by (bit_vector)
    ensures
        word & 0xFF00 == (word / 256) * 256,
        word & 0x00FF == word % 256,
        (word & 0xFF00) >> 8 == word / 256,
        (byte as u16) << 8 == byte * 256,
{
}

/// Replaces the low half of `word` by `byte`.
pub fn set_low_byte(word: u16, byte: u8) -> (result: u16)
    ensures
        result == with_low_byte(word, byte),
{
    proof {
        lemma_halves(word, byte);
    }
    (word & 0xFF00) + byte as u16
}

/// Replaces the high half of `word` by `byte`.
pub fn set_high_byte(word: u16, byte: u8) -> (result: u16)
    ensures
        result == with_high_byte(word, byte),
{
    proof {
        lemma_halves(word, byte);
    }
    (word & 0x00FF) + ((byte as u16) << 8)
}

/// The low half of `word`.
pub fn get_low_byte(word: u16) -> (byte: u8)
    ensures
        byte == low_byte(word),
{
    proof {
        lemma_halves(word, 0);
    }
    (word & 0x00FF) as u8
}

/// The high half of `word`.
pub fn get_high_byte(word: u16) -> (byte: u8)
    ensures
        byte == high_byte(word),
{
    proof {
        lemma_halves(word, 0);
    }
    ((word & 0xFF00) >> 8) as u8
}

impl Registers {
    /// The register file at power-up: every register is zero.
    pub open spec fn zeroed() -> Registers {
        Registers { ax: 0, bx: 0, cx: 0, dx: 0, sp: 0, bp: 0, si: 0, di: 0, ip: 0, flags: 0 }
    }

    /// The word register that the 16-bit field index `index` selects:
    /// `ax, cx, dx, bx, sp, bp, si, di` for 0 to 7.
    pub open spec fn word(self, index: u8) -> u16 {
        if index == 0 {
            self.ax
        } else if index == 1 {
            self.cx
        } else if index == 2 {
            self.dx
        } else if index == 3 {
            self.bx
        } else if index == 4 {
            self.sp
        } else if index == 5 {
            self.bp
        } else if index == 6 {
            self.si
        } else {
            self.di
        }
    }

    /// The register file with the word register `index` replaced by `value`.
    pub open spec fn with_word(self, index: u8, value: u16) -> Registers {
        if index == 0 {
            Registers { ax: value, ..self }
        } else if index == 1 {
            Registers { cx: value, ..self }
        } else if index == 2 {
            Registers { dx: value, ..self }
        } else if index == 3 {
            Registers { bx: value, ..self }
        } else if index == 4 {
            Registers { sp: value, ..self }
        } else if index == 5 {
            Registers { bp: value, ..self }
        } else if index == 6 {
            Registers { si: value, ..self }
        } else {
            Registers { di: value, ..self }
        }
    }

    /// The byte register that the 8-bit field index `index` selects:
    /// `al, cl, dl, bl, ah, ch, dh, bh` for 0 to 7. Index `i` and index `i + 4` are the two
    /// halves of word register `i`.
    pub open spec fn byte(self, index: u8) -> u8 {
        if index < 4 {
            low_byte(self.word(index))
        } else {
            high_byte(self.word((index - 4) as u8))
        }
    }

    /// The register file with the byte register `index` replaced by `value`; the other half of
    /// the word it lives in is kept.
    pub open spec fn with_byte(self, index: u8, value: u8) -> Registers {
        if index < 4 {
            self.with_word(index, with_low_byte(self.word(index), value))
        } else {
            self.with_word((index - 4) as u8, with_high_byte(self.word((index - 4) as u8), value))
        }
    }

    /// The base and index sum that the `rm` field `index` selects:
    /// `bx+si, bx+di, bp+si, bp+di, si, di, bp, bx` for 0 to 7, modulo 65536.
    pub open spec fn expression(self, index: u8) -> u16 {
        if index == 0 {
            ((self.bx + self.si) % 0x1_0000) as u16
        } else if index == 1 {
            ((self.bx + self.di) % 0x1_0000) as u16
        } else if index == 2 {
            ((self.bp + self.si) % 0x1_0000) as u16
        } else if index == 3 {
            ((self.bp + self.di) % 0x1_0000) as u16
        } else if index == 4 {
            self.si
        } else if index == 5 {
            self.di
        } else if index == 6 {
            self.bp
        } else {
            self.bx
        }
    }
}

impl Default for Registers {
    fn default() -> (registers: Registers)
        ensures
            registers == Registers::zeroed(),
    {
        Registers { ax: 0, bx: 0, cx: 0, dx: 0, sp: 0, bp: 0, si: 0, di: 0, ip: 0, flags: 0 }
    }
}

/// Writes the byte register that `field_index` selects; the other half of its word is kept.
pub fn set_8_bit_register(registers: &mut Registers, field_index: u8, value: u8)
    requires
        field_index < 8,
    ensures
        *final(registers) == old(registers).with_byte(field_index, value),
{
    match field_index {
        0 => {
            registers.ax = set_low_byte(registers.ax, value);
        },
        1 => {
            registers.cx = set_low_byte(registers.cx, value);
        },
        2 => {
            registers.dx = set_low_byte(registers.dx, value);
        },
        3 => {
            registers.bx = set_low_byte(registers.bx, value);
        },
        4 => {
            registers.ax = set_high_byte(registers.ax, value);
        },
        5 => {
            registers.cx = set_high_byte(registers.cx, value);
        },
        6 => {
            registers.dx = set_high_byte(registers.dx, value);
        },
        _ => {
            registers.bx = set_high_byte(registers.bx, value);
        },
    }
}

/// Writes the word register that `field_index` selects.
pub fn set_16_bit_register(registers: &mut Registers, field_index: u8, value: u16)
    requires
        field_index < 8,
    ensures
        *final(registers) == old(registers).with_word(field_index, value),
{
    match field_index {
        0 => {
            registers.ax = value;
        },
        1 => {
            registers.cx = value;
        },
        2 => {
            registers.dx = value;
        },
        3 => {
            registers.bx = value;
        },
        4 => {
            registers.sp = value;
        },
        5 => {
            registers.bp = value;
        },
        6 => {
            registers.si = value;
        },
        _ => {
            registers.di = value;
        },
    }
}

/// Reads the byte register that `field_index` selects.
pub fn get_8_bit_register(registers: &Registers, field_index: u8) -> (value: u8)
    requires
        field_index < 8,
    ensures
        value == registers.byte(field_index),
{
    match field_index {
        0 => get_low_byte(registers.ax),
        1 => get_low_byte(registers.cx),
        2 => get_low_byte(registers.dx),
        3 => get_low_byte(registers.bx),
        4 => get_high_byte(registers.ax),
        5 => get_high_byte(registers.cx),
        6 => get_high_byte(registers.dx),
        _ => get_high_byte(registers.bx),
    }
}

/// Reads the word register that `field_index` selects.
pub fn get_16_bit_register(registers: &Registers, field_index: u8) -> (value: u16)
    requires
        field_index < 8,
    ensures
        value == registers.word(field_index),
{
    match field_index {
        0 => registers.ax,
        1 => registers.cx,
        2 => registers.dx,
        3 => registers.bx,
        4 => registers.sp,
        5 => registers.bp,
        6 => registers.si,
        _ => registers.di,
    }
}

/// Computes the base and index sum that `expression_index` selects.
pub fn calculate_reg_expression(registers: &Registers, expression_index: u8) -> (address: u16)
    requires
        expression_index < 8,
    ensures
        address == registers.expression(expression_index),
{
    match expression_index {
        0 => registers.bx.wrapping_add(registers.si),
        1 => registers.bx.wrapping_add(registers.di),
        2 => registers.bp.wrapping_add(registers.si),
        3 => registers.bp.wrapping_add(registers.di),
        4 => registers.si,
        5 => registers.di,
        6 => registers.bp,
        _ => registers.bx,
    }
}

/// Two bytes joined by shift and or are the high byte times 256 plus the low byte.
proof fn lemma_joined_halves(high: u8, low: u8)
    by (bit_vector)
    ensures
        ((high as u16) << 8) | (low as u16) == high * 256 + low,
{
}

/// The two byte registers of a word register are its halves and nothing else: a write to one
/// is read back from it, leaves the other as it was, and leaves every other register, the
/// instruction pointer and the flags alone; and the word is the high half shifted left by
/// eight bits, joined with the low half.
pub proof fn halves_alias_their_word(registers: Registers, index: u8, value: u8)
    requires
        index < 8,
    ensures
        ({
            let after = registers.with_byte(index, value);
            let low = (index % 4) as u8;
            let high = (index % 4 + 4) as u8;
            let other = ((index + 4) % 8) as u8;
            &&& after.byte(index) == value
            &&& after.byte(other) == registers.byte(other)
            &&& after.word(low) == ((after.byte(high) as u16) << 8) | (after.byte(low) as u16)
            &&& after.word(low) == after.byte(high) * 256 + after.byte(low)
            &&& forall|i: u8| i < 8 && i != low ==> after.word(i) == registers.word(i)
            &&& after.ip == registers.ip
            &&& after.flags == registers.flags
        }),
{
    let after = registers.with_byte(index, value);
    let low = (index % 4) as u8;
    lemma_joined_halves(after.byte((low + 4) as u8), after.byte(low));
}

/// The name of the byte register that the 8-bit field index `index` selects.
pub open spec fn byte_register_name(index: u8) -> Seq<char> {
    if index == 0 {
        "al"@
    } else if index == 1 {
        "cl"@
    } else if index == 2 {
        "dl"@
    } else if index == 3 {
        "bl"@
    } else if index == 4 {
        "ah"@
    } else if index == 5 {
        "ch"@
    } else if index == 6 {
        "dh"@
    } else {
        "bh"@
    }
}

/// The name of a byte register, by its field index.
pub fn reg_field_encoding_8_bit(index: u8) -> (name: &'static str)
    requires
        index < 8,
    ensures
        name@ == byte_register_name(index),
{
    match index {
        0 => "al",
        1 => "cl",
        2 => "dl",
        3 => "bl",
        4 => "ah",
        5 => "ch",
        6 => "dh",
        _ => "bh",
    }
}

/// The name of the word register that the 16-bit field index `index` selects.
pub open spec fn word_register_name(index: u8) -> Seq<char> {
    if index == 0 {
        "ax"@
    } else if index == 1 {
        "cx"@
    } else if index == 2 {
        "dx"@
    } else if index == 3 {
        "bx"@
    } else if index == 4 {
        "sp"@
    } else if index == 5 {
        "bp"@
    } else if index == 6 {
        "si"@
    } else {
        "di"@
    }
}

/// The name of a word register, by its field index.
pub fn reg_field_encoding_16_bit(index: u8) -> (name: &'static str)
    requires
        index < 8,
    ensures
        name@ == word_register_name(index),
{
    match index {
        0 => "ax",
        1 => "cx",
        2 => "dx",
        3 => "bx",
        4 => "sp",
        5 => "bp",
        6 => "si",
        _ => "di",
    }
}

/// The text of the base and index sum that the `rm` field `index` selects.
pub open spec fn expression_name(index: u8) -> Seq<char> {
    if index == 0 {
        "bx + si"@
    } else if index == 1 {
        "bx + di"@
    } else if index == 2 {
        "bp + si"@
    } else if index == 3 {
        "bp + di"@
    } else if index == 4 {
        "si"@
    } else if index == 5 {
        "di"@
    } else if index == 6 {
        "bp"@
    } else {
        "bx"@
    }
}

/// The text of a base and index sum, by its `rm` field.
pub fn reg_expression_encoding(index: u8) -> (name: &'static str)
    requires
        index < 8,
    ensures
        name@ == expression_name(index),
{
    match index {
        0 => "bx + si",
        1 => "bx + di",
        2 => "bp + si",
        3 => "bp + di",
        4 => "si",
        5 => "di",
        6 => "bp",
        _ => "bx",
    }
}

} // verus!
