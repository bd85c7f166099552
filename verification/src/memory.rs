//! The flat memory of 64 KiB: little-endian loads and stores, and the instruction fetch.

use vstd::prelude::*;

verus! {

/// The flat address space: every 16-bit address names one byte.
pub type Memory = [u8; 65536];

/// The number of bytes in the address space.
pub const MEMORY_SIZE: usize = 65536;

/// The word whose low half is `low` and whose high half is `high`.
pub open spec fn word_of(low: u8, high: u8) -> u16 {
    (low + 256 * high) as u16
}

/// The byte stored at `address`.
pub open spec fn byte_at(memory: Seq<u8>, address: u16) -> u8 {
    memory[address as int]
}

/// `memory` after the store of `byte` at `address`.
pub open spec fn with_byte_at(memory: Seq<u8>, address: u16, byte: u8) -> Seq<u8> {
    memory.update(address as int, byte)
}

/// The little-endian word stored at `address`: low byte at `address`, high byte after it.
pub open spec fn word_at(memory: Seq<u8>, address: u16) -> u16 {
    word_of(memory[address as int], memory[address + 1])
}

/// `memory` after the little-endian store of `word` at `address`.
pub open spec fn with_word_at(memory: Seq<u8>, address: u16, word: u16) -> Seq<u8> {
    memory.update(address as int, (word % 256) as u8).update(address + 1, (word / 256) as u8)
}

/// `memory` with the bytes of `image` copied to its start.
pub open spec fn with_image(memory: Seq<u8>, image: Seq<u8>) -> Seq<u8> {
    Seq::new(
        memory.len(),
        |i: int|
            if i < image.len() {
                image[i]
            } else {
                memory[i]
            },
    )
}

/// The masks and shifts that split and join a word agree with division and remainder.
proof fn lemma_word_halves(word: u16, low: u8, high: u8)
    by (bit_vector)
    ensures
        word & 0x00FF == word % 256,
        (word & 0xFF00) >> 8 == word / 256,
        (high as u16) << 8 == high * 256,
{
}

/// Stores `byte` at `address`.
pub fn store_byte(memory: &mut Memory, address: u16, byte: u8)
    ensures
        final(memory)@ == with_byte_at(old(memory)@, address, byte),
{
    memory[address as usize] = byte;
}

/// Stores `word` at `address`, low byte first. The word must end within memory.
pub fn store_word(memory: &mut Memory, address: u16, word: u16)
    requires
        address < 0xFFFF,
    ensures
        final(memory)@ == with_word_at(old(memory)@, address, word),
{
    proof {
        lemma_word_halves(word, 0, 0);
    }
    let word_low: u8 = (word & 0x00FF) as u8;
    memory[address as usize] = word_low;

    let word_high: u8 = ((word & 0xFF00) >> 8) as u8;
    memory[address as usize + 1] = word_high;
}

/// Loads the byte at `address`.
pub fn load_byte(memory: &Memory, address: u16) -> (byte: u8)
    ensures
        byte == byte_at(memory@, address),
{
    memory[address as usize]
}

/// Loads the word at `address`, low byte first. The word must end within memory.
pub fn load_word(memory: &Memory, address: u16) -> (word: u16)
    requires
        address < 0xFFFF,
    ensures
        word == word_at(memory@, address),
{
    let word_low: u8 = memory[address as usize];
    let word_high: u8 = memory[address as usize + 1];
    proof {
        lemma_word_halves(0, word_low, word_high);
    }
    ((word_high as u16) << 8) + (word_low as u16)
}

/// Fetches the byte at the instruction pointer and moves the pointer past it. The byte must
/// not be the last one of memory: the pointer has to stay an address.
pub fn grab_instruction_byte(memory: &Memory, ip: &mut u16) -> (byte: u8)
    requires
        *old(ip) < 0xFFFF,
    ensures
        byte == byte_at(memory@, *old(ip)),
        *final(ip) == *old(ip) + 1,
{
    let byte: u8 = load_byte(memory, *ip);
    *ip += 1;
    byte
}

/// Fetches the word at the instruction pointer and moves the pointer past it. The word must
/// end before the last byte of memory: the pointer has to stay an address.
pub fn grab_instruction_word(memory: &Memory, ip: &mut u16) -> (word: u16)
    requires
        *old(ip) < 0xFFFE,
    ensures
        word == word_at(memory@, *old(ip)),
        *final(ip) == *old(ip) + 2,
{
    let word: u16 = load_word(memory, *ip);
    *ip += 2;
    word
}

/// Copies a program image to the start of memory. An image longer than the address space is
/// refused and memory is left as it was.
pub fn load_image(memory: &mut Memory, image: &[u8]) -> (loaded: bool)
    ensures
        loaded == (image@.len() <= MEMORY_SIZE),
        loaded ==> final(memory)@ == with_image(old(memory)@, image@),
        !loaded ==> final(memory)@ == old(memory)@,
{
    if image.len() > MEMORY_SIZE {
        return false;
    }
    let mut i: usize = 0;
    while i < image.len()
        invariant
            i <= image@.len() <= MEMORY_SIZE,
            memory@ == with_image(old(memory)@, image@.take(i as int)),
        decreases image@.len() - i,
    {
        memory[i] = image[i];
        i += 1;
    }
    true
}

} // verus!
