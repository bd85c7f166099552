use sim8086::addressing::{
    calculate_effective_address, decode_rm_operand, MODE_MEM_16_BIT_DISP, MODE_MEM_8_BIT_DISP,
    MODE_MEM_NO_DISP, MODE_REG,
};
use sim8086::decoding::{read_immediate, read_rm_form, RmForm};
use sim8086::fields::{
    as_signed_byte, as_signed_word, conditional_jump_slot_of, d_bit_of, loop_slot_of,
    mod_field_of, reg_field_of, register_w_bit_of, rm_field_of, s_bit_of, w_bit_of,
};
use sim8086::instruction::{is_immediate, is_memory, Operand};
use sim8086::memory::Memory;
use sim8086::registers::Registers;

fn sample() -> Registers {
    Registers { bx: 0x1000, bp: 0x2000, si: 0x0030, di: 0x0004, ..Registers::default() }
}

#[test]
fn mode_constants_are_the_mod_values() {
    assert_eq!(MODE_MEM_NO_DISP, 0b00);
    assert_eq!(MODE_MEM_8_BIT_DISP, 0b01);
    assert_eq!(MODE_MEM_16_BIT_DISP, 0b10);
    assert_eq!(MODE_REG, 0b11);
}

#[test]
fn fields_of_a_mod_reg_rm_byte() {
    assert_eq!(mod_field_of(0b11_010_001), 0b11);
    assert_eq!(reg_field_of(0b11_010_001), 0b010);
    assert_eq!(rm_field_of(0b11_010_001), 0b001);
    assert_eq!(mod_field_of(0b01_111_110), 0b01);
    assert_eq!(reg_field_of(0b01_111_110), 0b111);
    assert_eq!(rm_field_of(0b01_111_110), 0b110);
    for byte in 0..=255u8 {
        assert_eq!(mod_field_of(byte), byte >> 6);
        assert_eq!(reg_field_of(byte), (byte >> 3) & 7);
        assert_eq!(rm_field_of(byte), byte & 7);
        assert_eq!(w_bit_of(byte), byte & 1 == 1);
        assert_eq!(d_bit_of(byte), byte & 2 == 2);
        assert_eq!(s_bit_of(byte), byte & 2 == 2);
        assert_eq!(register_w_bit_of(byte), byte & 8 == 8);
        assert_eq!(conditional_jump_slot_of(byte), byte & 15);
        assert_eq!(loop_slot_of(byte), byte & 3);
    }
}

#[test]
fn bytes_and_words_read_as_signed() {
    assert_eq!(as_signed_byte(0x00), 0);
    assert_eq!(as_signed_byte(0x7F), 127);
    assert_eq!(as_signed_byte(0x80), -128);
    assert_eq!(as_signed_byte(0xFE), -2);
    assert_eq!(as_signed_byte(0xFF), -1);
    assert_eq!(as_signed_word(0x0000), 0);
    assert_eq!(as_signed_word(0x7FFF), 32767);
    assert_eq!(as_signed_word(0x8000), -32768);
    assert_eq!(as_signed_word(0xFED4), -300);
    assert_eq!(as_signed_word(0xFFFF), -1);
}

#[test]
fn register_mode_selects_a_register() {
    let memory: Memory = [0xFF; 65536];
    for rm in 0..8u8 {
        let mut ip: u16 = 10;
        assert_eq!(decode_rm_operand(&memory, &mut ip, MODE_REG, rm), Operand::Register(rm));
        assert_eq!(ip, 10);
    }
}

#[test]
fn no_displacement_mode_selects_the_sum() {
    let memory: Memory = [0xFF; 65536];
    let sums: [u16; 8] = [0x1030, 0x1004, 0x2030, 0x2004, 0x0030, 0x0004, 0, 0x1000];
    for rm in 0..8u8 {
        if rm == 6 {
            continue;
        }
        let mut ip: u16 = 10;
        let operand = decode_rm_operand(&memory, &mut ip, MODE_MEM_NO_DISP, rm);
        assert_eq!(operand, Operand::Indexed(rm, 0));
        assert_eq!(ip, 10);
        assert_eq!(calculate_effective_address(&sample(), operand), sums[rm as usize]);
    }
}

#[test]
fn no_displacement_mode_with_rm_six_is_a_literal_address() {
    let mut memory: Memory = [0; 65536];
    memory[10] = 0x34;
    memory[11] = 0x12;
    let mut ip: u16 = 10;
    let operand = decode_rm_operand(&memory, &mut ip, MODE_MEM_NO_DISP, 6);
    assert_eq!(operand, Operand::Direct(0x1234));
    assert_eq!(ip, 12);
    assert_eq!(calculate_effective_address(&sample(), operand), 0x1234);
}

#[test]
fn byte_displacement_mode_adds_the_signed_byte() {
    let bases: [u16; 8] = [0x1030, 0x1004, 0x2030, 0x2004, 0x0030, 0x0004, 0x2000, 0x1000];
    for rm in 0..8u8 {
        let mut memory: Memory = [0; 65536];
        memory[10] = 0x7F;
        let mut ip: u16 = 10;
        let operand = decode_rm_operand(&memory, &mut ip, MODE_MEM_8_BIT_DISP, rm);
        assert_eq!(operand, Operand::Indexed(rm, 127));
        assert_eq!(ip, 11);
        assert_eq!(calculate_effective_address(&sample(), operand), bases[rm as usize] + 127);

        memory[10] = 0xFC;
        let mut ip: u16 = 10;
        let operand = decode_rm_operand(&memory, &mut ip, MODE_MEM_8_BIT_DISP, rm);
        assert_eq!(operand, Operand::Indexed(rm, -4));
        assert_eq!(ip, 11);
        assert_eq!(calculate_effective_address(&sample(), operand), bases[rm as usize] - 4);
    }
}

#[test]
fn word_displacement_mode_adds_the_word() {
    let bases: [u16; 8] = [0x1030, 0x1004, 0x2030, 0x2004, 0x0030, 0x0004, 0x2000, 0x1000];
    for rm in 0..8u8 {
        let mut memory: Memory = [0; 65536];
        memory[10] = 0x00;
        memory[11] = 0x03;
        let mut ip: u16 = 10;
        let operand = decode_rm_operand(&memory, &mut ip, MODE_MEM_16_BIT_DISP, rm);
        assert_eq!(operand, Operand::Indexed(rm, 0x0300));
        assert_eq!(ip, 12);
        assert_eq!(calculate_effective_address(&sample(), operand), bases[rm as usize] + 0x0300);

        memory[10] = 0x00;
        memory[11] = 0xF0;
        let mut ip: u16 = 10;
        let operand = decode_rm_operand(&memory, &mut ip, MODE_MEM_16_BIT_DISP, rm);
        assert_eq!(operand, Operand::Indexed(rm, -4096));
        assert_eq!(
            calculate_effective_address(&sample(), operand),
            bases[rm as usize].wrapping_add(0xF000)
        );
    }
}

#[test]
fn effective_address_wraps_both_ways() {
    let registers = Registers { bx: 0xFFFF, si: 0x0002, ..Registers::default() };
    assert_eq!(calculate_effective_address(&registers, Operand::Indexed(7, 1)), 0x0000);
    assert_eq!(calculate_effective_address(&registers, Operand::Indexed(0, 32767)), 0x8000);
    assert_eq!(calculate_effective_address(&registers, Operand::Indexed(4, -3)), 0xFFFF);
    assert_eq!(calculate_effective_address(&registers, Operand::Indexed(4, -32768)), 0x8002);
    assert_eq!(calculate_effective_address(&registers, Operand::Direct(0xFFFF)), 0xFFFF);
}

#[test]
fn operand_kinds() {
    assert!(is_memory(Operand::Direct(1)));
    assert!(is_memory(Operand::Indexed(0, 0)));
    assert!(!is_memory(Operand::Register(0)));
    assert!(!is_memory(Operand::Immediate(0)));
    assert!(!is_memory(Operand::SignedImmediate(0)));
    assert!(is_immediate(Operand::Immediate(0)));
    assert!(is_immediate(Operand::SignedImmediate(0)));
    assert!(!is_immediate(Operand::Register(0)));
    assert!(!is_immediate(Operand::Direct(0)));
    assert!(!is_immediate(Operand::Indexed(0, 0)));
}

#[test]
fn rm_form_reads_the_byte_after_the_opcode() {
    let mut memory: Memory = [0; 65536];
    memory[100] = 0x8B;
    memory[101] = 0b10_011_101;
    memory[102] = 0x2C;
    memory[103] = 0x01;
    assert_eq!(
        read_rm_form(&memory, 100),
        Some(RmForm { reg: 3, operand: Operand::Indexed(5, 300), next_ip: 104 })
    );
    memory[101] = 0b11_111_000;
    assert_eq!(
        read_rm_form(&memory, 100),
        Some(RmForm { reg: 7, operand: Operand::Register(0), next_ip: 102 })
    );
    memory[101] = 0b00_000_110;
    assert_eq!(
        read_rm_form(&memory, 100),
        Some(RmForm { reg: 0, operand: Operand::Direct(300), next_ip: 104 })
    );
}

#[test]
fn rm_form_must_fit_before_the_last_byte() {
    let mut memory: Memory = [0; 65536];
    assert_eq!(read_rm_form(&memory, 0xFFFF), None);
    assert_eq!(read_rm_form(&memory, 0xFFFE), None);
    assert_eq!(
        read_rm_form(&memory, 0xFFFD),
        Some(RmForm { reg: 0, operand: Operand::Indexed(0, 0), next_ip: 0xFFFF })
    );
    memory[0xFFFE] = 0b01_000_000;
    assert_eq!(read_rm_form(&memory, 0xFFFD), None);
    memory[0xFFFD] = 0b01_000_000;
    assert_eq!(
        read_rm_form(&memory, 0xFFFC),
        Some(RmForm { reg: 0, operand: Operand::Indexed(0, 64), next_ip: 0xFFFF })
    );
    memory[0xFFFD] = 0b10_000_000;
    assert_eq!(read_rm_form(&memory, 0xFFFC), None);
}

#[test]
fn literal_of_either_width() {
    let mut memory: Memory = [0; 65536];
    memory[5] = 0xCD;
    memory[6] = 0xAB;
    let mut ip: u16 = 5;
    assert_eq!(read_immediate(&memory, &mut ip, true), Operand::Immediate(0xABCD));
    assert_eq!(ip, 7);
    let mut ip: u16 = 5;
    assert_eq!(read_immediate(&memory, &mut ip, false), Operand::Immediate(0x00CD));
    assert_eq!(ip, 6);
}
