use sim8086::control_transfer::{
    branch, conditional_jump_instruction_encoding, conditional_jump_test,
    decode_conditional_jump_encoding, decode_loop_encoding, jcxz_test, je_test, jne_test,
    loop_instruction_encoding, loop_instruction_test, loop_test, loopnz_test, loopz_test,
    unimplemented_conditional_jump_instruction_test,
};
use sim8086::fault::Fault;
use sim8086::memory::Memory;
use sim8086::registers::Registers;

const ZF: u16 = 0x0040;
const SF: u16 = 0x0080;

fn machine_at(ip: u16, code: &[u8]) -> (Registers, Memory) {
    let mut memory: Memory = [0; 65536];
    let start = ip as usize;
    memory[start..start + code.len()].copy_from_slice(code);
    (Registers { ip, ..Registers::default() }, memory)
}

#[test]
fn equality_predicates_read_the_zero_flag() {
    assert!(je_test(ZF));
    assert!(je_test(ZF | SF));
    assert!(je_test(0xFFFF));
    assert!(!je_test(0));
    assert!(!je_test(SF));
    assert!(!je_test(0xFFBF));
    assert!(!jne_test(ZF));
    assert!(jne_test(0));
    assert!(jne_test(SF));
    assert!(jne_test(0xFFBF));
}

#[test]
fn reserved_predicates_have_no_answer() {
    assert_eq!(unimplemented_conditional_jump_instruction_test(0), None);
    assert_eq!(unimplemented_conditional_jump_instruction_test(0xFFFF), None);
    for slot in 0..16u8 {
        let expected = match slot {
            4 => Some(true),
            5 => Some(false),
            _ => None,
        };
        assert_eq!(conditional_jump_test(slot, ZF), expected);
        let expected = match slot {
            4 => Some(false),
            5 => Some(true),
            _ => None,
        };
        assert_eq!(conditional_jump_test(slot, SF), expected);
    }
    assert_eq!(conditional_jump_test(16, ZF), None);
    assert_eq!(conditional_jump_test(20, ZF), None);
}

#[test]
fn mnemonics_follow_the_encoding() {
    let jumps = [
        "jo", "jno", "jb", "jnb", "je", "jne", "jbe", "ja", "js", "jns", "jp", "jnp", "jl", "jnl",
        "jle", "jg",
    ];
    for slot in 0..16u8 {
        assert_eq!(conditional_jump_instruction_encoding(slot), jumps[slot as usize]);
    }
    let loops = ["loopnz", "loopz", "loop", "jcxz"];
    for slot in 0..4u8 {
        assert_eq!(loop_instruction_encoding(slot), loops[slot as usize]);
    }
}

#[test]
fn loop_counts_down_and_branches_while_not_zero() {
    let mut registers = Registers { cx: 1, ..Registers::default() };
    assert!(!loop_test(&mut registers));
    assert_eq!(registers, Registers { cx: 0, ..Registers::default() });

    let mut registers = Registers { cx: 2, ..Registers::default() };
    assert!(loop_test(&mut registers));
    assert_eq!(registers, Registers { cx: 1, ..Registers::default() });

    let mut registers = Registers { cx: 2, flags: ZF, ..Registers::default() };
    assert!(loop_test(&mut registers));
    assert_eq!(registers, Registers { cx: 1, flags: ZF, ..Registers::default() });
}

#[test]
fn loop_counts_down_from_zero_modulo_two_to_the_sixteen() {
    let mut registers = Registers { cx: 0, ..Registers::default() };
    assert!(loop_test(&mut registers));
    assert_eq!(registers, Registers { cx: 0xFFFF, ..Registers::default() });
}

#[test]
fn loopz_branches_while_the_zero_flag_is_set() {
    let mut registers = Registers { cx: 2, flags: ZF, ..Registers::default() };
    assert!(loopz_test(&mut registers));
    assert_eq!(registers, Registers { cx: 1, flags: ZF, ..Registers::default() });
    assert!(!loopz_test(&mut registers));
    assert_eq!(registers, Registers { cx: 0, flags: ZF, ..Registers::default() });

    let mut registers = Registers { cx: 2, flags: SF, ..Registers::default() };
    assert!(!loopz_test(&mut registers));
    assert_eq!(registers, Registers { cx: 1, flags: SF, ..Registers::default() });
}

#[test]
fn loopnz_branches_while_the_zero_flag_is_clear() {
    let mut registers = Registers { cx: 2, ..Registers::default() };
    assert!(loopnz_test(&mut registers));
    assert_eq!(registers, Registers { cx: 1, ..Registers::default() });
    assert!(!loopnz_test(&mut registers));
    assert_eq!(registers, Registers { cx: 0, ..Registers::default() });

    let mut registers = Registers { cx: 2, flags: ZF, ..Registers::default() };
    assert!(!loopnz_test(&mut registers));
    assert_eq!(registers, Registers { cx: 1, flags: ZF, ..Registers::default() });
}

#[test]
fn jcxz_branches_on_zero_and_never_counts() {
    let mut registers = Registers { cx: 0, ..Registers::default() };
    assert!(jcxz_test(&mut registers));
    assert_eq!(registers, Registers { cx: 0, ..Registers::default() });

    let mut registers = Registers { cx: 1, flags: ZF, ..Registers::default() };
    assert!(!jcxz_test(&mut registers));
    assert_eq!(registers, Registers { cx: 1, flags: ZF, ..Registers::default() });
}

#[test]
fn loop_slots_select_their_tests() {
    let expected: [(bool, u16); 4] = [(false, 4), (true, 4), (true, 4), (false, 5)];
    for slot in 0..4u8 {
        let mut registers = Registers { cx: 5, flags: ZF, ..Registers::default() };
        assert_eq!(loop_instruction_test(slot, &mut registers), expected[slot as usize].0);
        assert_eq!(registers.cx, expected[slot as usize].1);
    }
}

#[test]
fn branch_adds_the_offset_modulo_two_to_the_sixteen() {
    let mut ip: u16 = 100;
    branch(&mut ip, 27);
    assert_eq!(ip, 127);
    branch(&mut ip, -128);
    assert_eq!(ip, 0xFFFF);
    branch(&mut ip, 1);
    assert_eq!(ip, 0);
    branch(&mut ip, 0);
    assert_eq!(ip, 0);
    branch(&mut ip, -1);
    assert_eq!(ip, 0xFFFF);
    branch(&mut ip, 127);
    assert_eq!(ip, 126);
}

#[test]
fn jne_back_by_two_returns_to_itself() {
    let (mut registers, mut memory) = machine_at(0x0010, &[0x75, 0xFE]);
    assert_eq!(decode_conditional_jump_encoding(&mut registers, &mut memory).unwrap(), "jne -2");
    assert_eq!(registers, Registers { ip: 0x0010, ..Registers::default() });
}

#[test]
fn conditional_jump_not_taken_moves_past_the_instruction() {
    let (mut registers, mut memory) = machine_at(0x0010, &[0x75, 0xFE]);
    registers.flags = ZF;
    assert_eq!(decode_conditional_jump_encoding(&mut registers, &mut memory).unwrap(), "jne -2");
    assert_eq!(registers, Registers { ip: 0x0012, flags: ZF, ..Registers::default() });

    let (mut registers, mut memory) = machine_at(0x0010, &[0x74, 0x05]);
    assert_eq!(decode_conditional_jump_encoding(&mut registers, &mut memory).unwrap(), "je 5");
    assert_eq!(registers, Registers { ip: 0x0012, ..Registers::default() });
}

#[test]
fn conditional_jump_taken_is_relative_to_the_next_instruction() {
    let (mut registers, mut memory) = machine_at(0x0010, &[0x74, 0x05]);
    registers.flags = ZF | SF;
    assert_eq!(decode_conditional_jump_encoding(&mut registers, &mut memory).unwrap(), "je 5");
    assert_eq!(registers, Registers { ip: 0x0017, flags: ZF | SF, ..Registers::default() });

    let (mut registers, mut memory) = machine_at(0x0100, &[0x75, 0x80]);
    assert_eq!(decode_conditional_jump_encoding(&mut registers, &mut memory).unwrap(), "jne -128");
    assert_eq!(registers, Registers { ip: 0x0082, ..Registers::default() });

    let (mut registers, mut memory) = machine_at(0x0100, &[0x75, 0x7F]);
    assert_eq!(decode_conditional_jump_encoding(&mut registers, &mut memory).unwrap(), "jne 127");
    assert_eq!(registers, Registers { ip: 0x0181, ..Registers::default() });
}

#[test]
fn conditional_jump_wraps_the_instruction_pointer() {
    let (mut registers, mut memory) = machine_at(0, &[0x75, 0xFC]);
    assert_eq!(decode_conditional_jump_encoding(&mut registers, &mut memory).unwrap(), "jne -4");
    assert_eq!(registers, Registers { ip: 0xFFFE, ..Registers::default() });

    let (mut registers, mut memory) = machine_at(0xFFFD, &[0x75, 0x02]);
    assert_eq!(decode_conditional_jump_encoding(&mut registers, &mut memory).unwrap(), "jne 2");
    assert_eq!(registers, Registers { ip: 0x0001, ..Registers::default() });
}

#[test]
fn reserved_conditional_jumps_are_faults() {
    for slot in 0..16u8 {
        if slot == 4 || slot == 5 {
            continue;
        }
        let (mut registers, mut memory) = machine_at(0x0020, &[0x70 + slot, 0x02]);
        registers.flags = ZF;
        let before = (registers, memory);
        assert_eq!(
            decode_conditional_jump_encoding(&mut registers, &mut memory),
            Err(Fault::UnimplementedConditionalJump(slot))
        );
        assert_eq!(registers, before.0);
        assert!(memory == before.1);
    }
}

#[test]
fn loop_instruction_with_cx_of_one_does_not_branch() {
    let (mut registers, mut memory) = machine_at(0x0010, &[0xE2, 0xFE]);
    registers.cx = 1;
    assert_eq!(decode_loop_encoding(&mut registers, &mut memory).unwrap(), "loop -2");
    assert_eq!(registers, Registers { cx: 0, ip: 0x0012, ..Registers::default() });
}

#[test]
fn loop_instruction_with_cx_of_two_branches() {
    let (mut registers, mut memory) = machine_at(0x0010, &[0xE2, 0xFE]);
    registers.cx = 2;
    assert_eq!(decode_loop_encoding(&mut registers, &mut memory).unwrap(), "loop -2");
    assert_eq!(registers, Registers { cx: 1, ip: 0x0010, ..Registers::default() });
}

#[test]
fn loop_family_instructions() {
    // loopnz 4 with the zero flag clear
    let (mut registers, mut memory) = machine_at(0, &[0xE0, 0x04]);
    registers.cx = 3;
    assert_eq!(decode_loop_encoding(&mut registers, &mut memory).unwrap(), "loopnz 4");
    assert_eq!(registers, Registers { cx: 2, ip: 6, ..Registers::default() });

    // loopnz 4 with the zero flag set counts and falls through
    let (mut registers, mut memory) = machine_at(0, &[0xE0, 0x04]);
    registers.cx = 3;
    registers.flags = ZF;
    assert_eq!(decode_loop_encoding(&mut registers, &mut memory).unwrap(), "loopnz 4");
    assert_eq!(registers, Registers { cx: 2, ip: 2, flags: ZF, ..Registers::default() });

    // loopz -4 with the zero flag set
    let (mut registers, mut memory) = machine_at(8, &[0xE1, 0xFC]);
    registers.cx = 3;
    registers.flags = ZF;
    assert_eq!(decode_loop_encoding(&mut registers, &mut memory).unwrap(), "loopz -4");
    assert_eq!(registers, Registers { cx: 2, ip: 6, flags: ZF, ..Registers::default() });

    // loopz -4 with the zero flag clear counts and falls through
    let (mut registers, mut memory) = machine_at(8, &[0xE1, 0xFC]);
    registers.cx = 3;
    assert_eq!(decode_loop_encoding(&mut registers, &mut memory).unwrap(), "loopz -4");
    assert_eq!(registers, Registers { cx: 2, ip: 10, ..Registers::default() });

    // jcxz 16 with cx of zero
    let (mut registers, mut memory) = machine_at(0, &[0xE3, 0x10]);
    assert_eq!(decode_loop_encoding(&mut registers, &mut memory).unwrap(), "jcxz 16");
    assert_eq!(registers, Registers { cx: 0, ip: 18, ..Registers::default() });

    // jcxz 16 with cx not zero
    let (mut registers, mut memory) = machine_at(0, &[0xE3, 0x10]);
    registers.cx = 9;
    assert_eq!(decode_loop_encoding(&mut registers, &mut memory).unwrap(), "jcxz 16");
    assert_eq!(registers, Registers { cx: 9, ip: 2, ..Registers::default() });
}

#[test]
fn jumps_that_run_off_the_end_of_memory_are_out_of_range() {
    let (mut registers, mut memory) = machine_at(0xFFFE, &[0x75, 0xFE]);
    assert_eq!(
        decode_conditional_jump_encoding(&mut registers, &mut memory),
        Err(Fault::FetchOutOfRange(0xFFFE))
    );
    assert_eq!(registers, Registers { ip: 0xFFFE, ..Registers::default() });
    let (mut registers, mut memory) = machine_at(0xFFFE, &[0xE2, 0xFE]);
    registers.cx = 5;
    assert_eq!(
        decode_loop_encoding(&mut registers, &mut memory),
        Err(Fault::FetchOutOfRange(0xFFFE))
    );
    assert_eq!(registers, Registers { cx: 5, ip: 0xFFFE, ..Registers::default() });

    let (mut registers, mut memory) = machine_at(0xFFFD, &[0x75, 0xFE]);
    assert_eq!(decode_conditional_jump_encoding(&mut registers, &mut memory).unwrap(), "jne -2");
    assert_eq!(registers, Registers { ip: 0xFFFD, ..Registers::default() });
}
