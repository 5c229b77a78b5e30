use lc3_emulator::{
    decode, exit_code, key_code, load_image, sext, Emulator, ImageError, Opcode, Status, KBDR,
};

const N: u16 = 0b100;
const Z: u16 = 0b010;
const P: u16 = 0b001;

fn machine(pc: u16, words: &[(u16, u16)]) -> Emulator {
    let mut memory = [0u16; 0x10000];
    for &(addr, word) in words {
        memory[addr as usize] = word;
    }
    Emulator::new(pc, memory)
}

fn run_one(e: &mut Emulator, key: Option<u8>) -> (Status, Vec<u8>) {
    let step = e.step(key);
    (step.status, step.output)
}

#[test]
fn sext_negative_five_bit() {
    assert_eq!(sext(0b11111, 5), 0xFFFF);
    assert_eq!(sext(0b10001, 5), 0xFFF1);
}

#[test]
fn sext_positive_five_bit() {
    assert_eq!(sext(0b01111, 5), 0x000F);
}

#[test]
fn sext_keeps_low_bits_of_masked_fields() {
    for n in 1u16..16 {
        let mask = !(0xFFFFu16 << n);
        for v in [0u16, 1, 0x5555, 0xAAAA, 0x1234, 0xFFFF, 0x8000, 0x7FFF] {
            let f = v & mask;
            let r = sext(f, n);
            assert_eq!(r & mask, f);
            if (v >> (n - 1)) & 1 == 1 {
                assert_eq!(r & !mask, !mask);
            } else {
                assert_eq!(r, f);
            }
        }
    }
}

#[test]
fn setcc_zero_sets_z_only() {
    let mut e = machine(0x3000, &[]);
    e.setcc(0);
    assert_eq!(e.psr() & 0b111, Z);
}

#[test]
fn setcc_negative_sets_n_only() {
    let mut e = machine(0x3000, &[]);
    e.setcc(0x8000);
    assert_eq!(e.psr() & 0b111, N);
}

#[test]
fn setcc_positive_sets_p_only() {
    let mut e = machine(0x3000, &[]);
    e.setcc(0x0001);
    assert_eq!(e.psr() & 0b111, P);
}

#[test]
fn setcc_sets_exactly_one_flag_and_keeps_other_bits() {
    let mut e = machine(0x3000, &[]);
    for v in [0u16, 1, 0x7FFF, 0x8000, 0xFFFF, 0x1234] {
        e.setcc(v);
        let cc = e.psr() & 0b111;
        assert!(cc == N || cc == Z || cc == P);
        assert_eq!(e.psr() & 0xFFF8, 0);
    }
}

#[test]
fn add_register_mode() {
    // ADD R0, R1, R2
    let mut e = machine(0x3000, &[(0x3000, 0x1042)]);
    e.set_reg(1, 3);
    e.set_reg(2, 4);
    assert_eq!(run_one(&mut e, None).0, Status::Running);
    assert_eq!(e.read_reg(0), 7);
    assert_eq!(e.psr() & 0b111, P);
    assert_eq!(e.pc(), 0x3001);
}

#[test]
fn add_immediate_negative() {
    // ADD R0, R1, #-15
    let mut e = machine(0x3000, &[(0x3000, 0x1071)]);
    e.set_reg(1, 5);
    assert_eq!(run_one(&mut e, None).0, Status::Running);
    assert_eq!(e.read_reg(0), 0xFFF6);
    assert_eq!(e.psr() & 0b111, N);
}

#[test]
fn ldi_double_indirection() {
    // LDI R0 with offset 0, so the pointer cell is at 0x3000.
    let mut e = machine(0x2FFF, &[(0x2FFF, 0xA000), (0x3000, 0x3002), (0x3002, 0x1234)]);
    assert_eq!(run_one(&mut e, None).0, Status::Running);
    assert_eq!(e.read_reg(0), 0x1234);
    assert_eq!(e.psr() & 0b111, P);
}

#[test]
fn loader_round_trip() {
    let e = load_image(&vec![0x30, 0x00, 0x12, 0x34]).ok().unwrap();
    assert_eq!(e.pc(), 0x3000);
    assert_eq!(e.peek(0x3000), 0x1234);
    assert_eq!(e.peek(0x3001), 0);
    assert_eq!(e.registers(), [0u16; 8]);
}

#[test]
fn loader_rejects_odd_length() {
    assert!(matches!(load_image(&vec![0x30, 0x00, 0x12]), Err(ImageError::OddLength)));
}

#[test]
fn loader_rejects_empty_image() {
    assert!(matches!(load_image(&vec![]), Err(ImageError::MissingOrigin)));
}

#[test]
fn loader_rejects_words_past_memory() {
    assert!(matches!(
        load_image(&vec![0xFF, 0xFF, 0x00, 0x01, 0x00, 0x02]),
        Err(ImageError::TooLarge)
    ));
    let e = load_image(&vec![0xFF, 0xFF, 0x00, 0x01]).ok().unwrap();
    assert_eq!(e.peek(0xFFFF), 1);
}

#[test]
fn halt_ends_run_with_success() {
    let mut e = machine(0x3000, &[(0x3000, 0xF025)]);
    for r in 0..8u16 {
        e.set_reg(r, 0x1111 * (r + 1));
    }
    let before = e.registers();
    let (status, out) = run_one(&mut e, None);
    assert_eq!(status, Status::Halted);
    assert!(out.is_empty());
    assert_eq!(exit_code(status), Some(0));
    assert_eq!(e.registers(), before);
    assert_eq!(e.pc(), 0x3000);
}

#[test]
fn illegal_opcode_ends_run_with_failure() {
    let mut e = machine(0x3000, &[(0x3000, 0xD123), (0x4000, 0x55)]);
    e.set_reg(3, 9);
    let before = e.registers();
    let (status, _) = run_one(&mut e, None);
    assert_eq!(status, Status::IllegalOpcode);
    assert_ne!(exit_code(status), Some(0));
    assert!(exit_code(status).is_some());
    assert_eq!(e.registers(), before);
    assert_eq!(e.pc(), 0x3000);
    assert_eq!(e.peek(0x4000), 0x55);
    assert_eq!(e.peek(0x3000), 0xD123);
}

#[test]
fn rti_is_unsupported() {
    let mut e = machine(0x3000, &[(0x3000, 0x8000)]);
    let (status, _) = run_one(&mut e, None);
    assert_eq!(status, Status::Unsupported);
    assert!(exit_code(status).is_some());
    assert_ne!(exit_code(status), Some(0));
    assert_eq!(e.pc(), 0x3000);
}

#[test]
fn decode_every_pattern() {
    assert_eq!(decode(0x0000), Opcode::Br);
    assert_eq!(decode(0x1000), Opcode::Add);
    assert_eq!(decode(0x5000), Opcode::And);
    assert_eq!(decode(0xC000), Opcode::Jmp);
    assert_eq!(decode(0xD000), Opcode::Invalid);
    assert_eq!(decode(0xE000), Opcode::Lea);
    assert_eq!(decode(0xF000), Opcode::Trap);
    for code in 0u16..16 {
        assert_eq!(decode(code << 12) == Opcode::Invalid, code == 0b1101);
    }
}

#[test]
fn and_immediate_and_not() {
    // AND R2, R1, #5 ; NOT R3, R2
    let mut e = machine(0x3000, &[(0x3000, 0x5465), (0x3001, 0x96BF)]);
    e.set_reg(1, 0x00FF);
    run_one(&mut e, None);
    assert_eq!(e.read_reg(2), 5);
    run_one(&mut e, None);
    assert_eq!(e.read_reg(3), 0xFFFA);
    assert_eq!(e.psr() & 0b111, N);
}

#[test]
fn branch_taken_and_not_taken() {
    // BRz #2 after setting Z; BRn #2 not taken.
    let mut e = machine(0x3000, &[(0x3000, 0x0402), (0x3003, 0x0802)]);
    e.setcc(0);
    run_one(&mut e, None);
    assert_eq!(e.pc(), 0x3003);
    run_one(&mut e, None);
    assert_eq!(e.pc(), 0x3004);
}

#[test]
fn branch_backwards_wraps() {
    // BRnzp #-3
    let mut e = machine(0x0000, &[(0x0000, 0x0FFD)]);
    e.setcc(1);
    run_one(&mut e, None);
    assert_eq!(e.pc(), 0xFFFE);
}

#[test]
fn jmp_jsr_and_jsrr() {
    // JSR #16 ; at 0x3011: JSRR R2 ; at 0x4000: RET
    let mut e = machine(0x3000, &[(0x3000, 0x4810), (0x3011, 0x4080), (0x4000, 0xC1C0)]);
    e.set_reg(2, 0x4000);
    run_one(&mut e, None);
    assert_eq!(e.pc(), 0x3011);
    assert_eq!(e.read_reg(7), 0x3001);
    run_one(&mut e, None);
    assert_eq!(e.pc(), 0x4000);
    assert_eq!(e.read_reg(7), 0x3012);
    run_one(&mut e, None);
    assert_eq!(e.pc(), 0x3012);
}

#[test]
fn ld_ldr_lea() {
    // LD R1, #4 ; LDR R2, R1, #-1 ; LEA R3, #-2
    let mut e = machine(
        0x3000,
        &[(0x3000, 0x2204), (0x3001, 0x647F), (0x3002, 0xE7FE), (0x3005, 0x5000), (0x4FFF, 0)],
    );
    run_one(&mut e, None);
    assert_eq!(e.read_reg(1), 0x5000);
    run_one(&mut e, None);
    assert_eq!(e.read_reg(2), 0);
    assert_eq!(e.psr() & 0b111, Z);
    run_one(&mut e, None);
    assert_eq!(e.read_reg(3), 0x3001);
    assert_eq!(e.psr() & 0b111, P);
}

#[test]
fn st_sti_str() {
    // ST R1, #3 ; STI R1, #3 ; STR R1, R2, #-2
    let mut e = machine(0x3000, &[(0x3000, 0x3203), (0x3001, 0xB203), (0x3002, 0x72BE), (0x3005, 0x6000)]);
    e.set_reg(1, 0xBEEF);
    e.set_reg(2, 0x7002);
    run_one(&mut e, None);
    assert_eq!(e.peek(0x3004), 0xBEEF);
    run_one(&mut e, None);
    assert_eq!(e.peek(0x6000), 0xBEEF);
    run_one(&mut e, None);
    assert_eq!(e.peek(0x7000), 0xBEEF);
}

#[test]
fn keyboard_read_needs_a_key() {
    // LDI R0 through a pointer to the keyboard data register.
    let mut e = machine(0x3000, &[(0x3000, 0xA001), (0x3002, KBDR)]);
    let (status, _) = run_one(&mut e, None);
    assert_eq!(status, Status::NeedsKey);
    assert_eq!(e.pc(), 0x3000);
    let (status, _) = run_one(&mut e, Some(b'a'));
    assert_eq!(status, Status::Running);
    assert_eq!(e.read_reg(0), b'a' as u16);
}

#[test]
fn keyboard_interrupt_ends_run() {
    // LD R0 from the keyboard data register.
    let mut e = machine(0xFE00, &[(0xFE00, 0x2201)]);
    let (status, _) = run_one(&mut e, Some(0x03));
    assert_eq!(status, Status::Interrupted);
    assert_eq!(exit_code(status), Some(0));
    assert_eq!(e.pc(), 0xFE00);
}

#[test]
fn key_code_translates_return() {
    assert_eq!(key_code(Some(0x0D)), 0x0A);
    assert_eq!(key_code(Some(b'x')), b'x');
    assert_eq!(key_code(None), 0);
}

#[test]
fn mark_keyboard_ready_sets_status_bit() {
    let mut e = machine(0x3000, &[]);
    e.mark_keyboard_ready();
    assert_eq!(e.peek(0xFE00), 0x8000);
}

#[test]
fn trap_getc() {
    let mut e = machine(0x3000, &[(0x3000, 0xF020)]);
    assert_eq!(run_one(&mut e, None).0, Status::NeedsKey);
    assert_eq!(e.read_reg(7), 0);
    let (status, out) = run_one(&mut e, Some(b'q'));
    assert_eq!(status, Status::Running);
    assert!(out.is_empty());
    assert_eq!(e.read_reg(0), b'q' as u16);
    assert_eq!(e.read_reg(7), 0x3001);
    assert_eq!(e.psr() & 0b111, P);
}

#[test]
fn trap_out() {
    let mut e = machine(0x3000, &[(0x3000, 0xF021)]);
    e.set_reg(0, 0x1241);
    let (status, out) = run_one(&mut e, None);
    assert_eq!(status, Status::Running);
    assert_eq!(out, vec![0x41]);
}

#[test]
fn trap_puts() {
    let mut e = machine(0x3000, &[(0x3000, 0xF022), (0x4000, b'h' as u16), (0x4001, b'i' as u16)]);
    e.set_reg(0, 0x4000);
    let (status, out) = run_one(&mut e, None);
    assert_eq!(status, Status::Running);
    assert_eq!(out, b"hi".to_vec());
    assert_eq!(e.read_reg(7), 0x3001);
}

#[test]
fn trap_puts_stops_at_end_of_memory() {
    let mut e = machine(0x3000, &[(0x3000, 0xF022), (0xFFFF, b'z' as u16)]);
    e.set_reg(0, 0xFFFF);
    let (status, out) = run_one(&mut e, None);
    assert_eq!(status, Status::Running);
    assert_eq!(out, b"z".to_vec());
}

#[test]
fn trap_putsp() {
    let word = ((b'b' as u16) << 8) | b'a' as u16;
    let mut e = machine(0x3000, &[(0x3000, 0xF024), (0x4000, word), (0x4001, b'c' as u16)]);
    e.set_reg(0, 0x4000);
    let (status, out) = run_one(&mut e, None);
    assert_eq!(status, Status::Running);
    assert_eq!(out, b"abc".to_vec());
}

#[test]
fn trap_in_prompts_and_echoes() {
    let mut e = machine(0x3000, &[(0x3000, 0xF023)]);
    let (status, out) = run_one(&mut e, None);
    assert_eq!(status, Status::NeedsKey);
    assert_eq!(out, b"\n> ".to_vec());
    let (status, out) = run_one(&mut e, Some(b'k'));
    assert_eq!(status, Status::Running);
    assert_eq!(out, b"\n> k".to_vec());
    assert_eq!(e.read_reg(0), b'k' as u16);
}

#[test]
fn trap_unknown_vector_only_links() {
    let mut e = machine(0x3000, &[(0x3000, 0xF030)]);
    let (status, out) = run_one(&mut e, None);
    assert_eq!(status, Status::Running);
    assert!(out.is_empty());
    assert_eq!(e.read_reg(7), 0x3001);
    assert_eq!(e.pc(), 0x3001);
}

#[test]
fn registers_out_of_range_are_ignored() {
    let mut e = machine(0x3000, &[]);
    e.set_reg(8, 5);
    assert_eq!(e.read_reg(8), 0);
    assert_eq!(e.registers(), [0u16; 8]);
    e.set_mem(0x10000, 3);
    e.set_mem(0xFFFF, 3);
    assert_eq!(e.peek(0xFFFF), 3);
}
