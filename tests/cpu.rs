use rust8080::{ExecError, FlagType, Instr, State, IO};

fn machine(program: &[u8]) -> (State, IO) {
    (State::new(program.to_vec()), IO::new())
}

#[test]
fn new_state_pads_memory_and_sets_defaults() {
    let (state, _) = machine(&[1, 2, 3]);
    assert_eq!(state.mem.len(), 0x10000);
    assert_eq!(&state.mem[..4], &[1, 2, 3, 0]);
    assert_eq!(state.sp, 0x2400);
    assert_eq!(state.pc, 0);
    assert_eq!(state.flags.reg, 0);
    assert_eq!(state.enable, 0);
}

#[test]
fn new_state_truncates_a_long_image() {
    let mut rom = vec![0u8; 0x10005];
    rom[0xffff] = 0xaa;
    rom[0x10000] = 0xbb;
    let state = State::new(rom);
    assert_eq!(state.mem.len(), 0x10000);
    assert_eq!(state.mem[0xffff], 0xaa);
}

#[test]
fn inr_inr_dcr_scenario() {
    let (mut state, mut io) = machine(&[0x04, 0x04, 0x05]);
    assert_eq!(state.run_op(&mut io), Ok(()));
    assert_eq!(state.b, 1);
    assert_eq!(state.flags.get(FlagType::Z), 0);
    assert_eq!(state.run_op(&mut io), Ok(()));
    assert_eq!(state.b, 2);
    assert_eq!(state.run_op(&mut io), Ok(()));
    assert_eq!(state.b, 1);
    assert_eq!(state.pc, 3);
}

#[test]
fn dcr_to_zero_sets_zero_and_wraps_below_zero() {
    let (mut state, mut io) = machine(&[0x05, 0x05]);
    state.b = 1;
    state.run_op(&mut io).unwrap();
    assert_eq!(state.b, 0);
    assert_eq!(state.flags.get(FlagType::Z), 1);
    assert_eq!(state.flags.get(FlagType::P), 1);
    assert_eq!(state.flags.get(FlagType::AC), 1);
    state.run_op(&mut io).unwrap();
    assert_eq!(state.b, 0xff);
    assert_eq!(state.flags.get(FlagType::Z), 0);
    assert_eq!(state.flags.get(FlagType::S), 1);
    assert_eq!(state.flags.get(FlagType::AC), 0);
}

#[test]
fn rlc_scenario() {
    let (mut state, mut io) = machine(&[0x07]);
    state.a = 0b1100_0010;
    state.run_op(&mut io).unwrap();
    assert_eq!(state.a, 0b1100_0010u8.rotate_left(1));
    assert_eq!(state.a, 0b1000_0101);
    assert_eq!(state.flags.get(FlagType::CY), 1);
}

#[test]
fn rotates_through_carry() {
    // RRC, RAL, RAR
    let (mut state, mut io) = machine(&[0x0f, 0x17, 0x1f]);
    state.a = 0b0000_0011;
    state.run_op(&mut io).unwrap();
    assert_eq!(state.a, 0b1000_0001);
    assert_eq!(state.flags.get(FlagType::CY), 1);
    state.run_op(&mut io).unwrap();
    assert_eq!(state.a, 0b0000_0011);
    assert_eq!(state.flags.get(FlagType::CY), 1);
    state.run_op(&mut io).unwrap();
    assert_eq!(state.a, 0b0000_0001);
    assert_eq!(state.flags.get(FlagType::CY), 1);
}

#[test]
fn jmp_scenario_lands_exactly_on_target() {
    let (mut state, mut io) = machine(&[0xc3, 0x10, 0x00]);
    state.run_op(&mut io).unwrap();
    assert_eq!(state.pc, 0x0010);
}

#[test]
fn conditional_jump_not_taken_skips_operands() {
    // JZ 0x0010 with Z clear
    let (mut state, mut io) = machine(&[0xca, 0x10, 0x00]);
    state.run_op(&mut io).unwrap();
    assert_eq!(state.pc, 3);
}

#[test]
fn push_then_pop_restores_pair_and_sp() {
    // LXI B,0x1234; PUSH B; LXI B,0; POP B
    let (mut state, mut io) = machine(&[0x01, 0x34, 0x12, 0xc5, 0x01, 0x00, 0x00, 0xc1]);
    state.run_op(&mut io).unwrap();
    let sp = state.sp;
    state.run_op(&mut io).unwrap();
    assert_eq!(state.sp, sp - 2);
    assert_eq!(state.mem[sp as usize - 1], 0x12);
    assert_eq!(state.mem[sp as usize - 2], 0x34);
    state.run_op(&mut io).unwrap();
    assert_eq!((state.b, state.c), (0, 0));
    state.run_op(&mut io).unwrap();
    assert_eq!((state.b, state.c), (0x12, 0x34));
    assert_eq!(state.sp, sp);
}

#[test]
fn push_pop_psw() {
    // PUSH PSW; POP D
    let (mut state, mut io) = machine(&[0xf5, 0xd1]);
    state.a = 0x5a;
    state.flags.reg = 0x90;
    state.run_op(&mut io).unwrap();
    state.run_op(&mut io).unwrap();
    assert_eq!((state.d, state.e), (0x5a, 0x90));
}

#[test]
fn call_then_ret_returns_after_the_call() {
    let mut program = vec![0u8; 0x30];
    program[0x05] = 0xcd; // CALL 0x0020
    program[0x06] = 0x20;
    program[0x07] = 0x00;
    program[0x20] = 0xc9; // RET
    let (mut state, mut io) = machine(&program);
    state.pc = 0x05;
    state.run_op(&mut io).unwrap();
    assert_eq!(state.pc, 0x20);
    assert_eq!(state.sp, 0x23fe);
    assert_eq!(state.mem[0x23fe], 0x08);
    assert_eq!(state.mem[0x23ff], 0x00);
    state.run_op(&mut io).unwrap();
    assert_eq!(state.pc, 0x08);
    assert_eq!(state.sp, 0x2400);
}

#[test]
fn rst_pushes_next_address_and_jumps_to_vector() {
    let mut program = vec![0u8; 0x20];
    program[0x10] = 0xd7; // RST 2
    let (mut state, mut io) = machine(&program);
    state.pc = 0x10;
    state.run_op(&mut io).unwrap();
    assert_eq!(state.pc, 0x10);
    assert_eq!(state.sp, 0x23fe);
    assert_eq!(state.mem[0x23fe], 0x11);
    assert_eq!(state.mem[0x23ff], 0x00);
}

#[test]
fn rst_zero_jumps_to_address_zero() {
    let mut program = vec![0u8; 0x20];
    program[0x10] = 0xc7; // RST 0
    let (mut state, mut io) = machine(&program);
    state.pc = 0x10;
    state.run_op(&mut io).unwrap();
    assert_eq!(state.pc, 0x00);
}

#[test]
fn rst_matches_call_to_vector() {
    let mut a = vec![0u8; 0x40];
    a[0x10] = 0xdf; // RST 3
    let mut b = a.clone();
    b[0x10] = 0xcd; // CALL 0x0018
    b[0x11] = 0x18;
    b[0x12] = 0x00;
    let (mut rst, mut io1) = machine(&a);
    let (mut call, mut io2) = machine(&b);
    rst.pc = 0x10;
    call.pc = 0x10;
    rst.run_op(&mut io1).unwrap();
    call.run_op(&mut io2).unwrap();
    assert_eq!(rst.pc, 0x18);
    assert_eq!(call.pc, 0x18);
    assert_eq!(rst.sp, call.sp);
    assert_eq!(rst.flags.reg, call.flags.reg);
    assert_eq!(rst.mem[rst.sp as usize], 0x11);
    assert_eq!(call.mem[call.sp as usize], 0x13);
}

#[test]
fn interrupt_clears_latch_and_ei_sets_it() {
    let mut program = vec![0u8; 0x20];
    program[0x08] = 0xfb; // EI
    let (mut state, mut io) = machine(&program);
    state.enable = 1;
    state.pc = 0x1234;
    assert_eq!(state.generate_interrupt(1), Ok(()));
    assert_eq!(state.enable, 0);
    assert_eq!(state.pc, 0x08);
    assert_eq!(state.sp, 0x23fe);
    assert_eq!(state.mem[0x23ff], 0x12);
    assert_eq!(state.mem[0x23fe], 0x34);
    state.run_op(&mut io).unwrap();
    assert_eq!(state.enable, 1);
    assert_eq!(state.pc, 0x09);
}

#[test]
fn interrupt_without_stack_room_fails() {
    let (mut state, _) = machine(&[]);
    state.sp = 1;
    assert_eq!(state.generate_interrupt(2), Err(ExecError::MemoryOutOfRange));
    assert_eq!(state.pc, 0);
    assert_eq!(state.sp, 1);
}

#[test]
fn halt_is_reported_and_changes_nothing() {
    let (mut state, mut io) = machine(&[0x76]);
    assert_eq!(state.run_op(&mut io), Err(ExecError::Halted));
    assert_eq!(state.pc, 0);
}

#[test]
fn unimplemented_opcode_is_reported() {
    for op in [0x08u8, 0x10, 0x18, 0x20, 0x28, 0x30, 0x38, 0xcb, 0xd9, 0xdd, 0xed, 0xfd] {
        let (mut state, mut io) = machine(&[op]);
        assert_eq!(state.run_op(&mut io), Err(ExecError::UnimplementedOpcode(op)));
        assert_eq!(state.pc, 0);
    }
}

#[test]
fn access_outside_memory_is_reported() {
    let (mut state, mut io) = machine(&[0xc5]); // PUSH B
    state.sp = 1;
    assert_eq!(state.run_op(&mut io), Err(ExecError::MemoryOutOfRange));
    assert_eq!(state.sp, 1);

    let (mut state, mut io) = machine(&[]);
    state.pc = 0xfffe;
    state.mem[0xfffe] = 0xc3; // JMP with its last byte past the end
    assert_eq!(state.run_op(&mut io), Err(ExecError::MemoryOutOfRange));
    assert_eq!(state.pc, 0xfffe);

    let (mut state, mut io) = machine(&[0xc9]); // RET with SP at the top
    state.sp = 0xffff;
    assert_eq!(state.run_op(&mut io), Err(ExecError::MemoryOutOfRange));

    let mut state = State::new(vec![]);
    state.mem = vec![0x00];
    state.pc = 1;
    assert_eq!(state.run_op(&mut io), Err(ExecError::MemoryOutOfRange));
}

#[test]
fn add_sets_carry_and_flags() {
    // MVI A,0xf0; MVI B,0x20; ADD B
    let (mut state, mut io) = machine(&[0x3e, 0xf0, 0x06, 0x20, 0x80]);
    for _ in 0..3 {
        state.run_op(&mut io).unwrap();
    }
    assert_eq!(state.a, 0x10);
    assert_eq!(state.flags.get(FlagType::CY), 1);
    assert_eq!(state.flags.get(FlagType::Z), 0);
    assert_eq!(state.flags.get(FlagType::S), 0);
    assert_eq!(state.flags.get(FlagType::P), 1);
    assert_eq!(state.pc, 5);
}

#[test]
fn adc_and_sbb_use_the_carry() {
    // STC; ACI 0x01; STC; SBI 0x01
    let (mut state, mut io) = machine(&[0x37, 0xce, 0x01, 0x37, 0xde, 0x01]);
    state.a = 0x10;
    state.run_op(&mut io).unwrap();
    state.run_op(&mut io).unwrap();
    assert_eq!(state.a, 0x12);
    assert_eq!(state.flags.get(FlagType::CY), 0);
    state.run_op(&mut io).unwrap();
    state.run_op(&mut io).unwrap();
    assert_eq!(state.a, 0x10);
    assert_eq!(state.flags.get(FlagType::CY), 0);
}

#[test]
fn sub_borrow_and_cmp_keep_a() {
    // SUI 0x05; CPI 0xfb; CPI 0x01
    let (mut state, mut io) = machine(&[0xd6, 0x05, 0xfe, 0xfb, 0xfe, 0x01]);
    state.a = 0x00;
    state.run_op(&mut io).unwrap();
    assert_eq!(state.a, 0xfb);
    assert_eq!(state.flags.get(FlagType::CY), 1);
    state.run_op(&mut io).unwrap();
    assert_eq!(state.a, 0xfb);
    assert_eq!(state.flags.get(FlagType::Z), 1);
    assert_eq!(state.flags.get(FlagType::CY), 0);
    state.run_op(&mut io).unwrap();
    assert_eq!(state.flags.get(FlagType::Z), 0);
    assert_eq!(state.flags.get(FlagType::S), 1);
}

#[test]
fn logic_ops_clear_carry() {
    // STC; ANI 0x0f; STC; ORA B; XRA A
    let (mut state, mut io) = machine(&[0x37, 0xe6, 0x0f, 0x37, 0xb0, 0xaf]);
    state.a = 0x3c;
    state.b = 0x80;
    state.run_op(&mut io).unwrap();
    state.run_op(&mut io).unwrap();
    assert_eq!(state.a, 0x0c);
    assert_eq!(state.flags.get(FlagType::CY), 0);
    state.run_op(&mut io).unwrap();
    state.run_op(&mut io).unwrap();
    assert_eq!(state.a, 0x8c);
    assert_eq!(state.flags.get(FlagType::CY), 0);
    assert_eq!(state.flags.get(FlagType::S), 1);
    state.run_op(&mut io).unwrap();
    assert_eq!(state.a, 0);
    assert_eq!(state.flags.get(FlagType::Z), 1);
}

#[test]
fn dad_sets_sixteen_bit_carry() {
    // LXI H,0xffff; LXI D,0x0002; DAD D; DAD H
    let (mut state, mut io) = machine(&[0x21, 0xff, 0xff, 0x11, 0x02, 0x00, 0x19, 0x29]);
    for _ in 0..3 {
        state.run_op(&mut io).unwrap();
    }
    assert_eq!((state.h, state.l), (0x00, 0x01));
    assert_eq!(state.flags.get(FlagType::CY), 1);
    state.run_op(&mut io).unwrap();
    assert_eq!((state.h, state.l), (0x00, 0x02));
    assert_eq!(state.flags.get(FlagType::CY), 0);
}

#[test]
fn memory_moves_through_hl() {
    // LXI H,0x2000; MVI M,0x42; MOV A,M; INR M; STA 0x2001; LHLD 0x2000
    let (mut state, mut io) = machine(&[
        0x21, 0x00, 0x20, 0x36, 0x42, 0x7e, 0x34, 0x32, 0x01, 0x20, 0x2a, 0x00, 0x20,
    ]);
    for _ in 0..6 {
        state.run_op(&mut io).unwrap();
    }
    assert_eq!(state.mem[0x2000], 0x43);
    assert_eq!(state.mem[0x2001], 0x42);
    assert_eq!(state.a, 0x42);
    assert_eq!((state.h, state.l), (0x42, 0x43));
    assert_eq!(state.pc, 13);
}

#[test]
fn inx_dcx_wrap_and_xchg() {
    // LXI D,0xffff; INX D; DCX D; XCHG
    let (mut state, mut io) = machine(&[0x11, 0xff, 0xff, 0x13, 0x1b, 0xeb]);
    state.run_op(&mut io).unwrap();
    state.run_op(&mut io).unwrap();
    assert_eq!((state.d, state.e), (0, 0));
    state.run_op(&mut io).unwrap();
    assert_eq!((state.d, state.e), (0xff, 0xff));
    state.run_op(&mut io).unwrap();
    assert_eq!((state.h, state.l), (0xff, 0xff));
    assert_eq!((state.d, state.e), (0, 0));
}

#[test]
fn daa_cma_cmc() {
    // DAA; CMA; CMC
    let (mut state, mut io) = machine(&[0x27, 0x2f, 0x3f]);
    state.a = 0x0b;
    state.run_op(&mut io).unwrap();
    assert_eq!(state.a, 0x11);
    state.run_op(&mut io).unwrap();
    assert_eq!(state.a, 0xee);
    state.run_op(&mut io).unwrap();
    assert_eq!(state.flags.get(FlagType::CY), 1);
}

#[test]
fn in_and_out_use_the_ports() {
    // MVI A,0x02; OUT 2; MVI A,0xff; OUT 4; IN 3; IN 1
    let (mut state, mut io) = machine(&[0x3e, 0x02, 0xd3, 0x02, 0x3e, 0xff, 0xd3, 0x04, 0xdb, 0x03, 0xdb, 0x01]);
    for _ in 0..5 {
        state.run_op(&mut io).unwrap();
    }
    assert_eq!(io.shift, 0xff00);
    assert_eq!(state.a, 0xfc);
    state.run_op(&mut io).unwrap();
    assert_eq!(state.a, 0b1000_1000);
    assert_eq!(state.pc, 12);
}

#[test]
fn decode_and_length() {
    assert_eq!(Instr::decode(0xc3), Instr::Jmp);
    assert_eq!(Instr::decode(0x76), Instr::Hlt);
    assert_eq!(Instr::decode(0xc3).len(), 3);
    assert_eq!(Instr::decode(0x3e).len(), 2);
    assert_eq!(Instr::decode(0x78).len(), 1);
    assert_eq!(Instr::decode(0xff), Instr::Rst(7));
}
