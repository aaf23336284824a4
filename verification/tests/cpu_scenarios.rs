use inaccunes::{
    Cpu, Memory, RAMputer, UnknownOpcode, STATUS_1, STATUS_B, STATUS_C, STATUS_D, STATUS_I,
    STATUS_N, STATUS_V, STATUS_Z,
};

fn flag(cpu: &Cpu, mask: u8) -> bool {
    cpu.get_p() & mask == mask
}

/// A processor at `0x8000` with the given program there, A, X and Y zero,
/// S at 0xFF and only bit 5 set in P.
fn machine(program: &[u8]) -> (Cpu, RAMputer) {
    let mut ram = RAMputer::new();
    assert!(ram.load(0x8000, program));
    let mut cpu = Cpu::new();
    cpu.set_pc(0x8000);
    cpu.set_a(0);
    cpu.set_x(0);
    cpu.set_y(0);
    cpu.set_s(0xFF);
    cpu.set_p(STATUS_1);
    (cpu, ram)
}

#[test]
fn new_cpu_has_every_register_at_ff() {
    let cpu = Cpu::new();
    assert_eq!(cpu.get_a(), 0xFF);
    assert_eq!(cpu.get_x(), 0xFF);
    assert_eq!(cpu.get_y(), 0xFF);
    assert_eq!(cpu.get_s(), 0xFF);
    assert_eq!(cpu.get_p(), 0xFF);
    assert_eq!(cpu.get_pc(), 0x00FF);
}

#[test]
fn reset_loads_program_counter_from_vector() {
    let mut ram = RAMputer::new();
    let mut cpu = Cpu::new();
    ram.poke(0xFFFC, 0x34);
    ram.poke(0xFFFD, 0x12);
    cpu.reset(&mut ram);
    assert_eq!(cpu.get_pc(), 0x1234);
    assert_eq!(cpu.get_a(), 0xFF);
    assert_eq!(cpu.get_s(), 0xFF);
    assert_eq!(cpu.get_p(), 0xFF);
}

#[test]
fn adc_with_overflow() {
    let (mut cpu, mut ram) = machine(&[0x69, 0x50]);
    cpu.set_a(0x50);
    assert_eq!(cpu.step(&mut ram), Ok(()));
    assert_eq!(cpu.get_a(), 0xA0);
    assert!(flag(&cpu, STATUS_N));
    assert!(flag(&cpu, STATUS_V));
    assert!(!flag(&cpu, STATUS_C));
    assert!(!flag(&cpu, STATUS_Z));
    assert_eq!(cpu.get_p(), STATUS_1 | STATUS_N | STATUS_V);
    assert_eq!(cpu.get_pc(), 0x8002);
}

#[test]
fn sbc_borrow() {
    let (mut cpu, mut ram) = machine(&[0xE9, 0xF0]);
    cpu.set_a(0x50);
    cpu.set_p(STATUS_1 | STATUS_C);
    assert_eq!(cpu.step(&mut ram), Ok(()));
    assert_eq!(cpu.get_a(), 0x60);
    assert!(!flag(&cpu, STATUS_C));
    assert!(!flag(&cpu, STATUS_N));
    assert!(!flag(&cpu, STATUS_Z));
    assert_eq!(cpu.get_pc(), 0x8002);
}

#[test]
fn sbc_borrow_overflow_flag_follows_the_formula() {
    // a = 0x50, b = !0xF0 = 0x0F, c = 1: r = 0x60;
    // (a ^ r) & (b ^ r) & 0x80 = 0x30 & 0x6F & 0x80 = 0
    let (mut cpu, mut ram) = machine(&[0xE9, 0xF0]);
    cpu.set_a(0x50);
    cpu.set_p(STATUS_1 | STATUS_C);
    assert_eq!(cpu.step(&mut ram), Ok(()));
    assert_eq!(flag(&cpu, STATUS_V), (0x50u8 ^ 0x60) & (0x0Fu8 ^ 0x60) & 0x80 != 0);
}

#[test]
fn sbc_signed_overflow() {
    // 0x50 - 0xB0 = 80 - (-80) = 160: past the signed range
    let (mut cpu, mut ram) = machine(&[0xE9, 0xB0]);
    cpu.set_a(0x50);
    cpu.set_p(STATUS_1 | STATUS_C);
    assert_eq!(cpu.step(&mut ram), Ok(()));
    assert_eq!(cpu.get_a(), 0xA0);
    assert_eq!(cpu.get_p(), STATUS_1 | STATUS_N | STATUS_V);
}

#[test]
fn adc_carry_in_and_out() {
    let (mut cpu, mut ram) = machine(&[0x69, 0xFF]);
    cpu.set_a(0x00);
    cpu.set_p(STATUS_1 | STATUS_C);
    assert_eq!(cpu.step(&mut ram), Ok(()));
    assert_eq!(cpu.get_a(), 0x00);
    assert_eq!(cpu.get_p(), STATUS_1 | STATUS_C | STATUS_Z);
}

#[test]
fn adc_keeps_the_other_flags() {
    let (mut cpu, mut ram) = machine(&[0x69, 0x01]);
    cpu.set_a(0x01);
    cpu.set_p(STATUS_1 | STATUS_B | STATUS_D | STATUS_I | STATUS_N | STATUS_V | STATUS_Z);
    assert_eq!(cpu.step(&mut ram), Ok(()));
    assert_eq!(cpu.get_a(), 0x02);
    assert_eq!(cpu.get_p(), STATUS_1 | STATUS_B | STATUS_D | STATUS_I);
}

#[test]
fn branch_range_backward() {
    // BNE with Z clear at 0x80FE; behind the instruction PC is 0x8100
    let mut ram = RAMputer::new();
    ram.poke(0x80FE, 0xD0);
    ram.poke(0x80FF, 0xFE);
    let mut cpu = Cpu::new();
    cpu.set_p(STATUS_1);
    cpu.set_pc(0x80FE);
    assert_eq!(cpu.step(&mut ram), Ok(()));
    assert_eq!(cpu.get_pc(), 0x80FE);
}

#[test]
fn branch_backward_counts_from_behind_the_operand() {
    // BNE with Z clear at 0x80FF; behind the opcode PC is 0x8100, behind
    // the operand 0x8101
    let mut ram = RAMputer::new();
    ram.poke(0x80FF, 0xD0);
    ram.poke(0x8100, 0xFE);
    let mut cpu = Cpu::new();
    cpu.set_p(STATUS_1);
    cpu.set_pc(0x80FF);
    assert_eq!(cpu.step(&mut ram), Ok(()));
    assert_eq!(cpu.get_pc(), 0x80FF);
}

#[test]
fn branch_range_forward() {
    // BNE with Z clear at 0x80FF; behind the opcode PC is 0x8100
    let mut ram = RAMputer::new();
    ram.poke(0x80FF, 0xD0);
    ram.poke(0x8100, 0x7F);
    let mut cpu = Cpu::new();
    cpu.set_p(STATUS_1);
    cpu.set_pc(0x80FF);
    assert_eq!(cpu.step(&mut ram), Ok(()));
    assert_eq!(cpu.get_pc(), 0x8180);
}

#[test]
fn branch_not_taken_moves_past_the_operand() {
    let mut ram = RAMputer::new();
    ram.poke(0x80FF, 0xD0);
    ram.poke(0x8100, 0x7F);
    let mut cpu = Cpu::new();
    cpu.set_p(STATUS_1 | STATUS_Z);
    cpu.set_pc(0x80FF);
    assert_eq!(cpu.step(&mut ram), Ok(()));
    assert_eq!(cpu.get_pc(), 0x8101);
}

#[test]
fn branch_target_is_signed_offset_from_next_instruction() {
    // BRA +0x7F from 0x8000: the next instruction is at 0x8002
    let (mut cpu, mut ram) = machine(&[0x80, 0x7F]);
    assert_eq!(cpu.step(&mut ram), Ok(()));
    assert_eq!(cpu.get_pc(), 0x8081);
    // BRA -2 from 0x8000 loops onto itself
    let (mut cpu, mut ram) = machine(&[0x80, 0xFE]);
    assert_eq!(cpu.step(&mut ram), Ok(()));
    assert_eq!(cpu.get_pc(), 0x8000);
    // BRA -128
    let (mut cpu, mut ram) = machine(&[0x80, 0x80]);
    assert_eq!(cpu.step(&mut ram), Ok(()));
    assert_eq!(cpu.get_pc(), 0x7F82);
}

#[test]
fn branch_wraps_around_the_address_space() {
    let mut ram = RAMputer::new();
    ram.poke(0xFFFD, 0x80);
    ram.poke(0xFFFE, 0x10);
    let mut cpu = Cpu::new();
    cpu.set_pc(0xFFFD);
    assert_eq!(cpu.step(&mut ram), Ok(()));
    assert_eq!(cpu.get_pc(), 0x000F);
    let mut ram = RAMputer::new();
    ram.poke(0x0000, 0x80);
    ram.poke(0x0001, 0xF0);
    let mut cpu = Cpu::new();
    cpu.set_pc(0x0000);
    assert_eq!(cpu.step(&mut ram), Ok(()));
    assert_eq!(cpu.get_pc(), 0xFFF2);
}

#[test]
fn branches_follow_their_flags() {
    // opcode, flag, taken when set
    let table: [(u8, u8, bool); 8] = [
        (0x10, STATUS_N, false),
        (0x30, STATUS_N, true),
        (0x50, STATUS_V, false),
        (0x70, STATUS_V, true),
        (0x90, STATUS_C, false),
        (0xB0, STATUS_C, true),
        (0xD0, STATUS_Z, false),
        (0xF0, STATUS_Z, true),
    ];
    for (opcode, mask, when_set) in table {
        for set in [false, true] {
            let (mut cpu, mut ram) = machine(&[opcode, 0x10]);
            cpu.set_p(if set { STATUS_1 | mask } else { STATUS_1 });
            assert_eq!(cpu.step(&mut ram), Ok(()));
            let expected = if set == when_set { 0x8012 } else { 0x8002 };
            assert_eq!(cpu.get_pc(), expected, "opcode {:02X} flag {}", opcode, set);
            assert_eq!(cpu.get_p(), if set { STATUS_1 | mask } else { STATUS_1 });
        }
    }
}

#[test]
fn jsr_rts_round_trip() {
    let (mut cpu, mut ram) = machine(&[0x20, 0x00, 0x90]);
    ram.poke(0x9000, 0x60);
    assert_eq!(cpu.step(&mut ram), Ok(()));
    assert_eq!(cpu.get_pc(), 0x9000);
    assert_eq!(cpu.get_s(), 0xFD);
    assert_eq!(ram.peek(0x01FF), 0x80);
    assert_eq!(ram.peek(0x01FE), 0x02);
    assert_eq!(cpu.step(&mut ram), Ok(()));
    assert_eq!(cpu.get_pc(), 0x8003);
    assert_eq!(cpu.get_s(), 0xFF);
}

#[test]
fn rts_wraps_program_counter() {
    let (mut cpu, mut ram) = machine(&[0x60]);
    cpu.set_s(0xFD);
    ram.poke(0x01FE, 0xFF);
    ram.poke(0x01FF, 0xFF);
    assert_eq!(cpu.step(&mut ram), Ok(()));
    assert_eq!(cpu.get_pc(), 0x0000);
}

#[test]
fn push_then_pop_restores_byte_and_stack_pointer() {
    // PHA; LDA #0; PLA
    let (mut cpu, mut ram) = machine(&[0x48, 0xA9, 0x00, 0x68]);
    cpu.set_a(0xC3);
    cpu.set_s(0x42);
    assert_eq!(cpu.step(&mut ram), Ok(()));
    assert_eq!(cpu.get_s(), 0x41);
    assert_eq!(ram.peek(0x0142), 0xC3);
    assert_eq!(cpu.step(&mut ram), Ok(()));
    assert_eq!(cpu.get_a(), 0x00);
    assert_eq!(cpu.step(&mut ram), Ok(()));
    assert_eq!(cpu.get_a(), 0xC3);
    assert_eq!(cpu.get_s(), 0x42);
    assert_eq!(cpu.get_p(), STATUS_1 | STATUS_N);
}

#[test]
fn stack_pointer_wraps() {
    // PHA at S = 0x00 writes 0x0100 and wraps S to 0xFF; PLA at 0xFF reads 0x0100
    let (mut cpu, mut ram) = machine(&[0x48, 0x68]);
    cpu.set_a(0x5A);
    cpu.set_s(0x00);
    assert_eq!(cpu.step(&mut ram), Ok(()));
    assert_eq!(cpu.get_s(), 0xFF);
    assert_eq!(ram.peek(0x0100), 0x5A);
    cpu.set_a(0);
    assert_eq!(cpu.step(&mut ram), Ok(()));
    assert_eq!(cpu.get_s(), 0x00);
    assert_eq!(cpu.get_a(), 0x5A);
}

#[test]
fn program_counter_wraps() {
    let mut ram = RAMputer::new();
    ram.poke(0xFFFF, 0xEA);
    let mut cpu = Cpu::new();
    cpu.set_pc(0xFFFF);
    assert_eq!(cpu.step(&mut ram), Ok(()));
    assert_eq!(cpu.get_pc(), 0x0000);
}

#[test]
fn php_pushes_bit_5_and_b() {
    let (mut cpu, mut ram) = machine(&[0x08]);
    cpu.set_p(0x00);
    assert_eq!(cpu.step(&mut ram), Ok(()));
    assert_eq!(ram.peek(0x01FF), STATUS_1 | STATUS_B);
    assert_eq!(cpu.get_p(), STATUS_1);
    assert_eq!(cpu.get_s(), 0xFE);
    let (mut cpu, mut ram) = machine(&[0x08]);
    cpu.set_p(STATUS_C | STATUS_N);
    assert_eq!(cpu.step(&mut ram), Ok(()));
    assert_eq!(ram.peek(0x01FF), STATUS_1 | STATUS_B | STATUS_C | STATUS_N);
}

#[test]
fn adder_sets_c_z_n_and_v() {
    // a, b, carry in, low byte, flags
    let cases: [(u8, u8, bool, u8, u8); 8] = [
        (0x50, 0x50, false, 0xA0, STATUS_N | STATUS_V),
        (0x50, 0x0F, true, 0x60, 0),
        (0xFF, 0x00, true, 0x00, STATUS_C | STATUS_Z),
        (0xFF, 0xFF, true, 0xFF, STATUS_C | STATUS_N),
        (0x80, 0x80, false, 0x00, STATUS_C | STATUS_Z | STATUS_V),
        (0x00, 0x00, false, 0x00, STATUS_Z),
        (0x7F, 0x00, true, 0x80, STATUS_N | STATUS_V),
        (0x80, 0xFF, false, 0x7F, STATUS_C | STATUS_V),
    ];
    for (a, b, carry_in, low, flags) in cases {
        for others in [0u8, STATUS_B | STATUS_D | STATUS_I] {
            let mut cpu = Cpu::new();
            cpu.set_a(0x11);
            cpu.set_x(0x22);
            cpu.set_y(0x33);
            cpu.set_s(0x44);
            cpu.set_pc(0x5566);
            // The flags that the adder sets begin as the opposite of what is due.
            cpu.set_p(others | ((STATUS_C | STATUS_Z | STATUS_N | STATUS_V) & !flags));
            assert_eq!(cpu.add_and_assign_status(a, b, carry_in), low);
            assert_eq!(cpu.get_p(), STATUS_1 | others | flags, "{:02X} + {:02X}", a, b);
            assert_eq!(
                (cpu.get_a(), cpu.get_x(), cpu.get_y(), cpu.get_s(), cpu.get_pc()),
                (0x11, 0x22, 0x33, 0x44, 0x5566)
            );
        }
    }
}

#[test]
fn set_p_cannot_clear_bit_5() {
    let mut cpu = Cpu::new();
    cpu.set_a(0x12);
    cpu.set_x(0x34);
    cpu.set_y(0x56);
    cpu.set_s(0x78);
    cpu.set_pc(0x9ABC);
    for nu in 0..=255u8 {
        cpu.set_p(nu);
        assert_eq!(cpu.get_p(), nu | STATUS_1);
        assert_eq!(cpu.get_p() & 0x20, 0x20);
        assert_eq!(cpu.get_p() & 0xDF, nu & 0xDF);
    }
    assert_eq!(
        (cpu.get_a(), cpu.get_x(), cpu.get_y(), cpu.get_s(), cpu.get_pc()),
        (0x12, 0x34, 0x56, 0x78, 0x9ABC)
    );
}

#[test]
fn bit_5_stays_set_through_every_instruction() {
    for opcode in 0..=255u8 {
        for p in [0x00u8, 0xDF] {
            let (mut cpu, mut ram) = machine(&[opcode, 0x10, 0x00]);
            // What PLP pulls has bit 5 clear.
            cpu.set_s(0xF0);
            cpu.set_p(p);
            let _ = cpu.step(&mut ram);
            assert_eq!(cpu.get_p() & STATUS_1, STATUS_1, "opcode {:02X}", opcode);
        }
    }
}

#[test]
fn plp_reads_bit_5_and_b_as_set() {
    let (mut cpu, mut ram) = machine(&[0x28]);
    cpu.set_s(0xFE);
    ram.poke(0x01FF, STATUS_C | STATUS_V);
    assert_eq!(cpu.step(&mut ram), Ok(()));
    assert_eq!(cpu.get_p(), STATUS_C | STATUS_V | STATUS_1 | STATUS_B);
    assert_eq!(cpu.get_s(), 0xFF);
}

#[test]
fn nmi_is_taken_on_rising_edge() {
    let (mut cpu, mut ram) = machine(&[0xEA, 0xEA]);
    ram.poke(0xFFFA, 0x00);
    ram.poke(0xFFFB, 0x90);
    ram.poke(0x9000, 0xEA);
    ram.poke(0x9001, 0xEA);
    cpu.set_p(STATUS_1 | STATUS_B | STATUS_C);
    assert_eq!(cpu.step(&mut ram), Ok(()));
    assert_eq!(cpu.get_pc(), 0x8001);
    cpu.set_nmi_signal(true);
    assert_eq!(cpu.step(&mut ram), Ok(()));
    assert_eq!(cpu.get_pc(), 0x9000);
    assert_eq!(cpu.get_s(), 0xFC);
    assert_eq!(ram.peek(0x01FF), 0x80);
    assert_eq!(ram.peek(0x01FE), 0x01);
    assert_eq!(ram.peek(0x01FD), STATUS_1 | STATUS_C);
    assert_eq!(cpu.get_p(), STATUS_1 | STATUS_B | STATUS_C | STATUS_I);
    // The line stays high: no second interrupt.
    assert_eq!(cpu.step(&mut ram), Ok(()));
    assert_eq!(cpu.get_pc(), 0x9001);
    // Low and high again: a new edge.
    cpu.set_nmi_signal(false);
    assert_eq!(cpu.step(&mut ram), Ok(()));
    cpu.set_nmi_signal(true);
    assert_eq!(cpu.step(&mut ram), Ok(()));
    assert_eq!(cpu.get_pc(), 0x9000);
    assert_eq!(cpu.get_s(), 0xF9);
}

#[test]
fn irq_signal_has_no_effect() {
    let (mut cpu, mut ram) = machine(&[0xEA]);
    cpu.set_irq_signal(true);
    assert_eq!(cpu.step(&mut ram), Ok(()));
    assert_eq!(cpu.get_pc(), 0x8001);
    assert_eq!(cpu.get_s(), 0xFF);
}

#[test]
fn set_overflow_sets_only_v() {
    let mut cpu = Cpu::new();
    cpu.set_p(STATUS_1 | STATUS_C);
    cpu.set_overflow();
    assert_eq!(cpu.get_p(), STATUS_1 | STATUS_C | STATUS_V);
}

#[test]
fn unknown_opcodes_are_reported_with_their_address() {
    for opcode in [0x00u8, 0x02, 0x40, 0x03, 0x89, 0xFF, 0x7C, 0x34] {
        let (mut cpu, mut ram) = machine(&[opcode]);
        assert_eq!(cpu.step(&mut ram), Err(UnknownOpcode { opcode, pc: 0x8000 }));
        assert_eq!(cpu.get_pc(), 0x8001);
        assert_eq!(cpu.get_s(), 0xFF);
    }
}

#[test]
fn the_processor_has_168_instructions() {
    let mut known = 0;
    for opcode in 0..=255u8 {
        let (mut cpu, mut ram) = machine(&[opcode, 0x00, 0x00]);
        if cpu.step(&mut ram).is_ok() {
            known += 1;
        }
    }
    assert_eq!(known, 168);
}

#[test]
fn run_stops_at_the_first_unknown_opcode() {
    let (mut cpu, mut ram) = machine(&[0xEA, 0xEA, 0x02, 0xEA]);
    assert_eq!(cpu.run(&mut ram, 10), Err(UnknownOpcode { opcode: 0x02, pc: 0x8002 }));
    assert_eq!(cpu.get_pc(), 0x8003);
    let (mut cpu, mut ram) = machine(&[0xEA, 0xEA, 0x02, 0xEA]);
    assert_eq!(cpu.run(&mut ram, 2), Ok(()));
    assert_eq!(cpu.get_pc(), 0x8002);
    assert_eq!(cpu.run(&mut ram, 0), Ok(()));
    assert_eq!(cpu.get_pc(), 0x8002);
}

#[test]
fn describe_shows_registers_and_flags() {
    let mut cpu = Cpu::new();
    cpu.set_pc(0x80AB);
    cpu.set_a(0x01);
    cpu.set_x(0x2F);
    cpu.set_y(0xE0);
    cpu.set_s(0xFD);
    cpu.set_p(STATUS_N | STATUS_1 | STATUS_I | STATUS_C);
    assert_eq!(cpu.describe(), "PC:80AB A:01 X:2F Y:E0 S:01FD P:Nv1bdIzC");
    cpu.set_p(STATUS_V | STATUS_B | STATUS_D | STATUS_Z);
    assert_eq!(cpu.describe(), "PC:80AB A:01 X:2F Y:E0 S:01FD P:nV1BDiZc");
}

#[test]
fn ramputer_load_and_bounds() {
    let mut ram = RAMputer::new();
    assert!(ram.load(0xFFFE, &[1, 2]));
    assert_eq!(ram.peek(0xFFFE), 1);
    assert_eq!(ram.peek(0xFFFF), 2);
    assert!(!ram.load(0xFFFE, &[1, 2, 3]));
    assert!(ram.load(0x0000, &[]));
    assert_eq!(ram.peek(0x0000), 0);
    let mut cpu = Cpu::new();
    ram.write_byte(&mut cpu, 0x1234, 0x56);
    assert_eq!(ram.read_byte(&mut cpu, 0x1234), 0x56);
    assert_eq!(ram.peek(0x1234), 0x56);
}
