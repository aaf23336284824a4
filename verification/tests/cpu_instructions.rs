use inaccunes::{Cpu, RAMputer, STATUS_1, STATUS_C, STATUS_D, STATUS_I, STATUS_N, STATUS_V, STATUS_Z};

fn machine(program: &[u8]) -> (Cpu, RAMputer) {
    let mut ram = RAMputer::new();
    assert!(ram.load(0x8000, program));
    let mut cpu = Cpu::new();
    cpu.set_pc(0x8000);
    cpu.set_a(0);
    cpu.set_x(0);
    cpu.set_y(0);
    cpu.set_s(0xFF);
    cpu.set_p(STATUS_1);
    (cpu, ram)
}

fn step(cpu: &mut Cpu, ram: &mut RAMputer) {
    assert_eq!(cpu.step(ram), Ok(()));
}

#[test]
fn lda_in_every_addressing_mode() {
    // immediate
    let (mut cpu, mut ram) = machine(&[0xA9, 0x11]);
    step(&mut cpu, &mut ram);
    assert_eq!((cpu.get_a(), cpu.get_pc()), (0x11, 0x8002));
    // zero page
    let (mut cpu, mut ram) = machine(&[0xA5, 0x10]);
    ram.poke(0x0010, 0x22);
    step(&mut cpu, &mut ram);
    assert_eq!((cpu.get_a(), cpu.get_pc()), (0x22, 0x8002));
    // zero page,X wraps within the page
    let (mut cpu, mut ram) = machine(&[0xB5, 0xF0]);
    cpu.set_x(0x20);
    ram.poke(0x0010, 0x33);
    ram.poke(0x0110, 0x99);
    step(&mut cpu, &mut ram);
    assert_eq!((cpu.get_a(), cpu.get_pc()), (0x33, 0x8002));
    // absolute
    let (mut cpu, mut ram) = machine(&[0xAD, 0x34, 0x12]);
    ram.poke(0x1234, 0x44);
    step(&mut cpu, &mut ram);
    assert_eq!((cpu.get_a(), cpu.get_pc()), (0x44, 0x8003));
    // absolute,X
    let (mut cpu, mut ram) = machine(&[0xBD, 0xFF, 0x12]);
    cpu.set_x(0x02);
    ram.poke(0x1301, 0x55);
    step(&mut cpu, &mut ram);
    assert_eq!((cpu.get_a(), cpu.get_pc()), (0x55, 0x8003));
    // absolute,Y wraps around the address space
    let (mut cpu, mut ram) = machine(&[0xB9, 0xFF, 0xFF]);
    cpu.set_y(0x03);
    ram.poke(0x0002, 0x66);
    step(&mut cpu, &mut ram);
    assert_eq!((cpu.get_a(), cpu.get_pc()), (0x66, 0x8003));
    // (zero page,X): the pointer wraps within the page
    let (mut cpu, mut ram) = machine(&[0xA1, 0xFE]);
    cpu.set_x(0x01);
    ram.poke(0x00FF, 0x78);
    ram.poke(0x0000, 0x56);
    ram.poke(0x0100, 0x99);
    ram.poke(0x5678, 0x77);
    step(&mut cpu, &mut ram);
    assert_eq!((cpu.get_a(), cpu.get_pc()), (0x77, 0x8002));
    // (zero page),Y
    let (mut cpu, mut ram) = machine(&[0xB1, 0x40]);
    cpu.set_y(0x10);
    ram.poke(0x0040, 0xF8);
    ram.poke(0x0041, 0x20);
    ram.poke(0x2108, 0x88);
    step(&mut cpu, &mut ram);
    assert_eq!((cpu.get_a(), cpu.get_pc()), (0x88, 0x8002));
    // (zero page),Y: the pointer's high byte comes from the next address
    let (mut cpu, mut ram) = machine(&[0xB1, 0xFF]);
    cpu.set_y(0x01);
    ram.poke(0x00FF, 0x00);
    ram.poke(0x0100, 0x30);
    ram.poke(0x0000, 0x40);
    ram.poke(0x3001, 0x99);
    step(&mut cpu, &mut ram);
    assert_eq!(cpu.get_a(), 0x99);
    // (zero page)
    let (mut cpu, mut ram) = machine(&[0xB2, 0x40]);
    ram.poke(0x0040, 0xF8);
    ram.poke(0x0041, 0x20);
    ram.poke(0x20F8, 0xAA);
    step(&mut cpu, &mut ram);
    assert_eq!((cpu.get_a(), cpu.get_pc()), (0xAA, 0x8002));
}

#[test]
fn loads_set_n_and_z() {
    let (mut cpu, mut ram) = machine(&[0xA9, 0x00, 0xA2, 0x80, 0xA0, 0x01]);
    cpu.set_p(STATUS_1 | STATUS_C | STATUS_V);
    step(&mut cpu, &mut ram);
    assert_eq!(cpu.get_p(), STATUS_1 | STATUS_C | STATUS_V | STATUS_Z);
    step(&mut cpu, &mut ram);
    assert_eq!(cpu.get_x(), 0x80);
    assert_eq!(cpu.get_p(), STATUS_1 | STATUS_C | STATUS_V | STATUS_N);
    step(&mut cpu, &mut ram);
    assert_eq!(cpu.get_y(), 0x01);
    assert_eq!(cpu.get_p(), STATUS_1 | STATUS_C | STATUS_V);
}

#[test]
fn ldx_and_ldy_modes() {
    // LDX zp,Y
    let (mut cpu, mut ram) = machine(&[0xB6, 0x10]);
    cpu.set_y(0x05);
    ram.poke(0x0015, 0x21);
    step(&mut cpu, &mut ram);
    assert_eq!(cpu.get_x(), 0x21);
    // LDX abs,Y
    let (mut cpu, mut ram) = machine(&[0xBE, 0x00, 0x20]);
    cpu.set_y(0x05);
    cpu.set_x(0x09);
    ram.poke(0x2005, 0x22);
    ram.poke(0x2009, 0x99);
    step(&mut cpu, &mut ram);
    assert_eq!(cpu.get_x(), 0x22);
    assert_eq!(cpu.get_y(), 0x05);
    // LDY zp,X
    let (mut cpu, mut ram) = machine(&[0xB4, 0x10]);
    cpu.set_x(0x05);
    ram.poke(0x0015, 0x23);
    step(&mut cpu, &mut ram);
    assert_eq!(cpu.get_y(), 0x23);
    // LDY abs,X
    let (mut cpu, mut ram) = machine(&[0xBC, 0x00, 0x20]);
    cpu.set_x(0x05);
    ram.poke(0x2005, 0x24);
    step(&mut cpu, &mut ram);
    assert_eq!(cpu.get_y(), 0x24);
    // LDX zp, LDX abs, LDY zp, LDY abs
    let (mut cpu, mut ram) = machine(&[0xA6, 0x10, 0xAE, 0x00, 0x20, 0xA4, 0x11, 0xAC, 0x01, 0x20]);
    ram.poke(0x0010, 1);
    ram.poke(0x2000, 2);
    ram.poke(0x0011, 3);
    ram.poke(0x2001, 4);
    step(&mut cpu, &mut ram);
    assert_eq!(cpu.get_x(), 1);
    step(&mut cpu, &mut ram);
    assert_eq!(cpu.get_x(), 2);
    step(&mut cpu, &mut ram);
    assert_eq!(cpu.get_y(), 3);
    step(&mut cpu, &mut ram);
    assert_eq!(cpu.get_y(), 4);
}

#[test]
fn stores_leave_the_flags_alone() {
    // STA zp; STX zp,Y; STY zp,X; STA abs,X; STA (zp),Y; STA (zp,X); STA (zp); STX abs; STY abs
    let (mut cpu, mut ram) = machine(&[
        0x85, 0x10, 0x96, 0x10, 0x94, 0x10, 0x9D, 0x00, 0x30, 0x91, 0x40, 0x81, 0x40, 0x92, 0x42,
        0x8E, 0x00, 0x31, 0x8C, 0x01, 0x31, 0x86, 0x50, 0x84, 0x51, 0x8D, 0x02, 0x31, 0x99, 0x00,
        0x32, 0x95, 0x60,
    ]);
    cpu.set_a(0x00);
    cpu.set_x(0x02);
    cpu.set_y(0x03);
    cpu.set_p(STATUS_1 | STATUS_N);
    ram.poke(0x0040, 0x00);
    ram.poke(0x0041, 0x40);
    ram.poke(0x0042, 0x10);
    ram.poke(0x0043, 0x41);
    ram.poke(0x0010, 0xFF);
    step(&mut cpu, &mut ram);
    assert_eq!(ram.peek(0x0010), 0x00);
    step(&mut cpu, &mut ram);
    assert_eq!(ram.peek(0x0013), 0x02);
    step(&mut cpu, &mut ram);
    assert_eq!(ram.peek(0x0012), 0x03);
    cpu.set_a(0x77);
    step(&mut cpu, &mut ram);
    assert_eq!(ram.peek(0x3002), 0x77);
    step(&mut cpu, &mut ram);
    assert_eq!(ram.peek(0x4003), 0x77);
    step(&mut cpu, &mut ram);
    assert_eq!(ram.peek(0x4110), 0x77);
    cpu.set_a(0x78);
    step(&mut cpu, &mut ram);
    assert_eq!(ram.peek(0x4110), 0x78);
    step(&mut cpu, &mut ram);
    assert_eq!(ram.peek(0x3100), 0x02);
    step(&mut cpu, &mut ram);
    assert_eq!(ram.peek(0x3101), 0x03);
    step(&mut cpu, &mut ram);
    assert_eq!(ram.peek(0x0050), 0x02);
    step(&mut cpu, &mut ram);
    assert_eq!(ram.peek(0x0051), 0x03);
    step(&mut cpu, &mut ram);
    assert_eq!(ram.peek(0x3102), 0x78);
    step(&mut cpu, &mut ram);
    assert_eq!(ram.peek(0x3203), 0x78);
    step(&mut cpu, &mut ram);
    assert_eq!(ram.peek(0x0062), 0x78);
    assert_eq!(cpu.get_p(), STATUS_1 | STATUS_N);
    assert_eq!(cpu.get_pc(), 0x8000 + 33);
}

#[test]
fn stz_stores_zero() {
    let (mut cpu, mut ram) = machine(&[0x64, 0x10, 0x74, 0x10, 0x9C, 0x00, 0x30, 0x9E, 0x00, 0x30]);
    cpu.set_x(0x04);
    cpu.set_a(0x55);
    for address in [0x0010u16, 0x0014, 0x3000, 0x3004] {
        ram.poke(address, 0xFF);
    }
    cpu.set_p(STATUS_1 | STATUS_N);
    for address in [0x0010u16, 0x0014, 0x3000, 0x3004] {
        step(&mut cpu, &mut ram);
        assert_eq!(ram.peek(address), 0x00);
    }
    assert_eq!(cpu.get_p(), STATUS_1 | STATUS_N);
    assert_eq!(cpu.get_a(), 0x55);
}

#[test]
fn logic_operations() {
    let (mut cpu, mut ram) = machine(&[0x09, 0x0F, 0x29, 0x3C, 0x49, 0xFF, 0x29, 0x00]);
    cpu.set_a(0xF0);
    cpu.set_p(STATUS_1 | STATUS_C);
    step(&mut cpu, &mut ram);
    assert_eq!(cpu.get_a(), 0xFF);
    assert_eq!(cpu.get_p(), STATUS_1 | STATUS_C | STATUS_N);
    step(&mut cpu, &mut ram);
    assert_eq!(cpu.get_a(), 0x3C);
    assert_eq!(cpu.get_p(), STATUS_1 | STATUS_C);
    step(&mut cpu, &mut ram);
    assert_eq!(cpu.get_a(), 0xC3);
    assert_eq!(cpu.get_p(), STATUS_1 | STATUS_C | STATUS_N);
    step(&mut cpu, &mut ram);
    assert_eq!(cpu.get_a(), 0x00);
    assert_eq!(cpu.get_p(), STATUS_1 | STATUS_C | STATUS_Z);
}

#[test]
fn logic_operations_with_memory_operands() {
    // ORA zp; AND abs; EOR (zp),Y; ORA (zp); AND zp,X; EOR abs,Y; ORA (zp,X); AND abs,X
    let (mut cpu, mut ram) = machine(&[
        0x05, 0x10, 0x2D, 0x00, 0x30, 0x51, 0x40, 0x12, 0x40, 0x35, 0x10, 0x59, 0x00, 0x30, 0x01,
        0x3F, 0x3D, 0x00, 0x30,
    ]);
    cpu.set_x(1);
    cpu.set_y(2);
    ram.poke(0x0010, 0x01);
    ram.poke(0x0011, 0xF0);
    ram.poke(0x3000, 0x03);
    ram.poke(0x3001, 0x0F);
    ram.poke(0x3002, 0xFF);
    ram.poke(0x0040, 0x00);
    ram.poke(0x0041, 0x50);
    ram.poke(0x5000, 0x40);
    ram.poke(0x5002, 0x81);
    cpu.set_a(0x02);
    step(&mut cpu, &mut ram);
    assert_eq!(cpu.get_a(), 0x03);
    step(&mut cpu, &mut ram);
    assert_eq!(cpu.get_a(), 0x03);
    step(&mut cpu, &mut ram);
    assert_eq!(cpu.get_a(), 0x82);
    step(&mut cpu, &mut ram);
    assert_eq!(cpu.get_a(), 0xC2);
    step(&mut cpu, &mut ram);
    assert_eq!(cpu.get_a(), 0xC0);
    step(&mut cpu, &mut ram);
    assert_eq!(cpu.get_a(), 0x3F);
    step(&mut cpu, &mut ram);
    assert_eq!(cpu.get_a(), 0x7F);
    step(&mut cpu, &mut ram);
    assert_eq!(cpu.get_a(), 0x0F);
    assert_eq!(cpu.get_pc(), 0x8000 + 19);
}

#[test]
fn bit_test() {
    // Z from A & M, N and V from bits 7 and 6 of M
    let (mut cpu, mut ram) = machine(&[0x24, 0x10, 0x2C, 0x00, 0x30, 0x24, 0x11]);
    ram.poke(0x0010, 0xC0);
    ram.poke(0x3000, 0x01);
    ram.poke(0x0011, 0x40);
    cpu.set_a(0x01);
    cpu.set_p(STATUS_1 | STATUS_C);
    step(&mut cpu, &mut ram);
    assert_eq!(cpu.get_p(), STATUS_1 | STATUS_C | STATUS_N | STATUS_V | STATUS_Z);
    assert_eq!(cpu.get_a(), 0x01);
    step(&mut cpu, &mut ram);
    assert_eq!(cpu.get_p(), STATUS_1 | STATUS_C);
    cpu.set_a(0x40);
    step(&mut cpu, &mut ram);
    assert_eq!(cpu.get_p(), STATUS_1 | STATUS_C | STATUS_V);
}

#[test]
fn compare_sets_carry_zero_and_negative() {
    // CMP #imm: A >= M sets C, A == M sets Z, N is bit 7 of A - M
    let cases: [(u8, u8, u8); 5] = [
        (0x50, 0x50, STATUS_C | STATUS_Z),
        (0x50, 0x40, STATUS_C),
        (0x40, 0x50, STATUS_N),
        (0x00, 0xFF, 0),
        (0xFF, 0x00, STATUS_C | STATUS_N),
    ];
    for (a, m, flags) in cases {
        let (mut cpu, mut ram) = machine(&[0xC9, m]);
        cpu.set_a(a);
        step(&mut cpu, &mut ram);
        assert_eq!(cpu.get_a(), a);
        assert_eq!(cpu.get_p() & (STATUS_C | STATUS_Z | STATUS_N), flags, "{:02X} vs {:02X}", a, m);
    }
}

#[test]
fn compare_ignores_the_carry_flag() {
    for carry in [0, STATUS_C] {
        let (mut cpu, mut ram) = machine(&[0xC9, 0x10]);
        cpu.set_a(0x10);
        cpu.set_p(STATUS_1 | carry);
        step(&mut cpu, &mut ram);
        assert_eq!(cpu.get_p() & (STATUS_C | STATUS_Z | STATUS_N), STATUS_C | STATUS_Z);
    }
}

#[test]
fn compare_sets_v_by_the_adder_formula() {
    // a = 0x80, b = !0x01 = 0xFE, carry in 1: r = 0x7F; (a ^ r) & (b ^ r) & 0x80 = 0x80
    let (mut cpu, mut ram) = machine(&[0xC9, 0x01]);
    cpu.set_a(0x80);
    step(&mut cpu, &mut ram);
    assert_eq!(cpu.get_p(), STATUS_1 | STATUS_C | STATUS_V);
}

#[test]
fn cpx_and_cpy() {
    let (mut cpu, mut ram) = machine(&[0xE0, 0x10, 0xC0, 0x21, 0xE4, 0x10, 0xCC, 0x00, 0x30, 0xEC, 0x00, 0x30, 0xC4, 0x10]);
    cpu.set_x(0x10);
    cpu.set_y(0x20);
    ram.poke(0x0010, 0x11);
    ram.poke(0x3000, 0x20);
    step(&mut cpu, &mut ram);
    assert_eq!(cpu.get_p() & (STATUS_C | STATUS_Z | STATUS_N), STATUS_C | STATUS_Z);
    step(&mut cpu, &mut ram);
    assert_eq!(cpu.get_p() & (STATUS_C | STATUS_Z | STATUS_N), STATUS_N);
    step(&mut cpu, &mut ram);
    assert_eq!(cpu.get_p() & (STATUS_C | STATUS_Z | STATUS_N), STATUS_N);
    step(&mut cpu, &mut ram);
    assert_eq!(cpu.get_p() & (STATUS_C | STATUS_Z | STATUS_N), STATUS_C | STATUS_Z);
    step(&mut cpu, &mut ram);
    assert_eq!(cpu.get_p() & (STATUS_C | STATUS_Z | STATUS_N), STATUS_N);
    step(&mut cpu, &mut ram);
    assert_eq!(cpu.get_p() & (STATUS_C | STATUS_Z | STATUS_N), STATUS_C);
    assert_eq!((cpu.get_x(), cpu.get_y()), (0x10, 0x20));
}

#[test]
fn adc_and_sbc_with_memory_operands() {
    // ADC zp; ADC abs,X; SBC (zp),Y; SBC zp,X; ADC (zp); SBC abs,Y
    let (mut cpu, mut ram) = machine(&[
        0x65, 0x10, 0x7D, 0x00, 0x30, 0xF1, 0x40, 0xF5, 0x10, 0x72, 0x40, 0xF9, 0x00, 0x30,
    ]);
    cpu.set_x(1);
    cpu.set_y(2);
    ram.poke(0x0010, 0x10);
    ram.poke(0x0011, 0x01);
    ram.poke(0x3001, 0x20);
    ram.poke(0x3002, 0x02);
    ram.poke(0x0040, 0x00);
    ram.poke(0x0041, 0x50);
    ram.poke(0x5000, 0x05);
    ram.poke(0x5002, 0x30);
    cpu.set_a(0x01);
    step(&mut cpu, &mut ram);
    assert_eq!(cpu.get_a(), 0x11);
    step(&mut cpu, &mut ram);
    assert_eq!(cpu.get_a(), 0x31);
    // carry is clear: one more is taken away
    step(&mut cpu, &mut ram);
    assert_eq!(cpu.get_a(), 0x00);
    assert_eq!(cpu.get_p(), STATUS_1 | STATUS_C | STATUS_Z);
    step(&mut cpu, &mut ram);
    assert_eq!(cpu.get_a(), 0xFF);
    assert_eq!(cpu.get_p(), STATUS_1 | STATUS_N);
    step(&mut cpu, &mut ram);
    assert_eq!(cpu.get_a(), 0x04);
    assert_eq!(cpu.get_p(), STATUS_1 | STATUS_C);
    step(&mut cpu, &mut ram);
    assert_eq!(cpu.get_a(), 0x02);
    assert_eq!(cpu.get_p(), STATUS_1 | STATUS_C);
}

#[test]
fn decimal_flag_does_not_change_arithmetic() {
    let (mut cpu, mut ram) = machine(&[0xF8, 0x69, 0x09]);
    cpu.set_a(0x09);
    step(&mut cpu, &mut ram);
    assert_eq!(cpu.get_p(), STATUS_1 | STATUS_D);
    step(&mut cpu, &mut ram);
    assert_eq!(cpu.get_a(), 0x12);
}

#[test]
fn shifts_and_rotates_on_the_accumulator() {
    // ASL A
    let (mut cpu, mut ram) = machine(&[0x0A]);
    cpu.set_a(0x81);
    step(&mut cpu, &mut ram);
    assert_eq!(cpu.get_a(), 0x02);
    assert_eq!(cpu.get_p(), STATUS_1 | STATUS_C);
    // LSR A
    let (mut cpu, mut ram) = machine(&[0x4A]);
    cpu.set_a(0x01);
    cpu.set_p(STATUS_1 | STATUS_N);
    step(&mut cpu, &mut ram);
    assert_eq!(cpu.get_a(), 0x00);
    assert_eq!(cpu.get_p(), STATUS_1 | STATUS_C | STATUS_Z);
    // ROL A shifts the carry in at the bottom
    let (mut cpu, mut ram) = machine(&[0x2A]);
    cpu.set_a(0x40);
    cpu.set_p(STATUS_1 | STATUS_C);
    step(&mut cpu, &mut ram);
    assert_eq!(cpu.get_a(), 0x81);
    assert_eq!(cpu.get_p(), STATUS_1 | STATUS_N);
    // ROR A shifts the carry in at the top
    let (mut cpu, mut ram) = machine(&[0x6A]);
    cpu.set_a(0x01);
    cpu.set_p(STATUS_1 | STATUS_C);
    step(&mut cpu, &mut ram);
    assert_eq!(cpu.get_a(), 0x80);
    assert_eq!(cpu.get_p(), STATUS_1 | STATUS_C | STATUS_N);
    // ROR A without carry
    let (mut cpu, mut ram) = machine(&[0x6A]);
    cpu.set_a(0x02);
    step(&mut cpu, &mut ram);
    assert_eq!(cpu.get_a(), 0x01);
    assert_eq!(cpu.get_p(), STATUS_1);
}

#[test]
fn shifts_and_rotates_on_memory() {
    // ASL zp; LSR abs; ROL zp,X; ROR abs,X
    let (mut cpu, mut ram) = machine(&[0x06, 0x10, 0x4E, 0x00, 0x30, 0x36, 0x10, 0x7E, 0x00, 0x30]);
    cpu.set_x(1);
    ram.poke(0x0010, 0xC0);
    ram.poke(0x3000, 0x03);
    ram.poke(0x0011, 0x80);
    ram.poke(0x3001, 0x00);
    step(&mut cpu, &mut ram);
    assert_eq!(ram.peek(0x0010), 0x80);
    assert_eq!(cpu.get_p(), STATUS_1 | STATUS_C | STATUS_N);
    step(&mut cpu, &mut ram);
    assert_eq!(ram.peek(0x3000), 0x01);
    assert_eq!(cpu.get_p(), STATUS_1 | STATUS_C);
    step(&mut cpu, &mut ram);
    assert_eq!(ram.peek(0x0011), 0x01);
    assert_eq!(cpu.get_p(), STATUS_1 | STATUS_C);
    step(&mut cpu, &mut ram);
    assert_eq!(ram.peek(0x3001), 0x80);
    assert_eq!(cpu.get_p(), STATUS_1 | STATUS_N);
    assert_eq!(cpu.get_a(), 0x00);
}

#[test]
fn increments_and_decrements() {
    // INX, INY, DEX, DEY, INA, DEA wrap and leave the carry alone
    let (mut cpu, mut ram) = machine(&[0xE8, 0xC8, 0xCA, 0x88, 0x1A, 0x3A, 0x3A]);
    cpu.set_x(0xFF);
    cpu.set_y(0x7F);
    cpu.set_a(0x00);
    cpu.set_p(STATUS_1 | STATUS_C);
    step(&mut cpu, &mut ram);
    assert_eq!(cpu.get_x(), 0x00);
    assert_eq!(cpu.get_p(), STATUS_1 | STATUS_C | STATUS_Z);
    step(&mut cpu, &mut ram);
    assert_eq!(cpu.get_y(), 0x80);
    assert_eq!(cpu.get_p(), STATUS_1 | STATUS_C | STATUS_N);
    step(&mut cpu, &mut ram);
    assert_eq!(cpu.get_x(), 0xFF);
    assert_eq!(cpu.get_p(), STATUS_1 | STATUS_C | STATUS_N);
    step(&mut cpu, &mut ram);
    assert_eq!(cpu.get_y(), 0x7F);
    assert_eq!(cpu.get_p(), STATUS_1 | STATUS_C);
    step(&mut cpu, &mut ram);
    assert_eq!(cpu.get_a(), 0x01);
    step(&mut cpu, &mut ram);
    assert_eq!(cpu.get_a(), 0x00);
    assert_eq!(cpu.get_p(), STATUS_1 | STATUS_C | STATUS_Z);
    step(&mut cpu, &mut ram);
    assert_eq!(cpu.get_a(), 0xFF);
    assert_eq!(cpu.get_p(), STATUS_1 | STATUS_C | STATUS_N);
}

#[test]
fn inc_and_dec_on_memory() {
    // INC zp; INC abs; INC zp,X; INC abs,X; DEC zp; DEC abs; DEC zp,X; DEC abs,X
    let (mut cpu, mut ram) = machine(&[
        0xE6, 0x10, 0xEE, 0x00, 0x30, 0xF6, 0x10, 0xFE, 0x00, 0x30, 0xC6, 0x20, 0xCE, 0x00, 0x31,
        0xD6, 0x20, 0xDE, 0x00, 0x31,
    ]);
    cpu.set_x(1);
    ram.poke(0x0010, 0xFF);
    ram.poke(0x3000, 0x01);
    ram.poke(0x0011, 0x7F);
    ram.poke(0x3001, 0x10);
    ram.poke(0x0020, 0x00);
    ram.poke(0x3100, 0x01);
    ram.poke(0x0021, 0x80);
    ram.poke(0x3101, 0x10);
    step(&mut cpu, &mut ram);
    assert_eq!(ram.peek(0x0010), 0x00);
    assert_eq!(cpu.get_p(), STATUS_1 | STATUS_Z);
    step(&mut cpu, &mut ram);
    assert_eq!(ram.peek(0x3000), 0x02);
    step(&mut cpu, &mut ram);
    assert_eq!(ram.peek(0x0011), 0x80);
    assert_eq!(cpu.get_p(), STATUS_1 | STATUS_N);
    step(&mut cpu, &mut ram);
    assert_eq!(ram.peek(0x3001), 0x11);
    step(&mut cpu, &mut ram);
    assert_eq!(ram.peek(0x0020), 0xFF);
    assert_eq!(cpu.get_p(), STATUS_1 | STATUS_N);
    step(&mut cpu, &mut ram);
    assert_eq!(ram.peek(0x3100), 0x00);
    assert_eq!(cpu.get_p(), STATUS_1 | STATUS_Z);
    step(&mut cpu, &mut ram);
    assert_eq!(ram.peek(0x0021), 0x7F);
    step(&mut cpu, &mut ram);
    assert_eq!(ram.peek(0x3101), 0x0F);
    assert_eq!(cpu.get_p(), STATUS_1);
}

#[test]
fn transfers() {
    // TAX, TAY, TXA, TYA set N and Z; TXS does not; TSX does
    let (mut cpu, mut ram) = machine(&[0xAA, 0xA8, 0x8A, 0x98, 0x9A, 0xBA]);
    cpu.set_a(0x80);
    step(&mut cpu, &mut ram);
    assert_eq!(cpu.get_x(), 0x80);
    assert_eq!(cpu.get_p(), STATUS_1 | STATUS_N);
    cpu.set_a(0x00);
    step(&mut cpu, &mut ram);
    assert_eq!(cpu.get_y(), 0x00);
    assert_eq!(cpu.get_p(), STATUS_1 | STATUS_Z);
    step(&mut cpu, &mut ram);
    assert_eq!(cpu.get_a(), 0x80);
    assert_eq!(cpu.get_p(), STATUS_1 | STATUS_N);
    step(&mut cpu, &mut ram);
    assert_eq!(cpu.get_a(), 0x00);
    assert_eq!(cpu.get_p(), STATUS_1 | STATUS_Z);
    step(&mut cpu, &mut ram);
    assert_eq!(cpu.get_s(), 0x80);
    assert_eq!(cpu.get_p(), STATUS_1 | STATUS_Z);
    cpu.set_s(0x01);
    step(&mut cpu, &mut ram);
    assert_eq!(cpu.get_x(), 0x01);
    assert_eq!(cpu.get_p(), STATUS_1);
}

#[test]
fn index_register_stack_operations() {
    // PHX, PHY, PLX, PLY
    let (mut cpu, mut ram) = machine(&[0xDA, 0x5A, 0xFA, 0x7A]);
    cpu.set_x(0x11);
    cpu.set_y(0x00);
    step(&mut cpu, &mut ram);
    step(&mut cpu, &mut ram);
    assert_eq!(ram.peek(0x01FF), 0x11);
    assert_eq!(ram.peek(0x01FE), 0x00);
    assert_eq!(cpu.get_s(), 0xFD);
    assert_eq!(cpu.get_p(), STATUS_1);
    step(&mut cpu, &mut ram);
    assert_eq!(cpu.get_x(), 0x00);
    assert_eq!(cpu.get_p(), STATUS_1 | STATUS_Z);
    step(&mut cpu, &mut ram);
    assert_eq!(cpu.get_y(), 0x11);
    assert_eq!(cpu.get_p(), STATUS_1);
    assert_eq!(cpu.get_s(), 0xFF);
}

#[test]
fn flag_instructions() {
    let (mut cpu, mut ram) = machine(&[0x38, 0x78, 0xF8, 0x18, 0x58, 0xD8, 0xB8]);
    cpu.set_p(STATUS_1 | STATUS_V);
    step(&mut cpu, &mut ram);
    assert_eq!(cpu.get_p(), STATUS_1 | STATUS_V | STATUS_C);
    step(&mut cpu, &mut ram);
    assert_eq!(cpu.get_p(), STATUS_1 | STATUS_V | STATUS_C | STATUS_I);
    step(&mut cpu, &mut ram);
    assert_eq!(cpu.get_p(), STATUS_1 | STATUS_V | STATUS_C | STATUS_I | STATUS_D);
    step(&mut cpu, &mut ram);
    assert_eq!(cpu.get_p(), STATUS_1 | STATUS_V | STATUS_I | STATUS_D);
    step(&mut cpu, &mut ram);
    assert_eq!(cpu.get_p(), STATUS_1 | STATUS_V | STATUS_D);
    step(&mut cpu, &mut ram);
    assert_eq!(cpu.get_p(), STATUS_1 | STATUS_V);
    step(&mut cpu, &mut ram);
    assert_eq!(cpu.get_p(), STATUS_1);
    assert_eq!(cpu.get_pc(), 0x8007);
}

#[test]
fn jumps() {
    // JMP abs
    let (mut cpu, mut ram) = machine(&[0x4C, 0x34, 0x12]);
    step(&mut cpu, &mut ram);
    assert_eq!(cpu.get_pc(), 0x1234);
    // JMP (abs)
    let (mut cpu, mut ram) = machine(&[0x6C, 0x00, 0x30]);
    ram.poke(0x3000, 0x78);
    ram.poke(0x3001, 0x56);
    step(&mut cpu, &mut ram);
    assert_eq!(cpu.get_pc(), 0x5678);
    // JMP (abs) across a page boundary reads the next address
    let (mut cpu, mut ram) = machine(&[0x6C, 0xFF, 0x30]);
    ram.poke(0x30FF, 0x78);
    ram.poke(0x3100, 0x56);
    ram.poke(0x3000, 0x99);
    step(&mut cpu, &mut ram);
    assert_eq!(cpu.get_pc(), 0x5678);
}

#[test]
fn nop_changes_nothing_but_the_program_counter() {
    let (mut cpu, mut ram) = machine(&[0xEA]);
    cpu.set_a(1);
    cpu.set_x(2);
    cpu.set_y(3);
    cpu.set_p(0xA5);
    step(&mut cpu, &mut ram);
    assert_eq!(
        (cpu.get_a(), cpu.get_x(), cpu.get_y(), cpu.get_s(), cpu.get_p(), cpu.get_pc()),
        (1, 2, 3, 0xFF, 0xA5, 0x8001)
    );
}
