use crate::bits::{assign_bit, clear_bit, high_byte, is_bit_set, low_byte, set_bit, word};
use crate::cpu::addressing_modes::{fetch_word, operand_store, operand_value, resolve, Mode};
use crate::cpu::{
    fetch, BYTE_SIGN_BIT, NMI_VECTOR, STACK_BASE, STATUS_1, STATUS_B, STATUS_C, STATUS_D, STATUS_I,
    STATUS_N, STATUS_V, STATUS_Z,
};
use crate::memory::{Machine, Memory};
use vstd::prelude::*;

verus! {

/// The bitwise operations that combine the accumulator with an operand.
pub enum Logic {
    Or,
    And,
    Xor,
}

/// The operations that read an operand, change it and put it back.
pub enum Modify {
    ShiftLeft,
    ShiftRight,
    RotateLeft,
    RotateRight,
    Increment,
    Decrement,
}

/// When a branch is taken.
pub enum Condition {
    Always,
    FlagSet(u8),
    FlagClear(u8),
}

/// An instruction as the opcode byte encodes it: what to do, and to what.
pub enum Instruction {
    /// ORA, AND, EOR.
    Logic(Logic, Mode),
    /// BIT.
    BitTest(Mode),
    /// ADC, SBC, CMP, CPX, CPY: one adder, three flavours.
    Arithmetic { register: Mode, operand: Mode, use_carry: bool, discard_result: bool, subtraction: bool },
    /// ASL, LSR, ROL, ROR, INC, DEC and their register forms.
    Modify(Modify, Mode),
    /// LDA, LDX, LDY and the register transfers that set N and Z.
    Load { target: Mode, source: Mode },
    /// STA, STX, STY and TXS.
    Store { source: Mode, target: Mode },
    /// STZ.
    StoreZero(Mode),
    /// PHA, PHX, PHY.
    Push(Mode),
    /// PLA, PLX, PLY.
    Pull(Mode),
    /// PHP.
    PushStatus,
    /// PLP.
    PullStatus,
    /// The conditional branches and BRA.
    Branch(Condition),
    /// JMP to an absolute address.
    Jump,
    /// JMP through a pointer.
    JumpIndirect,
    /// JSR.
    JumpSubroutine,
    /// RTS.
    ReturnSubroutine,
    /// SEC, SEI, SED.
    SetFlag(u8),
    /// CLC, CLI, CLD, CLV.
    ClearFlag(u8),
    /// NOP.
    NoOperation,
}

/// ADC on the accumulator.
pub open spec fn add_with_carry(operand: Mode) -> Instruction {
    Instruction::Arithmetic {
        register: Mode::RegisterA,
        operand,
        use_carry: true,
        discard_result: false,
        subtraction: false,
    }
}

/// SBC on the accumulator.
pub open spec fn subtract_with_carry(operand: Mode) -> Instruction {
    Instruction::Arithmetic {
        register: Mode::RegisterA,
        operand,
        use_carry: true,
        discard_result: false,
        subtraction: true,
    }
}

/// CMP, CPX or CPY: a subtraction with the borrow fixed and the difference dropped.
pub open spec fn compare(register: Mode, operand: Mode) -> Instruction {
    Instruction::Arithmetic { register, operand, use_carry: false, discard_result: true, subtraction: true }
}

/// The instruction that an opcode byte stands for, `None` where the
/// processor has none.
pub open spec fn decode(opcode: u8) -> Option<Instruction> {
    match opcode {
        0x01 => Some(Instruction::Logic(Logic::Or, Mode::ZeroPageXIndexedIndirect)),  // ORA (zp,X)
        0x05 => Some(Instruction::Logic(Logic::Or, Mode::ZeroPage)),  // ORA zp
        0x06 => Some(Instruction::Modify(Modify::ShiftLeft, Mode::ZeroPage)),  // ASL zp
        0x08 => Some(Instruction::PushStatus),  // PHP
        0x09 => Some(Instruction::Logic(Logic::Or, Mode::Immediate)),  // ORA #imm
        0x0A => Some(Instruction::Modify(Modify::ShiftLeft, Mode::RegisterA)),  // ASL A
        0x0D => Some(Instruction::Logic(Logic::Or, Mode::Absolute)),  // ORA abs
        0x0E => Some(Instruction::Modify(Modify::ShiftLeft, Mode::Absolute)),  // ASL abs
        0x10 => Some(Instruction::Branch(Condition::FlagClear(STATUS_N))),  // BPL off
        0x11 => Some(Instruction::Logic(Logic::Or, Mode::ZeroPageIndirectYIndexed)),  // ORA (zp),Y
        0x12 => Some(Instruction::Logic(Logic::Or, Mode::ZeroPageIndirect)),  // ORA (zp)
        0x15 => Some(Instruction::Logic(Logic::Or, Mode::ZeroPageXIndexed)),  // ORA zp,X
        0x16 => Some(Instruction::Modify(Modify::ShiftLeft, Mode::ZeroPageXIndexed)),  // ASL zp,X
        0x18 => Some(Instruction::ClearFlag(STATUS_C)),  // CLC
        0x19 => Some(Instruction::Logic(Logic::Or, Mode::AbsoluteYIndexed)),  // ORA abs,Y
        0x1A => Some(Instruction::Modify(Modify::Increment, Mode::RegisterA)),  // INA
        0x1D => Some(Instruction::Logic(Logic::Or, Mode::AbsoluteXIndexed)),  // ORA abs,X
        0x1E => Some(Instruction::Modify(Modify::ShiftLeft, Mode::AbsoluteXIndexed)),  // ASL abs,X
        0x20 => Some(Instruction::JumpSubroutine),  // JSR abs
        0x21 => Some(Instruction::Logic(Logic::And, Mode::ZeroPageXIndexedIndirect)),  // AND (zp,X)
        0x24 => Some(Instruction::BitTest(Mode::ZeroPage)),  // BIT zp
        0x25 => Some(Instruction::Logic(Logic::And, Mode::ZeroPage)),  // AND zp
        0x26 => Some(Instruction::Modify(Modify::RotateLeft, Mode::ZeroPage)),  // ROL zp
        0x28 => Some(Instruction::PullStatus),  // PLP
        0x29 => Some(Instruction::Logic(Logic::And, Mode::Immediate)),  // AND #imm
        0x2A => Some(Instruction::Modify(Modify::RotateLeft, Mode::RegisterA)),  // ROL A
        0x2C => Some(Instruction::BitTest(Mode::Absolute)),  // BIT abs
        0x2D => Some(Instruction::Logic(Logic::And, Mode::Absolute)),  // AND abs
        0x2E => Some(Instruction::Modify(Modify::RotateLeft, Mode::Absolute)),  // ROL abs
        0x30 => Some(Instruction::Branch(Condition::FlagSet(STATUS_N))),  // BMI off
        0x31 => Some(Instruction::Logic(Logic::And, Mode::ZeroPageIndirectYIndexed)),  // AND (zp),Y
        0x32 => Some(Instruction::Logic(Logic::And, Mode::ZeroPageIndirect)),  // AND (zp)
        0x35 => Some(Instruction::Logic(Logic::And, Mode::ZeroPageXIndexed)),  // AND zp,X
        0x36 => Some(Instruction::Modify(Modify::RotateLeft, Mode::ZeroPageXIndexed)),  // ROL zp,X
        0x38 => Some(Instruction::SetFlag(STATUS_C)),  // SEC
        0x39 => Some(Instruction::Logic(Logic::And, Mode::AbsoluteYIndexed)),  // AND abs,Y
        0x3A => Some(Instruction::Modify(Modify::Decrement, Mode::RegisterA)),  // DEA
        0x3D => Some(Instruction::Logic(Logic::And, Mode::AbsoluteXIndexed)),  // AND abs,X
        0x3E => Some(Instruction::Modify(Modify::RotateLeft, Mode::AbsoluteXIndexed)),  // ROL abs,X
        0x41 => Some(Instruction::Logic(Logic::Xor, Mode::ZeroPageXIndexedIndirect)),  // EOR (zp,X)
        0x45 => Some(Instruction::Logic(Logic::Xor, Mode::ZeroPage)),  // EOR zp
        0x46 => Some(Instruction::Modify(Modify::ShiftRight, Mode::ZeroPage)),  // LSR zp
        0x48 => Some(Instruction::Push(Mode::RegisterA)),  // PHA
        0x49 => Some(Instruction::Logic(Logic::Xor, Mode::Immediate)),  // EOR #imm
        0x4A => Some(Instruction::Modify(Modify::ShiftRight, Mode::RegisterA)),  // LSR A
        0x4C => Some(Instruction::Jump),  // JMP abs
        0x4D => Some(Instruction::Logic(Logic::Xor, Mode::Absolute)),  // EOR abs
        0x4E => Some(Instruction::Modify(Modify::ShiftRight, Mode::Absolute)),  // LSR abs
        0x50 => Some(Instruction::Branch(Condition::FlagClear(STATUS_V))),  // BVC off
        0x51 => Some(Instruction::Logic(Logic::Xor, Mode::ZeroPageIndirectYIndexed)),  // EOR (zp),Y
        0x52 => Some(Instruction::Logic(Logic::Xor, Mode::ZeroPageIndirect)),  // EOR (zp)
        0x55 => Some(Instruction::Logic(Logic::Xor, Mode::ZeroPageXIndexed)),  // EOR zp,X
        0x56 => Some(Instruction::Modify(Modify::ShiftRight, Mode::ZeroPageXIndexed)),  // LSR zp,X
        0x58 => Some(Instruction::ClearFlag(STATUS_I)),  // CLI
        0x59 => Some(Instruction::Logic(Logic::Xor, Mode::AbsoluteYIndexed)),  // EOR abs,Y
        0x5A => Some(Instruction::Push(Mode::RegisterY)),  // PHY
        0x5D => Some(Instruction::Logic(Logic::Xor, Mode::AbsoluteXIndexed)),  // EOR abs,X
        0x5E => Some(Instruction::Modify(Modify::ShiftRight, Mode::AbsoluteXIndexed)),  // LSR abs,X
        0x60 => Some(Instruction::ReturnSubroutine),  // RTS
        0x61 => Some(add_with_carry(Mode::ZeroPageXIndexedIndirect)),  // ADC (zp,X)
        0x64 => Some(Instruction::StoreZero(Mode::ZeroPage)),  // STZ zp
        0x65 => Some(add_with_carry(Mode::ZeroPage)),  // ADC zp
        0x66 => Some(Instruction::Modify(Modify::RotateRight, Mode::ZeroPage)),  // ROR zp
        0x68 => Some(Instruction::Pull(Mode::RegisterA)),  // PLA
        0x69 => Some(add_with_carry(Mode::Immediate)),  // ADC #imm
        0x6A => Some(Instruction::Modify(Modify::RotateRight, Mode::RegisterA)),  // ROR A
        0x6C => Some(Instruction::JumpIndirect),  // JMP (abs)
        0x6D => Some(add_with_carry(Mode::Absolute)),  // ADC abs
        0x6E => Some(Instruction::Modify(Modify::RotateRight, Mode::Absolute)),  // ROR abs
        0x70 => Some(Instruction::Branch(Condition::FlagSet(STATUS_V))),  // BVS off
        0x71 => Some(add_with_carry(Mode::ZeroPageIndirectYIndexed)),  // ADC (zp),Y
        0x72 => Some(add_with_carry(Mode::ZeroPageIndirect)),  // ADC (zp)
        0x74 => Some(Instruction::StoreZero(Mode::ZeroPageXIndexed)),  // STZ zp,X
        0x75 => Some(add_with_carry(Mode::ZeroPageXIndexed)),  // ADC zp,X
        0x76 => Some(Instruction::Modify(Modify::RotateRight, Mode::ZeroPageXIndexed)),  // ROR zp,X
        0x78 => Some(Instruction::SetFlag(STATUS_I)),  // SEI
        0x79 => Some(add_with_carry(Mode::AbsoluteYIndexed)),  // ADC abs,Y
        0x7A => Some(Instruction::Pull(Mode::RegisterY)),  // PLY
        0x7D => Some(add_with_carry(Mode::AbsoluteXIndexed)),  // ADC abs,X
        0x7E => Some(Instruction::Modify(Modify::RotateRight, Mode::AbsoluteXIndexed)),  // ROR abs,X
        0x80 => Some(Instruction::Branch(Condition::Always)),  // BRA off
        0x81 => Some(Instruction::Store { source: Mode::RegisterA, target: Mode::ZeroPageXIndexedIndirect }),  // STA (zp,X)
        0x84 => Some(Instruction::Store { source: Mode::RegisterY, target: Mode::ZeroPage }),  // STY zp
        0x85 => Some(Instruction::Store { source: Mode::RegisterA, target: Mode::ZeroPage }),  // STA zp
        0x86 => Some(Instruction::Store { source: Mode::RegisterX, target: Mode::ZeroPage }),  // STX zp
        0x88 => Some(Instruction::Modify(Modify::Decrement, Mode::RegisterY)),  // DEY
        0x8A => Some(Instruction::Load { target: Mode::RegisterA, source: Mode::RegisterX }),  // TXA
        0x8C => Some(Instruction::Store { source: Mode::RegisterY, target: Mode::Absolute }),  // STY abs
        0x8D => Some(Instruction::Store { source: Mode::RegisterA, target: Mode::Absolute }),  // STA abs
        0x8E => Some(Instruction::Store { source: Mode::RegisterX, target: Mode::Absolute }),  // STX abs
        0x90 => Some(Instruction::Branch(Condition::FlagClear(STATUS_C))),  // BCC off
        0x91 => Some(Instruction::Store { source: Mode::RegisterA, target: Mode::ZeroPageIndirectYIndexed }),  // STA (zp),Y
        0x92 => Some(Instruction::Store { source: Mode::RegisterA, target: Mode::ZeroPageIndirect }),  // STA (zp)
        0x94 => Some(Instruction::Store { source: Mode::RegisterY, target: Mode::ZeroPageXIndexed }),  // STY zp,X
        0x95 => Some(Instruction::Store { source: Mode::RegisterA, target: Mode::ZeroPageXIndexed }),  // STA zp,X
        0x96 => Some(Instruction::Store { source: Mode::RegisterX, target: Mode::ZeroPageYIndexed }),  // STX zp,Y
        0x98 => Some(Instruction::Load { target: Mode::RegisterA, source: Mode::RegisterY }),  // TYA
        0x99 => Some(Instruction::Store { source: Mode::RegisterA, target: Mode::AbsoluteYIndexed }),  // STA abs,Y
        0x9A => Some(Instruction::Store { source: Mode::RegisterX, target: Mode::RegisterS }),  // TXS
        0x9C => Some(Instruction::StoreZero(Mode::Absolute)),  // STZ abs
        0x9D => Some(Instruction::Store { source: Mode::RegisterA, target: Mode::AbsoluteXIndexed }),  // STA abs,X
        0x9E => Some(Instruction::StoreZero(Mode::AbsoluteXIndexed)),  // STZ abs,X
        0xA0 => Some(Instruction::Load { target: Mode::RegisterY, source: Mode::Immediate }),  // LDY #imm
        0xA1 => Some(Instruction::Load { target: Mode::RegisterA, source: Mode::ZeroPageXIndexedIndirect }),  // LDA (zp,X)
        0xA2 => Some(Instruction::Load { target: Mode::RegisterX, source: Mode::Immediate }),  // LDX #imm
        0xA4 => Some(Instruction::Load { target: Mode::RegisterY, source: Mode::ZeroPage }),  // LDY zp
        0xA5 => Some(Instruction::Load { target: Mode::RegisterA, source: Mode::ZeroPage }),  // LDA zp
        0xA6 => Some(Instruction::Load { target: Mode::RegisterX, source: Mode::ZeroPage }),  // LDX zp
        0xA8 => Some(Instruction::Load { target: Mode::RegisterY, source: Mode::RegisterA }),  // TAY
        0xA9 => Some(Instruction::Load { target: Mode::RegisterA, source: Mode::Immediate }),  // LDA #imm
        0xAA => Some(Instruction::Load { target: Mode::RegisterX, source: Mode::RegisterA }),  // TAX
        0xAC => Some(Instruction::Load { target: Mode::RegisterY, source: Mode::Absolute }),  // LDY abs
        0xAD => Some(Instruction::Load { target: Mode::RegisterA, source: Mode::Absolute }),  // LDA abs
        0xAE => Some(Instruction::Load { target: Mode::RegisterX, source: Mode::Absolute }),  // LDX abs
        0xB0 => Some(Instruction::Branch(Condition::FlagSet(STATUS_C))),  // BCS off
        0xB1 => Some(Instruction::Load { target: Mode::RegisterA, source: Mode::ZeroPageIndirectYIndexed }),  // LDA (zp),Y
        0xB2 => Some(Instruction::Load { target: Mode::RegisterA, source: Mode::ZeroPageIndirect }),  // LDA (zp)
        0xB4 => Some(Instruction::Load { target: Mode::RegisterY, source: Mode::ZeroPageXIndexed }),  // LDY zp,X
        0xB5 => Some(Instruction::Load { target: Mode::RegisterA, source: Mode::ZeroPageXIndexed }),  // LDA zp,X
        0xB6 => Some(Instruction::Load { target: Mode::RegisterX, source: Mode::ZeroPageYIndexed }),  // LDX zp,Y
        0xB8 => Some(Instruction::ClearFlag(STATUS_V)),  // CLV
        0xB9 => Some(Instruction::Load { target: Mode::RegisterA, source: Mode::AbsoluteYIndexed }),  // LDA abs,Y
        0xBA => Some(Instruction::Load { target: Mode::RegisterX, source: Mode::RegisterS }),  // TSX
        0xBC => Some(Instruction::Load { target: Mode::RegisterY, source: Mode::AbsoluteXIndexed }),  // LDY abs,X
        0xBD => Some(Instruction::Load { target: Mode::RegisterA, source: Mode::AbsoluteXIndexed }),  // LDA abs,X
        0xBE => Some(Instruction::Load { target: Mode::RegisterX, source: Mode::AbsoluteYIndexed }),  // LDX abs,Y
        0xC0 => Some(compare(Mode::RegisterY, Mode::Immediate)),  // CPY #imm
        0xC1 => Some(compare(Mode::RegisterA, Mode::ZeroPageXIndexedIndirect)),  // CMP (zp,X)
        0xC4 => Some(compare(Mode::RegisterY, Mode::ZeroPage)),  // CPY zp
        0xC5 => Some(compare(Mode::RegisterA, Mode::ZeroPage)),  // CMP zp
        0xC6 => Some(Instruction::Modify(Modify::Decrement, Mode::ZeroPage)),  // DEC zp
        0xC8 => Some(Instruction::Modify(Modify::Increment, Mode::RegisterY)),  // INY
        0xC9 => Some(compare(Mode::RegisterA, Mode::Immediate)),  // CMP #imm
        0xCA => Some(Instruction::Modify(Modify::Decrement, Mode::RegisterX)),  // DEX
        0xCC => Some(compare(Mode::RegisterY, Mode::Absolute)),  // CPY abs
        0xCD => Some(compare(Mode::RegisterA, Mode::Absolute)),  // CMP abs
        0xCE => Some(Instruction::Modify(Modify::Decrement, Mode::Absolute)),  // DEC abs
        0xD0 => Some(Instruction::Branch(Condition::FlagClear(STATUS_Z))),  // BNE off
        0xD1 => Some(compare(Mode::RegisterA, Mode::ZeroPageIndirectYIndexed)),  // CMP (zp),Y
        0xD2 => Some(compare(Mode::RegisterA, Mode::ZeroPageIndirect)),  // CMP (zp)
        0xD5 => Some(compare(Mode::RegisterA, Mode::ZeroPageXIndexed)),  // CMP zp,X
        0xD6 => Some(Instruction::Modify(Modify::Decrement, Mode::ZeroPageXIndexed)),  // DEC zp,X
        0xD8 => Some(Instruction::ClearFlag(STATUS_D)),  // CLD
        0xD9 => Some(compare(Mode::RegisterA, Mode::AbsoluteYIndexed)),  // CMP abs,Y
        0xDA => Some(Instruction::Push(Mode::RegisterX)),  // PHX
        0xDD => Some(compare(Mode::RegisterA, Mode::AbsoluteXIndexed)),  // CMP abs,X
        0xDE => Some(Instruction::Modify(Modify::Decrement, Mode::AbsoluteXIndexed)),  // DEC abs,X
        0xE0 => Some(compare(Mode::RegisterX, Mode::Immediate)),  // CPX #imm
        0xE1 => Some(subtract_with_carry(Mode::ZeroPageXIndexedIndirect)),  // SBC (zp,X)
        0xE4 => Some(compare(Mode::RegisterX, Mode::ZeroPage)),  // CPX zp
        0xE5 => Some(subtract_with_carry(Mode::ZeroPage)),  // SBC zp
        0xE6 => Some(Instruction::Modify(Modify::Increment, Mode::ZeroPage)),  // INC zp
        0xE8 => Some(Instruction::Modify(Modify::Increment, Mode::RegisterX)),  // INX
        0xE9 => Some(subtract_with_carry(Mode::Immediate)),  // SBC #imm
        0xEA => Some(Instruction::NoOperation),  // NOP
        0xEC => Some(compare(Mode::RegisterX, Mode::Absolute)),  // CPX abs
        0xED => Some(subtract_with_carry(Mode::Absolute)),  // SBC abs
        0xEE => Some(Instruction::Modify(Modify::Increment, Mode::Absolute)),  // INC abs
        0xF0 => Some(Instruction::Branch(Condition::FlagSet(STATUS_Z))),  // BEQ off
        0xF1 => Some(subtract_with_carry(Mode::ZeroPageIndirectYIndexed)),  // SBC (zp),Y
        0xF2 => Some(subtract_with_carry(Mode::ZeroPageIndirect)),  // SBC (zp)
        0xF5 => Some(subtract_with_carry(Mode::ZeroPageXIndexed)),  // SBC zp,X
        0xF6 => Some(Instruction::Modify(Modify::Increment, Mode::ZeroPageXIndexed)),  // INC zp,X
        0xF8 => Some(Instruction::SetFlag(STATUS_D)),  // SED
        0xF9 => Some(subtract_with_carry(Mode::AbsoluteYIndexed)),  // SBC abs,Y
        0xFA => Some(Instruction::Pull(Mode::RegisterX)),  // PLX
        0xFD => Some(subtract_with_carry(Mode::AbsoluteXIndexed)),  // SBC abs,X
        0xFE => Some(Instruction::Modify(Modify::Increment, Mode::AbsoluteXIndexed)),  // INC abs,X
        _ => None,
    }
}

/// The status register with Z and N set from `result`.
pub open spec fn status_nz(p: u8, result: u8) -> u8 {
    assign_bit(assign_bit(p, STATUS_Z, result == 0), STATUS_N, is_bit_set(result, BYTE_SIGN_BIT))
}

/// What the adder yields for two bytes and a carry.
pub struct Sum {
    /// The full sum, 0 to 511.
    pub wide: int,
    /// The low eight bits of the sum.
    pub value: u8,
    /// Whether the sum went past eight bits.
    pub carry: bool,
    /// Whether both inputs differ in sign from the result.
    pub overflow: bool,
}

/// The adder: `a + b + carry_in`.
pub open spec fn sum(a: u8, b: u8, carry_in: bool) -> Sum {
    let wide = a + b + if carry_in { 1int } else { 0int };
    let value = (wide % 256) as u8;
    Sum { wide, value, carry: wide > 0xFF, overflow: (a ^ value) & (b ^ value) & 0x80 != 0 }
}

/// The status register after the adder ran: C, Z, N and V come from the sum.
pub open spec fn status_cnzv(p: u8, s: Sum) -> u8 {
    assign_bit(status_nz(assign_bit(p, STATUS_C, s.carry), s.value), STATUS_V, s.overflow)
}

/// The second input of the adder: the operand, or its ones' complement for a subtraction.
pub open spec fn adder_input(operand: u8, subtraction: bool) -> u8 {
    if subtraction {
        operand ^ 0xFF
    } else {
        operand
    }
}

/// The carry that goes into the adder.
pub open spec fn adder_carry(p: u8, use_carry: bool, subtraction: bool) -> bool {
    if use_carry {
        is_bit_set(p, STATUS_C)
    } else {
        subtraction
    }
}

/// The result of a bitwise operation on the accumulator and a value.
pub open spec fn logic(op: Logic, a: u8, value: u8) -> u8 {
    match op {
        Logic::Or => a | value,
        Logic::And => a & value,
        Logic::Xor => a ^ value,
    }
}

/// The value that a modifying operation puts back.
pub open spec fn modified(op: Modify, value: u8, carry_in: bool) -> u8 {
    match op {
        Modify::ShiftLeft => ((value * 2) % 256) as u8,
        Modify::ShiftRight => value / 2,
        Modify::RotateLeft => ((value * 2) % 256 + if carry_in { 1int } else { 0int }) as u8,
        Modify::RotateRight => (value / 2 + if carry_in { 128int } else { 0int }) as u8,
        Modify::Increment => value.wrapping_add(1),
        Modify::Decrement => value.wrapping_sub(1),
    }
}

/// The carry that a modifying operation leaves: the bit that a shift or a
/// rotate pushed out, the carry as it was for the others.
pub open spec fn modified_carry(op: Modify, value: u8, carry_in: bool) -> bool {
    match op {
        Modify::ShiftLeft | Modify::RotateLeft => value >= 0x80,
        Modify::ShiftRight | Modify::RotateRight => value % 2 == 1,
        Modify::Increment | Modify::Decrement => carry_in,
    }
}

/// Where a branch with the signed `offset` lands when taken from `pc`.
pub open spec fn branch_target(pc: u16, offset: u8) -> u16 {
    let signed = if offset < 0x80 { offset as int } else { offset - 0x100 };
    ((pc + signed) % 0x1_0000) as u16
}

/// Whether a branch on `condition` is taken with the status `p`.
pub open spec fn holds(condition: Condition, p: u8) -> bool {
    match condition {
        Condition::Always => true,
        Condition::FlagSet(flag) => is_bit_set(p, flag),
        Condition::FlagClear(flag) => !is_bit_set(p, flag),
    }
}

/// The copy of the status register that goes onto the stack: bit 5 is always
/// set, B is set when an instruction pushes and clear when an interrupt does.
pub open spec fn pushed_status(p: u8, by_instruction: bool) -> u8 {
    assign_bit(set_bit(p, STATUS_1), STATUS_B, by_instruction)
}

/// The machine after `byte` went onto the stack.
pub open spec fn push<M: Memory>(m: Machine<M::State>, byte: u8) -> Machine<M::State> {
    let m1 = M::write_spec(m, (STACK_BASE + m.cpu.s) as u16, byte);
    m1.with_cpu(m1.cpu.with_s(m1.cpu.s.wrapping_sub(1)))
}

/// The byte on top of the stack, and the machine after it came off.
pub open spec fn pop<M: Memory>(m: Machine<M::State>) -> (u8, Machine<M::State>) {
    let s = m.cpu.s.wrapping_add(1);
    M::read_spec(m.with_cpu(m.cpu.with_s(s)), (STACK_BASE + s) as u16)
}

pub open spec fn logic_spec<M: Memory>(op: Logic, mode: Mode, m: Machine<M::State>) -> Machine<M::State> {
    let (operand, m1) = resolve::<M>(mode, m);
    let (value, m2) = operand_value::<M>(operand, m1);
    let a = logic(op, m2.cpu.a, value);
    m2.with_cpu(m2.cpu.with_a(a).with_p(status_nz(m2.cpu.p, a)))
}

/// BIT: Z tells whether the accumulator and the value share no bit; N and V
/// are bits 7 and 6 of the value.
pub open spec fn bit_test_spec<M: Memory>(mode: Mode, m: Machine<M::State>) -> Machine<M::State> {
    let (operand, m1) = resolve::<M>(mode, m);
    let (value, m2) = operand_value::<M>(operand, m1);
    let p = assign_bit(m2.cpu.p, STATUS_Z, m2.cpu.a & value == 0);
    m2.with_cpu(m2.cpu.with_p((p & 0x3F) | (value & 0xC0)))
}

pub open spec fn arithmetic_spec<M: Memory>(
    register: Mode,
    operand: Mode,
    use_carry: bool,
    discard_result: bool,
    subtraction: bool,
    m: Machine<M::State>,
) -> Machine<M::State> {
    let (source, m1) = resolve::<M>(operand, m);
    let (target, m2) = resolve::<M>(register, m1);
    let (a, m3) = operand_value::<M>(target, m2);
    let (value, m4) = operand_value::<M>(source, m3);
    let s = sum(a, adder_input(value, subtraction), adder_carry(m4.cpu.p, use_carry, subtraction));
    let m5 = m4.with_cpu(m4.cpu.with_p(status_cnzv(m4.cpu.p, s)));
    if discard_result {
        m5
    } else {
        operand_store::<M>(target, m5, s.value)
    }
}

pub open spec fn modify_spec<M: Memory>(op: Modify, mode: Mode, m: Machine<M::State>) -> Machine<M::State> {
    let (operand, m1) = resolve::<M>(mode, m);
    let (value, m2) = operand_value::<M>(operand, m1);
    let carry_in = is_bit_set(m2.cpu.p, STATUS_C);
    let result = modified(op, value, carry_in);
    let m3 = operand_store::<M>(operand, m2, result);
    let p = status_nz(m3.cpu.p, result);
    match op {
        Modify::Increment | Modify::Decrement => m3.with_cpu(m3.cpu.with_p(p)),
        _ => m3.with_cpu(m3.cpu.with_p(assign_bit(p, STATUS_C, modified_carry(op, value, carry_in)))),
    }
}

pub open spec fn load_spec<M: Memory>(target: Mode, source: Mode, m: Machine<M::State>) -> Machine<M::State> {
    let (from, m1) = resolve::<M>(source, m);
    let (value, m2) = operand_value::<M>(from, m1);
    let (to, m3) = resolve::<M>(target, m2);
    let m4 = operand_store::<M>(to, m3, value);
    m4.with_cpu(m4.cpu.with_p(status_nz(m4.cpu.p, value)))
}

pub open spec fn store_spec<M: Memory>(source: Mode, target: Mode, m: Machine<M::State>) -> Machine<M::State> {
    let (from, m1) = resolve::<M>(source, m);
    let (value, m2) = operand_value::<M>(from, m1);
    let (to, m3) = resolve::<M>(target, m2);
    operand_store::<M>(to, m3, value)
}

pub open spec fn store_zero_spec<M: Memory>(target: Mode, m: Machine<M::State>) -> Machine<M::State> {
    let (to, m1) = resolve::<M>(target, m);
    operand_store::<M>(to, m1, 0)
}

pub open spec fn push_register_spec<M: Memory>(register: Mode, m: Machine<M::State>) -> Machine<M::State> {
    let (from, m1) = resolve::<M>(register, m);
    let (value, m2) = operand_value::<M>(from, m1);
    push::<M>(m2, value)
}

pub open spec fn pull_register_spec<M: Memory>(register: Mode, m: Machine<M::State>) -> Machine<M::State> {
    let (value, m1) = pop::<M>(m);
    let (to, m2) = resolve::<M>(register, m1);
    let m3 = operand_store::<M>(to, m2, value);
    m3.with_cpu(m3.cpu.with_p(status_nz(m3.cpu.p, value)))
}

pub open spec fn push_status_spec<M: Memory>(m: Machine<M::State>) -> Machine<M::State> {
    push::<M>(m, pushed_status(m.cpu.p, true))
}

/// PLP: the status comes off the stack; bit 5 and B read as set.
pub open spec fn pull_status_spec<M: Memory>(m: Machine<M::State>) -> Machine<M::State> {
    let (value, m1) = pop::<M>(m);
    m1.with_cpu(m1.cpu.with_p(value | STATUS_1 | STATUS_B))
}

pub open spec fn branch_spec<M: Memory>(should_branch: bool, m: Machine<M::State>) -> Machine<M::State> {
    let (offset, m1) = fetch::<M>(m);
    if should_branch {
        m1.with_cpu(m1.cpu.with_pc(branch_target(m1.cpu.pc, offset)))
    } else {
        m1
    }
}

pub open spec fn jump_spec<M: Memory>(m: Machine<M::State>) -> Machine<M::State> {
    let (destination, m1) = fetch_word::<M>(m);
    m1.with_cpu(m1.cpu.with_pc(destination))
}

pub open spec fn jump_indirect_spec<M: Memory>(m: Machine<M::State>) -> Machine<M::State> {
    let (pointer, m1) = fetch_word::<M>(m);
    let (low, m2) = M::read_spec(m1, pointer);
    let (high, m3) = M::read_spec(m2, pointer.wrapping_add(1));
    m3.with_cpu(m3.cpu.with_pc(word(low, high)))
}

/// JSR: the address of the instruction's last byte goes onto the stack, high
/// byte first, between the fetches of the destination's two bytes.
pub open spec fn jump_to_subroutine_spec<M: Memory>(m: Machine<M::State>) -> Machine<M::State> {
    let (low, m1) = fetch::<M>(m);
    let m2 = push::<M>(m1, high_byte(m1.cpu.pc));
    let m3 = push::<M>(m2, low_byte(m1.cpu.pc));
    let (high, m4) = fetch::<M>(m3);
    m4.with_cpu(m4.cpu.with_pc(word(low, high)))
}

/// RTS: the address on the stack, plus one.
pub open spec fn return_from_subroutine_spec<M: Memory>(m: Machine<M::State>) -> Machine<M::State> {
    let (low, m1) = pop::<M>(m);
    let (high, m2) = pop::<M>(m1);
    m2.with_cpu(m2.cpu.with_pc(word(low, high).wrapping_add(1)))
}

/// The machine after the processor took the non-maskable interrupt: the
/// program counter and the status go onto the stack, I is set, and the
/// program counter comes from the vector.
pub open spec fn service_nmi<M: Memory>(m: Machine<M::State>) -> Machine<M::State> {
    let m1 = push::<M>(m, high_byte(m.cpu.pc));
    let m2 = push::<M>(m1, low_byte(m.cpu.pc));
    let m3 = push::<M>(m2, pushed_status(m2.cpu.p, false));
    let m4 = m3.with_cpu(m3.cpu.with_p(set_bit(m3.cpu.p, STATUS_I)));
    let (low, m5) = M::read_spec(m4, NMI_VECTOR);
    let (high, m6) = M::read_spec(m5, (NMI_VECTOR + 1) as u16);
    m6.with_cpu(m6.cpu.with_pc(word(low, high)))
}

/// The machine after `instruction` ran; the opcode byte is already fetched.
pub open spec fn execute<M: Memory>(instruction: Instruction, m: Machine<M::State>) -> Machine<M::State> {
    match instruction {
        Instruction::Logic(op, mode) => logic_spec::<M>(op, mode, m),
        Instruction::BitTest(mode) => bit_test_spec::<M>(mode, m),
        Instruction::Arithmetic { register, operand, use_carry, discard_result, subtraction } => {
            arithmetic_spec::<M>(register, operand, use_carry, discard_result, subtraction, m)
        },
        Instruction::Modify(op, mode) => modify_spec::<M>(op, mode, m),
        Instruction::Load { target, source } => load_spec::<M>(target, source, m),
        Instruction::Store { source, target } => store_spec::<M>(source, target, m),
        Instruction::StoreZero(target) => store_zero_spec::<M>(target, m),
        Instruction::Push(register) => push_register_spec::<M>(register, m),
        Instruction::Pull(register) => pull_register_spec::<M>(register, m),
        Instruction::PushStatus => push_status_spec::<M>(m),
        Instruction::PullStatus => pull_status_spec::<M>(m),
        Instruction::Branch(condition) => branch_spec::<M>(holds(condition, m.cpu.p), m),
        Instruction::Jump => jump_spec::<M>(m),
        Instruction::JumpIndirect => jump_indirect_spec::<M>(m),
        Instruction::JumpSubroutine => jump_to_subroutine_spec::<M>(m),
        Instruction::ReturnSubroutine => return_from_subroutine_spec::<M>(m),
        Instruction::SetFlag(flag) => m.with_cpu(m.cpu.with_p(set_bit(m.cpu.p, flag))),
        Instruction::ClearFlag(flag) => m.with_cpu(m.cpu.with_p(clear_bit(m.cpu.p, flag))),
        Instruction::NoOperation => m,
    }
}

} // verus!
