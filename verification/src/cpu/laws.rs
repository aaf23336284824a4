use crate::bits::{lemma_bit_5_stays, spec_assign_bit, spec_is_bit_set, spec_set_bit};
use crate::cpu::addressing_modes::{operand_value, resolve, Mode};
use crate::cpu::instructions::{
    adder_carry, adder_input, arithmetic_spec, decode, execute, pop, push, pushed_status,
    service_nmi, status_cnzv, sum, Instruction,
};
use crate::cpu::{
    fetch, run_spec, step_spec, UnknownOpcode, STACK_BASE, STATUS_1, STATUS_B, STATUS_C, STATUS_I,
    STATUS_N, STATUS_V, STATUS_Z,
};
use crate::memory::{Machine, Memory};
use crate::ramputer::RAMputer;
use vstd::prelude::*;

verus! {

/// A byte read as a signed number.
pub open spec fn signed(byte: u8) -> int {
    if byte < 0x80 {
        byte as int
    } else {
        byte - 0x100
    }
}

proof fn lemma_flag_bits(p: u8, c: bool, z: bool, n: bool, v: bool)
    by (bit_vector)
    ensures
        ({
            let q = spec_assign_bit(
                spec_assign_bit(spec_assign_bit(spec_assign_bit(p, 0x01u8, c), 0x02u8, z), 0x80u8, n),
                0x40u8,
                v,
            );
            &&& (q & 0x01u8 == 0x01u8) == c
            &&& (q & 0x02u8 == 0x02u8) == z
            &&& (q & 0x80u8 == 0x80u8) == n
            &&& (q & 0x40u8 == 0x40u8) == v
            &&& q & 0x3Cu8 == p & 0x3Cu8
        }),
{
}

proof fn lemma_sign_bits(a: u8, b: u8, r: u8)
    by (bit_vector)
    ensures
        ({
            &&& (r & 0x80u8 == 0x80u8) == (r >= 0x80u8)
            &&& ((a ^ r) & (b ^ r) & 0x80u8 != 0u8) == ((a >= 0x80u8) == (b >= 0x80u8) && (a >= 0x80u8)
                != (r >= 0x80u8))
        }),
{
}

proof fn lemma_pushed_bits(p: u8, by_instruction: bool)
    by (bit_vector)
    ensures
        ({
            let q = spec_assign_bit(spec_set_bit(p, 0x20u8), 0x10u8, by_instruction);
            &&& q & 0x20u8 == 0x20u8
            &&& (q & 0x10u8 == 0x10u8) == by_instruction
            &&& q & 0xCFu8 == p & 0xCFu8
        }),
{
}

proof fn lemma_complement(value: u8)
    by (bit_vector)
    ensures
        value ^ 0xFFu8 == (255 - value) as u8,
{
}

/// The flags after an addition or a subtraction. With `r16 = a + b + c`
/// and `r8` its low byte: C is set exactly when `r16` is past `0xFF`, Z
/// exactly when `r8` is zero, N is bit 7 of `r8`, and V is bit 7 of
/// `(a ^ r8) & (b ^ r8)`. The flags I, D, B and bit 5 stay as they were.
pub proof fn lemma_arithmetic_flags(p: u8, a: u8, b: u8, carry_in: bool)
    ensures
        ({
            let r16 = a + b + if carry_in { 1int } else { 0int };
            let s = sum(a, b, carry_in);
            let q = status_cnzv(p, s);
            &&& s.wide == r16
            &&& s.value == r16 % 256
            &&& spec_is_bit_set(q, STATUS_C) == (r16 > 0xFF)
            &&& spec_is_bit_set(q, STATUS_Z) == (s.value == 0)
            &&& spec_is_bit_set(q, STATUS_N) == (s.value & 0x80 == 0x80)
            &&& spec_is_bit_set(q, STATUS_V) == ((a ^ s.value) & (b ^ s.value) & 0x80 != 0)
            &&& q & 0x3C == p & 0x3C
        }),
{
    let s = sum(a, b, carry_in);
    lemma_flag_bits(p, s.carry, s.value == 0, spec_is_bit_set(s.value, 0x80), s.overflow);
}

/// V after an addition tells a signed overflow: it is set exactly when the
/// sum of the two inputs, read as signed bytes, and the carry does not fit
/// a signed byte. N is set exactly when the result, read as a signed byte,
/// is negative.
pub proof fn lemma_overflow_is_signed_overflow(a: u8, b: u8, carry_in: bool)
    ensures
        ({
            let s = sum(a, b, carry_in);
            let exact = signed(a) + signed(b) + if carry_in { 1int } else { 0int };
            &&& s.overflow == !(-128 <= exact <= 127)
            &&& (s.value & 0x80 == 0x80) == (signed(s.value) < 0)
        }),
{
    let s = sum(a, b, carry_in);
    lemma_sign_bits(a, b, s.value);
}

/// A subtraction is an addition of the ones' complement: with the carry set,
/// the adder yields `a - m` modulo 256, and its carry tells that there was
/// no borrow.
pub proof fn lemma_subtraction(a: u8, m: u8, carry_in: bool)
    ensures
        ({
            let s = sum(a, adder_input(m, true), carry_in);
            let borrow = if carry_in { 0int } else { 1int };
            &&& s.value == (a - m - borrow) % 256
            &&& s.carry == (a - m - borrow >= 0)
        }),
{
    lemma_complement(m);
}

/// What an add, a subtract or a compare does to the machine: the register
/// is read first, then the operand; the flags are those of
/// `lemma_arithmetic_flags` for the two values and the carry that went in;
/// and the register takes the sum's low byte unless the result is dropped.
pub proof fn lemma_arithmetic_instruction<M: Memory>(
    register: Mode,
    operand: Mode,
    use_carry: bool,
    discard_result: bool,
    subtraction: bool,
    m: Machine<M::State>,
)
    requires
        register is RegisterA || register is RegisterX || register is RegisterY,
    ensures
        ({
            let (source, m1) = resolve::<M>(operand, m);
            let (value, m2) = operand_value::<M>(source, m1);
            let a = match register {
                Mode::RegisterA => m1.cpu.a,
                Mode::RegisterX => m1.cpu.x,
                _ => m1.cpu.y,
            };
            let s = sum(a, adder_input(value, subtraction), adder_carry(m2.cpu.p, use_carry, subtraction));
            let after = arithmetic_spec::<M>(register, operand, use_carry, discard_result, subtraction, m);
            &&& after.bus == m2.bus
            &&& after.cpu.p == status_cnzv(m2.cpu.p, s)
            &&& after.cpu.pc == m2.cpu.pc
            &&& after.cpu.s == m2.cpu.s
            &&& !discard_result ==> after.cpu == (match register {
                Mode::RegisterA => m2.cpu.with_a(s.value),
                Mode::RegisterX => m2.cpu.with_x(s.value),
                _ => m2.cpu.with_y(s.value),
            }).with_p(status_cnzv(m2.cpu.p, s))
            &&& discard_result ==> after.cpu == m2.cpu.with_p(status_cnzv(m2.cpu.p, s))
        }),
{
}

/// The arithmetic instructions work on A, X or Y, and those that do not
/// take the carry flag in are the compares, which drop the result.
pub proof fn lemma_arithmetic_opcodes(opcode: u8)
    ensures
        decode(opcode) matches Some(Instruction::Arithmetic { register, use_carry, discard_result, .. }) ==> (
        register is RegisterA || register is RegisterX || register is RegisterY) && discard_result
            == !use_carry && (!discard_result ==> register is RegisterA),
{
}

/// The flags after ADC, SBC, CMP, CPX or CPY. With `a` the register before,
/// `operand` the byte that the instruction names, `b` the operand, or its
/// ones' complement for a subtraction, `c` the carry that goes in (the carry
/// flag for ADC and SBC, 1 for a compare) and `r16 = a + b + c`: afterwards
/// C tells that `r16` is past `0xFF`, Z that its low byte is zero, N is bit
/// 7 of the low byte and V is bit 7 of `(a ^ low) & (b ^ low)`; I, D, B and
/// bit 5 are as the operand's fetch left them; and the register holds the
/// low byte, unless the result is dropped.
pub proof fn lemma_arithmetic_instruction_flags<M: Memory>(
    register: Mode,
    operand: Mode,
    use_carry: bool,
    discard_result: bool,
    subtraction: bool,
    m: Machine<M::State>,
)
    requires
        register is RegisterA || register is RegisterX || register is RegisterY,
    ensures
        ({
            let (source, m1) = resolve::<M>(operand, m);
            let (value, m2) = operand_value::<M>(source, m1);
            let a = match register {
                Mode::RegisterA => m1.cpu.a,
                Mode::RegisterX => m1.cpu.x,
                _ => m1.cpu.y,
            };
            let b = if subtraction {
                value ^ 0xFF
            } else {
                value
            };
            let carry_in = if use_carry {
                spec_is_bit_set(m2.cpu.p, STATUS_C)
            } else {
                subtraction
            };
            let r16 = a + b + if carry_in { 1int } else { 0int };
            let r8 = (r16 % 256) as u8;
            let after = arithmetic_spec::<M>(register, operand, use_carry, discard_result, subtraction, m);
            &&& spec_is_bit_set(after.cpu.p, STATUS_C) == (r16 > 0xFF)
            &&& spec_is_bit_set(after.cpu.p, STATUS_Z) == (r8 == 0)
            &&& spec_is_bit_set(after.cpu.p, STATUS_N) == (r8 & 0x80 == 0x80)
            &&& spec_is_bit_set(after.cpu.p, STATUS_V) == ((a ^ r8) & (b ^ r8) & 0x80 != 0)
            &&& after.cpu.p & 0x3C == m2.cpu.p & 0x3C
            &&& after.bus == m2.bus
            &&& after.cpu.pc == m2.cpu.pc
            &&& after.cpu.s == m2.cpu.s
            &&& after.cpu.a == if !discard_result && register is RegisterA { r8 } else { m2.cpu.a }
            &&& after.cpu.x == if !discard_result && register is RegisterX { r8 } else { m2.cpu.x }
            &&& after.cpu.y == if !discard_result && register is RegisterY { r8 } else { m2.cpu.y }
        }),
{
    let (source, m1) = resolve::<M>(operand, m);
    let (value, m2) = operand_value::<M>(source, m1);
    let a = match register {
        Mode::RegisterA => m1.cpu.a,
        Mode::RegisterX => m1.cpu.x,
        _ => m1.cpu.y,
    };
    lemma_arithmetic_instruction::<M>(register, operand, use_carry, discard_result, subtraction, m);
    lemma_arithmetic_flags(
        m2.cpu.p,
        a,
        adder_input(value, subtraction),
        adder_carry(m2.cpu.p, use_carry, subtraction),
    );
}

/// A step that finds an arithmetic opcode at the program counter, and no
/// interrupt to take, succeeds and does what the opcode's instruction does
/// to the machine behind the opcode's fetch; `lemma_arithmetic_opcodes` and
/// `lemma_arithmetic_instruction_flags` then give its flags.
pub proof fn lemma_arithmetic_step<M: Memory>(m: Machine<M::State>)
    requires
        !m.cpu.nmi_edge(),
        decode(fetch::<M>(m.with_cpu(m.cpu.with_nmi_seen(m.cpu.nmi_signal))).0) matches Some(
            Instruction::Arithmetic { .. },
        ),
    ensures
        ({
            let (opcode, m1) = fetch::<M>(m.with_cpu(m.cpu.with_nmi_seen(m.cpu.nmi_signal)));
            let instruction = decode(opcode)->Some_0;
            &&& step_spec::<M>(m).0 is Ok
            &&& step_spec::<M>(m).1 == arithmetic_spec::<M>(
                instruction->register,
                instruction->operand,
                instruction->use_carry,
                instruction->discard_result,
                instruction->subtraction,
                m1,
            )
        }),
{
    reveal(step_spec);
}

/// The copy of the status register that goes onto the stack always has
/// bit 5 set, whatever the register holds. B is set in the copy that PHP
/// pushes and clear in the copy that an interrupt pushes; the other flags
/// are those of the register.
pub proof fn lemma_pushed_status(p: u8, by_instruction: bool)
    ensures
        spec_is_bit_set(pushed_status(p, by_instruction), STATUS_1),
        spec_is_bit_set(pushed_status(p, by_instruction), STATUS_B) == by_instruction,
        pushed_status(p, by_instruction) & 0xCF == p & 0xCF,
{
    lemma_pushed_bits(p, by_instruction);
}

/// A step that finds the NMI line risen takes the interrupt and does
/// nothing else.
pub proof fn lemma_step_takes_interrupt<M: Memory>(m: Machine<M::State>)
    requires
        m.cpu.nmi_edge(),
    ensures
        step_spec::<M>(m) == (
            Ok::<(), UnknownOpcode>(()),
            service_nmi::<M>(m.with_cpu(m.cpu.with_nmi_seen(m.cpu.nmi_signal))),
        ),
{
    reveal(step_spec);
}

/// PHP on a machine that is all RAM: the byte that lands on the stack has
/// bit 5 and B set, and S moves down by one, wrapping.
pub proof fn lemma_php_on_ram(m: Machine<Seq<u8>>)
    requires
        m.bus.len() == 65536,
        !m.cpu.nmi_edge(),
        m.bus[m.cpu.pc as int] == 0x08,
    ensures
        ({
            let (result, after) = step_spec::<RAMputer>(m);
            let pushed = after.bus[STACK_BASE + m.cpu.s];
            &&& result is Ok
            &&& pushed == pushed_status(m.cpu.p, true)
            &&& spec_is_bit_set(pushed, STATUS_1)
            &&& spec_is_bit_set(pushed, STATUS_B)
            &&& after.cpu.s == (m.cpu.s + 255) % 256
            &&& after.cpu.p == m.cpu.p
        }),
{
    reveal(step_spec);
    lemma_pushed_status(m.cpu.p, true);
}

/// An interrupt on a machine that is all RAM: the program counter goes onto
/// the stack, high byte first, then the status with bit 5 set and B clear;
/// I is set, and the program counter comes from the vector at `0xFFFA`.
pub proof fn lemma_nmi_on_ram(m: Machine<Seq<u8>>)
    requires
        m.bus.len() == 65536,
        m.cpu.nmi_edge(),
    ensures
        ({
            let (result, after) = step_spec::<RAMputer>(m);
            let s1 = ((m.cpu.s + 255) % 256) as u8;
            let s2 = ((m.cpu.s + 254) % 256) as u8;
            let pushed = after.bus[STACK_BASE + s2];
            &&& result is Ok
            &&& after.bus[STACK_BASE + m.cpu.s] == m.cpu.pc / 256
            &&& after.bus[STACK_BASE + s1] == m.cpu.pc % 256
            &&& pushed == pushed_status(m.cpu.p, false)
            &&& spec_is_bit_set(pushed, STATUS_1)
            &&& !spec_is_bit_set(pushed, STATUS_B)
            &&& after.cpu.s == (m.cpu.s + 253) % 256
            &&& after.cpu.p == spec_set_bit(m.cpu.p, STATUS_I)
            &&& after.cpu.pc == after.bus[0xFFFA] + 256 * after.bus[0xFFFB]
            &&& !after.cpu.nmi_edge()
        }),
{
    lemma_step_takes_interrupt::<RAMputer>(m);
    lemma_pushed_status(m.cpu.p, false);
}

/// On a machine that is all RAM, a byte that is pushed and then popped comes
/// back as it was, and the stack pointer is where it was before the push.
pub proof fn lemma_push_pop_on_ram(m: Machine<Seq<u8>>, byte: u8)
    requires
        m.bus.len() == 65536,
    ensures
        ({
            let (popped, after) = pop::<RAMputer>(push::<RAMputer>(m, byte));
            &&& popped == byte
            &&& after.cpu == m.cpu
            &&& after.bus == m.bus.update(STACK_BASE + m.cpu.s, byte)
        }),
{
}

/// The stack pointer and the program counter wrap: a push moves S down by
/// one modulo 256, a pop moves it up by one modulo 256, and a fetch moves
/// the program counter up by one modulo 65536. After any step both are
/// within their registers' ranges.
pub proof fn lemma_registers_wrap<M: Memory>(m: Machine<M::State>, byte: u8)
    ensures
        push::<M>(m, byte).cpu.s == (M::write_spec(m, (STACK_BASE + m.cpu.s) as u16, byte).cpu.s + 255) % 256,
        pop::<M>(m).1.cpu.s == M::read_spec(
            m.with_cpu(m.cpu.with_s(((m.cpu.s + 1) % 256) as u8)),
            (STACK_BASE + (m.cpu.s + 1) % 256) as u16,
        ).1.cpu.s,
        fetch::<M>(m).1.cpu.pc == (M::read_spec(m, m.cpu.pc).1.cpu.pc + 1) % 0x1_0000,
        0 <= step_spec::<M>(m).1.cpu.s <= 255,
        0 <= step_spec::<M>(m).1.cpu.pc <= 65535,
{
}

/// Whether no access to the bus changes the processor's status register:
/// true of any bus that at most drives the processor's signal lines.
pub open spec fn bus_keeps_status<M: Memory>() -> bool {
    &&& forall|m: Machine<M::State>, address: u16|
        (#[trigger] M::read_spec(m, address)).1.cpu.p == m.cpu.p
    &&& forall|m: Machine<M::State>, address: u16, data: u8|
        (#[trigger] M::write_spec(m, address, data)).cpu.p == m.cpu.p
}

/// Fetching the operand of an instruction leaves the status register alone.
proof fn lemma_resolve_keeps_status<M: Memory>(mode: Mode, m: Machine<M::State>)
    requires
        bus_keeps_status::<M>(),
    ensures
        resolve::<M>(mode, m).1.cpu.p == m.cpu.p,
{
}

/// An instruction leaves bit 5 of the status register set.
proof fn lemma_execute_keeps_bit_5<M: Memory>(instruction: Instruction, m: Machine<M::State>)
    requires
        bus_keeps_status::<M>(),
        spec_is_bit_set(m.cpu.p, STATUS_1),
        instruction matches Instruction::ClearFlag(flag) ==> flag & STATUS_1 == 0,
    ensures
        spec_is_bit_set(execute::<M>(instruction, m).cpu.p, STATUS_1),
{
    lemma_bit_5_stays();
    match instruction {
        Instruction::Logic(op, mode) => {
            lemma_resolve_keeps_status::<M>(mode, m);
        },
        Instruction::BitTest(mode) => {
            lemma_resolve_keeps_status::<M>(mode, m);
        },
        Instruction::Arithmetic { register, operand, use_carry, discard_result, subtraction } => {
            lemma_resolve_keeps_status::<M>(operand, m);
            lemma_resolve_keeps_status::<M>(register, resolve::<M>(operand, m).1);
        },
        Instruction::Modify(op, mode) => {
            lemma_resolve_keeps_status::<M>(mode, m);
        },
        Instruction::Load { target, source } => {
            lemma_resolve_keeps_status::<M>(source, m);
            let (from, m1) = resolve::<M>(source, m);
            lemma_resolve_keeps_status::<M>(target, operand_value::<M>(from, m1).1);
        },
        Instruction::Store { source, target } => {
            lemma_resolve_keeps_status::<M>(source, m);
            let (from, m1) = resolve::<M>(source, m);
            lemma_resolve_keeps_status::<M>(target, operand_value::<M>(from, m1).1);
        },
        Instruction::StoreZero(target) => {
            lemma_resolve_keeps_status::<M>(target, m);
        },
        Instruction::Push(register) => {
            lemma_resolve_keeps_status::<M>(register, m);
        },
        Instruction::Pull(register) => {
            lemma_resolve_keeps_status::<M>(register, pop::<M>(m).1);
        },
        _ => {},
    }
}

/// Bit 5 of the status register reads as 1 always: on a bus that leaves
/// the status register alone, a step that finds the bit set leaves it set.
/// (A `Cpu` holds the bit set whatever the bus does: no function of it can
/// clear the bit.)
pub proof fn lemma_step_keeps_bit_5<M: Memory>(m: Machine<M::State>)
    requires
        bus_keeps_status::<M>(),
        spec_is_bit_set(m.cpu.p, STATUS_1),
    ensures
        spec_is_bit_set(step_spec::<M>(m).1.cpu.p, STATUS_1),
{
    reveal(step_spec);
    lemma_bit_5_stays();
    if !m.cpu.nmi_edge() {
        let sampled = m.with_cpu(m.cpu.with_nmi_seen(m.cpu.nmi_signal));
        let (opcode, m1) = fetch::<M>(sampled);
        match decode(opcode) {
            Some(instruction) => {
                lemma_execute_keeps_bit_5::<M>(instruction, m1);
            },
            None => {},
        }
    }
}

/// Whether no access to the bus changes what `part` reads off the bus.
pub open spec fn bus_keeps_part<M: Memory, T>(part: spec_fn(M::State) -> T) -> bool {
    &&& forall|m: Machine<M::State>, address: u16|
        part((#[trigger] M::read_spec(m, address)).1.bus) == part(m.bus)
    &&& forall|m: Machine<M::State>, address: u16, data: u8|
        part((#[trigger] M::write_spec(m, address, data)).bus) == part(m.bus)
}

/// Fetching the operand of an instruction leaves alone what no access to
/// the bus changes.
proof fn lemma_resolve_keeps_part<M: Memory, T>(part: spec_fn(M::State) -> T, mode: Mode, m: Machine<M::State>)
    requires
        bus_keeps_part::<M, T>(part),
    ensures
        part(resolve::<M>(mode, m).1.bus) == part(m.bus),
{
}

/// An instruction leaves alone what no access to the bus changes.
proof fn lemma_execute_keeps_part<M: Memory, T>(
    part: spec_fn(M::State) -> T,
    instruction: Instruction,
    m: Machine<M::State>,
)
    requires
        bus_keeps_part::<M, T>(part),
    ensures
        part(execute::<M>(instruction, m).bus) == part(m.bus),
{
    match instruction {
        Instruction::Logic(op, mode) => {
            lemma_resolve_keeps_part::<M, T>(part, mode, m);
        },
        Instruction::BitTest(mode) => {
            lemma_resolve_keeps_part::<M, T>(part, mode, m);
        },
        Instruction::Arithmetic { register, operand, use_carry, discard_result, subtraction } => {
            lemma_resolve_keeps_part::<M, T>(part, operand, m);
            lemma_resolve_keeps_part::<M, T>(part, register, resolve::<M>(operand, m).1);
        },
        Instruction::Modify(op, mode) => {
            lemma_resolve_keeps_part::<M, T>(part, mode, m);
        },
        Instruction::Load { target, source } => {
            lemma_resolve_keeps_part::<M, T>(part, source, m);
            let (from, m1) = resolve::<M>(source, m);
            lemma_resolve_keeps_part::<M, T>(part, target, operand_value::<M>(from, m1).1);
        },
        Instruction::Store { source, target } => {
            lemma_resolve_keeps_part::<M, T>(part, source, m);
            let (from, m1) = resolve::<M>(source, m);
            lemma_resolve_keeps_part::<M, T>(part, target, operand_value::<M>(from, m1).1);
        },
        Instruction::StoreZero(target) => {
            lemma_resolve_keeps_part::<M, T>(part, target, m);
        },
        Instruction::Push(register) => {
            lemma_resolve_keeps_part::<M, T>(part, register, m);
        },
        Instruction::Pull(register) => {
            lemma_resolve_keeps_part::<M, T>(part, register, pop::<M>(m).1);
        },
        _ => {},
    }
}

/// The processor reaches the bus through reads and writes alone: what no
/// access to the bus changes, no step changes, whether it runs an
/// instruction, takes an interrupt or meets an unknown opcode.
pub proof fn lemma_step_keeps_part<M: Memory, T>(part: spec_fn(M::State) -> T, m: Machine<M::State>)
    requires
        bus_keeps_part::<M, T>(part),
    ensures
        part(step_spec::<M>(m).1.bus) == part(m.bus),
{
    reveal(step_spec);
    if !m.cpu.nmi_edge() {
        let sampled = m.with_cpu(m.cpu.with_nmi_seen(m.cpu.nmi_signal));
        let (opcode, m1) = fetch::<M>(sampled);
        match decode(opcode) {
            Some(instruction) => {
                lemma_execute_keeps_part::<M, T>(part, instruction, m1);
            },
            None => {},
        }
    }
}

/// What no access to the bus changes, no run of the processor changes.
pub proof fn lemma_run_keeps_part<M: Memory, T>(part: spec_fn(M::State) -> T, m: Machine<M::State>, steps: nat)
    requires
        bus_keeps_part::<M, T>(part),
    ensures
        part(run_spec::<M>(m, steps).1.bus) == part(m.bus),
    decreases steps,
{
    if steps > 0 {
        lemma_run_keeps_part::<M, T>(part, m, (steps - 1) as nat);
        lemma_step_keeps_part::<M, T>(part, run_spec::<M>(m, (steps - 1) as nat).1);
    }
}

/// A machine that is all RAM leaves the status register alone.
pub proof fn lemma_ram_keeps_status()
    ensures
        bus_keeps_status::<RAMputer>(),
{
}

} // verus!
