use crate::bits::{
    assign_bit, clear_bit, high_byte, is_bit_set, lemma_bit_5_stays, lemma_shift_arithmetic,
    low_byte, set_bit, word,
};
use crate::memory::{machine, Machine, Memory};
use crate::text::{append_either, append_hex_byte, append_hex_word, hex_byte, hex_word};
use vstd::prelude::*;
use vstd::string::StringExecFns;

pub mod addressing_modes;
pub mod instructions;
pub mod laws;

use addressing_modes::{
    Absolute, AbsoluteXIndexed, AbsoluteYIndexed, AddressibleAddressingMode, Immediate,
    ReadAddressingMode, RegisterA, RegisterS, RegisterX, RegisterY, WriteAddressingMode, ZeroPage,
    ZeroPageIndirect, ZeroPageIndirectYIndexed, ZeroPageXIndexed, ZeroPageXIndexedIndirect,
    ZeroPageYIndexed,
};
use instructions::{
    arithmetic_spec, bit_test_spec, branch_spec, decode, execute, jump_indirect_spec, jump_spec,
    jump_to_subroutine_spec, load_spec, logic_spec, modify_spec, pop, pull_register_spec,
    pull_status_spec, push, push_register_spec, push_status_spec, return_from_subroutine_spec,
    service_nmi, status_cnzv, status_nz, store_spec, store_zero_spec, sum, Logic, Modify,
};
use laws::lemma_arithmetic_flags;

verus! {

/// The stack lives in page one.
pub const STACK_BASE: u16 = 0x0100;

/// Where the program counter comes from on a reset.
pub const RESET_VECTOR: u16 = 0xFFFC;

/// Where the program counter comes from on a non-maskable interrupt.
pub const NMI_VECTOR: u16 = 0xFFFA;

/// The sign bit of a byte.
pub const BYTE_SIGN_BIT: u8 = 0x80;

// Bits of the P register.
/// **C**arry flag: whether the last addition carried past 8 bits
pub const STATUS_C: u8 = 0b_0000_0001;

/// **Z**ero flag: whether the last operation resulted in 0x00
pub const STATUS_Z: u8 = 0b_0000_0010;

/// **I**nterrupt mask flag: whether interrupts are *disabled* (masked)
pub const STATUS_I: u8 = 0b_0000_0100;

/// **D**ecimal flag: set and cleared, but arithmetic stays binary
pub const STATUS_D: u8 = 0b_0000_1000;

/// **B**reak flag: whether the pushed status came from an instruction
pub const STATUS_B: u8 = 0b_0001_0000;

/// **1** flag: literally hardwired to a one
pub const STATUS_1: u8 = 0b_0010_0000;

/// o**V**erflow flag: whether the last addition did a signed overflow
pub const STATUS_V: u8 = 0b_0100_0000;

/// **N**egative flag: whether the last operation resulted in a negative value
pub const STATUS_N: u8 = 0b_1000_0000;

/// The processor's registers and signal latches as plain values.
pub struct CpuState {
    /// The accumulator.
    pub a: u8,
    /// Index register X.
    pub x: u8,
    /// Index register Y.
    pub y: u8,
    /// The stack pointer: the stack's top is at `0x0100 + s`.
    pub s: u8,
    /// The status register. Every `Cpu` holds bit 5 of it set.
    pub p: u8,
    /// The program counter.
    pub pc: u16,
    /// The level of the NMI line as a device last set it.
    pub nmi_signal: bool,
    /// The level of the NMI line when the processor last looked, between
    /// two instructions.
    pub nmi_seen: bool,
    /// The level of the IRQ line as a device last set it.
    pub irq_signal: bool,
}

impl CpuState {
    pub open spec fn with_a(self, a: u8) -> CpuState {
        CpuState { a, ..self }
    }

    pub open spec fn with_x(self, x: u8) -> CpuState {
        CpuState { x, ..self }
    }

    pub open spec fn with_y(self, y: u8) -> CpuState {
        CpuState { y, ..self }
    }

    pub open spec fn with_s(self, s: u8) -> CpuState {
        CpuState { s, ..self }
    }

    pub open spec fn with_p(self, p: u8) -> CpuState {
        CpuState { p, ..self }
    }

    pub open spec fn with_pc(self, pc: u16) -> CpuState {
        CpuState { pc, ..self }
    }

    pub open spec fn with_nmi_signal(self, nmi_signal: bool) -> CpuState {
        CpuState { nmi_signal, ..self }
    }

    pub open spec fn with_nmi_seen(self, nmi_seen: bool) -> CpuState {
        CpuState { nmi_seen, ..self }
    }

    pub open spec fn with_irq_signal(self, irq_signal: bool) -> CpuState {
        CpuState { irq_signal, ..self }
    }

    /// The processor as it powers up: every register holds `0xFF`, no
    /// signal line is raised.
    pub open spec fn power_on() -> CpuState {
        CpuState {
            a: 255,
            x: 255,
            y: 255,
            s: 255,
            p: 255,
            pc: 255,
            nmi_signal: false,
            nmi_seen: false,
            irq_signal: false,
        }
    }

    /// Whether the NMI line went from low to high since the processor last
    /// looked.
    pub open spec fn nmi_edge(self) -> bool {
        self.nmi_signal && !self.nmi_seen
    }
}

/// A flag of the status register as a letter: upper case when set.
pub open spec fn flag_letter(p: u8, flag: u8, set: char, clear: char) -> Seq<char> {
    if is_bit_set(p, flag) {
        seq![set]
    } else {
        seq![clear]
    }
}

/// The registers in one line of text, such as
/// `PC:8000 A:00 X:FF Y:FF S:01FD P:nv1BdIzc`: the numbers in hexadecimal,
/// the flags as letters, upper case for a flag that is set.
pub open spec fn described(cpu: CpuState) -> Seq<char> {
    "PC:"@ + hex_word(cpu.pc) + " A:"@ + hex_byte(cpu.a) + " X:"@ + hex_byte(cpu.x) + " Y:"@ + hex_byte(
        cpu.y,
    ) + " S:01"@ + hex_byte(cpu.s) + " P:"@ + flag_letter(cpu.p, STATUS_N, 'N', 'n') + flag_letter(
        cpu.p,
        STATUS_V,
        'V',
        'v',
    ) + "1"@ + flag_letter(cpu.p, STATUS_B, 'B', 'b') + flag_letter(cpu.p, STATUS_D, 'D', 'd')
        + flag_letter(cpu.p, STATUS_I, 'I', 'i') + flag_letter(cpu.p, STATUS_Z, 'Z', 'z') + flag_letter(
        cpu.p,
        STATUS_C,
        'C',
        'c',
    )
}

/// The processor met an opcode byte that it has no instruction for.
#[derive(Clone, Copy, Debug, PartialEq, Eq, Structural)]
pub struct UnknownOpcode {
    /// The opcode byte.
    pub opcode: u8,
    /// The address that the opcode byte was fetched from.
    pub pc: u16,
}

pub struct Cpu {
    /// The accumulator. Where math operations can happen.
    a: u8,
    /// Index register #1. Can be the index of a thing.
    x: u8,
    /// Index register #2.
    y: u8,
    /// The stack pointer.
    s: u8,
    /// The status register.
    p: u8,
    /// The program counter.
    pc: u16,
    /// The NMI line's level.
    nmi_signal: bool,
    /// The NMI line's level at the last instruction boundary.
    nmi_seen: bool,
    /// The IRQ line's level.
    irq_signal: bool,
}

impl View for Cpu {
    type V = CpuState;

    closed spec fn view(&self) -> CpuState {
        CpuState {
            a: self.a,
            x: self.x,
            y: self.y,
            s: self.s,
            p: self.p,
            pc: self.pc,
            nmi_signal: self.nmi_signal,
            nmi_seen: self.nmi_seen,
            irq_signal: self.irq_signal,
        }
    }
}

/// The byte at the program counter, and the machine after the byte was read
/// and the program counter moved past it.
pub open spec fn fetch<M: Memory>(m: Machine<M::State>) -> (u8, Machine<M::State>) {
    let (value, m1) = M::read_spec(m, m.cpu.pc);
    (value, m1.with_cpu(m1.cpu.with_pc(m1.cpu.pc.wrapping_add(1))))
}

/// The machine after a reset: the program counter comes from the reset vector.
pub open spec fn reset_spec<M: Memory>(m: Machine<M::State>) -> Machine<M::State> {
    let (low, m1) = M::read_spec(m, RESET_VECTOR);
    let (high, m2) = M::read_spec(m1, (RESET_VECTOR + 1) as u16);
    m2.with_cpu(m2.cpu.with_pc(word(low, high)))
}

/// One step of the processor. Where the NMI line rose since the last step,
/// the step takes the interrupt and runs no instruction. Otherwise it fetches
/// the opcode at the program counter and runs its instruction; an opcode
/// without one is reported with the address it came from, and the program
/// counter then stands behind the opcode byte.
#[verifier::opaque]
pub open spec fn step_spec<M: Memory>(m: Machine<M::State>) -> (
    Result<(), UnknownOpcode>,
    Machine<M::State>,
) {
    let sampled = m.with_cpu(m.cpu.with_nmi_seen(m.cpu.nmi_signal));
    if m.cpu.nmi_edge() {
        (Ok(()), service_nmi::<M>(sampled))
    } else {
        let (opcode, m1) = fetch::<M>(sampled);
        match decode(opcode) {
            Some(instruction) => (Ok(()), execute::<M>(instruction, m1)),
            None => (Err(UnknownOpcode { opcode, pc: m.cpu.pc }), m1),
        }
    }
}

/// The machine after up to `steps` steps: the run ends early at the first
/// opcode that the processor does not know, and reports it.
pub open spec fn run_spec<M: Memory>(m: Machine<M::State>, steps: nat) -> (
    Result<(), UnknownOpcode>,
    Machine<M::State>,
)
    decreases steps,
{
    if steps == 0 {
        (Ok(()), m)
    } else {
        let (result, before) = run_spec::<M>(m, (steps - 1) as nat);
        if result is Err {
            (result, before)
        } else {
            step_spec::<M>(before)
        }
    }
}

/// Below 512, the ninth bit of a number is set exactly when the number is
/// past 255.
proof fn lemma_ninth_bit(wide: u16)
    requires
        wide <= 0x1FF,
    ensures
        ((wide / 256) % 2 == 1) == (wide > 0xFF),
{
}

/// A step that goes well reports nothing but that.
pub proof fn lemma_step_ok<M: Memory>(m: Machine<M::State>)
    ensures
        step_spec::<M>(m).0 is Ok ==> step_spec::<M>(m).0 == Ok::<(), UnknownOpcode>(()),
{
    reveal(step_spec);
}

/// A run that has failed stays as it is however many steps are asked for.
pub proof fn lemma_run_stays_failed<M: Memory>(m: Machine<M::State>, failed: nat, steps: nat)
    requires
        run_spec::<M>(m, failed).0 is Err,
        failed <= steps,
    ensures
        run_spec::<M>(m, steps) == run_spec::<M>(m, failed),
    decreases steps,
{
    if failed < steps {
        lemma_run_stays_failed::<M>(m, failed, (steps - 1) as nat);
    }
}

impl Cpu {
    /// Bit 5 of the status register is hardwired to one.
    #[verifier::type_invariant]
    spec fn bit_5_is_set(self) -> bool {
        is_bit_set(self.p, STATUS_1)
    }

    /// A processor as it powers up: every register holds `0xFF`, no signal
    /// line is raised.
    pub fn new() -> (cpu: Cpu)
        ensures
            cpu@ == CpuState::power_on(),
    {
        proof {
            lemma_bit_5_stays();
        }
        Cpu {
            a: 255,
            x: 255,
            y: 255,
            s: 255,
            p: 255,
            pc: 255,
            nmi_signal: false,
            nmi_seen: false,
            irq_signal: false,
        }
    }

    /// Loads the program counter from the reset vector at `0xFFFC`.
    pub fn reset<M: Memory>(&mut self, memory: &mut M)
        requires
            old(memory).wf(),
        ensures
            final(memory).wf(),
            machine(final(self), final(memory)) == reset_spec::<M>(machine(old(self), old(memory))),
    {
        let a = memory.read_byte(self, RESET_VECTOR);
        let b = memory.read_byte(self, RESET_VECTOR + 1);
        proof {
            use_type_invariant(&*self);
            lemma_bit_5_stays();
        }
        self.pc = word(a, b);
    }

    pub(crate) fn read_pc_and_post_inc<M: Memory>(&mut self, memory: &mut M) -> (value: u8)
        requires
            old(memory).wf(),
        ensures
            final(memory).wf(),
            (value, machine(final(self), final(memory))) == fetch::<M>(machine(old(self), old(memory))),
    {
        let pc = self.pc;
        let value = memory.read_byte(self, pc);
        proof {
            use_type_invariant(&*self);
            lemma_bit_5_stays();
        }
        self.pc = self.pc.wrapping_add(1);
        value
    }

    pub(crate) fn push_byte<M: Memory>(&mut self, memory: &mut M, byte: u8)
        requires
            old(memory).wf(),
        ensures
            final(memory).wf(),
            machine(final(self), final(memory)) == push::<M>(machine(old(self), old(memory)), byte),
    {
        // 00xx = zero page
        // 01xx = stack (STACK_BASE)
        // xxxx = some other address
        let destination = self.s as u16 + STACK_BASE;
        memory.write_byte(self, destination, byte);
        proof {
            use_type_invariant(&*self);
            lemma_bit_5_stays();
        }
        self.s = self.s.wrapping_sub(1);
    }

    pub(crate) fn pop_byte<M: Memory>(&mut self, memory: &mut M) -> (byte: u8)
        requires
            old(memory).wf(),
        ensures
            final(memory).wf(),
            (byte, machine(final(self), final(memory))) == pop::<M>(machine(old(self), old(memory))),
    {
        proof {
            use_type_invariant(&*self);
            lemma_bit_5_stays();
        }
        self.s = self.s.wrapping_add(1);
        let destination = self.s as u16 + STACK_BASE;
        memory.read_byte(self, destination)
    }

    fn decrement<AM: WriteAddressingMode<M>, M: Memory>(&mut self, memory: &mut M)
        requires
            old(memory).wf(),
        ensures
            final(memory).wf(),
            machine(final(self), final(memory)) == modify_spec::<M>(
                Modify::Decrement,
                AM::mode(),
                machine(old(self), old(memory)),
            ),
    {
        let am = AM::new(self, memory);
        let value = am.get_value(self, memory).wrapping_sub(1);
        am.put_value(self, memory, value);
        self.assign_status_nz_for_result(value);
    }

    fn increment<AM: WriteAddressingMode<M>, M: Memory>(&mut self, memory: &mut M)
        requires
            old(memory).wf(),
        ensures
            final(memory).wf(),
            machine(final(self), final(memory)) == modify_spec::<M>(
                Modify::Increment,
                AM::mode(),
                machine(old(self), old(memory)),
            ),
    {
        let am = AM::new(self, memory);
        let value = am.get_value(self, memory).wrapping_add(1);
        am.put_value(self, memory, value);
        self.assign_status_nz_for_result(value);
    }

    fn load<Target: WriteAddressingMode<M>, AM: ReadAddressingMode<M>, M: Memory>(
        &mut self,
        memory: &mut M,
    )
        requires
            old(memory).wf(),
        ensures
            final(memory).wf(),
            machine(final(self), final(memory)) == load_spec::<M>(
                Target::mode(),
                AM::mode(),
                machine(old(self), old(memory)),
            ),
    {
        let am = AM::new(self, memory);
        let value = am.get_value(self, memory);
        Target::new(self, memory).put_value(self, memory, value);
        self.assign_status_nz_for_result(value);
    }

    fn store<Source: ReadAddressingMode<M>, AM: WriteAddressingMode<M>, M: Memory>(
        &mut self,
        memory: &mut M,
    )
        requires
            old(memory).wf(),
        ensures
            final(memory).wf(),
            machine(final(self), final(memory)) == store_spec::<M>(
                Source::mode(),
                AM::mode(),
                machine(old(self), old(memory)),
            ),
    {
        let value = Source::new(self, memory).get_value(self, memory);
        let am = AM::new(self, memory);
        am.put_value(self, memory, value);
    }

    fn store_zero<AM: WriteAddressingMode<M>, M: Memory>(&mut self, memory: &mut M)
        requires
            old(memory).wf(),
        ensures
            final(memory).wf(),
            machine(final(self), final(memory)) == store_zero_spec::<M>(
                AM::mode(),
                machine(old(self), old(memory)),
            ),
    {
        let am = AM::new(self, memory);
        am.put_value(self, memory, 0);
    }

    fn or_accumulator<AM: ReadAddressingMode<M>, M: Memory>(&mut self, memory: &mut M)
        requires
            old(memory).wf(),
        ensures
            final(memory).wf(),
            machine(final(self), final(memory)) == logic_spec::<M>(
                Logic::Or,
                AM::mode(),
                machine(old(self), old(memory)),
            ),
    {
        let am = AM::new(self, memory);
        let value = am.get_value(self, memory);
        proof {
            use_type_invariant(&*self);
            lemma_bit_5_stays();
        }
        self.a |= value;
        self.assign_status_nz_for_result(self.a);
    }

    fn and_accumulator<AM: ReadAddressingMode<M>, M: Memory>(&mut self, memory: &mut M)
        requires
            old(memory).wf(),
        ensures
            final(memory).wf(),
            machine(final(self), final(memory)) == logic_spec::<M>(
                Logic::And,
                AM::mode(),
                machine(old(self), old(memory)),
            ),
    {
        let am = AM::new(self, memory);
        let value = am.get_value(self, memory);
        proof {
            use_type_invariant(&*self);
            lemma_bit_5_stays();
        }
        self.a &= value;
        self.assign_status_nz_for_result(self.a);
    }

    fn xor_accumulator<AM: ReadAddressingMode<M>, M: Memory>(&mut self, memory: &mut M)
        requires
            old(memory).wf(),
        ensures
            final(memory).wf(),
            machine(final(self), final(memory)) == logic_spec::<M>(
                Logic::Xor,
                AM::mode(),
                machine(old(self), old(memory)),
            ),
    {
        let am = AM::new(self, memory);
        let value = am.get_value(self, memory);
        proof {
            use_type_invariant(&*self);
            lemma_bit_5_stays();
        }
        self.a ^= value;
        self.assign_status_nz_for_result(self.a);
    }

    fn bit_test<AM: ReadAddressingMode<M>, M: Memory>(&mut self, memory: &mut M)
        requires
            old(memory).wf(),
        ensures
            final(memory).wf(),
            machine(final(self), final(memory)) == bit_test_spec::<M>(
                AM::mode(),
                machine(old(self), old(memory)),
            ),
    {
        let am = AM::new(self, memory);
        let value = am.get_value(self, memory);
        proof {
            use_type_invariant(&*self);
            lemma_bit_5_stays();
        }
        self.p = assign_bit(self.p, STATUS_Z, self.a & value == 0);
        proof {
            use_type_invariant(&*self);
            lemma_bit_5_stays();
        }
        self.p = (self.p & 0x3F) | (value & 0xC0);
    }

    fn perform_alu_operation<R: WriteAddressingMode<M>, AM: ReadAddressingMode<M>, M: Memory>(
        &mut self,
        memory: &mut M,
        use_carry: bool,
        discard_result: bool,
        subtraction: bool,
    )
        requires
            old(memory).wf(),
        ensures
            final(memory).wf(),
            machine(final(self), final(memory)) == arithmetic_spec::<M>(
                R::mode(),
                AM::mode(),
                use_carry,
                discard_result,
                subtraction,
                machine(old(self), old(memory)),
            ),
    {
        let am = AM::new(self, memory);
        let r = R::new(self, memory);
        let thing1 = r.get_value(self, memory);
        let operand = am.get_value(self, memory);
        let thing2 = if subtraction {
            // -a = (inverted a) + 1
            // a - b = a + (inverted b) + 1
            operand ^ 0xFF
        } else {
            operand
        };
        let carry_in = if use_carry {
            is_bit_set(self.p, STATUS_C)
        } else {
            subtraction
        };
        let result = self.add_and_assign_status(thing1, thing2, carry_in);
        if !discard_result {
            r.put_value(self, memory, result);
        }
    }

    /// The adder behind ADC, SBC and the compares: adds two bytes and a
    /// carry, sets C, Z, N and V from the sum and returns its low byte.
    /// With `r16 = thing1 + thing2 + carry`: C tells that `r16` is past
    /// `0xFF`, Z that the low byte is zero, N is bit 7 of the low byte, and
    /// V is bit 7 of `(thing1 ^ low) & (thing2 ^ low)`. The flags I, D, B
    /// and bit 5, and every other register, stay as they were.
    pub fn add_and_assign_status(&mut self, thing1: u8, thing2: u8, carry_in: bool) -> (out: u8)
        ensures
            out == sum(thing1, thing2, carry_in).value,
            final(self)@ == old(self)@.with_p(status_cnzv(old(self)@.p, sum(thing1, thing2, carry_in))),
            out == (thing1 + thing2 + if carry_in { 1int } else { 0int }) % 256,
            is_bit_set(final(self)@.p, STATUS_C) == (thing1 + thing2 + if carry_in { 1int } else { 0int }
                > 0xFF),
            is_bit_set(final(self)@.p, STATUS_Z) == (out == 0),
            is_bit_set(final(self)@.p, STATUS_N) == (out & 0x80 == 0x80),
            is_bit_set(final(self)@.p, STATUS_V) == ((thing1 ^ out) & (thing2 ^ out) & 0x80 != 0),
            final(self)@.p & 0x3C == old(self)@.p & 0x3C,
    {
        proof {
            lemma_arithmetic_flags(self@.p, thing1, thing2, carry_in);
        }
        let thing3: u16 = if carry_in {
            1
        } else {
            0
        };
        let result: u16 = thing1 as u16 + thing2 as u16 + thing3;
        // FF + FF + 1 = 0x1FF: nine bits hold every sum
        proof {
            lemma_ninth_bit(result);
        }
        let result = self.assign_status_cnz_for_result(result);
        let overflowed = (thing1 ^ result) & (thing2 ^ result) & 0x80 != 0;
        proof {
            use_type_invariant(&*self);
            lemma_bit_5_stays();
        }
        self.p = assign_bit(self.p, STATUS_V, overflowed);
        result
    }

    fn arithmetic_shift_left<AM: WriteAddressingMode<M>, M: Memory>(&mut self, memory: &mut M)
        requires
            old(memory).wf(),
        ensures
            final(memory).wf(),
            machine(final(self), final(memory)) == modify_spec::<M>(
                Modify::ShiftLeft,
                AM::mode(),
                machine(old(self), old(memory)),
            ),
    {
        let am = AM::new(self, memory);
        let value = am.get_value(self, memory);
        let carry_out = is_bit_set(value, 0x80);
        proof {
            lemma_shift_arithmetic(value);
        }
        let value = value << 1u8;
        am.put_value(self, memory, value);
        self.assign_status_nz_for_result(value);
        proof {
            use_type_invariant(&*self);
            lemma_bit_5_stays();
        }
        self.p = assign_bit(self.p, STATUS_C, carry_out);
    }

    fn logical_shift_right<AM: WriteAddressingMode<M>, M: Memory>(&mut self, memory: &mut M)
        requires
            old(memory).wf(),
        ensures
            final(memory).wf(),
            machine(final(self), final(memory)) == modify_spec::<M>(
                Modify::ShiftRight,
                AM::mode(),
                machine(old(self), old(memory)),
            ),
    {
        let am = AM::new(self, memory);
        let value = am.get_value(self, memory);
        let carry_out = is_bit_set(value, 0x01);
        proof {
            lemma_shift_arithmetic(value);
        }
        let value = value >> 1u8;
        am.put_value(self, memory, value);
        self.assign_status_nz_for_result(value);
        proof {
            use_type_invariant(&*self);
            lemma_bit_5_stays();
        }
        self.p = assign_bit(self.p, STATUS_C, carry_out);
    }

    fn rotate_left<AM: WriteAddressingMode<M>, M: Memory>(&mut self, memory: &mut M)
        requires
            old(memory).wf(),
        ensures
            final(memory).wf(),
            machine(final(self), final(memory)) == modify_spec::<M>(
                Modify::RotateLeft,
                AM::mode(),
                machine(old(self), old(memory)),
            ),
    {
        let am = AM::new(self, memory);
        let value = am.get_value(self, memory);
        let carry_in = is_bit_set(self.p, STATUS_C);
        let carry_out = is_bit_set(value, 0x80);
        proof {
            lemma_shift_arithmetic(value);
        }
        let value = if carry_in {
            (value << 1u8) | 0x01
        } else {
            value << 1u8
        };
        am.put_value(self, memory, value);
        self.assign_status_nz_for_result(value);
        proof {
            use_type_invariant(&*self);
            lemma_bit_5_stays();
        }
        self.p = assign_bit(self.p, STATUS_C, carry_out);
    }

    fn rotate_right<AM: WriteAddressingMode<M>, M: Memory>(&mut self, memory: &mut M)
        requires
            old(memory).wf(),
        ensures
            final(memory).wf(),
            machine(final(self), final(memory)) == modify_spec::<M>(
                Modify::RotateRight,
                AM::mode(),
                machine(old(self), old(memory)),
            ),
    {
        let am = AM::new(self, memory);
        let value = am.get_value(self, memory);
        let carry_in = is_bit_set(self.p, STATUS_C);
        let carry_out = is_bit_set(value, 0x01);
        proof {
            lemma_shift_arithmetic(value);
        }
        let value = if carry_in {
            (value >> 1u8) | 0x80
        } else {
            value >> 1u8
        };
        am.put_value(self, memory, value);
        self.assign_status_nz_for_result(value);
        proof {
            use_type_invariant(&*self);
            lemma_bit_5_stays();
        }
        self.p = assign_bit(self.p, STATUS_C, carry_out);
    }

    /// Set the N and Z bits in the status register according to the given
    /// result. (Return that same result that was passed in, for convenience.)
    fn assign_status_nz_for_result(&mut self, result: u8) -> (out: u8)
        ensures
            out == result,
            final(self)@ == old(self)@.with_p(status_nz(old(self)@.p, result)),
    {
        proof {
            use_type_invariant(&*self);
            lemma_bit_5_stays();
        }
        self.p = assign_bit(self.p, STATUS_Z, result == 0);
        proof {
            use_type_invariant(&*self);
            lemma_bit_5_stays();
        }
        self.p = assign_bit(self.p, STATUS_N, is_bit_set(result, BYTE_SIGN_BIT));
        result
    }

    /// Set the N, Z, and C bits in the status register according to the given
    /// result. (Return the same result that was passed in, *but as a byte*.)
    fn assign_status_cnz_for_result(&mut self, result: u16) -> (out: u8)
        ensures
            out == result % 256,
            final(self)@ == old(self)@.with_p(
                status_nz(assign_bit(old(self)@.p, STATUS_C, (result / 256) % 2 == 1), out),
            ),
    {
        proof {
            use_type_invariant(&*self);
            lemma_bit_5_stays();
        }
        self.p = assign_bit(self.p, STATUS_C, (result / 256) % 2 == 1);
        self.assign_status_nz_for_result((result % 256) as u8)
    }

    fn handle_branch_operation<M: Memory>(&mut self, memory: &mut M, should_branch: bool)
        requires
            old(memory).wf(),
        ensures
            final(memory).wf(),
            machine(final(self), final(memory)) == branch_spec::<M>(
                should_branch,
                machine(old(self), old(memory)),
            ),
    {
        let offset = self.read_pc_and_post_inc(memory);
        // offset 0 -> address + 0
        // offset 1 -> address + 1
        // offset 127 -> address + 127
        // (it's a signed offset, so we wrap around to negative here)
        // offset 128 -> address - 128
        // offset 129 -> address - 127
        // offset 255 -> address - 1
        let potential_destination = if offset < 0x80 {
            self.pc.wrapping_add(offset as u16)
        } else {
            self.pc.wrapping_sub(0x100 - offset as u16)
        };
        if should_branch {
            proof {
                use_type_invariant(&*self);
                lemma_bit_5_stays();
            }
            self.pc = potential_destination;
        }
    }

    fn push_register<R: ReadAddressingMode<M>, M: Memory>(&mut self, memory: &mut M)
        requires
            old(memory).wf(),
        ensures
            final(memory).wf(),
            machine(final(self), final(memory)) == push_register_spec::<M>(
                R::mode(),
                machine(old(self), old(memory)),
            ),
    {
        let value = R::new(self, memory).get_value(self, memory);
        self.push_byte(memory, value);
    }

    fn pull_register<R: WriteAddressingMode<M>, M: Memory>(&mut self, memory: &mut M)
        requires
            old(memory).wf(),
        ensures
            final(memory).wf(),
            machine(final(self), final(memory)) == pull_register_spec::<M>(
                R::mode(),
                machine(old(self), old(memory)),
            ),
    {
        let value = self.pop_byte(memory);
        R::new(self, memory).put_value(self, memory, value);
        self.assign_status_nz_for_result(value);
    }

    fn push_status<M: Memory>(&mut self, memory: &mut M)
        requires
            old(memory).wf(),
        ensures
            final(memory).wf(),
            machine(final(self), final(memory)) == push_status_spec::<M>(machine(old(self), old(memory))),
    {
        let status = assign_bit(set_bit(self.p, STATUS_1), STATUS_B, true);
        self.push_byte(memory, status);
    }

    fn pull_status<M: Memory>(&mut self, memory: &mut M)
        requires
            old(memory).wf(),
        ensures
            final(memory).wf(),
            machine(final(self), final(memory)) == pull_status_spec::<M>(machine(old(self), old(memory))),
    {
        let value = self.pop_byte(memory);
        proof {
            use_type_invariant(&*self);
            lemma_bit_5_stays();
        }
        self.p = value | STATUS_1 | STATUS_B;
    }

    fn jump<M: Memory>(&mut self, memory: &mut M)
        requires
            old(memory).wf(),
        ensures
            final(memory).wf(),
            machine(final(self), final(memory)) == jump_spec::<M>(machine(old(self), old(memory))),
    {
        let destination = Absolute::new(self, memory).get_address();
        proof {
            use_type_invariant(&*self);
            lemma_bit_5_stays();
        }
        self.pc = destination;
    }

    fn jump_indirect<M: Memory>(&mut self, memory: &mut M)
        requires
            old(memory).wf(),
        ensures
            final(memory).wf(),
            machine(final(self), final(memory)) == jump_indirect_spec::<M>(machine(old(self), old(memory))),
    {
        let address_of_address = Absolute::new(self, memory).get_address();
        let destination_low = memory.read_byte(self, address_of_address);
        let destination_high = memory.read_byte(self, address_of_address.wrapping_add(1));
        proof {
            use_type_invariant(&*self);
            lemma_bit_5_stays();
        }
        self.pc = word(destination_low, destination_high);
    }

    fn jump_to_subroutine<M: Memory>(&mut self, memory: &mut M)
        requires
            old(memory).wf(),
        ensures
            final(memory).wf(),
            machine(final(self), final(memory)) == jump_to_subroutine_spec::<M>(
                machine(old(self), old(memory)),
            ),
    {
        let destination_low = self.read_pc_and_post_inc(memory);
        let pc_low = low_byte(self.pc);
        let pc_high = high_byte(self.pc);
        self.push_byte(memory, pc_high);
        self.push_byte(memory, pc_low);
        let destination_high = self.read_pc_and_post_inc(memory);
        proof {
            use_type_invariant(&*self);
            lemma_bit_5_stays();
        }
        self.pc = word(destination_low, destination_high);
    }

    fn return_from_subroutine<M: Memory>(&mut self, memory: &mut M)
        requires
            old(memory).wf(),
        ensures
            final(memory).wf(),
            machine(final(self), final(memory)) == return_from_subroutine_spec::<M>(
                machine(old(self), old(memory)),
            ),
    {
        let pc_low = self.pop_byte(memory);
        let pc_high = self.pop_byte(memory);
        proof {
            use_type_invariant(&*self);
            lemma_bit_5_stays();
        }
        self.pc = word(pc_low, pc_high).wrapping_add(1);
    }

    fn take_nmi<M: Memory>(&mut self, memory: &mut M)
        requires
            old(memory).wf(),
        ensures
            final(memory).wf(),
            machine(final(self), final(memory)) == service_nmi::<M>(machine(old(self), old(memory))),
    {
        let pc_low = low_byte(self.pc);
        let pc_high = high_byte(self.pc);
        self.push_byte(memory, pc_high);
        self.push_byte(memory, pc_low);
        let status = assign_bit(set_bit(self.p, STATUS_1), STATUS_B, false);
        self.push_byte(memory, status);
        proof {
            use_type_invariant(&*self);
            lemma_bit_5_stays();
        }
        self.p = set_bit(self.p, STATUS_I);
        let low = memory.read_byte(self, NMI_VECTOR);
        let high = memory.read_byte(self, NMI_VECTOR + 1);
        proof {
            use_type_invariant(&*self);
            lemma_bit_5_stays();
        }
        self.pc = word(low, high);
    }

    /// Sets the level of the NMI line. The processor takes the interrupt at
    /// the next step that finds the line high after it was low.
    pub fn set_nmi_signal(&mut self, active: bool)
        ensures
            final(self)@ == old(self)@.with_nmi_signal(active),
    {
        proof {
            use_type_invariant(&*self);
            lemma_bit_5_stays();
        }
        self.nmi_signal = active;
    }

    /// Sets the level of the IRQ line. The level is kept and has no effect:
    /// the processor does not take IRQs.
    pub fn set_irq_signal(&mut self, active: bool)
        ensures
            final(self)@ == old(self)@.with_irq_signal(active),
    {
        proof {
            use_type_invariant(&*self);
            lemma_bit_5_stays();
        }
        self.irq_signal = active;
    }

    /// Runs the processor for one step.
    #[verifier::rlimit(60)]
    pub fn step<M: Memory>(&mut self, memory: &mut M) -> (result: Result<(), UnknownOpcode>)
        requires
            old(memory).wf(),
        ensures
            final(memory).wf(),
            (result, machine(final(self), final(memory))) == step_spec::<M>(machine(old(self), old(memory))),
    {
        proof {
            reveal(step_spec);
        }
        let edge = self.nmi_signal && !self.nmi_seen;
        let pc = self.pc;
        proof {
            use_type_invariant(&*self);
            lemma_bit_5_stays();
        }
        self.nmi_seen = self.nmi_signal;
        if edge {
            self.take_nmi(memory);
            return Ok(());
        }
        let opcode = self.read_pc_and_post_inc(memory);
        proof {
            use_type_invariant(&*self);
            lemma_bit_5_stays();
        }
        let p = self.p;
        match opcode {
            // ORA (zp,X)
            0x01 => self.or_accumulator::<ZeroPageXIndexedIndirect, _>(memory),
            // ORA zp
            0x05 => self.or_accumulator::<ZeroPage, _>(memory),
            // ASL zp
            0x06 => self.arithmetic_shift_left::<ZeroPage, _>(memory),
            // PHP
            0x08 => self.push_status(memory),
            // ORA #imm
            0x09 => self.or_accumulator::<Immediate, _>(memory),
            // ASL A
            0x0A => self.arithmetic_shift_left::<RegisterA, _>(memory),
            // ORA abs
            0x0D => self.or_accumulator::<Absolute, _>(memory),
            // ASL abs
            0x0E => self.arithmetic_shift_left::<Absolute, _>(memory),
            // BPL off
            0x10 => self.handle_branch_operation(memory, !is_bit_set(p, STATUS_N)),
            // ORA (zp),Y
            0x11 => self.or_accumulator::<ZeroPageIndirectYIndexed, _>(memory),
            // ORA (zp)
            0x12 => self.or_accumulator::<ZeroPageIndirect, _>(memory),
            // ORA zp,X
            0x15 => self.or_accumulator::<ZeroPageXIndexed, _>(memory),
            // ASL zp,X
            0x16 => self.arithmetic_shift_left::<ZeroPageXIndexed, _>(memory),
            // CLC
            0x18 => self.p = clear_bit(p, STATUS_C),
            // ORA abs,Y
            0x19 => self.or_accumulator::<AbsoluteYIndexed, _>(memory),
            // INA
            0x1A => self.increment::<RegisterA, _>(memory),
            // ORA abs,X
            0x1D => self.or_accumulator::<AbsoluteXIndexed, _>(memory),
            // ASL abs,X
            0x1E => self.arithmetic_shift_left::<AbsoluteXIndexed, _>(memory),
            // JSR abs
            0x20 => self.jump_to_subroutine(memory),
            // AND (zp,X)
            0x21 => self.and_accumulator::<ZeroPageXIndexedIndirect, _>(memory),
            // BIT zp
            0x24 => self.bit_test::<ZeroPage, _>(memory),
            // AND zp
            0x25 => self.and_accumulator::<ZeroPage, _>(memory),
            // ROL zp
            0x26 => self.rotate_left::<ZeroPage, _>(memory),
            // PLP
            0x28 => self.pull_status(memory),
            // AND #imm
            0x29 => self.and_accumulator::<Immediate, _>(memory),
            // ROL A
            0x2A => self.rotate_left::<RegisterA, _>(memory),
            // BIT abs
            0x2C => self.bit_test::<Absolute, _>(memory),
            // AND abs
            0x2D => self.and_accumulator::<Absolute, _>(memory),
            // ROL abs
            0x2E => self.rotate_left::<Absolute, _>(memory),
            // BMI off
            0x30 => self.handle_branch_operation(memory, is_bit_set(p, STATUS_N)),
            // AND (zp),Y
            0x31 => self.and_accumulator::<ZeroPageIndirectYIndexed, _>(memory),
            // AND (zp)
            0x32 => self.and_accumulator::<ZeroPageIndirect, _>(memory),
            // AND zp,X
            0x35 => self.and_accumulator::<ZeroPageXIndexed, _>(memory),
            // ROL zp,X
            0x36 => self.rotate_left::<ZeroPageXIndexed, _>(memory),
            // SEC
            0x38 => self.p = set_bit(p, STATUS_C),
            // AND abs,Y
            0x39 => self.and_accumulator::<AbsoluteYIndexed, _>(memory),
            // DEA
            0x3A => self.decrement::<RegisterA, _>(memory),
            // AND abs,X
            0x3D => self.and_accumulator::<AbsoluteXIndexed, _>(memory),
            // ROL abs,X
            0x3E => self.rotate_left::<AbsoluteXIndexed, _>(memory),
            // EOR (zp,X)
            0x41 => self.xor_accumulator::<ZeroPageXIndexedIndirect, _>(memory),
            // EOR zp
            0x45 => self.xor_accumulator::<ZeroPage, _>(memory),
            // LSR zp
            0x46 => self.logical_shift_right::<ZeroPage, _>(memory),
            // PHA
            0x48 => self.push_register::<RegisterA, _>(memory),
            // EOR #imm
            0x49 => self.xor_accumulator::<Immediate, _>(memory),
            // LSR A
            0x4A => self.logical_shift_right::<RegisterA, _>(memory),
            // JMP abs
            0x4C => self.jump(memory),
            // EOR abs
            0x4D => self.xor_accumulator::<Absolute, _>(memory),
            // LSR abs
            0x4E => self.logical_shift_right::<Absolute, _>(memory),
            // BVC off
            0x50 => self.handle_branch_operation(memory, !is_bit_set(p, STATUS_V)),
            // EOR (zp),Y
            0x51 => self.xor_accumulator::<ZeroPageIndirectYIndexed, _>(memory),
            // EOR (zp)
            0x52 => self.xor_accumulator::<ZeroPageIndirect, _>(memory),
            // EOR zp,X
            0x55 => self.xor_accumulator::<ZeroPageXIndexed, _>(memory),
            // LSR zp,X
            0x56 => self.logical_shift_right::<ZeroPageXIndexed, _>(memory),
            // CLI
            0x58 => self.p = clear_bit(p, STATUS_I),
            // EOR abs,Y
            0x59 => self.xor_accumulator::<AbsoluteYIndexed, _>(memory),
            // PHY
            0x5A => self.push_register::<RegisterY, _>(memory),
            // EOR abs,X
            0x5D => self.xor_accumulator::<AbsoluteXIndexed, _>(memory),
            // LSR abs,X
            0x5E => self.logical_shift_right::<AbsoluteXIndexed, _>(memory),
            // RTS
            0x60 => self.return_from_subroutine(memory),
            // ADC (zp,X)
            0x61 => self.perform_alu_operation::<RegisterA, ZeroPageXIndexedIndirect, _>(memory, true, false, false),
            // STZ zp
            0x64 => self.store_zero::<ZeroPage, _>(memory),
            // ADC zp
            0x65 => self.perform_alu_operation::<RegisterA, ZeroPage, _>(memory, true, false, false),
            // ROR zp
            0x66 => self.rotate_right::<ZeroPage, _>(memory),
            // PLA
            0x68 => self.pull_register::<RegisterA, _>(memory),
            // ADC #imm
            0x69 => self.perform_alu_operation::<RegisterA, Immediate, _>(memory, true, false, false),
            // ROR A
            0x6A => self.rotate_right::<RegisterA, _>(memory),
            // JMP (abs)
            0x6C => self.jump_indirect(memory),
            // ADC abs
            0x6D => self.perform_alu_operation::<RegisterA, Absolute, _>(memory, true, false, false),
            // ROR abs
            0x6E => self.rotate_right::<Absolute, _>(memory),
            // BVS off
            0x70 => self.handle_branch_operation(memory, is_bit_set(p, STATUS_V)),
            // ADC (zp),Y
            0x71 => self.perform_alu_operation::<RegisterA, ZeroPageIndirectYIndexed, _>(memory, true, false, false),
            // ADC (zp)
            0x72 => self.perform_alu_operation::<RegisterA, ZeroPageIndirect, _>(memory, true, false, false),
            // STZ zp,X
            0x74 => self.store_zero::<ZeroPageXIndexed, _>(memory),
            // ADC zp,X
            0x75 => self.perform_alu_operation::<RegisterA, ZeroPageXIndexed, _>(memory, true, false, false),
            // ROR zp,X
            0x76 => self.rotate_right::<ZeroPageXIndexed, _>(memory),
            // SEI
            0x78 => self.p = set_bit(p, STATUS_I),
            // ADC abs,Y
            0x79 => self.perform_alu_operation::<RegisterA, AbsoluteYIndexed, _>(memory, true, false, false),
            // PLY
            0x7A => self.pull_register::<RegisterY, _>(memory),
            // ADC abs,X
            0x7D => self.perform_alu_operation::<RegisterA, AbsoluteXIndexed, _>(memory, true, false, false),
            // ROR abs,X
            0x7E => self.rotate_right::<AbsoluteXIndexed, _>(memory),
            // BRA off
            0x80 => self.handle_branch_operation(memory, true),
            // STA (zp,X)
            0x81 => self.store::<RegisterA, ZeroPageXIndexedIndirect, _>(memory),
            // STY zp
            0x84 => self.store::<RegisterY, ZeroPage, _>(memory),
            // STA zp
            0x85 => self.store::<RegisterA, ZeroPage, _>(memory),
            // STX zp
            0x86 => self.store::<RegisterX, ZeroPage, _>(memory),
            // DEY
            0x88 => self.decrement::<RegisterY, _>(memory),
            // TXA
            0x8A => self.load::<RegisterA, RegisterX, _>(memory),
            // STY abs
            0x8C => self.store::<RegisterY, Absolute, _>(memory),
            // STA abs
            0x8D => self.store::<RegisterA, Absolute, _>(memory),
            // STX abs
            0x8E => self.store::<RegisterX, Absolute, _>(memory),
            // BCC off
            0x90 => self.handle_branch_operation(memory, !is_bit_set(p, STATUS_C)),
            // STA (zp),Y
            0x91 => self.store::<RegisterA, ZeroPageIndirectYIndexed, _>(memory),
            // STA (zp)
            0x92 => self.store::<RegisterA, ZeroPageIndirect, _>(memory),
            // STY zp,X
            0x94 => self.store::<RegisterY, ZeroPageXIndexed, _>(memory),
            // STA zp,X
            0x95 => self.store::<RegisterA, ZeroPageXIndexed, _>(memory),
            // STX zp,Y
            0x96 => self.store::<RegisterX, ZeroPageYIndexed, _>(memory),
            // TYA
            0x98 => self.load::<RegisterA, RegisterY, _>(memory),
            // STA abs,Y
            0x99 => self.store::<RegisterA, AbsoluteYIndexed, _>(memory),
            // TXS
            0x9A => self.store::<RegisterX, RegisterS, _>(memory),
            // STZ abs
            0x9C => self.store_zero::<Absolute, _>(memory),
            // STA abs,X
            0x9D => self.store::<RegisterA, AbsoluteXIndexed, _>(memory),
            // STZ abs,X
            0x9E => self.store_zero::<AbsoluteXIndexed, _>(memory),
            // LDY #imm
            0xA0 => self.load::<RegisterY, Immediate, _>(memory),
            // LDA (zp,X)
            0xA1 => self.load::<RegisterA, ZeroPageXIndexedIndirect, _>(memory),
            // LDX #imm
            0xA2 => self.load::<RegisterX, Immediate, _>(memory),
            // LDY zp
            0xA4 => self.load::<RegisterY, ZeroPage, _>(memory),
            // LDA zp
            0xA5 => self.load::<RegisterA, ZeroPage, _>(memory),
            // LDX zp
            0xA6 => self.load::<RegisterX, ZeroPage, _>(memory),
            // TAY
            0xA8 => self.load::<RegisterY, RegisterA, _>(memory),
            // LDA #imm
            0xA9 => self.load::<RegisterA, Immediate, _>(memory),
            // TAX
            0xAA => self.load::<RegisterX, RegisterA, _>(memory),
            // LDY abs
            0xAC => self.load::<RegisterY, Absolute, _>(memory),
            // LDA abs
            0xAD => self.load::<RegisterA, Absolute, _>(memory),
            // LDX abs
            0xAE => self.load::<RegisterX, Absolute, _>(memory),
            // BCS off
            0xB0 => self.handle_branch_operation(memory, is_bit_set(p, STATUS_C)),
            // LDA (zp),Y
            0xB1 => self.load::<RegisterA, ZeroPageIndirectYIndexed, _>(memory),
            // LDA (zp)
            0xB2 => self.load::<RegisterA, ZeroPageIndirect, _>(memory),
            // LDY zp,X
            0xB4 => self.load::<RegisterY, ZeroPageXIndexed, _>(memory),
            // LDA zp,X
            0xB5 => self.load::<RegisterA, ZeroPageXIndexed, _>(memory),
            // LDX zp,Y
            0xB6 => self.load::<RegisterX, ZeroPageYIndexed, _>(memory),
            // CLV
            0xB8 => self.p = clear_bit(p, STATUS_V),
            // LDA abs,Y
            0xB9 => self.load::<RegisterA, AbsoluteYIndexed, _>(memory),
            // TSX
            0xBA => self.load::<RegisterX, RegisterS, _>(memory),
            // LDY abs,X
            0xBC => self.load::<RegisterY, AbsoluteXIndexed, _>(memory),
            // LDA abs,X
            0xBD => self.load::<RegisterA, AbsoluteXIndexed, _>(memory),
            // LDX abs,Y
            0xBE => self.load::<RegisterX, AbsoluteYIndexed, _>(memory),
            // CPY #imm
            0xC0 => self.perform_alu_operation::<RegisterY, Immediate, _>(memory, false, true, true),
            // CMP (zp,X)
            0xC1 => self.perform_alu_operation::<RegisterA, ZeroPageXIndexedIndirect, _>(memory, false, true, true),
            // CPY zp
            0xC4 => self.perform_alu_operation::<RegisterY, ZeroPage, _>(memory, false, true, true),
            // CMP zp
            0xC5 => self.perform_alu_operation::<RegisterA, ZeroPage, _>(memory, false, true, true),
            // DEC zp
            0xC6 => self.decrement::<ZeroPage, _>(memory),
            // INY
            0xC8 => self.increment::<RegisterY, _>(memory),
            // CMP #imm
            0xC9 => self.perform_alu_operation::<RegisterA, Immediate, _>(memory, false, true, true),
            // DEX
            0xCA => self.decrement::<RegisterX, _>(memory),
            // CPY abs
            0xCC => self.perform_alu_operation::<RegisterY, Absolute, _>(memory, false, true, true),
            // CMP abs
            0xCD => self.perform_alu_operation::<RegisterA, Absolute, _>(memory, false, true, true),
            // DEC abs
            0xCE => self.decrement::<Absolute, _>(memory),
            // BNE off
            0xD0 => self.handle_branch_operation(memory, !is_bit_set(p, STATUS_Z)),
            // CMP (zp),Y
            0xD1 => self.perform_alu_operation::<RegisterA, ZeroPageIndirectYIndexed, _>(memory, false, true, true),
            // CMP (zp)
            0xD2 => self.perform_alu_operation::<RegisterA, ZeroPageIndirect, _>(memory, false, true, true),
            // CMP zp,X
            0xD5 => self.perform_alu_operation::<RegisterA, ZeroPageXIndexed, _>(memory, false, true, true),
            // DEC zp,X
            0xD6 => self.decrement::<ZeroPageXIndexed, _>(memory),
            // CLD
            0xD8 => self.p = clear_bit(p, STATUS_D),
            // CMP abs,Y
            0xD9 => self.perform_alu_operation::<RegisterA, AbsoluteYIndexed, _>(memory, false, true, true),
            // PHX
            0xDA => self.push_register::<RegisterX, _>(memory),
            // CMP abs,X
            0xDD => self.perform_alu_operation::<RegisterA, AbsoluteXIndexed, _>(memory, false, true, true),
            // DEC abs,X
            0xDE => self.decrement::<AbsoluteXIndexed, _>(memory),
            // CPX #imm
            0xE0 => self.perform_alu_operation::<RegisterX, Immediate, _>(memory, false, true, true),
            // SBC (zp,X)
            0xE1 => self.perform_alu_operation::<RegisterA, ZeroPageXIndexedIndirect, _>(memory, true, false, true),
            // CPX zp
            0xE4 => self.perform_alu_operation::<RegisterX, ZeroPage, _>(memory, false, true, true),
            // SBC zp
            0xE5 => self.perform_alu_operation::<RegisterA, ZeroPage, _>(memory, true, false, true),
            // INC zp
            0xE6 => self.increment::<ZeroPage, _>(memory),
            // INX
            0xE8 => self.increment::<RegisterX, _>(memory),
            // SBC #imm
            0xE9 => self.perform_alu_operation::<RegisterA, Immediate, _>(memory, true, false, true),
            // NOP
            0xEA => (),
            // CPX abs
            0xEC => self.perform_alu_operation::<RegisterX, Absolute, _>(memory, false, true, true),
            // SBC abs
            0xED => self.perform_alu_operation::<RegisterA, Absolute, _>(memory, true, false, true),
            // INC abs
            0xEE => self.increment::<Absolute, _>(memory),
            // BEQ off
            0xF0 => self.handle_branch_operation(memory, is_bit_set(p, STATUS_Z)),
            // SBC (zp),Y
            0xF1 => self.perform_alu_operation::<RegisterA, ZeroPageIndirectYIndexed, _>(memory, true, false, true),
            // SBC (zp)
            0xF2 => self.perform_alu_operation::<RegisterA, ZeroPageIndirect, _>(memory, true, false, true),
            // SBC zp,X
            0xF5 => self.perform_alu_operation::<RegisterA, ZeroPageXIndexed, _>(memory, true, false, true),
            // INC zp,X
            0xF6 => self.increment::<ZeroPageXIndexed, _>(memory),
            // SED
            0xF8 => self.p = set_bit(p, STATUS_D),
            // SBC abs,Y
            0xF9 => self.perform_alu_operation::<RegisterA, AbsoluteYIndexed, _>(memory, true, false, true),
            // PLX
            0xFA => self.pull_register::<RegisterX, _>(memory),
            // SBC abs,X
            0xFD => self.perform_alu_operation::<RegisterA, AbsoluteXIndexed, _>(memory, true, false, true),
            // INC abs,X
            0xFE => self.increment::<AbsoluteXIndexed, _>(memory),
            x => {
                return Err(UnknownOpcode { opcode: x, pc });
            },
        }
        Ok(())
    }

    /// Runs the processor for `steps` steps, or up to the first opcode that
    /// it does not know.
    pub fn run<M: Memory>(&mut self, memory: &mut M, steps: usize) -> (result: Result<(), UnknownOpcode>)
        requires
            old(memory).wf(),
        ensures
            final(memory).wf(),
            (result, machine(final(self), final(memory))) == run_spec::<M>(
                machine(old(self), old(memory)),
                steps as nat,
            ),
    {
        let mut done: usize = 0;
        while done < steps
            invariant
                done <= steps,
                memory.wf(),
                (Ok::<(), UnknownOpcode>(()), machine(self, memory)) == run_spec::<M>(
                    machine(old(self), old(memory)),
                    done as nat,
                ),
            decreases steps - done,
        {
            proof {
                lemma_step_ok::<M>(machine(self, memory));
            }
            let result = self.step(memory);
            done += 1;
            if result.is_err() {
                proof {
                    lemma_run_stays_failed::<M>(machine(old(self), old(memory)), done as nat, steps as nat);
                }
                return result;
            }
        }
        Ok(())
    }

    /// The registers in one line of text.
    pub fn describe(&self) -> (text: String)
        ensures
            text@ == described(self@),
    {
        proof {
            reveal_strlit("N");
            reveal_strlit("n");
            reveal_strlit("V");
            reveal_strlit("v");
            reveal_strlit("B");
            reveal_strlit("b");
            reveal_strlit("D");
            reveal_strlit("d");
            reveal_strlit("I");
            reveal_strlit("i");
            reveal_strlit("Z");
            reveal_strlit("z");
            reveal_strlit("C");
            reveal_strlit("c");
        }
        let mut text = String::new();
        text.append("PC:");
        append_hex_word(&mut text, self.pc);
        text.append(" A:");
        append_hex_byte(&mut text, self.a);
        text.append(" X:");
        append_hex_byte(&mut text, self.x);
        text.append(" Y:");
        append_hex_byte(&mut text, self.y);
        text.append(" S:01");
        append_hex_byte(&mut text, self.s);
        text.append(" P:");
        append_either(&mut text, is_bit_set(self.p, STATUS_N), "N", "n");
        append_either(&mut text, is_bit_set(self.p, STATUS_V), "V", "v");
        text.append("1");
        append_either(&mut text, is_bit_set(self.p, STATUS_B), "B", "b");
        append_either(&mut text, is_bit_set(self.p, STATUS_D), "D", "d");
        append_either(&mut text, is_bit_set(self.p, STATUS_I), "I", "i");
        append_either(&mut text, is_bit_set(self.p, STATUS_Z), "Z", "z");
        append_either(&mut text, is_bit_set(self.p, STATUS_C), "C", "c");
        text
    }

    // Ways to inspect the state of the CPU, for debugging and visualization
    // purposes.
    pub fn get_pc(&self) -> (pc: u16)
        ensures
            pc == self@.pc,
    {
        self.pc
    }

    pub fn get_a(&self) -> (a: u8)
        ensures
            a == self@.a,
    {
        self.a
    }

    pub fn get_x(&self) -> (x: u8)
        ensures
            x == self@.x,
    {
        self.x
    }

    pub fn get_y(&self) -> (y: u8)
        ensures
            y == self@.y,
    {
        self.y
    }

    pub fn get_s(&self) -> (s: u8)
        ensures
            s == self@.s,
    {
        self.s
    }

    /// The status register. Bit 5 reads as 1 always.
    pub fn get_p(&self) -> (p: u8)
        ensures
            p == self@.p,
            is_bit_set(p, STATUS_1),
    {
        proof {
            use_type_invariant(self);
        }
        self.p
    }

    /// Raises the overflow flag, as the processor's SO pin does.
    pub fn set_overflow(&mut self)
        ensures
            final(self)@ == old(self)@.with_p(set_bit(old(self)@.p, STATUS_V)),
    {
        proof {
            use_type_invariant(&*self);
            lemma_bit_5_stays();
        }
        self.p = set_bit(self.p, STATUS_V)
    }

    // Real 6502s don't have these capabilities: they are for hosts that
    // drive the processor from outside.
    pub fn set_pc(&mut self, nu: u16)
        ensures
            final(self)@ == old(self)@.with_pc(nu),
    {
        proof {
            use_type_invariant(&*self);
            lemma_bit_5_stays();
        }
        self.pc = nu
    }

    pub fn set_a(&mut self, nu: u8)
        ensures
            final(self)@ == old(self)@.with_a(nu),
    {
        proof {
            use_type_invariant(&*self);
            lemma_bit_5_stays();
        }
        self.a = nu
    }

    pub fn set_x(&mut self, nu: u8)
        ensures
            final(self)@ == old(self)@.with_x(nu),
    {
        proof {
            use_type_invariant(&*self);
            lemma_bit_5_stays();
        }
        self.x = nu
    }

    pub fn set_y(&mut self, nu: u8)
        ensures
            final(self)@ == old(self)@.with_y(nu),
    {
        proof {
            use_type_invariant(&*self);
            lemma_bit_5_stays();
        }
        self.y = nu
    }

    pub fn set_s(&mut self, nu: u8)
        ensures
            final(self)@ == old(self)@.with_s(nu),
    {
        proof {
            use_type_invariant(&*self);
            lemma_bit_5_stays();
        }
        self.s = nu
    }

    /// Sets the status register. Bit 5 is hardwired: it reads as 1
    /// whatever is given for it.
    pub fn set_p(&mut self, nu: u8)
        ensures
            final(self)@ == old(self)@.with_p(nu | STATUS_1),
            is_bit_set(final(self)@.p, STATUS_1),
    {
        proof {
            use_type_invariant(&*self);
            lemma_bit_5_stays();
        }
        self.p = nu | STATUS_1
    }
}

} // verus!
