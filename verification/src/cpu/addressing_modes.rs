use crate::bits::word;
use crate::cpu::{fetch, Cpu};
use crate::memory::{machine, Machine, Memory};
use vstd::prelude::*;

verus! {

/// The ways in which an instruction names what it works on.
pub enum Mode {
    /// The byte after the opcode is the value.
    Immediate,
    /// The byte after the opcode is an address in page zero.
    ZeroPage,
    /// Page zero, the operand byte plus X, wrapping within the page.
    ZeroPageXIndexed,
    /// Page zero, the operand byte plus Y, wrapping within the page.
    ZeroPageYIndexed,
    /// The address stored in page zero at the operand byte plus X.
    ZeroPageXIndexedIndirect,
    /// The address stored in page zero at the operand byte, plus Y.
    ZeroPageIndirectYIndexed,
    /// The address stored in page zero at the operand byte.
    ZeroPageIndirect,
    /// The two bytes after the opcode are the address, low byte first.
    Absolute,
    /// The absolute address plus X.
    AbsoluteXIndexed,
    /// The absolute address plus Y.
    AbsoluteYIndexed,
    /// The accumulator.
    RegisterA,
    /// Index register X.
    RegisterX,
    /// Index register Y.
    RegisterY,
    /// The stack pointer.
    RegisterS,
}

/// What an addressing mode comes to once its operand bytes are fetched.
pub enum Operand {
    Value(u8),
    Address(u16),
    RegisterA,
    RegisterX,
    RegisterY,
    RegisterS,
}

/// The word at the program counter, low byte first, and the machine after
/// both bytes were fetched.
pub open spec fn fetch_word<M: Memory>(m: Machine<M::State>) -> (u16, Machine<M::State>) {
    let (low, m1) = fetch::<M>(m);
    let (high, m2) = fetch::<M>(m1);
    (word(low, high), m2)
}

/// The word whose low byte is read at `low_address` and whose high byte is
/// then read at `high_address`.
pub open spec fn read_word<M: Memory>(m: Machine<M::State>, low_address: u16, high_address: u16) -> (
    u16,
    Machine<M::State>,
) {
    let (low, m1) = M::read_spec(m, low_address);
    let (high, m2) = M::read_spec(m1, high_address);
    (word(low, high), m2)
}

/// The operand that `mode` names on the machine `m`, and the machine after
/// the operand bytes were fetched and any pointer was followed.
pub open spec fn resolve<M: Memory>(mode: Mode, m: Machine<M::State>) -> (Operand, Machine<M::State>) {
    match mode {
        Mode::Immediate => {
            let (value, m1) = fetch::<M>(m);
            (Operand::Value(value), m1)
        },
        Mode::ZeroPage => {
            let (zp, m1) = fetch::<M>(m);
            (Operand::Address(zp as u16), m1)
        },
        Mode::ZeroPageXIndexed => {
            let (zp, m1) = fetch::<M>(m);
            (Operand::Address(zp.wrapping_add(m1.cpu.x) as u16), m1)
        },
        Mode::ZeroPageYIndexed => {
            let (zp, m1) = fetch::<M>(m);
            (Operand::Address(zp.wrapping_add(m1.cpu.y) as u16), m1)
        },
        Mode::ZeroPageXIndexedIndirect => {
            let (zp, m1) = fetch::<M>(m);
            let pointer = zp.wrapping_add(m1.cpu.x);
            let (address, m2) = read_word::<M>(m1, pointer as u16, pointer.wrapping_add(1) as u16);
            (Operand::Address(address), m2)
        },
        Mode::ZeroPageIndirectYIndexed => {
            let (zp, m1) = fetch::<M>(m);
            let (base, m2) = read_word::<M>(m1, zp as u16, (zp + 1) as u16);
            (Operand::Address(base.wrapping_add(m2.cpu.y as u16)), m2)
        },
        Mode::ZeroPageIndirect => {
            let (zp, m1) = fetch::<M>(m);
            let (address, m2) = read_word::<M>(m1, zp as u16, (zp + 1) as u16);
            (Operand::Address(address), m2)
        },
        Mode::Absolute => {
            let (address, m1) = fetch_word::<M>(m);
            (Operand::Address(address), m1)
        },
        Mode::AbsoluteXIndexed => {
            let (base, m1) = fetch_word::<M>(m);
            (Operand::Address(base.wrapping_add(m1.cpu.x as u16)), m1)
        },
        Mode::AbsoluteYIndexed => {
            let (base, m1) = fetch_word::<M>(m);
            (Operand::Address(base.wrapping_add(m1.cpu.y as u16)), m1)
        },
        Mode::RegisterA => (Operand::RegisterA, m),
        Mode::RegisterX => (Operand::RegisterX, m),
        Mode::RegisterY => (Operand::RegisterY, m),
        Mode::RegisterS => (Operand::RegisterS, m),
    }
}

/// The value that `operand` holds on the machine `m`, and the machine after
/// it was read.
pub open spec fn operand_value<M: Memory>(operand: Operand, m: Machine<M::State>) -> (
    u8,
    Machine<M::State>,
) {
    match operand {
        Operand::Value(value) => (value, m),
        Operand::Address(address) => M::read_spec(m, address),
        Operand::RegisterA => (m.cpu.a, m),
        Operand::RegisterX => (m.cpu.x, m),
        Operand::RegisterY => (m.cpu.y, m),
        Operand::RegisterS => (m.cpu.s, m),
    }
}

/// The machine after `value` was put into `operand`. An immediate value
/// takes no store: the machine stays as it is.
pub open spec fn operand_store<M: Memory>(operand: Operand, m: Machine<M::State>, value: u8) -> Machine<
    M::State,
> {
    match operand {
        Operand::Value(_) => m,
        Operand::Address(address) => M::write_spec(m, address, value),
        Operand::RegisterA => m.with_cpu(m.cpu.with_a(value)),
        Operand::RegisterX => m.with_cpu(m.cpu.with_x(value)),
        Operand::RegisterY => m.with_cpu(m.cpu.with_y(value)),
        Operand::RegisterS => m.with_cpu(m.cpu.with_s(value)),
    }
}

/// An addressing mode that we can get a value from.
pub trait ReadAddressingMode<M: Memory>: Sized {
    /// Which mode this type stands for.
    spec fn mode() -> Mode;

    /// The operand that a value of this type holds.
    spec fn operand(&self) -> Operand;

    /// Fetches the operand bytes at the program counter and follows pointers.
    fn new(cpu: &mut Cpu, memory: &mut M) -> (am: Self)
        requires
            old(memory).wf(),
        ensures
            final(memory).wf(),
            (am.operand(), machine(final(cpu), final(memory))) == resolve::<M>(
                Self::mode(),
                machine(old(cpu), old(memory)),
            ),
    ;

    fn get_value(&self, cpu: &mut Cpu, memory: &mut M) -> (value: u8)
        requires
            old(memory).wf(),
        ensures
            final(memory).wf(),
            (value, machine(final(cpu), final(memory))) == operand_value::<M>(
                self.operand(),
                machine(old(cpu), old(memory)),
            ),
    ;
}

/// An addressing mode that we can (also) put a value into.
pub trait WriteAddressingMode<M: Memory>: ReadAddressingMode<M> {
    fn put_value(&self, cpu: &mut Cpu, memory: &mut M, value: u8)
        requires
            old(memory).wf(),
        ensures
            final(memory).wf(),
            machine(final(cpu), final(memory)) == operand_store::<M>(
                self.operand(),
                machine(old(cpu), old(memory)),
                value,
            ),
    ;
}

/// An addressing mode that comes to an address on the bus.
pub trait AddressibleAddressingMode {
    /// The address that a value of this type holds.
    spec fn address(&self) -> u16;

    fn get_address(&self) -> (address: u16)
        ensures
            address == self.address(),
    ;
}

pub struct Immediate(u8);

impl<M: Memory> ReadAddressingMode<M> for Immediate {
    open spec fn mode() -> Mode {
        Mode::Immediate
    }

    closed spec fn operand(&self) -> Operand {
        Operand::Value(self.0)
    }

    fn new(cpu: &mut Cpu, memory: &mut M) -> (am: Self) {
        Immediate(cpu.read_pc_and_post_inc(memory))
    }

    fn get_value(&self, _cpu: &mut Cpu, _memory: &mut M) -> (value: u8) {
        self.0
    }
}

pub struct ZeroPage(u16);

impl<M: Memory> ReadAddressingMode<M> for ZeroPage {
    open spec fn mode() -> Mode {
        Mode::ZeroPage
    }

    open spec fn operand(&self) -> Operand {
        Operand::Address(self.address())
    }

    fn new(cpu: &mut Cpu, memory: &mut M) -> (am: Self) {
        let address = cpu.read_pc_and_post_inc(memory);
        ZeroPage(address as u16)
    }

    fn get_value(&self, cpu: &mut Cpu, memory: &mut M) -> (value: u8) {
        memory.read_byte(cpu, self.0)
    }
}

impl<M: Memory> WriteAddressingMode<M> for ZeroPage {
    fn put_value(&self, cpu: &mut Cpu, memory: &mut M, value: u8) {
        memory.write_byte(cpu, self.0, value);
    }
}

impl AddressibleAddressingMode for ZeroPage {
    closed spec fn address(&self) -> u16 {
        self.0
    }

    fn get_address(&self) -> (address: u16) {
        self.0
    }
}

pub struct ZeroPageXIndexed(u16);

impl<M: Memory> ReadAddressingMode<M> for ZeroPageXIndexed {
    open spec fn mode() -> Mode {
        Mode::ZeroPageXIndexed
    }

    open spec fn operand(&self) -> Operand {
        Operand::Address(self.address())
    }

    fn new(cpu: &mut Cpu, memory: &mut M) -> (am: Self) {
        let address = cpu.read_pc_and_post_inc(memory).wrapping_add(cpu.get_x());
        ZeroPageXIndexed(address as u16)
    }

    fn get_value(&self, cpu: &mut Cpu, memory: &mut M) -> (value: u8) {
        memory.read_byte(cpu, self.0)
    }
}

impl<M: Memory> WriteAddressingMode<M> for ZeroPageXIndexed {
    fn put_value(&self, cpu: &mut Cpu, memory: &mut M, value: u8) {
        memory.write_byte(cpu, self.0, value);
    }
}

impl AddressibleAddressingMode for ZeroPageXIndexed {
    closed spec fn address(&self) -> u16 {
        self.0
    }

    fn get_address(&self) -> (address: u16) {
        self.0
    }
}

pub struct ZeroPageYIndexed(u16);

impl<M: Memory> ReadAddressingMode<M> for ZeroPageYIndexed {
    open spec fn mode() -> Mode {
        Mode::ZeroPageYIndexed
    }

    open spec fn operand(&self) -> Operand {
        Operand::Address(self.address())
    }

    fn new(cpu: &mut Cpu, memory: &mut M) -> (am: Self) {
        let address = cpu.read_pc_and_post_inc(memory).wrapping_add(cpu.get_y());
        ZeroPageYIndexed(address as u16)
    }

    fn get_value(&self, cpu: &mut Cpu, memory: &mut M) -> (value: u8) {
        memory.read_byte(cpu, self.0)
    }
}

impl<M: Memory> WriteAddressingMode<M> for ZeroPageYIndexed {
    fn put_value(&self, cpu: &mut Cpu, memory: &mut M, value: u8) {
        memory.write_byte(cpu, self.0, value);
    }
}

impl AddressibleAddressingMode for ZeroPageYIndexed {
    closed spec fn address(&self) -> u16 {
        self.0
    }

    fn get_address(&self) -> (address: u16) {
        self.0
    }
}

pub struct ZeroPageXIndexedIndirect(u16);

impl<M: Memory> ReadAddressingMode<M> for ZeroPageXIndexedIndirect {
    open spec fn mode() -> Mode {
        Mode::ZeroPageXIndexedIndirect
    }

    open spec fn operand(&self) -> Operand {
        Operand::Address(self.address())
    }

    fn new(cpu: &mut Cpu, memory: &mut M) -> (am: Self) {
        let address_of_address = cpu.read_pc_and_post_inc(memory).wrapping_add(cpu.get_x());
        let address_low = memory.read_byte(cpu, address_of_address as u16);
        // The pointer's high byte wraps within page zero.
        let address_high = memory.read_byte(cpu, address_of_address.wrapping_add(1) as u16);
        ZeroPageXIndexedIndirect(word(address_low, address_high))
    }

    fn get_value(&self, cpu: &mut Cpu, memory: &mut M) -> (value: u8) {
        memory.read_byte(cpu, self.0)
    }
}

impl<M: Memory> WriteAddressingMode<M> for ZeroPageXIndexedIndirect {
    fn put_value(&self, cpu: &mut Cpu, memory: &mut M, value: u8) {
        memory.write_byte(cpu, self.0, value);
    }
}

impl AddressibleAddressingMode for ZeroPageXIndexedIndirect {
    closed spec fn address(&self) -> u16 {
        self.0
    }

    fn get_address(&self) -> (address: u16) {
        self.0
    }
}

pub struct ZeroPageIndirectYIndexed(u16);

impl<M: Memory> ReadAddressingMode<M> for ZeroPageIndirectYIndexed {
    open spec fn mode() -> Mode {
        Mode::ZeroPageIndirectYIndexed
    }

    open spec fn operand(&self) -> Operand {
        Operand::Address(self.address())
    }

    fn new(cpu: &mut Cpu, memory: &mut M) -> (am: Self) {
        let address_of_address = cpu.read_pc_and_post_inc(memory);
        let base_low = memory.read_byte(cpu, address_of_address as u16);
        let base_high = memory.read_byte(cpu, address_of_address as u16 + 1);
        let base = word(base_low, base_high);
        ZeroPageIndirectYIndexed(base.wrapping_add(cpu.get_y() as u16))
    }

    fn get_value(&self, cpu: &mut Cpu, memory: &mut M) -> (value: u8) {
        memory.read_byte(cpu, self.0)
    }
}

impl<M: Memory> WriteAddressingMode<M> for ZeroPageIndirectYIndexed {
    fn put_value(&self, cpu: &mut Cpu, memory: &mut M, value: u8) {
        memory.write_byte(cpu, self.0, value);
    }
}

impl AddressibleAddressingMode for ZeroPageIndirectYIndexed {
    closed spec fn address(&self) -> u16 {
        self.0
    }

    fn get_address(&self) -> (address: u16) {
        self.0
    }
}

pub struct ZeroPageIndirect(u16);

impl<M: Memory> ReadAddressingMode<M> for ZeroPageIndirect {
    open spec fn mode() -> Mode {
        Mode::ZeroPageIndirect
    }

    open spec fn operand(&self) -> Operand {
        Operand::Address(self.address())
    }

    fn new(cpu: &mut Cpu, memory: &mut M) -> (am: Self) {
        let address_of_address = cpu.read_pc_and_post_inc(memory);
        let address_low = memory.read_byte(cpu, address_of_address as u16);
        let address_high = memory.read_byte(cpu, address_of_address as u16 + 1);
        ZeroPageIndirect(word(address_low, address_high))
    }

    fn get_value(&self, cpu: &mut Cpu, memory: &mut M) -> (value: u8) {
        memory.read_byte(cpu, self.0)
    }
}

impl<M: Memory> WriteAddressingMode<M> for ZeroPageIndirect {
    fn put_value(&self, cpu: &mut Cpu, memory: &mut M, value: u8) {
        memory.write_byte(cpu, self.0, value);
    }
}

impl AddressibleAddressingMode for ZeroPageIndirect {
    closed spec fn address(&self) -> u16 {
        self.0
    }

    fn get_address(&self) -> (address: u16) {
        self.0
    }
}

pub struct Absolute(u16);

impl<M: Memory> ReadAddressingMode<M> for Absolute {
    open spec fn mode() -> Mode {
        Mode::Absolute
    }

    open spec fn operand(&self) -> Operand {
        Operand::Address(self.address())
    }

    fn new(cpu: &mut Cpu, memory: &mut M) -> (am: Self) {
        let a = cpu.read_pc_and_post_inc(memory);
        let b = cpu.read_pc_and_post_inc(memory);
        Absolute(word(a, b))
    }

    fn get_value(&self, cpu: &mut Cpu, memory: &mut M) -> (value: u8) {
        memory.read_byte(cpu, self.0)
    }
}

impl<M: Memory> WriteAddressingMode<M> for Absolute {
    fn put_value(&self, cpu: &mut Cpu, memory: &mut M, value: u8) {
        memory.write_byte(cpu, self.0, value);
    }
}

impl AddressibleAddressingMode for Absolute {
    closed spec fn address(&self) -> u16 {
        self.0
    }

    fn get_address(&self) -> (address: u16) {
        self.0
    }
}

pub struct AbsoluteXIndexed(u16);

impl<M: Memory> ReadAddressingMode<M> for AbsoluteXIndexed {
    open spec fn mode() -> Mode {
        Mode::AbsoluteXIndexed
    }

    open spec fn operand(&self) -> Operand {
        Operand::Address(self.address())
    }

    fn new(cpu: &mut Cpu, memory: &mut M) -> (am: Self) {
        let a = cpu.read_pc_and_post_inc(memory);
        let b = cpu.read_pc_and_post_inc(memory);
        let address = word(a, b);
        AbsoluteXIndexed(address.wrapping_add(cpu.get_x() as u16))
    }

    fn get_value(&self, cpu: &mut Cpu, memory: &mut M) -> (value: u8) {
        memory.read_byte(cpu, self.0)
    }
}

impl<M: Memory> WriteAddressingMode<M> for AbsoluteXIndexed {
    fn put_value(&self, cpu: &mut Cpu, memory: &mut M, value: u8) {
        memory.write_byte(cpu, self.0, value);
    }
}

impl AddressibleAddressingMode for AbsoluteXIndexed {
    closed spec fn address(&self) -> u16 {
        self.0
    }

    fn get_address(&self) -> (address: u16) {
        self.0
    }
}

pub struct AbsoluteYIndexed(u16);

impl<M: Memory> ReadAddressingMode<M> for AbsoluteYIndexed {
    open spec fn mode() -> Mode {
        Mode::AbsoluteYIndexed
    }

    open spec fn operand(&self) -> Operand {
        Operand::Address(self.address())
    }

    fn new(cpu: &mut Cpu, memory: &mut M) -> (am: Self) {
        let a = cpu.read_pc_and_post_inc(memory);
        let b = cpu.read_pc_and_post_inc(memory);
        let address = word(a, b);
        AbsoluteYIndexed(address.wrapping_add(cpu.get_y() as u16))
    }

    fn get_value(&self, cpu: &mut Cpu, memory: &mut M) -> (value: u8) {
        memory.read_byte(cpu, self.0)
    }
}

impl<M: Memory> WriteAddressingMode<M> for AbsoluteYIndexed {
    fn put_value(&self, cpu: &mut Cpu, memory: &mut M, value: u8) {
        memory.write_byte(cpu, self.0, value);
    }
}

impl AddressibleAddressingMode for AbsoluteYIndexed {
    closed spec fn address(&self) -> u16 {
        self.0
    }

    fn get_address(&self) -> (address: u16) {
        self.0
    }
}

pub struct RegisterA;

impl<M: Memory> ReadAddressingMode<M> for RegisterA {
    open spec fn mode() -> Mode {
        Mode::RegisterA
    }

    open spec fn operand(&self) -> Operand {
        Operand::RegisterA
    }

    fn new(_cpu: &mut Cpu, _memory: &mut M) -> (am: Self) {
        RegisterA
    }

    fn get_value(&self, cpu: &mut Cpu, _memory: &mut M) -> (value: u8) {
        cpu.get_a()
    }
}

impl<M: Memory> WriteAddressingMode<M> for RegisterA {
    fn put_value(&self, cpu: &mut Cpu, _memory: &mut M, value: u8) {
        cpu.set_a(value);
    }
}

pub struct RegisterX;

impl<M: Memory> ReadAddressingMode<M> for RegisterX {
    open spec fn mode() -> Mode {
        Mode::RegisterX
    }

    open spec fn operand(&self) -> Operand {
        Operand::RegisterX
    }

    fn new(_cpu: &mut Cpu, _memory: &mut M) -> (am: Self) {
        RegisterX
    }

    fn get_value(&self, cpu: &mut Cpu, _memory: &mut M) -> (value: u8) {
        cpu.get_x()
    }
}

impl<M: Memory> WriteAddressingMode<M> for RegisterX {
    fn put_value(&self, cpu: &mut Cpu, _memory: &mut M, value: u8) {
        cpu.set_x(value);
    }
}

pub struct RegisterY;

impl<M: Memory> ReadAddressingMode<M> for RegisterY {
    open spec fn mode() -> Mode {
        Mode::RegisterY
    }

    open spec fn operand(&self) -> Operand {
        Operand::RegisterY
    }

    fn new(_cpu: &mut Cpu, _memory: &mut M) -> (am: Self) {
        RegisterY
    }

    fn get_value(&self, cpu: &mut Cpu, _memory: &mut M) -> (value: u8) {
        cpu.get_y()
    }
}

impl<M: Memory> WriteAddressingMode<M> for RegisterY {
    fn put_value(&self, cpu: &mut Cpu, _memory: &mut M, value: u8) {
        cpu.set_y(value);
    }
}

pub struct RegisterS;

impl<M: Memory> ReadAddressingMode<M> for RegisterS {
    open spec fn mode() -> Mode {
        Mode::RegisterS
    }

    open spec fn operand(&self) -> Operand {
        Operand::RegisterS
    }

    fn new(_cpu: &mut Cpu, _memory: &mut M) -> (am: Self) {
        RegisterS
    }

    fn get_value(&self, cpu: &mut Cpu, _memory: &mut M) -> (value: u8) {
        cpu.get_s()
    }
}

impl<M: Memory> WriteAddressingMode<M> for RegisterS {
    fn put_value(&self, cpu: &mut Cpu, _memory: &mut M, value: u8) {
        cpu.set_s(value);
    }
}

} // verus!
