use crate::cpu::{Cpu, CpuState};
use vstd::prelude::*;

verus! {

/// A processor together with the bus it is wired to, as one mathematical value.
///
/// Every bus access is a function from a machine to a machine: the bus may
/// change its own state on a read or a write, and it is handed the processor
/// so that a device can drive the processor's signal lines.
pub struct Machine<S> {
    pub cpu: CpuState,
    pub bus: S,
}

impl<S> Machine<S> {
    /// This machine with its processor replaced.
    pub open spec fn with_cpu(self, cpu: CpuState) -> Machine<S> {
        Machine { cpu, bus: self.bus }
    }
}

/// A byte-addressable bus with a 16-bit address space.
pub trait Memory: Sized {
    /// The mathematical model of the bus.
    type State;

    /// The model of this bus.
    spec fn state(&self) -> Self::State;

    /// Whatever the implementation needs to hold of itself between accesses.
    spec fn wf(&self) -> bool;

    /// The byte that a read of `address` returns, and the machine after it.
    spec fn read_spec(m: Machine<Self::State>, address: u16) -> (u8, Machine<Self::State>);

    /// The machine after `data` was written to `address`.
    spec fn write_spec(m: Machine<Self::State>, address: u16, data: u8) -> Machine<Self::State>;

    fn read_byte(&mut self, cpu: &mut Cpu, address: u16) -> (data: u8)
        requires
            old(self).wf(),
        ensures
            final(self).wf(),
            (data, Machine { cpu: final(cpu)@, bus: final(self).state() }) == Self::read_spec(
                Machine { cpu: old(cpu)@, bus: old(self).state() },
                address,
            ),
    ;

    fn write_byte(&mut self, cpu: &mut Cpu, address: u16, data: u8)
        requires
            old(self).wf(),
        ensures
            final(self).wf(),
            (Machine { cpu: final(cpu)@, bus: final(self).state() }) == Self::write_spec(
                Machine { cpu: old(cpu)@, bus: old(self).state() },
                address,
                data,
            ),
    ;
}

/// The machine that a processor and a bus form.
pub open spec fn machine<M: Memory>(cpu: &Cpu, memory: &M) -> Machine<M::State> {
    Machine { cpu: cpu@, bus: memory.state() }
}

} // verus!
