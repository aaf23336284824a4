use crate::bits::is_bit_set;
use crate::cpu::{step_spec, Cpu, UnknownOpcode, STATUS_D};
use crate::memory::{machine, Machine, Memory};
use vstd::prelude::*;

verus! {

/// Where the functional test program begins.
pub const TEST_START: u16 = 0x0400;

/// Where the test of BRK begins, and where the program goes on behind it.
pub const BRK_TEST: u16 = 0x09C5;

pub const BRK_TEST_END: u16 = 0x0A11;

/// Where the test of RTI begins, and where the program goes on behind it.
pub const RTI_TEST: u16 = 0x343A;

pub const RTI_TEST_END: u16 = 0x345D;

/// Where the program loops once every test has passed.
pub const TEST_SUCCESS: u16 = 0x3469;

/// How a run of the functional test program ended.
#[derive(Clone, Copy, Debug, PartialEq, Eq, Structural)]
pub enum Verdict {
    /// The program reached the loop that it ends in when every test passed.
    Passed,
    /// The program came to a halt elsewhere: a test failed at this address.
    Failed(u16),
    /// The program ran into an opcode that the processor does not know.
    Unknown(UnknownOpcode),
}

/// Where the host moves the program counter before a step: past the tests
/// of BRK and RTI, which the processor does not have.
pub open spec fn patched(pc: u16) -> u16 {
    if pc == BRK_TEST {
        BRK_TEST_END
    } else if pc == RTI_TEST {
        RTI_TEST_END
    } else {
        pc
    }
}

/// One round of the host: the program counter is patched, the processor
/// takes a step, and the host looks whether the program counter is where
/// it was before the round. If so the program has come to a halt. A halt
/// with the decimal flag set is a failed test of decimal arithmetic, which
/// the processor does not have: the host goes on two bytes further. Any
/// other halt ends the run.
pub open spec fn round_spec<M: Memory>(m: Machine<M::State>) -> (Option<Verdict>, Machine<M::State>) {
    let old_pc = m.cpu.pc;
    let (result, after) = step_spec::<M>(m.with_cpu(m.cpu.with_pc(patched(old_pc))));
    match result {
        Err(e) => (Some(Verdict::Unknown(e)), after),
        Ok(_) => {
            if after.cpu.pc != old_pc {
                (None, after)
            } else if is_bit_set(after.cpu.p, STATUS_D) {
                (None, after.with_cpu(after.cpu.with_pc(old_pc.wrapping_add(2))))
            } else if old_pc == TEST_SUCCESS {
                (Some(Verdict::Passed), after)
            } else {
                (Some(Verdict::Failed(old_pc)), after)
            }
        },
    }
}

/// The run after up to `rounds` rounds: its verdict, if it has ended, and
/// the machine.
pub open spec fn rounds_spec<M: Memory>(m: Machine<M::State>, rounds: nat) -> (
    Option<Verdict>,
    Machine<M::State>,
)
    decreases rounds,
{
    if rounds == 0 {
        (None, m)
    } else {
        let (verdict, before) = rounds_spec::<M>(m, (rounds - 1) as nat);
        if verdict is Some {
            (verdict, before)
        } else {
            round_spec::<M>(before)
        }
    }
}

/// A run that has ended stays as it is however many rounds are asked for.
pub proof fn lemma_rounds_stay_ended<M: Memory>(m: Machine<M::State>, ended: nat, rounds: nat)
    requires
        rounds_spec::<M>(m, ended).0 is Some,
        ended <= rounds,
    ensures
        rounds_spec::<M>(m, rounds) == rounds_spec::<M>(m, ended),
    decreases rounds,
{
    if ended < rounds {
        lemma_rounds_stay_ended::<M>(m, ended, (rounds - 1) as nat);
    }
}

/// Runs the functional test program that `memory` holds, from the program's
/// start, for up to `max_rounds` rounds. Returns the verdict, or `None`
/// where the program has not come to a halt by then.
pub fn run_functional_test<M: Memory>(cpu: &mut Cpu, memory: &mut M, max_rounds: u64) -> (verdict: Option<
    Verdict,
>)
    requires
        old(memory).wf(),
    ensures
        final(memory).wf(),
        (verdict, machine(final(cpu), final(memory))) == rounds_spec::<M>(
            machine(old(cpu), old(memory)).with_cpu(old(cpu)@.with_pc(TEST_START)),
            max_rounds as nat,
        ),
{
    cpu.set_pc(TEST_START);
    let ghost start = machine(cpu, memory);
    let mut rounds: u64 = 0;
    while rounds < max_rounds
        invariant
            rounds <= max_rounds,
            memory.wf(),
            start == machine(old(cpu), old(memory)).with_cpu(old(cpu)@.with_pc(TEST_START)),
            (None::<Verdict>, machine(cpu, memory)) == rounds_spec::<M>(start, rounds as nat),
        decreases max_rounds - rounds,
    {
        let old_pc = cpu.get_pc();
        if old_pc == BRK_TEST {
            cpu.set_pc(BRK_TEST_END);
        } else if old_pc == RTI_TEST {
            cpu.set_pc(RTI_TEST_END);
        }
        let result = cpu.step(memory);
        rounds += 1;
        let ended = match result {
            Err(e) => Some(Verdict::Unknown(e)),
            Ok(_) => {
                let new_pc = cpu.get_pc();
                if old_pc != new_pc {
                    None
                } else if is_bit_set(cpu.get_p(), STATUS_D) {
                    cpu.set_pc(new_pc.wrapping_add(2));
                    None
                } else if new_pc == TEST_SUCCESS {
                    Some(Verdict::Passed)
                } else {
                    Some(Verdict::Failed(new_pc))
                }
            },
        };
        if ended.is_some() {
            proof {
                lemma_rounds_stay_ended::<M>(start, rounds as nat, max_rounds as nat);
            }
            return ended;
        }
    }
    None
}

} // verus!
