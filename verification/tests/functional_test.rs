use inaccunes::functional_test::{
    run_functional_test, Verdict, BRK_TEST, BRK_TEST_END, RTI_TEST, RTI_TEST_END, TEST_START,
    TEST_SUCCESS,
};
use inaccunes::{Cpu, RAMputer, UnknownOpcode, STATUS_D};

fn jump_to(address: u16) -> [u8; 3] {
    [0x4C, address as u8, (address >> 8) as u8]
}

/// A RAM with `JMP success` at the success address.
fn ram() -> RAMputer {
    let mut ram = RAMputer::new();
    assert!(ram.load(TEST_SUCCESS, &jump_to(TEST_SUCCESS)));
    ram
}

#[test]
fn addresses_of_the_test_program() {
    assert_eq!(TEST_START, 0x0400);
    assert_eq!(TEST_SUCCESS, 0x3469);
    assert_eq!((BRK_TEST, BRK_TEST_END), (0x09C5, 0x0A11));
    assert_eq!((RTI_TEST, RTI_TEST_END), (0x343A, 0x345D));
}

#[test]
fn reaching_the_success_loop_passes() {
    let mut ram = ram();
    // CLD; JMP success
    assert!(ram.load(0x0400, &[0xD8]));
    assert!(ram.load(0x0401, &jump_to(TEST_SUCCESS)));
    let mut cpu = Cpu::new();
    cpu.set_pc(0x1234);
    assert_eq!(run_functional_test(&mut cpu, &mut ram, 1000), Some(Verdict::Passed));
    assert_eq!(cpu.get_pc(), TEST_SUCCESS);
}

#[test]
fn a_halt_elsewhere_fails() {
    let mut ram = ram();
    // CLD; BNE -2
    assert!(ram.load(0x0400, &[0xD8, 0xA9, 0x01, 0xD0, 0xFE]));
    let mut cpu = Cpu::new();
    assert_eq!(run_functional_test(&mut cpu, &mut ram, 1000), Some(Verdict::Failed(0x0403)));
    assert_eq!(cpu.get_pc(), 0x0403);
}

#[test]
fn the_run_ends_within_its_rounds_or_not_at_all() {
    let mut ram = ram();
    assert!(ram.load(0x0400, &[0xD8]));
    assert!(ram.load(0x0401, &jump_to(TEST_SUCCESS)));
    // CLD, JMP, and the JMP that does not move
    let mut cpu = Cpu::new();
    assert_eq!(run_functional_test(&mut cpu, &mut ram, 3), Some(Verdict::Passed));
    let mut cpu = Cpu::new();
    assert_eq!(run_functional_test(&mut cpu, &mut ram, 2), None);
    assert_eq!(cpu.get_pc(), TEST_SUCCESS);
    let mut cpu = Cpu::new();
    assert_eq!(run_functional_test(&mut cpu, &mut ram, 0), None);
    assert_eq!(cpu.get_pc(), TEST_START);
}

#[test]
fn a_halt_in_decimal_mode_is_skipped() {
    let mut ram = ram();
    // SED; BNE -2; CLD; JMP success
    assert!(ram.load(0x0400, &[0xF8, 0xA9, 0x01, 0xD0, 0xFE, 0xD8]));
    assert!(ram.load(0x0406, &jump_to(TEST_SUCCESS)));
    let mut cpu = Cpu::new();
    assert_eq!(run_functional_test(&mut cpu, &mut ram, 1000), Some(Verdict::Passed));
    assert_eq!(cpu.get_p() & STATUS_D, 0);
}

#[test]
fn the_tests_of_brk_and_rti_are_skipped() {
    let mut ram = ram();
    assert!(ram.load(0x0400, &[0xD8]));
    assert!(ram.load(0x0401, &jump_to(BRK_TEST)));
    assert!(ram.load(BRK_TEST, &[0x00]));
    assert!(ram.load(BRK_TEST_END, &jump_to(RTI_TEST)));
    assert!(ram.load(RTI_TEST, &[0x40]));
    assert!(ram.load(RTI_TEST_END, &jump_to(TEST_SUCCESS)));
    let mut cpu = Cpu::new();
    assert_eq!(run_functional_test(&mut cpu, &mut ram, 1000), Some(Verdict::Passed));
}

#[test]
fn an_unknown_opcode_ends_the_run() {
    let mut ram = ram();
    assert!(ram.load(0x0400, &[0xD8, 0xEA, 0x02]));
    let mut cpu = Cpu::new();
    assert_eq!(
        run_functional_test(&mut cpu, &mut ram, 1000),
        Some(Verdict::Unknown(UnknownOpcode { opcode: 0x02, pc: 0x0402 }))
    );
}
