// A Nintendo Entertainment System in two parts: a 6502 processor that runs
// one instruction at a time against a bus, and the console's bus with its
// picture unit, work RAM, controllers and cartridge, which draws a frame
// scanline by scanline while the processor runs.
//
// Every type has a model in plain values (its view), every operation a
// function over these models that says what it does, and every executable
// function is proved to do just that.
use vstd::prelude::*;

pub mod bits;
pub mod cartridge;
pub mod cpu;
pub mod font;
pub mod functional_test;
pub mod memory;
pub mod ramputer;
pub mod system;
pub mod text;

pub use cartridge::{Cartridge, MirroringType};
pub use cpu::{
    Cpu, UnknownOpcode, STATUS_1, STATUS_B, STATUS_C, STATUS_D, STATUS_I, STATUS_N, STATUS_V,
    STATUS_Z,
};
pub use memory::Memory;
pub use ramputer::RAMputer;
pub use system::System;

verus! {

/// Size of the console's work RAM in bytes.
pub const WORK_RAM_SIZE: usize = 2048;

} // verus!
