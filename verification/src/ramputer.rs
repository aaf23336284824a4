use crate::cpu::Cpu;
use crate::memory::{Machine, Memory};
use vstd::prelude::*;

verus! {

/// A computer that is nothing but 64 KiB of RAM: every address reads back
/// what was last written to it.
pub struct RAMputer {
    ram: [u8; 65536],
}

impl RAMputer {
    /// The bytes of the RAM, by address.
    pub closed spec fn contents(&self) -> Seq<u8> {
        self.ram@
    }

    /// A RAM full of zeroes.
    pub fn new() -> (ramputer: RAMputer)
        ensures
            ramputer.contents() == Seq::new(65536, |i: int| 0u8),
    {
        RAMputer { ram: [0u8; 65536] }
    }

    /// Copies `image` into the RAM, its first byte to `start`. Returns
    /// `false`, and leaves the RAM as it is, where the image does not fit.
    pub fn load(&mut self, start: u16, image: &[u8]) -> (fits: bool)
        ensures
            fits == (start + image@.len() <= 65536),
            fits ==> final(self).contents() == Seq::new(
                65536,
                |i: int|
                    if start <= i < start + image@.len() {
                        image@[i - start]
                    } else {
                        old(self).contents()[i]
                    },
            ),
            !fits ==> final(self).contents() == old(self).contents(),
    {
        if image.len() > 65536 - start as usize {
            return false;
        }
        let mut i: usize = 0;
        while i < image.len()
            invariant
                i <= image@.len(),
                start + image@.len() <= 65536,
                self.ram@.len() == 65536,
                forall|j: int|
                    0 <= j < 65536 ==> self.ram@[j] == if start <= j < start + i {
                        image@[j - start]
                    } else {
                        old(self).ram@[j]
                    },
            decreases image@.len() - i,
        {
            self.ram[start as usize + i] = image[i];
            i += 1;
        }
        true
    }

    /// The byte at `address`.
    pub fn peek(&self, address: u16) -> (data: u8)
        ensures
            data == self.contents()[address as int],
    {
        self.ram[address as usize]
    }

    /// Puts `data` at `address`.
    pub fn poke(&mut self, address: u16, data: u8)
        ensures
            final(self).contents() == old(self).contents().update(address as int, data),
    {
        self.ram[address as usize] = data;
    }
}

impl Memory for RAMputer {
    type State = Seq<u8>;

    open spec fn state(&self) -> Seq<u8> {
        self.contents()
    }

    open spec fn wf(&self) -> bool {
        true
    }

    open spec fn read_spec(m: Machine<Seq<u8>>, address: u16) -> (u8, Machine<Seq<u8>>) {
        (m.bus[address as int], m)
    }

    open spec fn write_spec(m: Machine<Seq<u8>>, address: u16, data: u8) -> Machine<Seq<u8>> {
        Machine { cpu: m.cpu, bus: m.bus.update(address as int, data) }
    }

    fn read_byte(&mut self, _cpu: &mut Cpu, address: u16) -> (data: u8) {
        self.ram[address as usize]
    }

    fn write_byte(&mut self, _cpu: &mut Cpu, address: u16, data: u8) {
        self.ram[address as usize] = data;
    }
}

impl RAMputer {
    /// The RAM holds a byte for each 16-bit address.
    pub proof fn lemma_contents_len(&self)
        ensures
            self.contents().len() == 65536,
    {
    }
}

} // verus!
