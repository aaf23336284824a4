use crate::cartridge::CartridgeState;
use crate::memory::Machine;
use crate::system::controller::ControllerState;
use crate::system::ppu::{register_read, register_write, PpuState};
use vstd::prelude::*;

verus! {

/// Where the picture unit's register ports begin.
pub const PPU_PORTS: u16 = 0x2000;

/// The port through which object attribute memory is written.
pub const OAM_DATA_PORT: u16 = 0x2004;

/// Where the sound and input registers begin.
pub const IO_PORTS: u16 = 0x4000;

/// A write here copies a page into object attribute memory.
pub const OAM_DMA_PORT: u16 = 0x4014;

/// Strobe of both controllers on a write, controller 0 on a read.
pub const CONTROLLER_0_PORT: u16 = 0x4016;

/// Controller 1 on a read.
pub const CONTROLLER_1_PORT: u16 = 0x4017;

/// The first address behind the sound and input registers.
pub const IO_PORTS_END: u16 = 0x4018;

/// Everything on the console's bus as plain values.
pub struct DevicesState {
    /// Work RAM.
    pub ram: Seq<u8>,
    pub ppu: PpuState,
    /// The sound and input registers, kept as bytes.
    pub apu: Seq<u8>,
    pub cartridge: CartridgeState,
    pub controller_0: ControllerState,
    pub controller_1: ControllerState,
}

impl DevicesState {
    /// The console as it powers up with a cartridge in it: its memories are
    /// zero and no button is pressed.
    pub open spec fn power_on(cartridge: CartridgeState) -> DevicesState {
        DevicesState {
            ram: Seq::new(2048, |i: int| 0u8),
            ppu: PpuState::power_on(),
            apu: Seq::new(24, |i: int| 0u8),
            cartridge,
            controller_0: ControllerState::released(),
            controller_1: ControllerState::released(),
        }
    }

    /// What holds of every console: its memories have their sizes, and the
    /// picture unit and the cartridge are as they must be.
    pub open spec fn valid(self) -> bool {
        &&& self.ram.len() == 2048
        &&& self.apu.len() == 24
        &&& self.ppu.valid()
        &&& self.cartridge.valid()
    }
}

/// The byte that the processor reads at `address`, and the console after
/// the read.
///
/// | Range           | Target                                   |
/// |-----------------|------------------------------------------|
/// | `0x0000-0x1FFF` | work RAM, repeating every `0x0800`       |
/// | `0x2000-0x3FFF` | the picture unit's 8 ports, repeating    |
/// | `0x4016`        | controller 0                             |
/// | `0x4017`        | controller 1                             |
/// | `0x4000-0x4017` | otherwise the sound and input registers  |
/// | `0x4018-0xFFFF` | the cartridge's program memory           |
pub open spec fn devices_read(m: Machine<DevicesState>, address: u16) -> (u8, Machine<DevicesState>) {
    if address < PPU_PORTS {
        (m.bus.ram[address as int % 0x0800], m)
    } else if address < IO_PORTS {
        let (data, ppu) = register_read(m.bus.ppu, m.bus.cartridge, address);
        (data, Machine { cpu: m.cpu, bus: DevicesState { ppu, ..m.bus } })
    } else if address == CONTROLLER_0_PORT {
        let (data, controller_0) = m.bus.controller_0.read();
        (data, Machine { cpu: m.cpu, bus: DevicesState { controller_0, ..m.bus } })
    } else if address == CONTROLLER_1_PORT {
        let (data, controller_1) = m.bus.controller_1.read();
        (data, Machine { cpu: m.cpu, bus: DevicesState { controller_1, ..m.bus } })
    } else if address < IO_PORTS_END {
        (m.bus.apu[address - IO_PORTS], m)
    } else {
        (m.bus.cartridge.prg_read(address), m)
    }
}

/// The console after the processor wrote `data` to a port of the picture unit.
pub open spec fn ppu_write(m: Machine<DevicesState>, address: u16, data: u8) -> Machine<DevicesState> {
    let (ppu, cartridge, cpu) = register_write(m.bus.ppu, m.bus.cartridge, m.cpu, address, data);
    Machine { cpu, bus: DevicesState { ppu, cartridge, ..m.bus } }
}

/// The console after the first `count` bytes of the page `page` went into
/// object attribute memory: each byte is read from the bus and written to
/// the picture unit's OAM data port.
#[verifier::opaque]
pub open spec fn oam_dma(m: Machine<DevicesState>, page: u8, count: nat) -> Machine<DevicesState>
    decreases count,
{
    if count == 0 {
        m
    } else {
        let before = oam_dma(m, page, (count - 1) as nat);
        let (oam_data, read) = devices_read(before, (page * 256 + (count - 1)) as u16);
        ppu_write(read, OAM_DATA_PORT, oam_data)
    }
}

/// The console after the processor wrote `data` to `address`.
///
/// | Range           | Target                                          |
/// |-----------------|-------------------------------------------------|
/// | `0x0000-0x1FFF` | work RAM, repeating every `0x0800`              |
/// | `0x2000-0x3FFF` | the picture unit's 8 ports, repeating           |
/// | `0x4014`        | copies the page `data` into OAM, 256 bytes      |
/// | `0x4016`        | bit 0 is the strobe line of both controllers    |
/// | `0x4017`        | nothing                                         |
/// | `0x4000-0x4017` | otherwise the sound and input registers         |
/// | `0x4018-0xFFFF` | nothing: the cartridge is read-only             |
pub open spec fn devices_write(m: Machine<DevicesState>, address: u16, data: u8) -> Machine<DevicesState> {
    if address < PPU_PORTS {
        Machine { cpu: m.cpu, bus: DevicesState { ram: m.bus.ram.update(address as int % 0x0800, data), ..m.bus } }
    } else if address < IO_PORTS {
        ppu_write(m, address, data)
    } else if address == OAM_DMA_PORT {
        oam_dma(m, data, 256)
    } else if address == CONTROLLER_0_PORT {
        Machine {
            cpu: m.cpu,
            bus: DevicesState {
                controller_0: m.bus.controller_0.latched(data % 2 == 1),
                controller_1: m.bus.controller_1.latched(data % 2 == 1),
                ..m.bus
            },
        }
    } else if address == CONTROLLER_1_PORT {
        m
    } else if address < IO_PORTS_END {
        Machine { cpu: m.cpu, bus: DevicesState { apu: m.bus.apu.update(address - IO_PORTS, data), ..m.bus } }
    } else {
        m
    }
}

} // verus!
