use crate::cartridge::{Cartridge, CartridgeState, MirroringType};
use crate::cpu::{Cpu, CpuState};
use crate::system::scroll::{
    advanced, with_high_byte, with_low_byte, with_nametable, with_scroll_x, with_scroll_y,
};
use vstd::prelude::*;

verus! {

/*

             /--vertical scroll (horizontal mirrors, Kid Icarus)
             vv-horizontal scroll (vertical mirrors, Super Mario Bros.)
$2000 - xxxx 00xx xxxx xxxx - top left
$2400 - xxxx 01xx xxxx xxxx - top right
$2800 - xxxx 10xx xxxx xxxx - bottom left
$2C00 - xxxx 11xx xxxx xxxx - bottom right
_____________//|| |||| ||||
_____________/ || |||| ||||
<-- cartridge  || |||| ||||
______________ || |||| ||||
              \|| |||| ||||
              yyy yyyy yyyy - the nametable RAM

*/
/// Bytes of palette RAM.
pub const CRAM_SIZE: usize = 32;

/// Bytes of object attribute memory: 64 sprites of 4 bytes.
pub const OAM_SIZE: usize = 256;

/// Bytes of the four logical nametables.
pub const NAMETABLE_SIZE: usize = 4096;

/// CONTROL bit 7: raise NMI while the vertical blank lasts.
pub const CONTROL_NMI: u8 = 0x80;

/// CONTROL bit 6: the unit drives the backdrop itself when clear.
pub const CONTROL_SLAVE: u8 = 0x40;

/// CONTROL bit 5: sprites are 8 by 16 pixels.
pub const CONTROL_TALL_SPRITES: u8 = 0x20;

/// CONTROL bit 4: background tiles come from the upper pattern table.
pub const CONTROL_BG_UPPER: u8 = 0x10;

/// CONTROL bit 3: sprite tiles come from the upper pattern table.
pub const CONTROL_SPRITES_UPPER: u8 = 0x08;

/// CONTROL bit 2: the data port moves on by 32, not by 1.
pub const CONTROL_INCREMENT_BY_ROW: u8 = 0x04;

/// MASK bit 0: greyscale.
pub const MASK_GRAYSCALE: u8 = 0x01;

/// STATUS bit 7: the vertical blank has begun.
pub const STATUS_VBLANK: u8 = 0x80;

/// STATUS bit 6: sprite 0 met the background.
pub const STATUS_SPRITE_0_HIT: u8 = 0x40;

/// The picture unit as plain values.
pub struct PpuState {
    /// The last byte written to CONTROL.
    pub control: u8,
    /// The last byte written to MASK.
    pub mask: u8,
    /// The pointer into the object attribute memory.
    pub oam_address: u8,
    /// The last byte written to SCROLL as X.
    pub scroll_x: u8,
    /// The last byte written to SCROLL as Y.
    pub scroll_y: u8,
    /// Palette RAM.
    pub cram: Seq<u8>,
    /// Object attribute memory.
    pub oam: Seq<u8>,
    /// Nametable RAM.
    pub nametables: Seq<u8>,
    /// Bit 7 of STATUS: set when the vertical blank begins, cleared when
    /// STATUS is read or the blank ends.
    pub vblank_status: bool,
    /// Whether the vertical blank lasts.
    pub vblank_in_progress: bool,
    /// The write toggle that SCROLL and ADDR share: whether the next write
    /// to either is the first of its pair.
    pub first_write: bool,
    /// Bit 6 of STATUS.
    pub sprite_0_hit: bool,
    /// What the data port hands out on the next read outside the palette.
    pub read_buffer: u8,
    /// The live render address, V.
    pub v: u16,
    /// The pending render address, T.
    pub t: u16,
    /// The pixel column within the tile.
    pub fine_x: u8,
}

impl PpuState {
    /// A picture unit as it powers up: every register and every memory is
    /// zero, and the next write to SCROLL or ADDR is the first of its pair.
    pub open spec fn power_on() -> PpuState {
        PpuState {
            control: 0,
            mask: 0,
            oam_address: 0,
            scroll_x: 0,
            scroll_y: 0,
            cram: Seq::new(32, |i: int| 0u8),
            oam: Seq::new(256, |i: int| 0u8),
            nametables: Seq::new(4096, |i: int| 0u8),
            vblank_status: false,
            vblank_in_progress: false,
            first_write: true,
            sprite_0_hit: false,
            read_buffer: 0,
            v: 0,
            t: 0,
            fine_x: 0,
        }
    }

    /// What holds of every picture unit: its memories have their sizes, the
    /// render addresses have 15 bits and the fine X scroll 3.
    pub open spec fn valid(self) -> bool {
        &&& self.cram.len() == CRAM_SIZE
        &&& self.oam.len() == OAM_SIZE
        &&& self.nametables.len() == NAMETABLE_SIZE
        &&& self.v < 0x8000
        &&& self.t < 0x8000
        &&& self.fine_x < 8
    }

    /// The level of the NMI line: high while the vertical blank lasts and
    /// CONTROL bit 7 is set.
    pub open spec fn nmi_level(self) -> bool {
        self.control & CONTROL_NMI != 0 && self.vblank_in_progress
    }

    /// By how much the data port moves the render address.
    pub open spec fn stride(self) -> u16 {
        if self.control & CONTROL_INCREMENT_BY_ROW == 0 {
            1
        } else {
            32
        }
    }

    /// The byte that a read of STATUS returns.
    pub open spec fn status(self) -> u8 {
        ((if self.sprite_0_hit {
            STATUS_SPRITE_0_HIT as int
        } else {
            0
        }) + (if self.vblank_status {
            STATUS_VBLANK as int
        } else {
            0
        })) as u8
    }
}

/// The colours that MASK emphasises, as three letters: red is bit 5 of
/// MASK, green bit 6 and blue bit 7.
pub open spec fn emphasis_label(mask: u8) -> Seq<char> {
    let emphasis = mask >> 5;
    if emphasis == 0b000 {
        "---"@
    } else if emphasis == 0b001 {
        "R--"@
    } else if emphasis == 0b010 {
        "-G-"@
    } else if emphasis == 0b100 {
        "--B"@
    } else if emphasis == 0b011 {
        "RG-"@
    } else if emphasis == 0b110 {
        "-GB"@
    } else if emphasis == 0b101 {
        "R-B"@
    } else {
        "RGB"@
    }
}

/// Two layer bits as text: bit 0 stands for the background, bit 1 for the
/// sprites.
pub open spec fn layers_label(layers: u8) -> Seq<char> {
    if layers == 0b00 {
        "--,--"@
    } else if layers == 0b01 {
        "--,BG"@
    } else if layers == 0b10 {
        "SP,--"@
    } else {
        "SP,BG"@
    }
}

/// Whether an address on the picture unit's bus falls into palette RAM.
pub open spec fn is_palette(address: u16) -> bool {
    address % 0x4000 >= 0x3F00
}

/// The place in palette RAM that a read of `address` returns: entry 0 of
/// every palette reads as the universal background colour.
pub open spec fn palette_read_index(address: u16) -> int {
    if address % 4 == 0 {
        0
    } else {
        address as int % 32
    }
}

/// The bit by which the two places of a nametable byte differ.
pub open spec fn spec_mirror_bit(mirroring_type: MirroringType) -> u16 {
    match mirroring_type {
        MirroringType::Horizontal => 0x0400,
        MirroringType::Vertical => 0x0800,
        MirroringType::FourScreen => 0x0000,
    }
}

#[verifier::when_used_as_spec(spec_mirror_bit)]
pub fn mirror_bit(mirroring_type: MirroringType) -> (bit: u16)
    ensures
        bit == spec_mirror_bit(mirroring_type),
{
    match mirroring_type {
        MirroringType::Horizontal => 0x0400,
        MirroringType::Vertical => 0x0800,
        MirroringType::FourScreen => 0x0000,
    }
}

/// The byte at `address` on the picture unit's bus. Only 14 bits of address
/// exist on the bus.
pub open spec fn bus_read(ppu: PpuState, cartridge: CartridgeState, address: u16) -> u8 {
    let address = (address % 0x4000) as u16;
    if address < 0x2000 {
        cartridge.chr_read(address)
    } else if address >= 0x3F00 {
        ppu.cram[palette_read_index(address)]
    } else {
        ppu.nametables[address as int % 0x1000]
    }
}

/// The picture unit and the cartridge after `data` was written to `address`
/// on the picture unit's bus. A nametable byte is stored in two places that
/// differ by the cartridge's mirroring bit.
pub open spec fn bus_write(ppu: PpuState, cartridge: CartridgeState, address: u16, data: u8) -> (
    PpuState,
    CartridgeState,
) {
    let address = (address % 0x4000) as u16;
    if address < 0x2000 {
        (ppu, cartridge.chr_write(address, data))
    } else if address >= 0x3F00 {
        (PpuState { cram: ppu.cram.update(address as int % 32, data), ..ppu }, cartridge)
    } else {
        let place = (address % 0x1000) as u16;
        let twin = place ^ mirror_bit(cartridge.mirroring_type);
        (
            PpuState { nametables: ppu.nametables.update(place as int, data).update(twin as int, data), ..ppu },
            cartridge,
        )
    }
}

/// The byte that the processor reads from the register port that `address`
/// selects, and the picture unit after the read.
pub open spec fn register_read(ppu: PpuState, cartridge: CartridgeState, address: u16) -> (
    u8,
    PpuState,
) {
    let port = address % 8;
    if port == 2 {
        (ppu.status(), PpuState { vblank_status: false, first_write: true, ..ppu })
    } else if port == 4 {
        (ppu.oam[ppu.oam_address as int], ppu)
    } else if port == 7 {
        let real_result = bus_read(ppu, cartridge, ppu.v);
        let output_result = if is_palette(ppu.v) {
            real_result
        } else {
            ppu.read_buffer
        };
        (output_result, PpuState { read_buffer: real_result, v: advanced(ppu.v, ppu.stride()), ..ppu })
    } else {
        (0, ppu)
    }
}

/// The picture unit, the cartridge and the processor after the processor
/// wrote `data` to the register port that `address` selects.
pub open spec fn register_write(
    ppu: PpuState,
    cartridge: CartridgeState,
    cpu: CpuState,
    address: u16,
    data: u8,
) -> (PpuState, CartridgeState, CpuState) {
    let port = address % 8;
    if port == 0 {
        let after = PpuState { t: with_nametable(ppu.t, data), control: data, ..ppu };
        (after, cartridge, cpu.with_nmi_signal(after.nmi_level()))
    } else if port == 1 {
        (PpuState { mask: data, ..ppu }, cartridge, cpu)
    } else if port == 3 {
        (PpuState { oam_address: data, ..ppu }, cartridge, cpu)
    } else if port == 4 {
        (
            PpuState {
                oam: ppu.oam.update(ppu.oam_address as int, data),
                oam_address: ppu.oam_address.wrapping_add(1),
                ..ppu
            },
            cartridge,
            cpu,
        )
    } else if port == 5 {
        if ppu.first_write {
            (
                PpuState {
                    scroll_x: data,
                    t: with_scroll_x(ppu.t, data),
                    fine_x: data % 8,
                    first_write: false,
                    ..ppu
                },
                cartridge,
                cpu,
            )
        } else {
            (
                PpuState { scroll_y: data, t: with_scroll_y(ppu.t, data), first_write: true, ..ppu },
                cartridge,
                cpu,
            )
        }
    } else if port == 6 {
        if ppu.first_write {
            (PpuState { t: with_high_byte(ppu.t, data), first_write: false, ..ppu }, cartridge, cpu)
        } else {
            let t = with_low_byte(ppu.t, data);
            (PpuState { t, v: t, first_write: true, ..ppu }, cartridge, cpu)
        }
    } else if port == 7 {
        let (after, cartridge_after) = bus_write(ppu, cartridge, ppu.v, data);
        (PpuState { v: advanced(ppu.v, ppu.stride()), ..after }, cartridge_after, cpu)
    } else {
        (ppu, cartridge, cpu)
    }
}

/// The picture unit and the processor after the vertical blank began: the
/// blank flag of STATUS is set, sprite-0 hit is cleared, and the NMI line
/// takes its level.
pub open spec fn vblank_started(ppu: PpuState, cpu: CpuState) -> (PpuState, CpuState) {
    let after = PpuState { vblank_status: true, vblank_in_progress: true, sprite_0_hit: false, ..ppu };
    (after, cpu.with_nmi_signal(after.nmi_level()))
}

/// The picture unit and the processor after the vertical blank ended.
pub open spec fn vblank_stopped(ppu: PpuState, cpu: CpuState) -> (PpuState, CpuState) {
    let after = PpuState { vblank_status: false, vblank_in_progress: false, sprite_0_hit: false, ..ppu };
    (after, cpu.with_nmi_signal(after.nmi_level()))
}

/// Two layer bits as text.
fn layers_text(layers: u8) -> (label: &'static str)
    ensures
        label@ == layers_label(layers),
{
    match layers {
        0b00 => "--,--",
        0b01 => "--,BG",
        0b10 => "SP,--",
        _ => "SP,BG",
    }
}

proof fn lemma_twin_in_range(place: u16)
    by (bit_vector)
    requires
        place < 0x1000u16,
    ensures
        ({
            &&& place ^ 0x0400u16 < 0x1000u16
            &&& place ^ 0x0800u16 < 0x1000u16
            &&& place ^ 0x0000u16 == place
        }),
{
}

pub struct PPU {
    register_control: u8,
    register_mask: u8,
    register_oam_address: u8,
    register_scroll_x: u8,
    register_scroll_y: u8,
    cram: [u8; 32],
    oam: [u8; 256],
    nametables: [u8; 4096],
    vblank_status_flag: bool,
    vblank_in_progress: bool,
    cursed_multi_register_flag: bool,
    sprite_0_hit_flag: bool,
    ppudata_latch: u8,
    // reference: https://forums.nesdev.org/viewtopic.php?t=664
    current_render_address: u16,  // LoopyV
    canon_render_address: u16,  // LoopyT
    fine_scroll_x: u8,
}

impl View for PPU {
    type V = PpuState;

    closed spec fn view(&self) -> PpuState {
        PpuState {
            control: self.register_control,
            mask: self.register_mask,
            oam_address: self.register_oam_address,
            scroll_x: self.register_scroll_x,
            scroll_y: self.register_scroll_y,
            cram: self.cram@,
            oam: self.oam@,
            nametables: self.nametables@,
            vblank_status: self.vblank_status_flag,
            vblank_in_progress: self.vblank_in_progress,
            first_write: self.cursed_multi_register_flag,
            sprite_0_hit: self.sprite_0_hit_flag,
            read_buffer: self.ppudata_latch,
            v: self.current_render_address,
            t: self.canon_render_address,
            fine_x: self.fine_scroll_x,
        }
    }
}

impl PPU {
    /// What every picture unit holds of itself.
    pub open spec fn wf(&self) -> bool {
        self@.valid()
    }

    /// A picture unit as it powers up.
    pub fn new() -> (ppu: PPU)
        ensures
            ppu.wf(),
            ppu@ == PpuState::power_on(),
    {
        let ppu = PPU {
            register_control: 0,
            register_mask: 0,
            register_oam_address: 0,
            register_scroll_x: 0,
            register_scroll_y: 0,
            oam: [0u8; 256],
            vblank_status_flag: false,
            vblank_in_progress: false,
            cursed_multi_register_flag: true,
            nametables: [0u8; 4096],
            cram: [0u8; 32],
            sprite_0_hit_flag: false,
            ppudata_latch: 0,
            current_render_address: 0,
            canon_render_address: 0,
            fine_scroll_x: 0,
        };
        proof {
            assert(ppu.cram@ =~= Seq::new(32, |i: int| 0u8));
            assert(ppu.oam@ =~= Seq::new(256, |i: int| 0u8));
            assert(ppu.nametables@ =~= Seq::new(4096, |i: int| 0u8));
        }
        ppu
    }

    pub fn perform_bus_read(&self, cartridge: &Cartridge, address: u16) -> (data: u8)
        requires
            self.wf(),
            cartridge.wf(),
        ensures
            data == bus_read(self@, cartridge@, address),
    {
        // only 14 bits of address exist on the bus
        let address = address % 0x4000;
        if address < 0x2000 {
            cartridge.perform_chr_read(address)
        } else if address >= 0x3F00 {
            let cram_address = if address % 4 == 0 {
                0
            } else {
                address % 32
            };
            self.cram[cram_address as usize]
        } else {
            self.nametables[(address % 0x1000) as usize]
        }
    }

    pub fn perform_bus_write(&mut self, cartridge: &mut Cartridge, address: u16, data: u8)
        requires
            old(self).wf(),
            old(cartridge).wf(),
        ensures
            final(self).wf(),
            final(cartridge).wf(),
            (final(self)@, final(cartridge)@) == bus_write(old(self)@, old(cartridge)@, address, data),
    {
        // only 14 bits of address exist on the bus
        let address = address % 0x4000;
        if address < 0x2000 {
            cartridge.perform_chr_write(address, data)
        } else if address >= 0x3F00 {
            let cram_address = address % 32;
            self.cram[cram_address as usize] = data;
        } else {
            let bit_to_flip = mirror_bit(cartridge.mirroring_type());
            let nametable_address = address % 0x1000;
            proof {
                lemma_twin_in_range(nametable_address);
            }
            self.nametables[nametable_address as usize] = data;
            self.nametables[(nametable_address ^ bit_to_flip) as usize] = data;
        }
    }

    fn increment_ppudata_address(&mut self)
        requires
            old(self).wf(),
        ensures
            final(self).wf(),
            final(self)@ == (PpuState { v: advanced(old(self)@.v, old(self)@.stride()), ..old(self)@ }),
    {
        let inc: u16 = if (self.register_control & CONTROL_INCREMENT_BY_ROW) == 0 {
            1
        } else {
            32
        };
        self.current_render_address = advanced(self.current_render_address, inc);
    }

    pub fn perform_register_read(&mut self, cartridge: &Cartridge, address: u16) -> (data: u8)
        requires
            old(self).wf(),
            cartridge.wf(),
        ensures
            final(self).wf(),
            (data, final(self)@) == register_read(old(self)@, cartridge@, address),
    {
        let address = address % 8;
        match address {
            2 => {
                // Reading PPUSTATUS sets the latch to a known state:
                self.cursed_multi_register_flag = true;
                let mut result: u8 = 0;
                // Sprite 0 Hit flag.
                if self.sprite_0_hit_flag {
                    result += STATUS_SPRITE_0_HIT;
                }
                // Vertical Blank flag.
                if self.vblank_status_flag {
                    result += STATUS_VBLANK;
                    self.vblank_status_flag = false;
                }
                result
            },
            4 => self.oam[self.register_oam_address as usize],
            7 => {
                let real_result = self.perform_bus_read(cartridge, self.current_render_address);
                let output_result = if self.current_render_address % 0x4000 >= 0x3F00 {
                    real_result
                } else {
                    self.ppudata_latch
                };
                self.ppudata_latch = real_result;
                self.increment_ppudata_address();
                output_result
            },
            // The other ports are write-only.
            _ => 0,
        }
    }

    pub fn perform_register_write(
        &mut self,
        cpu: &mut Cpu,
        cartridge: &mut Cartridge,
        address: u16,
        data: u8,
    )
        requires
            old(self).wf(),
            old(cartridge).wf(),
        ensures
            final(self).wf(),
            final(cartridge).wf(),
            (final(self)@, final(cartridge)@, final(cpu)@) == register_write(
                old(self)@,
                old(cartridge)@,
                old(cpu)@,
                address,
                data,
            ),
    {
        let address = address % 8;
        match address {
            0 => {
                self.canon_render_address = with_nametable(self.canon_render_address, data);
                self.register_control = data;
                cpu.set_nmi_signal(self.is_nmi_supposed_to_be_active());
            },
            1 => self.register_mask = data,
            3 => self.register_oam_address = data,
            4 => {
                self.oam[self.register_oam_address as usize] = data;
                self.register_oam_address = self.register_oam_address.wrapping_add(1);
            },
            5 => {
                if self.cursed_multi_register_flag {
                    self.register_scroll_x = data;
                    self.canon_render_address = with_scroll_x(self.canon_render_address, data);
                    self.fine_scroll_x = data % 8;
                } else {
                    self.register_scroll_y = data;
                    self.canon_render_address = with_scroll_y(self.canon_render_address, data);
                }
                self.cursed_multi_register_flag = !self.cursed_multi_register_flag;
            },
            6 => {
                if self.cursed_multi_register_flag {
                    // Write the high byte
                    self.canon_render_address = with_high_byte(self.canon_render_address, data);
                } else {
                    // Write the low byte
                    self.canon_render_address = with_low_byte(self.canon_render_address, data);
                    // AND!
                    self.current_render_address = self.canon_render_address;
                }
                self.cursed_multi_register_flag = !self.cursed_multi_register_flag;
            },
            7 => {
                self.perform_bus_write(cartridge, self.current_render_address, data);
                self.increment_ppudata_address();
            },
            // STATUS is read-only.
            _ => {},
        }
    }

    pub fn vblank_start(&mut self, cpu: &mut Cpu)
        requires
            old(self).wf(),
        ensures
            final(self).wf(),
            (final(self)@, final(cpu)@) == vblank_started(old(self)@, old(cpu)@),
    {
        self.vblank_status_flag = true;
        self.vblank_in_progress = true;
        cpu.set_nmi_signal(self.is_nmi_supposed_to_be_active());
        self.sprite_0_hit_flag = false;
    }

    pub fn vblank_stop(&mut self, cpu: &mut Cpu)
        requires
            old(self).wf(),
        ensures
            final(self).wf(),
            (final(self)@, final(cpu)@) == vblank_stopped(old(self)@, old(cpu)@),
    {
        self.vblank_status_flag = false;
        self.vblank_in_progress = false;
        cpu.set_nmi_signal(self.is_nmi_supposed_to_be_active());
        self.sprite_0_hit_flag = false;
    }

    /// The live render address, V.
    pub fn render_address(&self) -> (v: u16)
        ensures
            v == self@.v,
    {
        self.current_render_address
    }

    /// Replaces the live render address.
    pub fn set_render_address(&mut self, v: u16)
        requires
            v < 0x8000,
        ensures
            final(self)@ == (PpuState { v, ..old(self)@ }),
    {
        self.current_render_address = v;
    }

    /// The pending render address, T.
    pub fn pending_render_address(&self) -> (t: u16)
        ensures
            t == self@.t,
    {
        self.canon_render_address
    }

    /// The pixel column within the tile.
    pub fn fine_scroll_x(&self) -> (fine_x: u8)
        ensures
            fine_x == self@.fine_x,
    {
        self.fine_scroll_x
    }

    /// Replaces the pixel column within the tile.
    pub fn set_fine_scroll_x(&mut self, fine_x: u8)
        requires
            fine_x < 8,
        ensures
            final(self)@ == (PpuState { fine_x, ..old(self)@ }),
    {
        self.fine_scroll_x = fine_x;
    }

    /// The last byte written to CONTROL.
    pub fn control(&self) -> (control: u8)
        ensures
            control == self@.control,
    {
        self.register_control
    }

    /// The last byte written to MASK.
    pub fn mask(&self) -> (mask: u8)
        ensures
            mask == self@.mask,
    {
        self.register_mask
    }

    /// The pointer into the object attribute memory.
    pub fn oam_address(&self) -> (oam_address: u8)
        ensures
            oam_address == self@.oam_address,
    {
        self.register_oam_address
    }

    /// The last byte written to SCROLL as X.
    pub fn scroll_x(&self) -> (scroll_x: u8)
        ensures
            scroll_x == self@.scroll_x,
    {
        self.register_scroll_x
    }

    /// The last byte written to SCROLL as Y.
    pub fn scroll_y(&self) -> (scroll_y: u8)
        ensures
            scroll_y == self@.scroll_y,
    {
        self.register_scroll_y
    }

    /// The byte that a read of STATUS would return; nothing changes.
    pub fn status(&self) -> (status: u8)
        ensures
            status == self@.status(),
    {
        let mut result: u8 = 0;
        if self.sprite_0_hit_flag {
            result += STATUS_SPRITE_0_HIT;
        }
        if self.vblank_status_flag {
            result += STATUS_VBLANK;
        }
        result
    }

    /// The object attribute memory.
    pub fn oam(&self) -> (oam: &[u8; 256])
        ensures
            oam@ == self@.oam,
    {
        &self.oam
    }

    /// The palette RAM.
    pub fn cram(&self) -> (cram: &[u8; 32])
        ensures
            cram@ == self@.cram,
    {
        &self.cram
    }

    fn is_nmi_supposed_to_be_active(&self) -> (active: bool)
        ensures
            active == self@.nmi_level(),
    {
        self.is_nmi_on() && self.vblank_in_progress
    }

    pub fn is_nmi_on(&self) -> (on: bool)
        ensures
            on == (self@.control & CONTROL_NMI != 0),
    {
        (self.register_control & CONTROL_NMI) != 0
    }

    pub fn is_master(&self) -> (master: bool)
        ensures
            master == (self@.control & CONTROL_SLAVE == 0),
    {
        (self.register_control & CONTROL_SLAVE) == 0
    }

    pub fn is_sprite_size_8x16(&self) -> (tall: bool)
        ensures
            tall == (self@.control & CONTROL_TALL_SPRITES != 0),
    {
        (self.register_control & CONTROL_TALL_SPRITES) != 0
    }

    pub fn are_bg_tiles_in_upper_half(&self) -> (upper: bool)
        ensures
            upper == (self@.control & CONTROL_BG_UPPER != 0),
    {
        (self.register_control & CONTROL_BG_UPPER) != 0
    }

    pub fn are_sprite_tiles_in_upper_half(&self) -> (upper: bool)
        ensures
            upper == (self@.control & CONTROL_SPRITES_UPPER != 0),
    {
        (self.register_control & CONTROL_SPRITES_UPPER) != 0
    }

    pub fn is_vram_incrementing_by_y(&self) -> (by_row: bool)
        ensures
            by_row == (self@.control & CONTROL_INCREMENT_BY_ROW != 0),
    {
        (self.register_control & CONTROL_INCREMENT_BY_ROW) != 0
    }

    pub fn which_nametable_is_upper_left(&self) -> (nametable: u8)
        ensures
            nametable == self@.control & 3,
    {
        self.register_control & 3
    }

    pub fn flip_which_nametable_is_upper_left_by_y(&mut self)
        ensures
            final(self)@ == (PpuState { control: old(self)@.control ^ 2, ..old(self)@ }),
    {
        self.register_control ^= 2
    }

    pub fn is_grayscale(&self) -> (grayscale: bool)
        ensures
            grayscale == (self@.mask & MASK_GRAYSCALE != 0),
    {
        let data = self.register_mask;
        if (data & MASK_GRAYSCALE) == 0 {
            false
        } else {
            true
        }
    }

    pub fn get_emphasis(&self) -> (emphasis: usize)
        ensures
            emphasis == self@.mask >> 5,
            emphasis < 8,
    {
        let data = self.register_mask;
        assert(data >> 5u8 < 8u8) by (bit_vector);
        (data >> 5u8) as usize
    }

    /// The colours that MASK emphasises, as three letters.
    pub fn emphasis_label(&self) -> (label: &'static str)
        ensures
            label@ == emphasis_label(self@.mask),
    {
        match self.register_mask >> 5u8 {
            0b000 => "---",
            0b001 => "R--",
            0b010 => "-G-",
            0b100 => "--B",
            0b011 => "RG-",
            0b110 => "-GB",
            0b101 => "R-B",
            _ => "RGB",
        }
    }

    /// The layers that MASK shows, bits 3 and 4 of it, as text.
    pub fn shown_layers_label(&self) -> (label: &'static str)
        ensures
            label@ == layers_label((self@.mask >> 3) & 0b11),
    {
        layers_text((self.register_mask >> 3u8) & 0b11)
    }

    /// The layers that MASK shows in the leftmost eight pixels, bits 1 and
    /// 2 of it, as text.
    pub fn unclipped_layers_label(&self) -> (label: &'static str)
        ensures
            label@ == layers_label((self@.mask >> 1) & 0b11),
    {
        layers_text((self.register_mask >> 1u8) & 0b11)
    }

    /// The horizontal scroll in pixels over both nametables of a row: the
    /// byte written to SCROLL, and 256 more where CONTROL selects a
    /// nametable on the right.
    pub fn scroll_x_in_pixels(&self) -> (pixels: u16)
        ensures
            pixels == self@.scroll_x + if self@.control & 1 == 1 {
                256int
            } else {
                0int
            },
    {
        if self.register_control & 1 == 1 {
            self.register_scroll_x as u16 + 256
        } else {
            self.register_scroll_x as u16
        }
    }

    /// The vertical scroll in pixels over both nametables of a column: the
    /// byte written to SCROLL, and 240 more where CONTROL selects a
    /// nametable at the bottom.
    pub fn scroll_y_in_pixels(&self) -> (pixels: u16)
        ensures
            pixels == self@.scroll_y + if self@.control & 2 == 2 {
                240int
            } else {
                0int
            },
    {
        if self.register_control & 2 == 2 {
            self.register_scroll_y as u16 + 240
        } else {
            self.register_scroll_y as u16
        }
    }

    pub fn turn_on_sprite_0_hit(&mut self)
        ensures
            final(self)@ == (PpuState { sprite_0_hit: true, ..old(self)@ }),
    {
        self.sprite_0_hit_flag = true;
    }
}

} // verus!
