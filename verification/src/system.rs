use crate::cartridge::Cartridge;
use crate::cpu::{described, reset_spec, step_spec, Cpu, CpuState, UnknownOpcode};
use crate::memory::{Machine, Memory};
use crate::WORK_RAM_SIZE;
use vstd::prelude::*;
use vstd::slice::slice_subrange;
use vstd::string::StringExecFns;

pub mod bus;
pub mod controller;
pub mod frame_laws;
pub mod laws;
pub mod palette;
pub mod ppu;
pub mod render;
pub mod scroll;
pub mod sprite;

use bus::{
    devices_read, devices_write, oam_dma, ppu_write, DevicesState, CONTROLLER_0_PORT,
    CONTROLLER_1_PORT, IO_PORTS, IO_PORTS_END, OAM_DATA_PORT, OAM_DMA_PORT, PPU_PORTS,
};
use controller::Controller;
use palette::get_palette_color;
use ppu::{CONTROL_TALL_SPRITES, PPU};
use render::{
    background_pixel, background_pixel_at, first_sprite_pixel, frame_begun, frame_blanked,
    lemma_attribute_in_range, line_pixels, pixel, render_spec, scanline, scanline_sprites,
    scanlines, scrolled_by_pixel, sprites_among, with_ppu, SpritePixel, BACKGROUND_X_TILE_COUNT,
    CPU_STEPS_PER_SCANLINE, CPU_STEPS_PER_VBLANK, MAX_SPRITES_PER_SCANLINE, NES_HEIGHT,
    NES_PIXEL_COUNT, NES_WIDTH, SPRITE_COUNT,
};
use scroll::{lemma_scroll_bounds, next_row, next_tile, with_horizontal_of, with_vertical_of};
use sprite::{Sprite, TILE_BYTES, UPPER_PATTERN_TABLE};

verus! {

/// How many squares of two by two tiles an attribute byte's row covers.
pub const NUMBER_OF_METATILES_PER_ROW: usize = 8;

pub struct System {
    cpu: Cpu,
    devices: Devices,
    /// The colour table that turns colour numbers into pixels.
    palette: [u8; 1536],
}

pub struct Devices {
    ram: [u8; 2048],
    /// Picture Processing Unit
    ppu: PPU,
    /// Audio Processing Unit
    apu: [u8; 24],
    cartridge: Cartridge,
    controllers: [Controller; 2],
}

// 0x2456
// vvv
// 0010 0100 1001 1010
// 000: WRAM
//    x xAAA AAAA AAAA
// 001: PPU
//    x xxxx xxxx xAAA
impl View for Devices {
    type V = DevicesState;

    closed spec fn view(&self) -> DevicesState {
        DevicesState {
            ram: self.ram@,
            ppu: self.ppu@,
            apu: self.apu@,
            cartridge: self.cartridge@,
            controller_0: self.controllers[0]@,
            controller_1: self.controllers[1]@,
        }
    }
}

impl Memory for Devices {
    type State = DevicesState;

    open spec fn state(&self) -> DevicesState {
        self@
    }

    open spec fn wf(&self) -> bool {
        self@.valid()
    }

    open spec fn read_spec(m: Machine<DevicesState>, address: u16) -> (u8, Machine<DevicesState>) {
        devices_read(m, address)
    }

    open spec fn write_spec(m: Machine<DevicesState>, address: u16, data: u8) -> Machine<DevicesState> {
        devices_write(m, address, data)
    }

    fn read_byte(&mut self, _cpu: &mut Cpu, address: u16) -> (data: u8) {
        self.read_device(address)
    }

    fn write_byte(&mut self, cpu: &mut Cpu, address: u16, data: u8) {
        if address < PPU_PORTS {
            self.ram[(address % 0x0800) as usize] = data;
        } else if address < IO_PORTS {
            self.write_ppu_port(cpu, address, data);
        } else if address < IO_PORTS_END {
            if address == OAM_DMA_PORT {
                // OAM DMA!!!!
                let page_to_read = data;
                let start_address = page_to_read as u16 * 256;
                let mut offset: u16 = 0;
                proof {
                    reveal(oam_dma);
                }
                while offset < 256
                    invariant
                        offset <= 256,
                        start_address == page_to_read * 256,
                        self@.valid(),
                        (Machine { cpu: cpu@, bus: self@ }) == oam_dma(
                            Machine { cpu: old(cpu)@, bus: old(self)@ },
                            page_to_read,
                            offset as nat,
                        ),
                    decreases 256 - offset,
                {
                    proof {
                        reveal(oam_dma);
                    }
                    let oam_data = self.read_device(start_address + offset);
                    self.write_ppu_port(cpu, OAM_DATA_PORT, oam_data);
                    offset += 1;
                }
            } else if address == CONTROLLER_0_PORT {
                self.controllers[0].set_latch_state(data % 2 != 0);
                self.controllers[1].set_latch_state(data % 2 != 0);
            } else if address == CONTROLLER_1_PORT {
            } else {
                self.apu[(address - IO_PORTS) as usize] = data;
            }
        } else {
            // The cartridge is read-only.
        }
    }
}

impl Devices {
    /// What `read_byte` does; a read never touches the processor.
    fn read_device(&mut self, address: u16) -> (data: u8)
        requires
            old(self)@.valid(),
        ensures
            final(self)@.valid(),
            forall|cpu: crate::cpu::CpuState|
                (data, Machine { cpu, bus: final(self)@ }) == #[trigger] devices_read(
                    Machine { cpu, bus: old(self)@ },
                    address,
                ),
    {
        if address < PPU_PORTS {
            self.ram[(address % 0x0800) as usize]
        } else if address < IO_PORTS {
            self.ppu.perform_register_read(&self.cartridge, address)
        } else if address < IO_PORTS_END {
            if address == CONTROLLER_0_PORT {
                self.controllers[0].perform_read()
            } else if address == CONTROLLER_1_PORT {
                self.controllers[1].perform_read()
            } else {
                self.apu[(address - IO_PORTS) as usize]
            }
        } else {
            self.cartridge.perform_prg_read(address)
        }
    }

    /// A write to one of the picture unit's ports.
    fn write_ppu_port(&mut self, cpu: &mut Cpu, address: u16, data: u8)
        requires
            old(self)@.valid(),
        ensures
            final(self)@.valid(),
            (Machine { cpu: final(cpu)@, bus: final(self)@ }) == ppu_write(
                Machine { cpu: old(cpu)@, bus: old(self)@ },
                address,
                data,
            ),
    {
        self.ppu.perform_register_write(cpu, &mut self.cartridge, address, data)
    }

    pub fn get_ppu(&self) -> (ppu: &PPU)
        ensures
            ppu@ == self@.ppu,
            ppu.wf() == self@.ppu.valid(),
    {
        &self.ppu
    }

    pub fn get_ram(&self) -> (ram: &[u8; WORK_RAM_SIZE])
        ensures
            ram@ == self@.ram,
    {
        &self.ram
    }
}

impl View for System {
    type V = Machine<DevicesState>;

    closed spec fn view(&self) -> Machine<DevicesState> {
        Machine { cpu: self.cpu@, bus: self.devices@ }
    }
}

impl System {
    /// The colour table that the console draws with.
    pub closed spec fn palette(&self) -> Seq<u8> {
        self.palette@
    }

    /// What every console holds of itself.
    pub open spec fn wf(&self) -> bool {
        self@.bus.valid()
    }

    /// A console with `cartridge` in it, powered up and reset. `palette` is
    /// its colour table: for each of the 8 emphasis combinations 64 colours
    /// of three bytes, red, green and blue.
    pub fn new(cartridge: Cartridge, palette: [u8; 1536]) -> (system: System)
        requires
            cartridge.wf(),
        ensures
            system.wf(),
            system.palette() == palette@,
            system@ == reset_spec::<Devices>(
                Machine { cpu: CpuState::power_on(), bus: DevicesState::power_on(cartridge@) },
            ),
    {
        let mut result = System {
            cpu: Cpu::new(),
            devices: Devices {
                ram: [0u8; 2048],
                ppu: PPU::new(),
                apu: [0u8; 24],
                cartridge,
                controllers: [Controller::default(), Controller::default()],
            },
            palette,
        };
        proof {
            assert(result.devices.ram@ =~= Seq::new(2048, |i: int| 0u8));
            assert(result.devices.apu@ =~= Seq::new(24, |i: int| 0u8));
        }
        result.reset();
        result
    }

    /// Loads the processor's program counter from the reset vector.
    pub fn reset(&mut self)
        requires
            old(self).wf(),
        ensures
            final(self).wf(),
            final(self).palette() == old(self).palette(),
            final(self)@ == reset_spec::<Devices>(old(self)@),
    {
        self.cpu.reset(&mut self.devices);
    }

    /// Runs the processor for one step.
    pub fn step(&mut self) -> (result: Result<(), UnknownOpcode>)
        requires
            old(self).wf(),
        ensures
            final(self).wf(),
            final(self).palette() == old(self).palette(),
            (result, final(self)@) == step_spec::<Devices>(old(self)@),
    {
        self.cpu.step(&mut self.devices)
    }

    /// Reads a byte from the console's bus as the processor would.
    pub fn read_byte(&mut self, address: u16) -> (data: u8)
        requires
            old(self).wf(),
        ensures
            final(self).wf(),
            final(self).palette() == old(self).palette(),
            (data, final(self)@) == devices_read(old(self)@, address),
    {
        self.devices.read_byte(&mut self.cpu, address)
    }

    /// Writes a byte to the console's bus as the processor would.
    pub fn write_byte(&mut self, address: u16, data: u8)
        requires
            old(self).wf(),
        ensures
            final(self).wf(),
            final(self).palette() == old(self).palette(),
            final(self)@ == devices_write(old(self)@, address, data),
    {
        self.devices.write_byte(&mut self.cpu, address, data)
    }

    /// The background at a pixel of a tile of a nametable: its colour and
    /// its palette.
    pub fn get_pixel_for_background(
        &self,
        cur_nametable: usize,
        tile_x: usize,
        x_within_tile: usize,
        tile_y: usize,
        y_within_tile: usize,
    ) -> (background: (u8, usize))
        requires
            self.wf(),
            cur_nametable < 4,
            tile_x < 32,
            tile_y < 32,
            x_within_tile < 8,
            y_within_tile < 8,
        ensures
            background == background_pixel_at(
                self@.bus.ppu,
                self@.bus.cartridge,
                cur_nametable as int,
                tile_x as int,
                x_within_tile as int,
                tile_y as int,
                y_within_tile as int,
            ),
            background.0 < 4,
            background.1 < 4,
    {
        let nametable_address = 0x2000 + 0x0400 * cur_nametable;
        let address_of_tile_number = nametable_address + (tile_y * BACKGROUND_X_TILE_COUNT) + tile_x;
        let tile_number = self.devices.ppu.perform_bus_read(
            &self.devices.cartridge,
            address_of_tile_number as u16,
        );
        let tile_base_address = if self.devices.ppu.are_bg_tiles_in_upper_half() {
            UPPER_PATTERN_TABLE
        } else {
            0x0000
        };
        let tile_address = tile_base_address + tile_number as u16 * TILE_BYTES;
        let color = self.devices.cartridge.get_tile(tile_address, x_within_tile as u8, y_within_tile as u8);
        let metatile_x = tile_x / 2;
        let metatile_y = tile_y / 2;
        let index_within_attribute_table = (metatile_x / 2) + (metatile_y / 2) * NUMBER_OF_METATILES_PER_ROW;
        let index_within_attribute_byte = (metatile_x % 2) + (metatile_y % 2) * 2;
        let attribute_table_address = nametable_address + 0x03C0;
        let attribute_byte = self.devices.ppu.perform_bus_read(
            &self.devices.cartridge,
            (attribute_table_address + index_within_attribute_table) as u16,
        );
        let shift = (index_within_attribute_byte * 2) as u16;
        assert((attribute_byte >> shift) & 3u8 < 4u8) by (bit_vector);
        let attribute = (attribute_byte >> shift) & 0b11;
        (color, attribute as usize)
    }

    /// The background pixel at the render address, which then moves one
    /// pixel to the right.
    fn get_cursed_pixel_for_background(&mut self) -> (background: (u8, usize))
        requires
            old(self).wf(),
        ensures
            final(self).wf(),
            final(self).palette() == old(self).palette(),
            background == background_pixel(old(self)@.bus.ppu, old(self)@.bus.cartridge),
            background.0 < 4,
            background.1 < 4,
            final(self)@ == with_ppu(old(self)@, scrolled_by_pixel(old(self)@.bus.ppu)),
    {
        let v = self.devices.ppu.render_address();
        let tile_address_to_read = (v & 0x0FFF) | 0x2000;
        let attribute_address_to_read = (v & 0x0C00) | ((v >> 4u16) & 0x38) | ((v >> 2u16) & 0x07)
            | 0x23C0;
        let tile_number = self.devices.ppu.perform_bus_read(&self.devices.cartridge, tile_address_to_read);
        let tile_base_address = if self.devices.ppu.are_bg_tiles_in_upper_half() {
            UPPER_PATTERN_TABLE
        } else {
            0x0000
        };
        let tile_address = tile_base_address + tile_number as u16 * TILE_BYTES;
        let fine_x = self.devices.ppu.fine_scroll_x();
        proof {
            lemma_scroll_bounds(v, v, 0);
        }
        let color = self.devices.cartridge.get_tile(tile_address, fine_x, (v >> 12u16) as u8);
        let attribute_byte = self.devices.ppu.perform_bus_read(
            &self.devices.cartridge,
            attribute_address_to_read,
        );
        let index_within_attribute_byte = ((v >> 1u16) & 1) | ((v >> 5u16) & 2);
        proof {
            lemma_attribute_in_range(attribute_byte, v);
        }
        let attribute = (attribute_byte >> (index_within_attribute_byte * 2)) & 0b11;
        // scroll!
        if fine_x + 1 >= 8 {
            self.devices.ppu.set_fine_scroll_x(0);
            // we reached the end of the tile, so go to the next tile
            self.devices.ppu.set_render_address(next_tile(v));
        } else {
            self.devices.ppu.set_fine_scroll_x(fine_x + 1);
        }
        (color, attribute as usize)
    }

    /// The sprites that show on scanline `y`.
    fn gather_sprites(&self, y: usize) -> (sprites_on_scanline: Vec<(usize, Sprite)>)
        requires
            self.wf(),
        ensures
            sprites_on_scanline@ == scanline_sprites(self@.bus.ppu, y),
            forall|i: int| 0 <= i < sprites_on_scanline@.len() ==> (#[trigger] sprites_on_scanline@[i]).1.wf()
                && sprites_on_scanline@[i].1.covers_scanline(
                self@.bus.ppu.control & CONTROL_TALL_SPRITES != 0,
                y,
            ),
    {
        let mut sprites_on_scanline: Vec<(usize, Sprite)> = Vec::new();
        let sprites_are_8x16 = self.devices.ppu.is_sprite_size_8x16();
        let sprite_tiles_are_in_upper_half = self.devices.ppu.are_sprite_tiles_in_upper_half();
        let oam = self.devices.ppu.oam();
        let mut sprite_index: usize = 0;
        while sprite_index < SPRITE_COUNT
            invariant
                sprite_index <= SPRITE_COUNT,
                oam@.len() == 256,
                sprites_on_scanline@ == sprites_among(
                    oam@,
                    sprites_are_8x16,
                    sprite_tiles_are_in_upper_half,
                    y,
                    sprite_index as nat,
                ),
                forall|i: int|
                    0 <= i < sprites_on_scanline@.len() ==> (#[trigger] sprites_on_scanline@[i]).1.wf()
                        && sprites_on_scanline@[i].1.covers_scanline(sprites_are_8x16, y),
            decreases SPRITE_COUNT - sprite_index,
        {
            let sprite_data = slice_subrange(oam, sprite_index * 4, sprite_index * 4 + 4);
            let sprite = Sprite::from_oam_data(
                sprites_are_8x16,
                sprite_tiles_are_in_upper_half,
                sprite_data,
            );
            if sprite.is_visible_on_scanline(sprites_are_8x16, y) {
                if sprites_on_scanline.len() < MAX_SPRITES_PER_SCANLINE {
                    sprites_on_scanline.push((sprite_index, sprite));
                }
            }
            sprite_index += 1;
        }
        sprites_on_scanline
    }

    /// What the first sprite that is not transparent at (`x`, `y`) shows there.
    fn find_sprite_pixel(
        &self,
        sprites_on_scanline: &Vec<(usize, Sprite)>,
        sprites_are_8x16: bool,
        x: usize,
        y: usize,
    ) -> (found: Option<SpritePixel>)
        requires
            self.wf(),
            forall|i: int|
                0 <= i < sprites_on_scanline@.len() ==> (#[trigger] sprites_on_scanline@[i]).1.wf()
                    && sprites_on_scanline@[i].1.covers_scanline(sprites_are_8x16, y),
        ensures
            found == first_sprite_pixel(sprites_on_scanline@, self@.bus.cartridge, sprites_are_8x16, x, y, 0),
            found matches Some((_, (color, palette, _))) ==> 0 < color < 4 && 4 <= palette < 8,
    {
        let mut i: usize = 0;
        while i < sprites_on_scanline.len()
            invariant
                i <= sprites_on_scanline@.len(),
                self.wf(),
                forall|k: int|
                    0 <= k < sprites_on_scanline@.len() ==> (#[trigger] sprites_on_scanline@[k]).1.wf()
                        && sprites_on_scanline@[k].1.covers_scanline(sprites_are_8x16, y),
                first_sprite_pixel(sprites_on_scanline@, self@.bus.cartridge, sprites_are_8x16, x, y, 0)
                    == first_sprite_pixel(
                    sprites_on_scanline@,
                    self@.bus.cartridge,
                    sprites_are_8x16,
                    x,
                    y,
                    i as int,
                ),
            decreases sprites_on_scanline@.len() - i,
        {
            let pixel = sprites_on_scanline[i].1.get_pixel_for_xy(
                &self.devices.cartridge,
                sprites_are_8x16,
                x,
                y,
            );
            match pixel {
                Some(shown) => {
                    return Some((sprites_on_scanline[i].0, shown));
                },
                None => {},
            }
            i += 1;
        }
        None
    }

    /// Draws the pixel at (`x`, `y`).
    fn render_pixel(&mut self, sprites_on_scanline: &Vec<(usize, Sprite)>, x: usize, y: usize) -> (color: u32)
        requires
            old(self).wf(),
            forall|i: int|
                0 <= i < sprites_on_scanline@.len() ==> (#[trigger] sprites_on_scanline@[i]).1.wf()
                    && sprites_on_scanline@[i].1.covers_scanline(
                    old(self)@.bus.ppu.control & CONTROL_TALL_SPRITES != 0,
                    y,
                ),
        ensures
            final(self).wf(),
            final(self).palette() == old(self).palette(),
            (color, final(self)@.bus.ppu) == pixel(
                old(self)@.bus.ppu,
                old(self)@.bus.cartridge,
                old(self).palette(),
                sprites_on_scanline@,
                x,
                y,
            ),
            final(self)@ == with_ppu(old(self)@, final(self)@.bus.ppu),
    {
        let sprites_are_8x16 = self.devices.ppu.is_sprite_size_8x16();
        let (bg_color, bg_palette) = self.get_cursed_pixel_for_background();
        let found = self.find_sprite_pixel(sprites_on_scanline, sprites_are_8x16, x, y);
        let (color, palette) = match found {
            Some((_, (sprite_color, sprite_palette, sprite_is_behind_background))) => {
                let background_is_blocking_sprite = bg_color != 0 && sprite_is_behind_background;
                if background_is_blocking_sprite {
                    (bg_color, bg_palette)
                } else {
                    (sprite_color, sprite_palette)
                }
            },
            None => (bg_color, bg_palette),
        };
        let cram = self.devices.ppu.cram();
        let color_index = if color == 0 {
            cram[0]  // the "universal background color"
        } else {
            cram[palette * 4 + color as usize]
        };
        let hit = match found {
            Some((sprite_index, _)) => sprite_index == 0 && bg_color != 0,
            None => false,
        };
        if hit {
            self.devices.ppu.turn_on_sprite_0_hit();
        }
        get_palette_color(
            &self.palette,
            self.devices.ppu.is_grayscale(),
            self.devices.ppu.get_emphasis(),
            color_index as usize,
        )
    }

    /// Draws scanline `y` into `frame`.
    fn render_scanline(&mut self, frame: &mut [u32; 61440], y: usize)
        requires
            old(self).wf(),
            y < NES_HEIGHT,
        ensures
            final(self).wf(),
            final(self).palette() == old(self).palette(),
            final(frame)@.subrange(0, y * NES_WIDTH) == old(frame)@.subrange(0, y * NES_WIDTH),
            (final(frame)@.subrange(y * NES_WIDTH, (y + 1) * NES_WIDTH), final(self)@.bus.ppu) == line_pixels(
                old(self)@.bus.ppu,
                old(self)@.bus.cartridge,
                old(self).palette(),
                scanline_sprites(old(self)@.bus.ppu, y),
                y,
                NES_WIDTH as nat,
            ),
            final(self)@ == with_ppu(old(self)@, final(self)@.bus.ppu),
    {
        let sprites_on_scanline = self.gather_sprites(y);
        let mut x: usize = 0;
        while x < NES_WIDTH
            invariant
                x <= NES_WIDTH,
                y < NES_HEIGHT,
                self.wf(),
                self.palette() == old(self).palette(),
                self@ == with_ppu(old(self)@, self@.bus.ppu),
                self@.bus.ppu.control == old(self)@.bus.ppu.control,
                sprites_on_scanline@ == scanline_sprites(old(self)@.bus.ppu, y),
                forall|i: int|
                    0 <= i < sprites_on_scanline@.len() ==> (#[trigger] sprites_on_scanline@[i]).1.wf()
                        && sprites_on_scanline@[i].1.covers_scanline(
                        old(self)@.bus.ppu.control & CONTROL_TALL_SPRITES != 0,
                        y,
                    ),
                frame@.subrange(0, y * NES_WIDTH) == old(frame)@.subrange(0, y * NES_WIDTH),
                (frame@.subrange(y * NES_WIDTH, y * NES_WIDTH + x), self@.bus.ppu) == line_pixels(
                    old(self)@.bus.ppu,
                    old(self)@.bus.cartridge,
                    old(self).palette(),
                    sprites_on_scanline@,
                    y,
                    x as nat,
                ),
            decreases NES_WIDTH - x,
        {
            let ghost before = frame@;
            let color = self.render_pixel(&sprites_on_scanline, x, y);
            frame[y * NES_WIDTH + x] = color;
            proof {
                assert(frame@.subrange(0, y * NES_WIDTH) =~= before.subrange(0, y * NES_WIDTH));
                assert(frame@.subrange(y * NES_WIDTH as int, y * NES_WIDTH + x + 1) =~= before.subrange(
                    y * NES_WIDTH as int,
                    y * NES_WIDTH + x,
                ).push(color));
            }
            x += 1;
        }
    }

    /// Draws scanline `y` into `frame`, moves the render address on and
    /// lets the processor run its share of steps.
    fn run_scanline(&mut self, frame: &mut [u32; 61440], y: usize) -> (result: Result<(), UnknownOpcode>)
        requires
            old(self).wf(),
            y < NES_HEIGHT,
        ensures
            final(self).wf(),
            final(self).palette() == old(self).palette(),
            final(frame)@.subrange(0, y * NES_WIDTH) == old(frame)@.subrange(0, y * NES_WIDTH),
            (
                match result {
                    Ok(_) => Ok::<Seq<u32>, UnknownOpcode>(
                        final(frame)@.subrange(y * NES_WIDTH, (y + 1) * NES_WIDTH),
                    ),
                    Err(e) => Err::<Seq<u32>, UnknownOpcode>(e),
                },
                final(self)@,
            ) == scanline(old(self)@, old(self).palette(), y),
    {
        self.render_scanline(frame, y);
        let ppu = &mut self.devices.ppu;
        let v = with_horizontal_of(next_row(ppu.render_address()), ppu.pending_render_address());
        ppu.set_render_address(v);
        self.cpu.run(&mut self.devices, CPU_STEPS_PER_SCANLINE)
    }

    /// Goes through the vertical blank that comes before a frame's first
    /// scanline.
    fn run_vblank(&mut self) -> (result: Result<(), UnknownOpcode>)
        requires
            old(self).wf(),
        ensures
            final(self).wf(),
            final(self).palette() == old(self).palette(),
            result == frame_blanked(old(self)@).0,
            result is Err ==> final(self)@ == frame_blanked(old(self)@).1,
            result is Ok ==> final(self)@ == frame_begun(frame_blanked(old(self)@).1),
    {
        // Pretend to be in V-blank.
        // vblank flag ON
        self.devices.ppu.vblank_start(&mut self.cpu);
        let outcome = self.cpu.run(&mut self.devices, CPU_STEPS_PER_VBLANK);
        if outcome.is_err() {
            return outcome;
        }
        // vblank flag OFF
        self.devices.ppu.vblank_stop(&mut self.cpu);
        let v = with_vertical_of(
            self.devices.ppu.render_address(),
            self.devices.ppu.pending_render_address(),
        );
        self.devices.ppu.set_render_address(v);
        outcome
    }

    /// Draws one video frame: 256 by 240 pixels, row by row, each
    /// `0x00RRGGBB`. The processor runs while the frame is drawn; the frame
    /// is given up at the first opcode that the processor does not know.
    pub fn render(&mut self) -> (frame: Result<[u32; 61440], UnknownOpcode>)
        requires
            old(self).wf(),
        ensures
            final(self).wf(),
            final(self).palette() == old(self).palette(),
            (
                match frame {
                    Ok(pixels) => Ok::<Seq<u32>, UnknownOpcode>(pixels@),
                    Err(e) => Err::<Seq<u32>, UnknownOpcode>(e),
                },
                final(self)@,
            ) == render_spec(old(self)@, old(self).palette()),
    {
        let mut result = [0x0u32; 61440];
        match self.run_vblank() {
            Err(e) => {
                return Err(e);
            },
            Ok(_) => {},
        }
        let ghost begun = self@;
        let mut y: usize = 0;
        proof {
            assert(result@.subrange(0, 0) =~= Seq::<u32>::empty());
        }
        while y < NES_HEIGHT
            invariant
                y <= NES_HEIGHT,
                self.wf(),
                self.palette() == old(self).palette(),
                frame_blanked(old(self)@).0 is Ok,
                begun == frame_begun(frame_blanked(old(self)@).1),
                (Ok::<Seq<u32>, UnknownOpcode>(result@.subrange(0, y * NES_WIDTH)), self@) == scanlines(
                    begun,
                    self.palette(),
                    y as nat,
                ),
            decreases NES_HEIGHT - y,
        {
            let ghost before = result@;
            let outcome = self.run_scanline(&mut result, y);
            proof {
                assert(result@.subrange(0, (y + 1) * NES_WIDTH) =~= before.subrange(0, y * NES_WIDTH)
                    + result@.subrange(y * NES_WIDTH as int, (y + 1) * NES_WIDTH));
            }
            match outcome {
                Err(e) => {
                    proof {
                        lemma_scanlines_stay_failed(begun, self.palette(), (y + 1) as nat, NES_HEIGHT as nat);
                    }
                    return Err(e);
                },
                Ok(_) => {},
            }
            y += 1;
        }
        proof {
            assert(result@.subrange(0, NES_PIXEL_COUNT as int) =~= result@);
        }
        Ok(result)
    }

    /// The processor's registers in one line of text.
    pub fn show_cpu_state(&self) -> (text: String)
        ensures
            text@ == "CPU: "@ + described(self@.cpu),
    {
        let mut text = String::new();
        text.append("CPU: ");
        text.append(self.cpu.describe().as_str());
        text
    }

    pub fn get_work_memory_byte(&self, address: u16) -> (data: u8)
        requires
            self.wf(),
            address < WORK_RAM_SIZE,
        ensures
            data == self@.bus.ram[address as int],
    {
        let address = address as usize;
        return self.devices.ram[address];
    }

    pub fn get_controllers(&self) -> (controllers: &[Controller])
        ensures
            controllers@.len() == 2,
            controllers@[0]@ == self@.bus.controller_0,
            controllers@[1]@ == self@.bus.controller_1,
    {
        return &self.devices.controllers;
    }

    pub fn get_controllers_mut(&mut self) -> (controllers: &mut [Controller; 2])
        ensures
            controllers@[0]@ == old(self)@.bus.controller_0,
            controllers@[1]@ == old(self)@.bus.controller_1,
            final(self).palette() == old(self).palette(),
            final(self)@ == (Machine {
                cpu: old(self)@.cpu,
                bus: DevicesState {
                    controller_0: final(controllers)@[0]@,
                    controller_1: final(controllers)@[1]@,
                    ..old(self)@.bus
                },
            }),
    {
        return &mut self.devices.controllers;
    }

    pub fn get_devices(&self) -> (devices: &Devices)
        ensures
            devices@ == self@.bus,
    {
        return &self.devices;
    }

    /// The processor, to look at.
    pub fn get_cpu(&self) -> (cpu: &Cpu)
        ensures
            cpu@ == self@.cpu,
    {
        &self.cpu
    }
}

/// A frame that has failed stays as it is however many scanlines are asked
/// for.
pub proof fn lemma_scanlines_stay_failed(m: Machine<DevicesState>, table: Seq<u8>, failed: nat, count: nat)
    requires
        scanlines(m, table, failed).0 is Err,
        failed <= count,
    ensures
        scanlines(m, table, count) == scanlines(m, table, failed),
    decreases count,
{
    if failed < count {
        lemma_scanlines_stay_failed(m, table, failed, (count - 1) as nat);
    }
}

} // verus!
