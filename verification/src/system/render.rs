use crate::cartridge::CartridgeState;
use crate::cpu::{run_spec, UnknownOpcode};
use crate::memory::Machine;
use crate::system::bus::DevicesState;
use crate::system::palette::palette_color;
use crate::system::ppu::{
    bus_read, vblank_started, vblank_stopped, PpuState, CONTROL_BG_UPPER, CONTROL_SPRITES_UPPER,
    CONTROL_TALL_SPRITES, MASK_GRAYSCALE,
};
use crate::system::scroll::{
    next_row, next_tile, spec_coarse_x, spec_coarse_y, spec_fine_y, spec_nametable, with_horizontal_of,
    with_vertical_of,
};
use crate::system::sprite::{sprite_of, Sprite, TILE_BYTES, UPPER_PATTERN_TABLE};
use crate::system::Devices;
use vstd::prelude::*;

verus! {

pub const NES_WIDTH: usize = 256;

pub const NES_HEIGHT: usize = 240;

pub const NES_PIXEL_COUNT: usize = 61440;

/// How many sprites object attribute memory holds.
pub const SPRITE_COUNT: usize = 64;

pub const MAX_SPRITES_PER_SCANLINE: usize = 8;

/// How many tiles a nametable has in a row.
pub const BACKGROUND_X_TILE_COUNT: usize = 32;

/// How many steps the processor takes for each scanline.
pub const CPU_STEPS_PER_SCANLINE: usize = 113;

/// How many steps the processor takes while the vertical blank lasts.
pub const CPU_STEPS_PER_VBLANK: usize = 2273;

/// What a sprite shows at a pixel: the sprite's number in object attribute
/// memory, its colour, its palette and whether it is behind the background.
pub type SpritePixel = (usize, (u8, usize, bool));

/// The sprites that show on scanline `y` among the first `count` sprites of
/// object attribute memory, each with its number: at most eight, in the
/// order in which object attribute memory holds them.
pub open spec fn sprites_among(
    oam: Seq<u8>,
    sprites_are_8x16: bool,
    sprite_tiles_are_in_upper_half: bool,
    y: usize,
    count: nat,
) -> Seq<(usize, Sprite)>
    decreases count,
{
    if count == 0 {
        Seq::empty()
    } else {
        let before = sprites_among(
            oam,
            sprites_are_8x16,
            sprite_tiles_are_in_upper_half,
            y,
            (count - 1) as nat,
        );
        let sprite_index = count - 1;
        let sprite = sprite_of(
            sprites_are_8x16,
            sprite_tiles_are_in_upper_half,
            oam.subrange(4 * sprite_index, 4 * sprite_index + 4),
        );
        if sprite.covers_scanline(sprites_are_8x16, y) && before.len() < MAX_SPRITES_PER_SCANLINE {
            before.push((sprite_index as usize, sprite))
        } else {
            before
        }
    }
}

/// The sprites that the picture unit shows on scanline `y`.
pub open spec fn scanline_sprites(ppu: PpuState, y: usize) -> Seq<(usize, Sprite)> {
    sprites_among(
        ppu.oam,
        ppu.control & CONTROL_TALL_SPRITES != 0,
        ppu.control & CONTROL_SPRITES_UPPER != 0,
        y,
        SPRITE_COUNT as nat,
    )
}

/// What the first sprite from number `from` on in `sprites` that is not
/// transparent at (`x`, `y`) shows there.
pub open spec fn first_sprite_pixel(
    sprites: Seq<(usize, Sprite)>,
    cartridge: CartridgeState,
    sprites_are_8x16: bool,
    x: usize,
    y: usize,
    from: int,
) -> Option<SpritePixel>
    decreases sprites.len() - from,
{
    if from < 0 || from >= sprites.len() {
        None
    } else {
        match sprites[from].1.pixel_at(cartridge, sprites_are_8x16, x, y) {
            Some(pixel) => Some((sprites[from].0, pixel)),
            None => first_sprite_pixel(sprites, cartridge, sprites_are_8x16, x, y, from + 1),
        }
    }
}

/// Where on the picture unit's bus the number of the tile under the render
/// address lies.
pub open spec fn tile_number_address(v: u16) -> u16 {
    (v & 0x0FFF) | 0x2000
}

/// Where on the picture unit's bus the attribute byte of the tile under the
/// render address lies.
pub open spec fn attribute_address(v: u16) -> u16 {
    (v & 0x0C00) | ((v >> 4) & 0x38) | ((v >> 2) & 0x07) | 0x23C0
}

/// The palette of the tile under the render address: two bits of the
/// attribute byte, chosen by the tile's place in its square of four by four.
pub open spec fn attribute_of(attribute_byte: u8, v: u16) -> u8 {
    let index_within_attribute_byte = ((v >> 1) & 1) | ((v >> 5) & 2);
    (attribute_byte >> ((index_within_attribute_byte * 2) as u16)) & 0b11
}

/// The background at the render address: its colour and its palette.
pub open spec fn background_pixel(ppu: PpuState, cartridge: CartridgeState) -> (u8, usize) {
    let tile_number = bus_read(ppu, cartridge, tile_number_address(ppu.v));
    let tile_base_address = if ppu.control & CONTROL_BG_UPPER != 0 {
        UPPER_PATTERN_TABLE
    } else {
        0
    };
    let tile_address = (tile_base_address + tile_number * TILE_BYTES) as u16;
    let color = cartridge.tile_color(tile_address, ppu.fine_x, (ppu.v >> 12) as u8);
    let attribute_byte = bus_read(ppu, cartridge, attribute_address(ppu.v));
    (color, attribute_of(attribute_byte, ppu.v) as usize)
}

/// Where the nametable `nametable`, 0 to 3, begins on the picture unit's bus.
pub open spec fn nametable_address(nametable: int) -> int {
    0x2000 + 0x0400 * nametable
}

/// The background at pixel (`x_within_tile`, `y_within_tile`) of the tile
/// in column `tile_x` and row `tile_y` of a nametable: its colour and its
/// palette. The tile's number lies in the nametable's grid of 32 columns;
/// its palette is two bits of the attribute byte that the nametable holds,
/// behind the grid, for the tile's square of four by four tiles.
pub open spec fn background_pixel_at(
    ppu: PpuState,
    cartridge: CartridgeState,
    cur_nametable: int,
    tile_x: int,
    x_within_tile: int,
    tile_y: int,
    y_within_tile: int,
) -> (u8, usize) {
    let tile_number = bus_read(
        ppu,
        cartridge,
        (nametable_address(cur_nametable) + tile_y * BACKGROUND_X_TILE_COUNT + tile_x) as u16,
    );
    let tile_base_address = if ppu.control & CONTROL_BG_UPPER != 0 {
        UPPER_PATTERN_TABLE
    } else {
        0
    };
    let tile_address = (tile_base_address + tile_number * TILE_BYTES) as u16;
    let color = cartridge.tile_color(tile_address, x_within_tile as u8, y_within_tile as u8);
    let attribute_byte = bus_read(
        ppu,
        cartridge,
        (nametable_address(cur_nametable) + 0x03C0 + tile_x / 4 + (tile_y / 4) * 8) as u16,
    );
    let index_within_attribute_byte = (tile_x / 2) % 2 + ((tile_y / 2) % 2) * 2;
    (color, ((attribute_byte >> ((index_within_attribute_byte * 2) as u16)) & 0b11) as usize)
}

/// The picture unit one pixel further right.
pub open spec fn scrolled_by_pixel(ppu: PpuState) -> PpuState {
    if ppu.fine_x + 1 >= 8 {
        PpuState { fine_x: 0, v: next_tile(ppu.v), ..ppu }
    } else {
        PpuState { fine_x: (ppu.fine_x + 1) as u8, ..ppu }
    }
}

/// The colour and the palette of a pixel: those of the sprite, unless there
/// is none or the sprite is behind a background that is not transparent.
pub open spec fn composed(background: (u8, usize), sprite: Option<SpritePixel>) -> (u8, usize) {
    match sprite {
        Some((_, (sprite_color, sprite_palette, sprite_is_behind_background))) => {
            if background.0 != 0 && sprite_is_behind_background {
                background
            } else {
                (sprite_color, sprite_palette)
            }
        },
        None => background,
    }
}

/// Whether sprite 0 meets the background at a pixel: both are there and
/// neither is transparent.
pub open spec fn sprite_0_hits(background: (u8, usize), sprite: Option<SpritePixel>) -> bool {
    sprite matches Some((0, _)) && background.0 != 0
}

/// The colour number that palette RAM holds for a colour of a palette:
/// colour 0 of every palette is the universal background colour.
pub open spec fn color_number(cram: Seq<u8>, color: u8, palette: usize) -> u8 {
    if color == 0 {
        cram[0]
    } else {
        cram[palette * 4 + color]
    }
}

/// The pixel at (`x`, `y`), and the picture unit after it was drawn.
pub open spec fn pixel(
    ppu: PpuState,
    cartridge: CartridgeState,
    table: Seq<u8>,
    sprites: Seq<(usize, Sprite)>,
    x: usize,
    y: usize,
) -> (u32, PpuState) {
    let background = background_pixel(ppu, cartridge);
    let sprite = first_sprite_pixel(sprites, cartridge, ppu.control & CONTROL_TALL_SPRITES != 0, x, y, 0);
    let (color, palette) = composed(background, sprite);
    let scrolled = scrolled_by_pixel(ppu);
    (
        palette_color(
            table,
            ppu.mask & MASK_GRAYSCALE != 0,
            (ppu.mask >> 5) as int,
            color_number(ppu.cram, color, palette) as int,
        ),
        PpuState { sprite_0_hit: ppu.sprite_0_hit || sprite_0_hits(background, sprite), ..scrolled },
    )
}

/// The first `count` pixels of scanline `y`, and the picture unit after
/// they were drawn.
pub open spec fn line_pixels(
    ppu: PpuState,
    cartridge: CartridgeState,
    table: Seq<u8>,
    sprites: Seq<(usize, Sprite)>,
    y: usize,
    count: nat,
) -> (Seq<u32>, PpuState)
    decreases count,
{
    if count == 0 {
        (Seq::empty(), ppu)
    } else {
        let (pixels, before) = line_pixels(ppu, cartridge, table, sprites, y, (count - 1) as nat);
        let (color, after) = pixel(before, cartridge, table, sprites, (count - 1) as usize, y);
        (pixels.push(color), after)
    }
}

/// The picture unit at the end of a scanline: the render address moves one
/// pixel row down and takes its horizontal bits from the pending address.
pub open spec fn scrolled_by_line(ppu: PpuState) -> PpuState {
    PpuState { v: with_horizontal_of(next_row(ppu.v), ppu.t), ..ppu }
}

/// The console with its picture unit replaced.
pub open spec fn with_ppu(m: Machine<DevicesState>, ppu: PpuState) -> Machine<DevicesState> {
    Machine { cpu: m.cpu, bus: DevicesState { ppu, ..m.bus } }
}

/// Scanline `y`, and the console after the scanline: its sprites are
/// gathered, its 256 pixels are drawn, the render address moves on, and
/// the processor runs its share of steps.
pub open spec fn scanline(m: Machine<DevicesState>, table: Seq<u8>, y: usize) -> (
    Result<Seq<u32>, UnknownOpcode>,
    Machine<DevicesState>,
) {
    let sprites = scanline_sprites(m.bus.ppu, y);
    let (pixels, drawn) = line_pixels(m.bus.ppu, m.bus.cartridge, table, sprites, y, NES_WIDTH as nat);
    let (result, after) = run_spec::<Devices>(
        with_ppu(m, scrolled_by_line(drawn)),
        CPU_STEPS_PER_SCANLINE as nat,
    );
    match result {
        Ok(_) => (Ok(pixels), after),
        Err(e) => (Err(e), after),
    }
}

/// The first `count` scanlines of a frame, row by row, and the console
/// after them. The frame ends early, without pixels, at the first opcode
/// that the processor does not know.
pub open spec fn scanlines(m: Machine<DevicesState>, table: Seq<u8>, count: nat) -> (
    Result<Seq<u32>, UnknownOpcode>,
    Machine<DevicesState>,
)
    decreases count,
{
    if count == 0 {
        (Ok(Seq::empty()), m)
    } else {
        let (before, m1) = scanlines(m, table, (count - 1) as nat);
        match before {
            Err(e) => (Err(e), m1),
            Ok(pixels) => {
                let (line, m2) = scanline(m1, table, (count - 1) as usize);
                match line {
                    Ok(line_pixels) => (Ok(pixels + line_pixels), m2),
                    Err(e) => (Err(e), m2),
                }
            },
        }
    }
}

/// The console as the first scanline begins: the vertical blank is over
/// and the render address has taken its vertical bits from the pending one.
pub open spec fn frame_begun(m: Machine<DevicesState>) -> Machine<DevicesState> {
    let (stopped, cpu) = vblank_stopped(m.bus.ppu, m.cpu);
    Machine {
        cpu,
        bus: DevicesState { ppu: PpuState { v: with_vertical_of(stopped.v, stopped.t), ..stopped }, ..m.bus },
    }
}

/// The console after the vertical blank: the blank begins, which may raise
/// the NMI line, and the processor runs for the blank's duration.
pub open spec fn frame_blanked(m: Machine<DevicesState>) -> (
    Result<(), UnknownOpcode>,
    Machine<DevicesState>,
) {
    let (started, cpu) = vblank_started(m.bus.ppu, m.cpu);
    run_spec::<Devices>(
        Machine { cpu, bus: DevicesState { ppu: started, ..m.bus } },
        CPU_STEPS_PER_VBLANK as nat,
    )
}

/// One video frame of 256 by 240 pixels, row by row, each `0x00RRGGBB`, and
/// the console after the frame: the vertical blank, then the 240 scanlines.
pub open spec fn render_spec(m: Machine<DevicesState>, table: Seq<u8>) -> (
    Result<Seq<u32>, UnknownOpcode>,
    Machine<DevicesState>,
) {
    let (result, blanked) = frame_blanked(m);
    match result {
        Err(e) => (Err(e), blanked),
        Ok(_) => scanlines(frame_begun(blanked), table, NES_HEIGHT as nat),
    }
}

proof fn lemma_attribute_bits(v: u16, attribute_byte: u8)
    by (bit_vector)
    ensures
        ({
            let index = ((v >> 1u16) & 1u16) | ((v >> 5u16) & 2u16);
            &&& index <= 3u16
            &&& (attribute_byte >> ((index * 2) as u16)) & 3u8 < 4u8
        }),
{
}

proof fn lemma_render_address_fields(v: u16)
    by (bit_vector)
    requires
        v < 0x8000u16,
    ensures
        ({
            let tile_x = v & 0x001Fu16;
            let tile_y = (v >> 5u16) & 0x001Fu16;
            let nametable = (v >> 10u16) & 0x0003u16;
            &&& (v & 0x0FFFu16) | 0x2000u16 == (0x2000 + 0x0400 * nametable + tile_y * 32 + tile_x) as u16
            &&& (v & 0x0C00u16) | ((v >> 4u16) & 0x38u16) | ((v >> 2u16) & 0x07u16) | 0x23C0u16 == (0x2000
                + 0x0400 * nametable + 0x03C0 + tile_x / 4 + (tile_y / 4) * 8) as u16
            &&& ((v >> 1u16) & 1u16) | ((v >> 5u16) & 2u16) == ((tile_x / 2) % 2 + ((tile_y / 2) % 2) * 2) as u16
            &&& (v >> 12u16) == (v >> 12u16) & 0x0007u16
        }),
{
}

/// The background pixel under the render address is the pixel that the
/// address's fields name: the nametable, the tile's column and row, the
/// pixel row within the tile, and with them the pixel column that the
/// fine X scroll holds.
pub proof fn lemma_background_pixel_by_fields(ppu: PpuState, cartridge: CartridgeState)
    requires
        ppu.valid(),
    ensures
        background_pixel(ppu, cartridge) == background_pixel_at(
            ppu,
            cartridge,
            spec_nametable(ppu.v) as int,
            spec_coarse_x(ppu.v) as int,
            ppu.fine_x as int,
            spec_coarse_y(ppu.v) as int,
            spec_fine_y(ppu.v) as int,
        ),
{
    lemma_render_address_fields(ppu.v);
}

/// The palette of a background tile is one of the four background palettes.
pub proof fn lemma_attribute_in_range(attribute_byte: u8, v: u16)
    ensures
        attribute_of(attribute_byte, v) < 4,
        ((v >> 1) & 1) | ((v >> 5) & 2) <= 3,
{
    lemma_attribute_bits(v, attribute_byte);
}

} // verus!
