use crate::cartridge::CartridgeState;
use crate::cpu::laws::{bus_keeps_part, lemma_run_keeps_part};
use crate::cpu::run_spec;
use crate::memory::{Machine, Memory};
use crate::system::bus::{devices_read, devices_write, oam_dma, DevicesState};
use crate::system::ppu::{register_read, PpuState, CONTROL_SPRITES_UPPER, CONTROL_TALL_SPRITES};
use crate::system::render::{
    background_pixel, first_sprite_pixel, frame_begun, frame_blanked, line_pixels, pixel, render_spec,
    scanline, scanline_sprites, scanlines, scrolled_by_line, sprite_0_hits, sprites_among, with_ppu,
    CPU_STEPS_PER_SCANLINE, NES_HEIGHT, NES_WIDTH, SPRITE_COUNT,
};
use crate::system::sprite::{sprite_of, Sprite};
use crate::system::Devices;
use vstd::prelude::*;

verus! {

/// The sprite-0 latch of the console's picture unit.
pub open spec fn sprite_0_latch() -> spec_fn(DevicesState) -> bool {
    |bus: DevicesState| bus.ppu.sprite_0_hit
}

/// A DMA leaves the sprite-0 latch alone.
pub proof fn lemma_oam_dma_keeps_latch(m: Machine<DevicesState>, page: u8, count: nat)
    ensures
        oam_dma(m, page, count).bus.ppu.sprite_0_hit == m.bus.ppu.sprite_0_hit,
    decreases count,
{
    reveal(oam_dma);
    if count > 0 {
        lemma_oam_dma_keeps_latch(m, page, (count - 1) as nat);
    }
}

/// No access of the processor to the console's bus changes the sprite-0
/// latch: only drawing sets it, and only the vertical blank clears it.
pub proof fn lemma_console_keeps_latch()
    ensures
        bus_keeps_part::<Devices, bool>(sprite_0_latch()),
{
    assert forall|m: Machine<DevicesState>, address: u16|
        sprite_0_latch()((#[trigger] Devices::read_spec(m, address)).1.bus) == sprite_0_latch()(m.bus) by {
        assert(devices_read(m, address).1.bus.ppu.sprite_0_hit == m.bus.ppu.sprite_0_hit);
    }
    assert forall|m: Machine<DevicesState>, address: u16, data: u8|
        sprite_0_latch()((#[trigger] Devices::write_spec(m, address, data)).bus) == sprite_0_latch()(
            m.bus,
        ) by {
        lemma_oam_dma_keeps_latch(m, data, 256);
        assert(devices_write(m, address, data).bus.ppu.sprite_0_hit == m.bus.ppu.sprite_0_hit);
    }
}

/// Drawing pixels moves the render address and the fine X scroll and may
/// set the sprite-0 latch; it changes nothing else of the picture unit and
/// never clears the latch.
pub proof fn lemma_line_pixels_keep(
    ppu: PpuState,
    cartridge: CartridgeState,
    table: Seq<u8>,
    sprites: Seq<(usize, Sprite)>,
    y: usize,
    count: nat,
)
    ensures
        ({
            let after = line_pixels(ppu, cartridge, table, sprites, y, count).1;
            &&& after == (PpuState { v: after.v, fine_x: after.fine_x, sprite_0_hit: after.sprite_0_hit, ..ppu })
            &&& ppu.sprite_0_hit ==> after.sprite_0_hit
            &&& line_pixels(ppu, cartridge, table, sprites, y, count).0.len() == count
        }),
    decreases count,
{
    if count > 0 {
        lemma_line_pixels_keep(ppu, cartridge, table, sprites, y, (count - 1) as nat);
    }
}

/// Where sprite 0 and the background are both opaque at a pixel of a
/// scanline, the sprite-0 latch is set once the scanline is drawn up to
/// that pixel, and stays set for the rest of the scanline.
pub proof fn lemma_sprite_0_hit_in_line(
    ppu: PpuState,
    cartridge: CartridgeState,
    table: Seq<u8>,
    sprites: Seq<(usize, Sprite)>,
    y: usize,
    x: usize,
    count: nat,
)
    requires
        x < count,
        ({
            let before = line_pixels(ppu, cartridge, table, sprites, y, x as nat).1;
            sprite_0_hits(
                background_pixel(before, cartridge),
                first_sprite_pixel(sprites, cartridge, ppu.control & CONTROL_TALL_SPRITES != 0, x, y, 0),
            )
        }),
    ensures
        line_pixels(ppu, cartridge, table, sprites, y, count).1.sprite_0_hit,
    decreases count,
{
    lemma_line_pixels_keep(ppu, cartridge, table, sprites, y, x as nat);
    if count == x + 1 {
        let before = line_pixels(ppu, cartridge, table, sprites, y, x as nat).1;
        assert(pixel(before, cartridge, table, sprites, x, y).1.sprite_0_hit);
    } else {
        lemma_sprite_0_hit_in_line(ppu, cartridge, table, sprites, y, x, (count - 1) as nat);
        let before = line_pixels(ppu, cartridge, table, sprites, y, (count - 1) as nat).1;
        assert(pixel(before, cartridge, table, sprites, (count - 1) as usize, y).1.sprite_0_hit);
    }
}

/// Where sprite 0 covers a scanline, it is the first of the sprites that
/// are gathered for the scanline.
pub proof fn lemma_sprite_0_is_first(
    oam: Seq<u8>,
    sprites_are_8x16: bool,
    sprite_tiles_are_in_upper_half: bool,
    y: usize,
    count: nat,
)
    requires
        count >= 1,
        sprite_of(sprites_are_8x16, sprite_tiles_are_in_upper_half, oam.subrange(0, 4)).covers_scanline(
            sprites_are_8x16,
            y,
        ),
    ensures
        ({
            let sprites = sprites_among(oam, sprites_are_8x16, sprite_tiles_are_in_upper_half, y, count);
            &&& sprites.len() >= 1
            &&& sprites[0] == (
                0usize,
                sprite_of(sprites_are_8x16, sprite_tiles_are_in_upper_half, oam.subrange(0, 4)),
            )
        }),
    decreases count,
{
    if count > 1 {
        lemma_sprite_0_is_first(oam, sprites_are_8x16, sprite_tiles_are_in_upper_half, y, (count - 1) as nat);
    } else {
        assert(sprites_among(oam, sprites_are_8x16, sprite_tiles_are_in_upper_half, y, 0).len() == 0);
    }
}

/// Sprite-0 hit on a scanline, by what object attribute memory and the
/// cartridge hold: where the sprite that the first four bytes of object
/// attribute memory describe covers scanline `y`, shows an opaque pixel at
/// column `x`, and the background is opaque there too, the sprite-0 latch
/// is set when the scanline is drawn.
pub proof fn lemma_sprite_0_meets_background(
    ppu: PpuState,
    cartridge: CartridgeState,
    table: Seq<u8>,
    y: usize,
    x: usize,
)
    requires
        x < NES_WIDTH,
        ({
            let sprites_are_8x16 = ppu.control & CONTROL_TALL_SPRITES != 0;
            let sprite_0 = sprite_of(
                sprites_are_8x16,
                ppu.control & CONTROL_SPRITES_UPPER != 0,
                ppu.oam.subrange(0, 4),
            );
            let before = line_pixels(ppu, cartridge, table, scanline_sprites(ppu, y), y, x as nat).1;
            &&& sprite_0.covers_scanline(sprites_are_8x16, y)
            &&& sprite_0.pixel_at(cartridge, sprites_are_8x16, x, y) is Some
            &&& background_pixel(before, cartridge).0 != 0
        }),
    ensures
        line_pixels(ppu, cartridge, table, scanline_sprites(ppu, y), y, NES_WIDTH as nat).1.sprite_0_hit,
{
    let sprites_are_8x16 = ppu.control & CONTROL_TALL_SPRITES != 0;
    lemma_sprite_0_is_first(
        ppu.oam,
        sprites_are_8x16,
        ppu.control & CONTROL_SPRITES_UPPER != 0,
        y,
        SPRITE_COUNT as nat,
    );
    let sprites = scanline_sprites(ppu, y);
    assert(first_sprite_pixel(sprites, cartridge, sprites_are_8x16, x, y, 0) matches Some((0, _)));
    lemma_sprite_0_hit_in_line(ppu, cartridge, table, sprites, y, x, NES_WIDTH as nat);
}

/// After a scanline, with the processor's steps behind it, the sprite-0
/// latch is as the drawing of the scanline left it.
pub proof fn lemma_scanline_keeps_latch(m: Machine<DevicesState>, table: Seq<u8>, y: usize)
    ensures
        scanline(m, table, y).1.bus.ppu.sprite_0_hit == line_pixels(
            m.bus.ppu,
            m.bus.cartridge,
            table,
            scanline_sprites(m.bus.ppu, y),
            y,
            NES_WIDTH as nat,
        ).1.sprite_0_hit,
        m.bus.ppu.sprite_0_hit ==> scanline(m, table, y).1.bus.ppu.sprite_0_hit,
{
    let sprites = scanline_sprites(m.bus.ppu, y);
    let drawn = line_pixels(m.bus.ppu, m.bus.cartridge, table, sprites, y, NES_WIDTH as nat).1;
    lemma_line_pixels_keep(m.bus.ppu, m.bus.cartridge, table, sprites, y, NES_WIDTH as nat);
    lemma_console_keeps_latch();
    lemma_run_keeps_part::<Devices, bool>(
        sprite_0_latch(),
        with_ppu(m, scrolled_by_line(drawn)),
        CPU_STEPS_PER_SCANLINE as nat,
    );
}

/// Once the sprite-0 latch is set during a frame, it stays set to the
/// frame's end, whatever the processor does meanwhile.
pub proof fn lemma_scanlines_keep_latch(m: Machine<DevicesState>, table: Seq<u8>, from: nat, count: nat)
    requires
        from <= count,
        scanlines(m, table, from).1.bus.ppu.sprite_0_hit,
    ensures
        scanlines(m, table, count).1.bus.ppu.sprite_0_hit,
    decreases count,
{
    if from < count {
        lemma_scanlines_keep_latch(m, table, from, (count - 1) as nat);
        lemma_scanline_keeps_latch(scanlines(m, table, (count - 1) as nat).1, table, (count - 1) as usize);
    }
}

/// Sprite-0 hit over a frame: where scanline `y` is reached and, as the
/// console then stands, sprite 0 and the background are both opaque at
/// column `x` of it, the sprite-0 latch is set after `count` scanlines, for
/// every `count` past `y`, with the processor running in between.
pub proof fn lemma_sprite_0_hit_in_frame(
    m: Machine<DevicesState>,
    table: Seq<u8>,
    y: usize,
    x: usize,
    count: nat,
)
    requires
        y < count,
        x < NES_WIDTH,
        scanlines(m, table, y as nat).0 is Ok,
        ({
            let ppu = scanlines(m, table, y as nat).1.bus.ppu;
            let cartridge = scanlines(m, table, y as nat).1.bus.cartridge;
            let sprites = scanline_sprites(ppu, y);
            let before = line_pixels(ppu, cartridge, table, sprites, y, x as nat).1;
            sprite_0_hits(
                background_pixel(before, cartridge),
                first_sprite_pixel(sprites, cartridge, ppu.control & CONTROL_TALL_SPRITES != 0, x, y, 0),
            )
        }),
    ensures
        scanlines(m, table, count).1.bus.ppu.sprite_0_hit,
{
    let at_line = scanlines(m, table, y as nat).1;
    let sprites = scanline_sprites(at_line.bus.ppu, y);
    lemma_sprite_0_hit_in_line(
        at_line.bus.ppu,
        at_line.bus.cartridge,
        table,
        sprites,
        y,
        x,
        NES_WIDTH as nat,
    );
    lemma_scanline_keeps_latch(at_line, table, y);
    assert(scanlines(m, table, (y + 1) as nat).1 == scanline(at_line, table, y).1);
    lemma_scanlines_keep_latch(m, table, (y + 1) as nat, count);
}

/// Sprite-0 hit and `render`: where the vertical blank before the frame
/// goes well and, as the console stands when scanline `y` of the frame
/// begins, sprite 0 and the background are both opaque at column `x` of it,
/// a read of STATUS after the frame has bit 6 set.
pub proof fn lemma_sprite_0_hit_after_render(m: Machine<DevicesState>, table: Seq<u8>, y: usize, x: usize)
    requires
        y < NES_HEIGHT,
        x < NES_WIDTH,
        frame_blanked(m).0 is Ok,
        scanlines(frame_begun(frame_blanked(m).1), table, y as nat).0 is Ok,
        ({
            let at_line = scanlines(frame_begun(frame_blanked(m).1), table, y as nat).1;
            let ppu = at_line.bus.ppu;
            let sprites = scanline_sprites(ppu, y);
            let before = line_pixels(ppu, at_line.bus.cartridge, table, sprites, y, x as nat).1;
            sprite_0_hits(
                background_pixel(before, at_line.bus.cartridge),
                first_sprite_pixel(
                    sprites,
                    at_line.bus.cartridge,
                    ppu.control & CONTROL_TALL_SPRITES != 0,
                    x,
                    y,
                    0,
                ),
            )
        }),
    ensures
        ({
            let after = render_spec(m, table).1.bus;
            &&& after.ppu.sprite_0_hit
            &&& (register_read(after.ppu, after.cartridge, 0x2002).0 / 0x40) % 2 == 1
        }),
{
    lemma_sprite_0_hit_in_frame(frame_begun(frame_blanked(m).1), table, y, x, NES_HEIGHT as nat);
}

} // verus!
