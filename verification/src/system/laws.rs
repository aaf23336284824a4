use crate::cartridge::CartridgeState;
use crate::cpu::instructions::{pop, push};
use crate::cpu::laws::bus_keeps_status;
use crate::cpu::{CpuState, STACK_BASE};
use crate::memory::{Machine, Memory};
use crate::system::bus::{
    devices_read, devices_write, oam_dma, ppu_write, DevicesState, OAM_DATA_PORT, OAM_DMA_PORT,
};
use crate::system::controller::{pressed, ControllerState};
use crate::system::ppu::{bus_read, is_palette, register_read, register_write, PpuState};
use crate::system::render::{sprites_among, MAX_SPRITES_PER_SCANLINE, SPRITE_COUNT};
use crate::system::scroll::{spec_coarse_x, spec_coarse_y, spec_fine_y, spec_nametable};
use crate::system::sprite::sprite_of;
use crate::system::Devices;
use vstd::prelude::*;

verus! {

proof fn lemma_scroll_fields(t: u16, x: u8, y: u8)
    by (bit_vector)
    requires
        t < 0x8000u16,
    ensures
        ({
            let tx = (t & 0x7FE0u16) | ((x >> 3u8) as u16);
            let ty = (tx & 0x0C1Fu16) | (((y >> 3u8) as u16) << 5u16) | (((y & 0x07u8) as u16) << 12u16);
            &&& tx & 0x001Fu16 == (x / 8) as u16
            &&& tx & 0x7FE0u16 == t & 0x7FE0u16
            &&& ty & 0x001Fu16 == (x / 8) as u16
            &&& (ty >> 5u16) & 0x001Fu16 == (y / 8) as u16
            &&& (ty >> 12u16) & 0x0007u16 == (y % 8) as u16
            &&& (ty >> 10u16) & 0x0003u16 == (t >> 10u16) & 0x0003u16
        }),
{
}

proof fn lemma_address_bytes(t: u16, high: u8, low: u8)
    by (bit_vector)
    requires
        t < 0x8000u16,
    ensures
        ({
            let th = (t & 0x00FFu16) | (((high & 0x3Fu8) as u16) << 8u16);
            let tl = (th & 0x7F00u16) | (low as u16);
            tl == ((high % 64) * 256 + low) as u16
        }),
{
}

proof fn lemma_advanced_wraps(v: u16, stride: u16)
    by (bit_vector)
    requires
        v < 0x8000u16,
        stride == 1u16 || stride == 32u16,
    ensures
        (v + stride) as u16 & 0x7FFFu16 == ((v + stride) % 0x8000) as u16,
{
}

/// After a read of STATUS, two writes to SCROLL target X, then Y, whatever
/// was written to SCROLL or ADDR before: the first byte gives the tile
/// column and the pixel column within the tile, the second the tile row and
/// the pixel row within the tile. The nametable select stays as it was and
/// the write toggle is back at "first".
pub proof fn lemma_scroll_writes_target_x_then_y(
    ppu: PpuState,
    cartridge: CartridgeState,
    cpu: CpuState,
    x: u8,
    y: u8,
)
    requires
        ppu.valid(),
    ensures
        ({
            let fresh = register_read(ppu, cartridge, 0x2002).1;
            let first = register_write(fresh, cartridge, cpu, 0x2005, x).0;
            let second = register_write(first, cartridge, cpu, 0x2005, y).0;
            &&& first.scroll_x == x
            &&& first.fine_x == x % 8
            &&& spec_coarse_x(first.t) == x / 8
            &&& second.scroll_x == x
            &&& second.scroll_y == y
            &&& second.fine_x == x % 8
            &&& spec_coarse_x(second.t) == x / 8
            &&& spec_coarse_y(second.t) == y / 8
            &&& spec_fine_y(second.t) == y % 8
            &&& spec_nametable(second.t) == spec_nametable(ppu.t)
            &&& second.first_write
            &&& second.v == ppu.v
        }),
{
    lemma_scroll_fields(ppu.t, x, y);
}

/// After a read of STATUS, two writes to ADDR set the render address: the
/// low six bits of the first byte are its high part, the second byte is
/// its low part.
pub proof fn lemma_address_writes(ppu: PpuState, cartridge: CartridgeState, cpu: CpuState, high: u8, low: u8)
    requires
        ppu.valid(),
    ensures
        ({
            let fresh = register_read(ppu, cartridge, 0x2002).1;
            let first = register_write(fresh, cartridge, cpu, 0x2006, high).0;
            let second = register_write(first, cartridge, cpu, 0x2006, low).0;
            &&& first.v == ppu.v
            &&& second.v == (high % 64) * 256 + low
            &&& second.t == second.v
            &&& second.first_write
            &&& second == (PpuState { v: second.v, t: second.t, first_write: true, vblank_status: false, ..ppu })
        }),
{
    lemma_address_bytes(ppu.t, high, low);
}

/// The picture unit after `count` reads of the data port.
pub open spec fn data_reads(ppu: PpuState, cartridge: CartridgeState, count: nat) -> PpuState
    decreases count,
{
    if count == 0 {
        ppu
    } else {
        register_read(data_reads(ppu, cartridge, (count - 1) as nat), cartridge, 0x2007).1
    }
}

/// Reads of the data port walk through the picture unit's memory with the
/// stride that CONTROL sets, 1 or 32, wrapping within the 15 bits of the
/// render address. Read number `count` (the first is number 0) takes the
/// byte at the address `v + count * stride`: from palette RAM it returns
/// that byte at once, from elsewhere it returns the byte that the read
/// before it took. Nothing but the render address and the read buffer
/// changes.
pub proof fn lemma_data_reads_traverse(ppu: PpuState, cartridge: CartridgeState, count: nat)
    requires
        ppu.valid(),
    ensures
        ({
            let before = data_reads(ppu, cartridge, count);
            let (data, after) = register_read(before, cartridge, 0x2007);
            let address = ((ppu.v + count * ppu.stride()) % 0x8000) as u16;
            let taken = bus_read(ppu, cartridge, address);
            &&& before.valid()
            &&& before.v == address
            &&& before == (PpuState { v: before.v, read_buffer: before.read_buffer, ..ppu })
            &&& after.read_buffer == taken
            &&& after.v == (ppu.v + (count + 1) * ppu.stride()) % 0x8000
            &&& is_palette(address) ==> data == taken
            &&& !is_palette(address) ==> data == before.read_buffer
            &&& !is_palette(address) && count > 0 ==> data == bus_read(
                ppu,
                cartridge,
                ((ppu.v + (count - 1) * ppu.stride()) % 0x8000) as u16,
            )
        }),
    decreases count,
{
    if count > 0 {
        lemma_data_reads_traverse(ppu, cartridge, (count - 1) as nat);
        let earlier = data_reads(ppu, cartridge, (count - 1) as nat);
        lemma_advanced_wraps(earlier.v, ppu.stride());
        assert((ppu.v + (count - 1) * ppu.stride()) % 0x8000 + ppu.stride() == ppu.v + count * ppu.stride()
            - 0x8000 * ((ppu.v + (count - 1) * ppu.stride()) / 0x8000)) by (nonlinear_arith);
        assert(((ppu.v + (count - 1) * ppu.stride()) % 0x8000 + ppu.stride()) % 0x8000 == (ppu.v + count
            * ppu.stride()) % 0x8000) by (nonlinear_arith)
            requires
                (ppu.v + (count - 1) * ppu.stride()) % 0x8000 + ppu.stride() == ppu.v + count * ppu.stride()
                    - 0x8000 * ((ppu.v + (count - 1) * ppu.stride()) / 0x8000),
        ;
    }
    let before = data_reads(ppu, cartridge, count);
    lemma_advanced_wraps(before.v, ppu.stride());
    assert((before.v + ppu.stride()) % 0x8000 == (ppu.v + (count + 1) * ppu.stride()) % 0x8000) by (nonlinear_arith)
        requires
            before.v == (ppu.v + count * ppu.stride()) % 0x8000,
    ;
}

/// Whether a read of `address` on the console's bus returns a stored byte
/// and changes nothing: work RAM and the cartridge.
pub open spec fn reads_plainly(address: u16) -> bool {
    address < 0x2000 || address >= 0x4018
}

/// The byte that the console's bus holds at an address of work RAM or of
/// the cartridge.
pub open spec fn stored_byte(bus: DevicesState, address: u16) -> u8 {
    if address < 0x2000 {
        bus.ram[address as int % 0x0800]
    } else {
        bus.cartridge.prg_read(address)
    }
}

/// Byte `offset` of the page `page` of work RAM or of the cartridge.
pub open spec fn page_byte(bus: DevicesState, page: u8, offset: int) -> u8 {
    stored_byte(bus, (page * 256 + offset) as u16)
}

/// How far the place `place` of object attribute memory lies behind the
/// pointer `start`, wrapping.
pub open spec fn places_behind(start: u8, place: int) -> int {
    if place >= start {
        place - start
    } else {
        place - start + 256
    }
}

/// Object attribute memory after the first `count` bytes of a page went
/// into it, starting at the OAM pointer.
pub open spec fn oam_after_dma(bus: DevicesState, page: u8, count: nat) -> Seq<u8> {
    Seq::new(
        256,
        |j: int|
            if places_behind(bus.ppu.oam_address, j) < count {
                page_byte(bus, page, places_behind(bus.ppu.oam_address, j))
            } else {
                bus.ppu.oam[j]
            },
    )
}

/// A read of work RAM or of the cartridge returns the stored byte and
/// changes nothing.
pub proof fn lemma_plain_read(m: Machine<DevicesState>, address: u16)
    requires
        reads_plainly(address),
    ensures
        devices_read(m, address) == (stored_byte(m.bus, address), m),
{
}

/// A write to the OAM data port puts the byte at the OAM pointer and moves
/// the pointer on by one, wrapping; nothing else changes.
pub proof fn lemma_oam_data_write(m: Machine<DevicesState>, data: u8)
    ensures
        ppu_write(m, OAM_DATA_PORT, data) == (Machine {
            cpu: m.cpu,
            bus: DevicesState {
                ppu: PpuState {
                    oam: m.bus.ppu.oam.update(m.bus.ppu.oam_address as int, data),
                    oam_address: ((m.bus.ppu.oam_address + 1) % 256) as u8,
                    ..m.bus.ppu
                },
                ..m.bus
            },
        }),
{
}

/// One more byte of a DMA from a page of work RAM or of the cartridge: the
/// page's next byte goes to the OAM pointer, which moves on by one.
pub proof fn lemma_oam_dma_unfold(m: Machine<DevicesState>, page: u8, count: nat)
    requires
        page < 0x20 || page > 0x40,
        0 < count <= 256,
    ensures
        ({
            let before = oam_dma(m, page, (count - 1) as nat);
            oam_dma(m, page, count) == (Machine {
                cpu: before.cpu,
                bus: DevicesState {
                    ppu: PpuState {
                        oam: before.bus.ppu.oam.update(
                            before.bus.ppu.oam_address as int,
                            page_byte(before.bus, page, count - 1),
                        ),
                        oam_address: ((before.bus.ppu.oam_address + 1) % 256) as u8,
                        ..before.bus.ppu
                    },
                    ..before.bus
                },
            })
        }),
{
    reveal(oam_dma);
    let before = oam_dma(m, page, (count - 1) as nat);
    lemma_plain_read(before, (page * 256 + (count - 1)) as u16);
    lemma_oam_data_write(before, page_byte(before.bus, page, count - 1));
}

/// A DMA of `count` bytes from a page of work RAM or of the cartridge puts
/// byte `i` of the page at the OAM pointer plus `i`, wrapping, and moves
/// the pointer on by `count`; nothing else changes.
pub proof fn lemma_oam_dma_steps(m: Machine<DevicesState>, page: u8, count: nat)
    requires
        m.bus.valid(),
        page < 0x20 || page > 0x40,
        count <= 256,
    ensures
        oam_dma(m, page, count) == (Machine {
            cpu: m.cpu,
            bus: DevicesState {
                ppu: PpuState {
                    oam: oam_after_dma(m.bus, page, count),
                    oam_address: ((m.bus.ppu.oam_address + count) % 256) as u8,
                    ..m.bus.ppu
                },
                ..m.bus
            },
        }),
    decreases count,
{
    if count == 0 {
        reveal(oam_dma);
        assert(oam_after_dma(m.bus, page, 0) =~= m.bus.ppu.oam);
    } else {
        lemma_oam_dma_steps(m, page, (count - 1) as nat);
        lemma_oam_dma_unfold(m, page, count);
        let before = oam_dma(m, page, (count - 1) as nat);
        let start = m.bus.ppu.oam_address;
        let pointer = before.bus.ppu.oam_address;
        let oam_data = page_byte(m.bus, page, count - 1);
        assert(places_behind(start, pointer as int) == count - 1);
        let after = before.bus.ppu.oam.update(pointer as int, oam_data);
        assert forall|j: int| 0 <= j < 256 implies #[trigger] after[j] == oam_after_dma(m.bus, page, count)[j] by {
            if j != pointer {
                assert(places_behind(start, j) != count - 1);
            }
        }
        assert(after =~= oam_after_dma(m.bus, page, count));
    }
}

/// A write of a page number to `0x4014`, for a page of work RAM or of the
/// cartridge, leaves object attribute memory equal to the page, rotated by
/// the OAM pointer: byte `i` of the page lies at the pointer plus `i`,
/// wrapping. The pointer ends where it was, and nothing else changes.
pub proof fn lemma_oam_dma(m: Machine<DevicesState>, page: u8)
    requires
        m.bus.valid(),
        page < 0x20 || page > 0x40,
    ensures
        ({
            let after = devices_write(m, OAM_DMA_PORT, page);
            &&& forall|i: int|
                0 <= i < 256 ==> after.bus.ppu.oam[(m.bus.ppu.oam_address + i) % 256] == #[trigger] page_byte(
                    m.bus,
                    page,
                    i,
                )
            &&& after.bus.ppu.oam.len() == 256
            &&& after.bus.ppu.oam_address == m.bus.ppu.oam_address
            &&& after.cpu == m.cpu
            &&& after.bus == (DevicesState {
                ppu: PpuState { oam: after.bus.ppu.oam, ..m.bus.ppu },
                ..m.bus
            })
        }),
{
    lemma_oam_dma_steps(m, page, 256);
    let after = devices_write(m, OAM_DMA_PORT, page);
    assert forall|i: int| 0 <= i < 256 implies after.bus.ppu.oam[(m.bus.ppu.oam_address + i) % 256]
        == #[trigger] page_byte(m.bus, page, i) by {
        let j = (m.bus.ppu.oam_address + i) % 256;
        assert(places_behind(m.bus.ppu.oam_address, j) == i);
    }
}

/// What the buttons' byte holds, bit by bit.
proof fn lemma_button_weights(a: u8, b: u8, c: u8, d: u8, e: u8, f: u8, g: u8, h: u8)
    by (bit_vector)
    requires
        a <= 1u8,
        b <= 1u8,
        c <= 1u8,
        d <= 1u8,
        e <= 1u8,
        f <= 1u8,
        g <= 1u8,
        h <= 1u8,
    ensures
        ({
            let s = a + 2 * b + 4 * c + 8 * d + 16 * e + 32 * f + 64 * g + 128 * h;
            &&& 0 <= s < 256
            &&& s % 2 == a
            &&& (s / 2) % 2 == b
            &&& (s / 4) % 2 == c
            &&& (s / 8) % 2 == d
            &&& (s / 16) % 2 == e
            &&& (s / 32) % 2 == f
            &&& (s / 64) % 2 == g
            &&& (s / 128) % 2 == h
        }),
{
}

/// After the strobe line went high and low again, the first eight reads of
/// a controller return its buttons in the order A, B, Select, Start, Up,
/// Down, Left, Right, one bit each, as they were when the line went low;
/// every read after them returns 1.
pub proof fn lemma_controller_reads(controller: ControllerState, index: nat)
    ensures
        ({
            let strobed = controller.latched(true).latched(false);
            let bit = strobed.read_times(index).read().0;
            &&& index < 8 ==> bit == pressed(controller.button(index as int))
            &&& index >= 8 ==> bit == 1
        }),
{
    let strobed = controller.latched(true).latched(false);
    lemma_controller_shifts(strobed, index);
    lemma_button_weights(
        pressed(controller.button_a) as u8,
        pressed(controller.button_b) as u8,
        pressed(controller.button_select) as u8,
        pressed(controller.button_start) as u8,
        pressed(controller.button_up) as u8,
        pressed(controller.button_down) as u8,
        pressed(controller.button_left) as u8,
        pressed(controller.button_right) as u8,
    );
    assert(strobed.captured_byte == controller.buttons());
}

/// The bit that a controller whose strobe line is low returns after
/// `count` reads: bit `count` of what was in the shift register, and 1 once
/// the register has run empty.
proof fn lemma_controller_shifts(controller: ControllerState, count: nat)
    requires
        !controller.latch_state,
    ensures
        ({
            let after = controller.read_times(count);
            let c = controller.captured_byte as int;
            let bit = after.read().0 as int;
            &&& !after.latch_state
            &&& count == 0 ==> after.captured_byte == c && bit == c % 2
            &&& count == 1 ==> after.captured_byte == c / 2 + 128 && bit == (c / 2) % 2
            &&& count == 2 ==> after.captured_byte == c / 4 + 192 && bit == (c / 4) % 2
            &&& count == 3 ==> after.captured_byte == c / 8 + 224 && bit == (c / 8) % 2
            &&& count == 4 ==> after.captured_byte == c / 16 + 240 && bit == (c / 16) % 2
            &&& count == 5 ==> after.captured_byte == c / 32 + 248 && bit == (c / 32) % 2
            &&& count == 6 ==> after.captured_byte == c / 64 + 252 && bit == (c / 64) % 2
            &&& count == 7 ==> after.captured_byte == c / 128 + 254 && bit == (c / 128) % 2
            &&& count >= 8 ==> after.captured_byte == 255 && bit == 1
        }),
    decreases count,
{
    if count > 0 {
        lemma_controller_shifts(controller, (count - 1) as nat);
    }
}

/// The sprites that are gathered for a scanline are at most eight, each is
/// the sprite that object attribute memory holds under its number, each
/// covers the scanline, and they stand in the order of their numbers.
pub proof fn lemma_sprites_among(
    oam: Seq<u8>,
    sprites_are_8x16: bool,
    sprite_tiles_are_in_upper_half: bool,
    y: usize,
    count: nat,
)
    requires
        count <= SPRITE_COUNT,
    ensures
        ({
            let sprites = sprites_among(oam, sprites_are_8x16, sprite_tiles_are_in_upper_half, y, count);
            &&& sprites.len() <= MAX_SPRITES_PER_SCANLINE
            &&& sprites.len() <= count
            &&& forall|i: int|
                0 <= i < sprites.len() ==> {
                    &&& (#[trigger] sprites[i]).0 < count
                    &&& sprites[i].1 == sprite_of(
                        sprites_are_8x16,
                        sprite_tiles_are_in_upper_half,
                        oam.subrange(4 * sprites[i].0, 4 * sprites[i].0 + 4),
                    )
                    &&& sprites[i].1.covers_scanline(sprites_are_8x16, y)
                }
            &&& forall|i: int, j: int| 0 <= i < j < sprites.len() ==> (#[trigger] sprites[i]).0 < (#[trigger] sprites[j]).0
        }),
    decreases count,
{
    if count > 0 {
        lemma_sprites_among(oam, sprites_are_8x16, sprite_tiles_are_in_upper_half, y, (count - 1) as nat);
    }
}

/// A sprite that covers the scanline is gathered unless eight sprites with
/// lower numbers cover it too.
pub proof fn lemma_sprites_among_complete(
    oam: Seq<u8>,
    sprites_are_8x16: bool,
    sprite_tiles_are_in_upper_half: bool,
    y: usize,
    count: nat,
    number: nat,
)
    requires
        number < count <= SPRITE_COUNT,
        sprite_of(
            sprites_are_8x16,
            sprite_tiles_are_in_upper_half,
            oam.subrange(4 * number as int, 4 * number as int + 4),
        ).covers_scanline(sprites_are_8x16, y),
    ensures
        ({
            let sprites = sprites_among(oam, sprites_are_8x16, sprite_tiles_are_in_upper_half, y, count);
            sprites.len() == MAX_SPRITES_PER_SCANLINE || exists|i: int|
                0 <= i < sprites.len() && (#[trigger] sprites[i]).0 == number
        }),
    decreases count,
{
    let before = sprites_among(
        oam,
        sprites_are_8x16,
        sprite_tiles_are_in_upper_half,
        y,
        (count - 1) as nat,
    );
    let sprites = sprites_among(oam, sprites_are_8x16, sprite_tiles_are_in_upper_half, y, count);
    lemma_sprites_among(oam, sprites_are_8x16, sprite_tiles_are_in_upper_half, y, (count - 1) as nat);
    if number < count - 1 {
        lemma_sprites_among_complete(
            oam,
            sprites_are_8x16,
            sprite_tiles_are_in_upper_half,
            y,
            (count - 1) as nat,
            number,
        );
        if before.len() < MAX_SPRITES_PER_SCANLINE {
            let i = choose|i: int| 0 <= i < before.len() && (#[trigger] before[i]).0 == number;
            assert(sprites[i].0 == number);
        }
    } else if before.len() < MAX_SPRITES_PER_SCANLINE {
        assert(sprites[before.len() as int].0 == number);
    }
}

/// A DMA leaves the processor alone, whatever page it copies.
pub proof fn lemma_oam_dma_keeps_cpu(m: Machine<DevicesState>, page: u8, count: nat)
    ensures
        oam_dma(m, page, count).cpu == m.cpu,
    decreases count,
{
    reveal(oam_dma);
    if count > 0 {
        lemma_oam_dma_keeps_cpu(m, page, (count - 1) as nat);
    }
}

/// No access to the console's bus changes a register of the processor: a
/// write may set the level of the NMI line and nothing else.
pub proof fn lemma_console_keeps_registers(m: Machine<DevicesState>, address: u16, data: u8)
    ensures
        devices_read(m, address).1.cpu == m.cpu,
        devices_write(m, address, data).cpu == m.cpu.with_nmi_signal(
            devices_write(m, address, data).cpu.nmi_signal,
        ),
{
    lemma_oam_dma_keeps_cpu(m, data, 256);
}

/// The console's bus leaves the status register alone, so that bit 5 of
/// the status register stays set on the console.
pub proof fn lemma_console_keeps_status()
    ensures
        bus_keeps_status::<Devices>(),
{
    assert forall|m: Machine<DevicesState>, address: u16| (#[trigger] Devices::read_spec(m, address)).1.cpu.p
        == m.cpu.p by {
        lemma_console_keeps_registers(m, address, 0);
    }
    assert forall|m: Machine<DevicesState>, address: u16, data: u8|
        (#[trigger] Devices::write_spec(m, address, data)).cpu.p == m.cpu.p by {
        lemma_console_keeps_registers(m, address, data);
    }
}

/// On the console, whose stack page is work RAM, a byte that is pushed and
/// then popped comes back as it was, and the stack pointer is where it was
/// before the push.
pub proof fn lemma_push_pop_on_console(m: Machine<DevicesState>, byte: u8)
    requires
        m.bus.valid(),
    ensures
        ({
            let (popped, after) = pop::<Devices>(push::<Devices>(m, byte));
            &&& popped == byte
            &&& after.cpu == m.cpu
            &&& after.bus == (DevicesState { ram: m.bus.ram.update(STACK_BASE + m.cpu.s, byte), ..m.bus })
        }),
{
}

} // verus!
