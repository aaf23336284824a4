use vstd::prelude::*;

verus! {

// The two render addresses of the picture unit, V and T, are 15 bits wide:
//
//  FEDCBA98 76543210
//  .yyy NN YYYYY XXXXX
//
// XXXXX is the tile column (coarse X), YYYYY the tile row (coarse Y), NN
// selects the nametable and yyy is the row within the tile (fine Y).
/// The bits of a render address.
pub const ADDRESS_BITS: u16 = 0x7FFF;

/// The tile column and the horizontal nametable bit.
pub const HORIZONTAL_BITS: u16 = 0x041F;

/// The tile row, the vertical nametable bit and the row within the tile.
pub const VERTICAL_BITS: u16 = 0x7BE0;

pub open spec fn spec_coarse_x(v: u16) -> u16 {
    v & 0x001F
}

pub open spec fn spec_coarse_y(v: u16) -> u16 {
    (v >> 5) & 0x001F
}

pub open spec fn spec_nametable(v: u16) -> u16 {
    (v >> 10) & 0x0003
}

pub open spec fn spec_fine_y(v: u16) -> u16 {
    (v >> 12) & 0x0007
}

/// `t` with the nametable select taken from the low two bits of `data`.
pub open spec fn spec_with_nametable(t: u16, data: u8) -> u16 {
    (t & 0x73FF) | (((data & 0x03) as u16) << 10)
}

/// `t` with the tile column taken from the high five bits of `data`.
pub open spec fn spec_with_scroll_x(t: u16, data: u8) -> u16 {
    (t & 0x7FE0) | ((data >> 3) as u16)
}

/// `t` with the tile row taken from the high five bits of `data` and the
/// row within the tile from its low three bits.
pub open spec fn spec_with_scroll_y(t: u16, data: u8) -> u16 {
    (t & 0x0C1F) | (((data >> 3) as u16) << 5) | (((data & 0x07) as u16) << 12)
}

/// `t` with bits 8 to 13 taken from the low six bits of `data` and bit 14
/// cleared.
pub open spec fn spec_with_high_byte(t: u16, data: u8) -> u16 {
    (t & 0x00FF) | (((data & 0x3F) as u16) << 8)
}

/// `t` with its low eight bits replaced by `data`.
pub open spec fn spec_with_low_byte(t: u16, data: u8) -> u16 {
    (t & 0x7F00) | (data as u16)
}

/// `v` moved on by `stride`, wrapping within the 15 bits.
pub open spec fn spec_advanced(v: u16, stride: u16) -> u16 {
    v.wrapping_add(stride) & ADDRESS_BITS
}

/// `v` with its vertical bits replaced by those of `t`.
pub open spec fn spec_with_vertical_of(v: u16, t: u16) -> u16 {
    (v & HORIZONTAL_BITS) | (t & VERTICAL_BITS)
}

/// `v` with its horizontal bits replaced by those of `t`.
pub open spec fn spec_with_horizontal_of(v: u16, t: u16) -> u16 {
    (v & VERTICAL_BITS) | (t & HORIZONTAL_BITS)
}

/// `v` one tile further right: past the last column of a nametable comes
/// the first column of its horizontal neighbour.
pub open spec fn spec_next_tile(v: u16) -> u16 {
    if v & 0x001F == 0x001F {
        (v & 0x7FE0) ^ 0x0400
    } else {
        (v + 1) as u16
    }
}

/// `v` one pixel row further down. Past the last row of a tile comes the
/// next tile row; past tile row 29 comes row 0 of the vertical neighbour.
pub open spec fn spec_next_row(v: u16) -> u16 {
    if v & 0x7000 != 0x7000 {
        (v + 0x1000) as u16
    } else if v & 0x03E0 == 0x03A0 {
        (v & 0x0C1F) ^ 0x0800
    } else {
        ((v & 0x0FFF) + 0x0020) as u16
    }
}

/// What keeps the render addresses within their 15 bits.
pub proof fn lemma_scroll_bounds(v: u16, t: u16, data: u8)
    by (bit_vector)
    requires
        v < 0x8000u16,
        t < 0x8000u16,
    ensures
        ({
            &&& (t & 0x73FFu16) | (((data & 0x03u8) as u16) << 10u16) < 0x8000u16
            &&& (t & 0x7FE0u16) | ((data >> 3u8) as u16) < 0x8000u16
            &&& (t & 0x0C1Fu16) | (((data >> 3u8) as u16) << 5u16) | (((data & 0x07u8) as u16) << 12u16)
                < 0x8000u16
            &&& (t & 0x00FFu16) | (((data & 0x3Fu8) as u16) << 8u16) < 0x8000u16
            &&& (t & 0x7F00u16) | (data as u16) < 0x8000u16
            &&& (v & 0x041Fu16) | (t & 0x7BE0u16) < 0x8000u16
            &&& (v & 0x7BE0u16) | (t & 0x041Fu16) < 0x8000u16
            &&& (v & 0x7FE0u16) ^ 0x0400u16 < 0x8000u16
            &&& v & 0x001Fu16 != 0x001Fu16 ==> v < 0x7FFFu16
            &&& v & 0x7000u16 != 0x7000u16 ==> v < 0x7000u16
            &&& (v & 0x0C1Fu16) ^ 0x0800u16 < 0x8000u16
            &&& v & 0x0FFFu16 < 0x1000u16
            &&& (v >> 12u16) < 8u16
        }),
{
}

#[verifier::when_used_as_spec(spec_with_nametable)]
pub fn with_nametable(t: u16, data: u8) -> (out: u16)
    requires
        t < 0x8000,
    ensures
        out == spec_with_nametable(t, data),
        out < 0x8000,
{
    proof {
        lemma_scroll_bounds(t, t, data);
    }
    (t & 0x73FF) | (((data & 0x03) as u16) << 10u16)
}

#[verifier::when_used_as_spec(spec_with_scroll_x)]
pub fn with_scroll_x(t: u16, data: u8) -> (out: u16)
    requires
        t < 0x8000,
    ensures
        out == spec_with_scroll_x(t, data),
        out < 0x8000,
{
    proof {
        lemma_scroll_bounds(t, t, data);
    }
    (t & 0x7FE0) | ((data >> 3u8) as u16)
}

#[verifier::when_used_as_spec(spec_with_scroll_y)]
pub fn with_scroll_y(t: u16, data: u8) -> (out: u16)
    requires
        t < 0x8000,
    ensures
        out == spec_with_scroll_y(t, data),
        out < 0x8000,
{
    proof {
        lemma_scroll_bounds(t, t, data);
    }
    (t & 0x0C1F) | (((data >> 3u8) as u16) << 5u16) | (((data & 0x07) as u16) << 12u16)
}

#[verifier::when_used_as_spec(spec_with_high_byte)]
pub fn with_high_byte(t: u16, data: u8) -> (out: u16)
    requires
        t < 0x8000,
    ensures
        out == spec_with_high_byte(t, data),
        out < 0x8000,
{
    proof {
        lemma_scroll_bounds(t, t, data);
    }
    (t & 0x00FF) | (((data & 0x3F) as u16) << 8u16)
}

#[verifier::when_used_as_spec(spec_with_low_byte)]
pub fn with_low_byte(t: u16, data: u8) -> (out: u16)
    requires
        t < 0x8000,
    ensures
        out == spec_with_low_byte(t, data),
        out < 0x8000,
{
    proof {
        lemma_scroll_bounds(t, t, data);
    }
    (t & 0x7F00) | (data as u16)
}

#[verifier::when_used_as_spec(spec_advanced)]
pub fn advanced(v: u16, stride: u16) -> (out: u16)
    ensures
        out == spec_advanced(v, stride),
        out < 0x8000,
{
    let sum = v.wrapping_add(stride);
    assert(sum & 0x7FFFu16 < 0x8000u16) by (bit_vector);
    sum & ADDRESS_BITS
}

#[verifier::when_used_as_spec(spec_with_vertical_of)]
pub fn with_vertical_of(v: u16, t: u16) -> (out: u16)
    requires
        v < 0x8000,
        t < 0x8000,
    ensures
        out == spec_with_vertical_of(v, t),
        out < 0x8000,
{
    proof {
        lemma_scroll_bounds(v, t, 0);
    }
    (v & HORIZONTAL_BITS) | (t & VERTICAL_BITS)
}

#[verifier::when_used_as_spec(spec_with_horizontal_of)]
pub fn with_horizontal_of(v: u16, t: u16) -> (out: u16)
    requires
        v < 0x8000,
        t < 0x8000,
    ensures
        out == spec_with_horizontal_of(v, t),
        out < 0x8000,
{
    proof {
        lemma_scroll_bounds(v, t, 0);
    }
    (v & VERTICAL_BITS) | (t & HORIZONTAL_BITS)
}

#[verifier::when_used_as_spec(spec_next_tile)]
pub fn next_tile(v: u16) -> (out: u16)
    requires
        v < 0x8000,
    ensures
        out == spec_next_tile(v),
        out < 0x8000,
{
    proof {
        lemma_scroll_bounds(v, v, 0);
    }
    if v & 0x001F == 0x001F {
        // if we were at the right edge of the nametable, go to the next
        // nametable
        (v & 0x7FE0) ^ 0x0400
    } else {
        // we were not at the right edge of the nametable, go to the
        // next tile
        v + 1
    }
}

#[verifier::when_used_as_spec(spec_next_row)]
pub fn next_row(v: u16) -> (out: u16)
    requires
        v < 0x8000,
    ensures
        out == spec_next_row(v),
        out < 0x8000,
{
    proof {
        lemma_scroll_bounds(v, v, 0);
    }
    if v & 0x7000 != 0x7000 {
        v + 0x1000
    } else if v & 0x03E0 == 0x03A0 {
        // If the coarse Y scroll is exactly equal to 29, set it to 0
        // and flip to a different nametable
        (v & 0x0C1F) ^ 0x0800
    } else {
        // increment the coarse Y scroll by 1
        (v & 0x0FFF) + 0x0020
    }
}

} // verus!
