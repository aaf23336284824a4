use vstd::prelude::*;

verus! {

/// The size of a colour table: 64 colours for each of the 8 emphasis
/// combinations, 3 bytes each.
pub const PALETTE_SIZE: usize = 1536;

/// The colour that a colour table holds for a colour number under a given
/// greyscale setting and emphasis: `0x00RRGGBB`. Only the low six bits of
/// the colour number count; greyscale keeps only the upper two of them.
pub open spec fn palette_color(table: Seq<u8>, grayscale: bool, emphasis: int, color_index: int) -> u32 {
    let color_index = if grayscale {
        (color_index % 64) / 16 * 16
    } else {
        color_index % 64
    };
    let index_within_palette = (emphasis * 64 + color_index) * 3;
    (table[index_within_palette] * 0x1_0000 + table[index_within_palette + 1] * 0x100
        + table[index_within_palette + 2]) as u32
}

pub fn get_palette_color(table: &[u8; 1536], grayscale: bool, emphasis: usize, color_index: usize) -> (color:
    u32)
    requires
        emphasis < 8,
    ensures
        color == palette_color(table@, grayscale, emphasis as int, color_index as int),
{
    let color_index = if grayscale {
        (color_index % 64) / 16 * 16
    } else {
        color_index % 64
    };
    let index_within_palette = (emphasis * 64 + color_index) * 3;
    table[index_within_palette] as u32 * 0x1_0000 + table[index_within_palette + 1] as u32 * 0x100
        + table[index_within_palette + 2] as u32
}

} // verus!
