use crate::cartridge::{Cartridge, CartridgeState};
use vstd::prelude::*;

verus! {

/// How many bytes a tile takes in pattern memory.
pub const TILE_BYTES: u16 = 16;

/// Where the upper pattern table begins.
pub const UPPER_PATTERN_TABLE: u16 = 0x1000;

/// OAM attribute bit 5: the sprite is behind the background.
pub const SPRITE_BEHIND_BACKGROUND: u8 = 0b0010_0000;

/// OAM attribute bit 6: the sprite is mirrored left to right.
pub const SPRITE_FLIP_HORIZONTAL: u8 = 0b0100_0000;

/// OAM attribute bit 7: the sprite is mirrored top to bottom.
pub const SPRITE_FLIP_VERTICAL: u8 = 0b1000_0000;

/// One sprite as the rasterizer sees it.
pub struct Sprite {
    /// The column of the sprite's left edge.
    pub x: usize,
    /// The scanline of the sprite's top edge.
    pub y: usize,
    /// Where the sprite's tile lies in pattern memory.
    pub tile_address: u16,
    /// The sprite's palette, 4 to 7.
    pub palette: usize,
    pub is_behind_background: bool,
    pub flip_horizontal: bool,
    pub flip_vertical: bool,
}

/// How many scanlines a sprite covers.
pub open spec fn sprite_height(sprites_are_8x16: bool) -> usize {
    if sprites_are_8x16 {
        16
    } else {
        8
    }
}

/// The sprite that four bytes of object attribute memory describe: Y minus
/// one, the tile's number, the attributes, and X. A sprite of 8 by 16
/// pixels takes its pattern table from bit 0 of the tile's number; a sprite
/// of 8 by 8 takes it from CONTROL.
pub open spec fn sprite_of(
    sprites_are_8x16: bool,
    sprite_tiles_are_in_upper_half: bool,
    oam_data: Seq<u8>,
) -> Sprite {
    let tile = oam_data[1];
    let attributes = oam_data[2];
    Sprite {
        x: oam_data[3] as usize,
        y: (oam_data[0] + 1) as usize,
        tile_address: if sprites_are_8x16 {
            ((tile - tile % 2) * TILE_BYTES + if tile % 2 == 1 {
                UPPER_PATTERN_TABLE as int
            } else {
                0
            }) as u16
        } else {
            (tile * TILE_BYTES + if sprite_tiles_are_in_upper_half {
                UPPER_PATTERN_TABLE as int
            } else {
                0
            }) as u16
        },
        palette: (attributes % 4 + 4) as usize,
        is_behind_background: attributes & SPRITE_BEHIND_BACKGROUND != 0,
        flip_horizontal: attributes & SPRITE_FLIP_HORIZONTAL != 0,
        flip_vertical: attributes & SPRITE_FLIP_VERTICAL != 0,
    }
}

impl Sprite {
    /// What holds of every sprite that object attribute memory describes.
    pub open spec fn wf(self) -> bool {
        &&& self.x < 256
        &&& 1 <= self.y <= 256
        &&& self.tile_address <= 0x1FF0
        &&& 4 <= self.palette < 8
    }

    /// Whether the sprite covers the scanline `y`.
    pub open spec fn covers_scanline(self, sprites_are_8x16: bool, y: usize) -> bool {
        self.y <= y < self.y + sprite_height(sprites_are_8x16)
    }

    /// Whether the sprite covers the column `x`.
    pub open spec fn covers_column(self, x: usize) -> bool {
        self.x <= x < self.x + 8
    }

    /// The column within the tile that the sprite shows at column `x`.
    pub open spec fn column_within(self, x: usize) -> u8 {
        if self.flip_horizontal {
            (7 - (x - self.x)) as u8
        } else {
            (x - self.x) as u8
        }
    }

    /// The row within the sprite's pattern data that the sprite shows on
    /// scanline `y`. The lower half of a sprite of 8 by 16 pixels lies in
    /// the tile that follows, 16 bytes further on.
    pub open spec fn row_within(self, sprites_are_8x16: bool, y: usize) -> u8 {
        let row = if self.flip_vertical {
            sprite_height(sprites_are_8x16) - 1 - (y - self.y)
        } else {
            y - self.y
        };
        if row >= 8 {
            (row + 8) as u8
        } else {
            row as u8
        }
    }

    /// What the sprite shows at (`x`, `y`): its colour, its palette and
    /// whether it is behind the background; `None` where it does not reach
    /// or is transparent.
    pub open spec fn pixel_at(
        self,
        cartridge: CartridgeState,
        sprites_are_8x16: bool,
        x: usize,
        y: usize,
    ) -> Option<(u8, usize, bool)> {
        if self.covers_column(x) {
            let sprite_color = cartridge.tile_color(
                self.tile_address,
                self.column_within(x),
                self.row_within(sprites_are_8x16, y),
            );
            if sprite_color == 0 {
                None
            } else {
                Some((sprite_color, self.palette, self.is_behind_background))
            }
        } else {
            None
        }
    }

    pub fn from_oam_data(
        sprites_are_8x16: bool,
        sprite_tiles_are_in_upper_half: bool,
        oam_data: &[u8],
    ) -> (sprite: Sprite)
        requires
            oam_data@.len() == 4,
        ensures
            sprite == sprite_of(sprites_are_8x16, sprite_tiles_are_in_upper_half, oam_data@),
            sprite.wf(),
    {
        let y = oam_data[0] as usize + 1;
        let tile_address = if sprites_are_8x16 {
            let tile_number = oam_data[1] - oam_data[1] % 2;
            let tile_offset = tile_number as u16 * TILE_BYTES;
            if oam_data[1] % 2 != 0 {
                UPPER_PATTERN_TABLE + tile_offset
            } else {
                tile_offset
            }
        } else if sprite_tiles_are_in_upper_half {
            let tile_offset = oam_data[1] as u16 * TILE_BYTES;
            UPPER_PATTERN_TABLE + tile_offset
        } else {
            let tile_offset = oam_data[1] as u16 * TILE_BYTES;
            tile_offset
        };
        let attributes = oam_data[2];
        let palette = (attributes % 4) as usize + 4;
        let is_behind_background = (attributes & SPRITE_BEHIND_BACKGROUND) != 0;
        let flip_horizontal = (attributes & SPRITE_FLIP_HORIZONTAL) != 0;
        let flip_vertical = (attributes & SPRITE_FLIP_VERTICAL) != 0;
        let x = oam_data[3] as usize;
        Sprite { x, y, tile_address, palette, is_behind_background, flip_horizontal, flip_vertical }
    }

    pub fn is_visible_on_scanline(&self, sprites_are_8x16: bool, y: usize) -> (visible: bool)
        requires
            self.wf(),
        ensures
            visible == self.covers_scanline(sprites_are_8x16, y),
    {
        let size: usize = if sprites_are_8x16 {
            16
        } else {
            8
        };
        self.y <= y && y < self.y + size
    }

    pub fn get_pixel_for_xy(&self, cartridge: &Cartridge, sprites_are_8x16: bool, x: usize, y: usize) -> (pixel:
        Option<(u8, usize, bool)>)
        requires
            self.wf(),
            cartridge.wf(),
            self.covers_scanline(sprites_are_8x16, y),
        ensures
            pixel == self.pixel_at(cartridge@, sprites_are_8x16, x, y),
            pixel matches Some((color, palette, _)) ==> 0 < color < 4 && 4 <= palette < 8,
    {
        if self.x <= x && x < self.x + 8 {
            let sprite_palette = self.palette;
            let sprite_is_behind_background = self.is_behind_background;
            let x_within_sprite = x - self.x;
            let x_within_sprite = if self.flip_horizontal {
                7 - x_within_sprite
            } else {
                x_within_sprite
            };
            let y_within_sprite = y - self.y;
            let y_within_sprite = if self.flip_vertical {
                if sprites_are_8x16 {
                    15 - y_within_sprite
                } else {
                    7 - y_within_sprite
                }
            } else {
                y_within_sprite
            };
            let y_within_sprite = if y_within_sprite >= 8 {
                // (this can only happen with 8x16 sprites)
                y_within_sprite + 8  // skip to the next tile number
            } else {
                y_within_sprite
            };
            let sprite_color = cartridge.get_tile(
                self.tile_address,
                x_within_sprite as u8,
                y_within_sprite as u8,
            );
            if sprite_color == 0 {
                // If the sprite is transparent, another sprite could still
                // be here
                None
            } else {
                Some((sprite_color, sprite_palette, sprite_is_behind_background))
            }
        } else {
            None
        }
    }
}

} // verus!
