use std::ops::RangeInclusive;
use vstd::prelude::*;

verus! {

/// The error type of the `png` crate's decoder.
#[verifier::external_type_specification]
#[verifier::external_body]
pub struct ExDecodingError(png::DecodingError);

/// The first frame of the PNG image that `bytes` encodes, as the `png`
/// crate decodes it with its default settings: the frame's width and height
/// in pixels and its pixel data, row by row; `None` where the crate does
/// not decode the bytes.
pub uninterp spec fn png_first_frame(bytes: Seq<u8>) -> Option<(u32, u32, Seq<u8>)>;

/// Decodes the first frame of a PNG image with the `png` crate:
/// `Decoder::new` on the bytes, `read_info`, a buffer of the size that
/// `output_buffer_size` gives, `next_frame` into it, and the buffer cut to
/// the frame's `buffer_size`. Nothing is claimed of the result but that it
/// is what the crate makes of these bytes, and so the same for the same
/// bytes.
#[verifier::external_body]
fn decode_png(bytes: &[u8]) -> (frame: Result<(u32, u32, Vec<u8>), png::DecodingError>)
    ensures
        match frame {
            Ok((width, height, data)) => png_first_frame(bytes@) == Some((width, height, data@)),
            Err(_) => png_first_frame(bytes@) is None,
        },
{
    let mut reader = png::Decoder::new(bytes).read_info()?;
    let mut data = vec![0; reader.output_buffer_size()];
    let info = reader.next_frame(&mut data)?;
    data.truncate(info.buffer_size());
    Ok((info.width, info.height, data))
}

/// Why an image is no font.
#[derive(Clone, Copy, Debug, PartialEq, Eq, Structural)]
pub enum FontError {
    /// The image is no PNG that the decoder reads.
    Decoding,
    /// The image is not as wide as a row of glyphs.
    WrongWidth,
    /// The image is not as high as the rows of glyphs.
    WrongHeight,
}

/// A font as plain values.
pub struct FontState {
    pub glyph_width: u32,
    pub glyph_height: u32,
    /// The character that the first glyph stands for.
    pub first_glyph: u8,
    pub num_glyphs: u8,
    pub glyphs_per_row: u8,
    /// The pixels of the glyph sheet, row by row.
    pub glyph_data: Seq<u8>,
    pub num_rows: u8,
}

impl FontState {
    /// What holds of every font: it has a glyph, its glyphs stand for
    /// characters up to 255, and its rows hold all of them.
    pub open spec fn valid(self) -> bool {
        &&& self.num_glyphs >= 1
        &&& self.glyphs_per_row >= 1
        &&& self.first_glyph + self.num_glyphs - 1 <= 255
        &&& self.num_rows == rows_needed(self.num_glyphs, self.glyphs_per_row)
    }
}

/// How many rows it takes to hold `num_glyphs` glyphs, `glyphs_per_row` in
/// each: the quotient, rounded up.
pub open spec fn rows_needed(num_glyphs: u8, glyphs_per_row: u8) -> int {
    (num_glyphs + (glyphs_per_row - 1)) / glyphs_per_row as int
}

/// The font that a decoded glyph sheet makes, or why it makes none: the
/// sheet must be exactly as wide as a row of glyphs and as high as the rows
/// that the glyphs take.
pub open spec fn font_of_sheet(
    width: u32,
    height: u32,
    data: Seq<u8>,
    glyph_width: u32,
    glyph_height: u32,
    first_glyph: u8,
    num_glyphs: u8,
    glyphs_per_row: u8,
) -> Result<FontState, FontError> {
    if glyph_width * glyphs_per_row != width {
        Err(FontError::WrongWidth)
    } else if glyph_height * rows_needed(num_glyphs, glyphs_per_row) != height {
        Err(FontError::WrongHeight)
    } else {
        Ok(
            FontState {
                glyph_width,
                glyph_height,
                first_glyph,
                num_glyphs,
                glyphs_per_row,
                glyph_data: data,
                num_rows: rows_needed(num_glyphs, glyphs_per_row) as u8,
            },
        )
    }
}

/// The rows that a font's glyphs take are no more than its glyphs.
proof fn lemma_rows_fit(num_glyphs: u8, glyphs_per_row: u8)
    requires
        num_glyphs >= 1,
        glyphs_per_row >= 1,
    ensures
        1 <= rows_needed(num_glyphs, glyphs_per_row) <= num_glyphs,
{
    let n = num_glyphs as int;
    let g = glyphs_per_row as int;
    assert(1 <= (n + (g - 1)) / g <= n) by (nonlinear_arith)
        requires
            n >= 1,
            g >= 1,
    ;
}

/// The product of two 32-bit numbers fits 64 bits.
proof fn lemma_product_fits(a: u32, b: u32)
    ensures
        a as u64 * b as u64 <= u64::MAX,
        a as u64 * b as u64 == a as int * b as int,
{
    assert(a as int * b as int <= 0xFFFF_FFFF * 0xFFFF_FFFF) by (nonlinear_arith)
        requires
            0 <= a <= 0xFFFF_FFFF,
            0 <= b <= 0xFFFF_FFFF,
    ;
}

/// The raw, plain-ole-data properties of a font.
pub struct FontData {
    glyph_width: u32,
    glyph_height: u32,
    first_glyph: u8,
    num_glyphs: u8,
    glyphs_per_row: u8,
    glyph_data: Vec<u8>,
    num_rows: u8,
}

impl View for FontData {
    type V = FontState;

    closed spec fn view(&self) -> FontState {
        FontState {
            glyph_width: self.glyph_width,
            glyph_height: self.glyph_height,
            first_glyph: self.first_glyph,
            num_glyphs: self.num_glyphs,
            glyphs_per_row: self.glyphs_per_row,
            glyph_data: self.glyph_data@,
            num_rows: self.num_rows,
        }
    }
}

impl FontData {
    /// What every font holds of itself.
    pub open spec fn wf(&self) -> bool {
        self@.valid()
    }

    /// Makes a font with the given properties of a decoded glyph sheet.
    pub fn from_sheet(
        width: u32,
        height: u32,
        glyph_data: Vec<u8>,
        glyph_width: u32,
        glyph_height: u32,
        first_glyph: u8,
        num_glyphs: u8,
        glyphs_per_row: u8,
    ) -> (font: Result<FontData, FontError>)
        requires
            num_glyphs >= 1,
            glyphs_per_row >= 1,
            first_glyph + num_glyphs - 1 <= 255,
        ensures
            font matches Ok(f) ==> f.wf() && font_of_sheet(
                width,
                height,
                glyph_data@,
                glyph_width,
                glyph_height,
                first_glyph,
                num_glyphs,
                glyphs_per_row,
            ) == Ok::<FontState, FontError>(f@),
            font matches Err(e) ==> font_of_sheet(
                width,
                height,
                glyph_data@,
                glyph_width,
                glyph_height,
                first_glyph,
                num_glyphs,
                glyphs_per_row,
            ) == Err::<FontState, FontError>(e),
    {
        // integer divide with round up
        let num_rows = (num_glyphs as u32 + (glyphs_per_row - 1) as u32) / glyphs_per_row as u32;
        proof {
            lemma_rows_fit(num_glyphs, glyphs_per_row);
            lemma_product_fits(glyph_width, glyphs_per_row as u32);
            lemma_product_fits(glyph_height, num_rows);
        }
        // Sanity check the width and height.
        if glyph_width as u64 * glyphs_per_row as u64 != width as u64 {
            return Err(FontError::WrongWidth);
        }
        if glyph_height as u64 * num_rows as u64 != height as u64 {
            return Err(FontError::WrongHeight);
        }
        Ok(
            FontData {
                glyph_width,
                glyph_height,
                first_glyph,
                num_glyphs,
                glyphs_per_row,
                glyph_data,
                num_rows: num_rows as u8,
            },
        )
    }

    /// Load a font with the given properties from the given PNG data.
    pub fn load_from_png(
        png_data: &[u8],
        glyph_width: u32,
        glyph_height: u32,
        first_glyph: u8,
        num_glyphs: u8,
        glyphs_per_row: u8,
    ) -> (font: Result<FontData, FontError>)
        requires
            num_glyphs >= 1,
            glyphs_per_row >= 1,
            first_glyph + num_glyphs - 1 <= 255,
        ensures
            font matches Ok(f) ==> f.wf() && font_of_png(
                png_first_frame(png_data@),
                glyph_width,
                glyph_height,
                first_glyph,
                num_glyphs,
                glyphs_per_row,
            ) == Ok::<FontState, FontError>(f@),
            font matches Err(e) ==> font_of_png(
                png_first_frame(png_data@),
                glyph_width,
                glyph_height,
                first_glyph,
                num_glyphs,
                glyphs_per_row,
            ) == Err::<FontState, FontError>(e),
    {
        match decode_png(png_data) {
            Err(_) => Err(FontError::Decoding),
            Ok((width, height, glyph_data)) => FontData::from_sheet(
                width,
                height,
                glyph_data,
                glyph_width,
                glyph_height,
                first_glyph,
                num_glyphs,
                glyphs_per_row,
            ),
        }
    }

    /// The characters that the font has glyphs for.
    pub fn get_valid_glyph_range(&self) -> (range: RangeInclusive<u8>)
        requires
            self.wf(),
        ensures
            range@.start == self@.first_glyph,
            range@.end == self@.first_glyph + (self@.num_glyphs - 1),
            !range@.exhausted,
    {
        RangeInclusive::new(self.first_glyph, self.first_glyph + (self.num_glyphs - 1))
    }

    pub fn get_glyph_height(&self) -> (glyph_height: u32)
        ensures
            glyph_height == self@.glyph_height,
    {
        self.glyph_height
    }

    pub fn get_glyph_width(&self) -> (glyph_width: u32)
        ensures
            glyph_width == self@.glyph_width,
    {
        self.glyph_width
    }

    pub fn get_glyphs_per_row(&self) -> (glyphs_per_row: u8)
        ensures
            glyphs_per_row == self@.glyphs_per_row,
    {
        self.glyphs_per_row
    }

    pub fn get_num_rows(&self) -> (num_rows: u8)
        ensures
            num_rows == self@.num_rows,
    {
        self.num_rows
    }

    pub fn get_first_glyph(&self) -> (first_glyph: u8)
        ensures
            first_glyph == self@.first_glyph,
    {
        self.first_glyph
    }

    /// The pixels of the glyph sheet.
    pub fn get_glyph_data(&self) -> (glyph_data: &Vec<u8>)
        ensures
            glyph_data@ == self@.glyph_data,
    {
        &self.glyph_data
    }
}

/// How many columns a tab stop is wide.
pub const TAB_WIDTH: i64 = 8;

/// Where a glyph of the sheet goes on the canvas: the top left corner of
/// the glyph in the sheet and the top left corner of its place on the
/// canvas. Both rectangles are as large as a glyph.
#[derive(Clone, Copy, Debug, PartialEq, Eq, Structural)]
pub struct GlyphPlacement {
    pub glyph_x: i32,
    pub glyph_y: i32,
    pub x: i32,
    pub y: i32,
}

/// A text half laid out: the glyphs placed so far and where the next
/// character goes.
pub struct Layout {
    pub placements: Seq<GlyphPlacement>,
    pub current_x: int,
    pub current_y: int,
}

/// Whether a number fits the canvas's coordinates.
pub open spec fn fits_i32(value: int) -> bool {
    i32::MIN <= value <= i32::MAX
}

impl FontState {
    /// The number of the glyph that stands for `character`: its own where
    /// the font has one, else that of the question mark, and `None` where
    /// the font has neither.
    pub open spec fn glyph_index(self, character: u8) -> Option<int> {
        if self.first_glyph <= character <= self.first_glyph + (self.num_glyphs - 1) {
            Some(character - self.first_glyph)
        } else if self.first_glyph <= 0x3F {
            Some(0x3F - self.first_glyph)
        } else {
            None
        }
    }

    /// The layout after one more character, where the text began at column
    /// `x`. A line feed goes to the start of the next line, a tab to the
    /// next tab stop, a space one glyph to the right; any other character
    /// places its glyph and goes one glyph to the right. `None` where a
    /// coordinate leaves the range of the canvas's coordinates, where a tab
    /// meets a font whose glyphs have no width, or where the font has no
    /// glyph to show.
    pub open spec fn place(self, x: int, layout: Layout, character: u8) -> Option<Layout> {
        if character == 0x0A {
            if fits_i32(layout.current_y + self.glyph_height) {
                Some(Layout { current_x: x, current_y: layout.current_y + self.glyph_height, ..layout })
            } else {
                None
            }
        } else if character == 0x09 {
            let tab_width = self.glyph_width * TAB_WIDTH;
            if tab_width == 0 || !fits_i32(tab_width) {
                None
            } else {
                let next = layout.current_x + tab_width - (layout.current_x - x) % tab_width;
                if fits_i32(next) {
                    Some(Layout { current_x: next, ..layout })
                } else {
                    None
                }
            }
        } else if character == 0x20 {
            if fits_i32(layout.current_x + self.glyph_width) {
                Some(Layout { current_x: layout.current_x + self.glyph_width, ..layout })
            } else {
                None
            }
        } else {
            match self.glyph_index(character) {
                None => None,
                Some(glyph_index) => {
                    let glyph_x = (glyph_index % self.glyphs_per_row as int) * self.glyph_width;
                    let glyph_y = (glyph_index / self.glyphs_per_row as int) * self.glyph_height;
                    if fits_i32(glyph_x) && fits_i32(glyph_y) && fits_i32(
                        layout.current_x + self.glyph_width,
                    ) {
                        Some(
                            Layout {
                                placements: layout.placements.push(
                                    GlyphPlacement {
                                        glyph_x: glyph_x as i32,
                                        glyph_y: glyph_y as i32,
                                        x: layout.current_x as i32,
                                        y: layout.current_y as i32,
                                    },
                                ),
                                current_x: layout.current_x + self.glyph_width,
                                ..layout
                            },
                        )
                    } else {
                        None
                    }
                },
            }
        }
    }

    /// The layout of the first `count` characters of a text that begins at
    /// (`x`, `y`).
    pub open spec fn laid_out(self, x: int, y: int, text: Seq<u8>, count: nat) -> Option<Layout>
        decreases count,
    {
        if count == 0 {
            Some(Layout { placements: Seq::empty(), current_x: x, current_y: y })
        } else {
            match self.laid_out(x, y, text, (count - 1) as nat) {
                None => None,
                Some(layout) => self.place(x, layout, text[count - 1]),
            }
        }
    }
}

/// A layout that has failed stays failed however many characters follow.
pub proof fn lemma_layout_stays_failed(font: FontState, x: int, y: int, text: Seq<u8>, failed: nat, count: nat)
    requires
        font.laid_out(x, y, text, failed) is None,
        failed <= count,
    ensures
        font.laid_out(x, y, text, count) is None,
    decreases count,
{
    if failed < count {
        lemma_layout_stays_failed(font, x, y, text, failed, (count - 1) as nat);
    }
}

impl FontData {
    /// Lays out a text of one byte for each character, beginning at
    /// (`x`, `y`): which glyph of the sheet goes where on the canvas.
    pub fn layout(&self, x: i32, y: i32, text: &[u8]) -> (placements: Option<Vec<GlyphPlacement>>)
        requires
            self.wf(),
        ensures
            match placements {
                Some(placed) => self@.laid_out(x as int, y as int, text@, text@.len()) matches Some(layout)
                    && layout.placements == placed@,
                None => self@.laid_out(x as int, y as int, text@, text@.len()) is None,
            },
    {
        let glyph_width = self.glyph_width as i64;
        let glyph_height = self.glyph_height as i64;
        let mut placements: Vec<GlyphPlacement> = Vec::new();
        let mut current_x: i64 = x as i64;
        let mut current_y: i64 = y as i64;
        let mut i: usize = 0;
        while i < text.len()
            invariant
                i <= text@.len(),
                self.wf(),
                glyph_width == self@.glyph_width,
                glyph_height == self@.glyph_height,
                fits_i32(current_x as int),
                fits_i32(current_y as int),
                x <= current_x,
                self@.laid_out(x as int, y as int, text@, i as nat) == Some(
                    Layout { placements: placements@, current_x: current_x as int, current_y: current_y as int },
                ),
            decreases text@.len() - i,
        {
            let character = text[i];
            let ghost before = Layout {
                placements: placements@,
                current_x: current_x as int,
                current_y: current_y as int,
            };
            let mut failed = false;
            if character == 0x0A {
                if current_y + glyph_height > i32::MAX as i64 {
                    failed = true;
                } else {
                    current_x = x as i64;
                    current_y = current_y + glyph_height;
                }
            } else if character == 0x09 {
                let tab_width = glyph_width * TAB_WIDTH;
                if tab_width == 0 || tab_width > i32::MAX as i64 {
                    failed = true;
                } else {
                    let next = current_x + tab_width - (current_x - x as i64) % tab_width;
                    if next > i32::MAX as i64 {
                        failed = true;
                    } else {
                        current_x = next;
                    }
                }
            } else if character == 0x20 {
                if current_x + glyph_width > i32::MAX as i64 {
                    failed = true;
                } else {
                    current_x = current_x + glyph_width;
                }
            } else {
                let glyph_index: Option<u8> = if self.first_glyph <= character && character
                    <= self.first_glyph + (self.num_glyphs - 1) {
                    Some(character - self.first_glyph)
                } else if self.first_glyph <= 0x3F {
                    Some(0x3F - self.first_glyph)
                } else {
                    None
                };
                match glyph_index {
                    None => {
                        failed = true;
                    },
                    Some(glyph_index) => {
                        let column = (glyph_index % self.glyphs_per_row) as i64;
                        let row = (glyph_index / self.glyphs_per_row) as i64;
                        proof {
                            lemma_glyph_corner(column, glyph_width);
                            lemma_glyph_corner(row, glyph_height);
                        }
                        let glyph_x = column * glyph_width;
                        let glyph_y = row * glyph_height;
                        if glyph_x > i32::MAX as i64 || glyph_y > i32::MAX as i64 || current_x + glyph_width
                            > i32::MAX as i64 {
                            failed = true;
                        } else {
                            placements.push(
                                GlyphPlacement {
                                    glyph_x: glyph_x as i32,
                                    glyph_y: glyph_y as i32,
                                    x: current_x as i32,
                                    y: current_y as i32,
                                },
                            );
                            current_x = current_x + glyph_width;
                        }
                    },
                }
            }
            i += 1;
            if failed {
                proof {
                    assert(self@.place(x as int, before, character) is None);
                    lemma_layout_stays_failed(self@, x as int, y as int, text@, i as nat, text@.len());
                }
                return None;
            }
        }
        Some(placements)
    }
}

/// The corner of a glyph in the sheet is a product of two numbers that fit
/// 8 and 32 bits.
proof fn lemma_glyph_corner(index: i64, size: i64)
    requires
        0 <= index <= 0xFF,
        0 <= size <= 0xFFFF_FFFF,
    ensures
        0 <= index * size <= 0xFF * 0xFFFF_FFFF,
{
    assert(0 <= index * size <= 0xFF * 0xFFFF_FFFF) by (nonlinear_arith)
        requires
            0 <= index <= 0xFF,
            0 <= size <= 0xFFFF_FFFF,
    ;
}

/// The font that a decoded PNG makes with the given properties.
pub open spec fn font_of_png(
    frame: Option<(u32, u32, Seq<u8>)>,
    glyph_width: u32,
    glyph_height: u32,
    first_glyph: u8,
    num_glyphs: u8,
    glyphs_per_row: u8,
) -> Result<FontState, FontError> {
    match frame {
        None => Err(FontError::Decoding),
        Some((width, height, data)) => font_of_sheet(
            width,
            height,
            data,
            glyph_width,
            glyph_height,
            first_glyph,
            num_glyphs,
            glyphs_per_row,
        ),
    }
}

/// Loads the Monaco font from its glyph sheet, a PNG of 96 glyphs of 6 by
/// 12 pixels, 32 in a row, the first of which is the space.
pub fn load_monaco(png_data: &[u8]) -> (font: Result<FontData, FontError>)
    ensures
        font matches Ok(f) ==> f.wf() && font_of_png(png_first_frame(png_data@), 6, 12, 0x20, 96, 32)
            == Ok::<FontState, FontError>(f@),
        font matches Err(e) ==> font_of_png(png_first_frame(png_data@), 6, 12, 0x20, 96, 32) == Err::<
            FontState,
            FontError,
        >(e),
{
    FontData::load_from_png(png_data, 6, 12, 0x20, 96, 32)
}

} // verus!
