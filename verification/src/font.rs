//! The bitmap font: its layout, and the image that its bytes decode to.

use vstd::prelude::*;
use vstd::arithmetic::div_mod::lemma_fundamental_div_mod_converse;

use crate::atlas::TextureAtlas;
use crate::binary::BinaryAsset;
use crate::error::DosError;
use crate::math::UVec2;
use crate::raster::{
    buffer_as_raw, buffer_dimensions, buffer_from_raw, buffer_into_raw, buffer_samples,
    buffer_size, LumaAlphaBuffer,
};

verus! {

/// A grey image with transparency as a mathematical value: two samples per
/// pixel, luma then alpha, rows from the top and pixels from the left.
pub struct Raster {
    pub width: int,
    pub height: int,
    pub samples: Seq<u8>,
}

impl Raster {
    /// Every pixel has its two samples, and there are no others.
    pub open spec fn wf(self) -> bool {
        &&& 0 <= self.width
        &&& 0 <= self.height
        &&& self.samples.len() == 2 * self.width * self.height
    }

    /// Every pixel is ink or clear, and nothing between.
    pub open spec fn is_glyph_image(self) -> bool {
        &&& self.wf()
        &&& forall|x: int, y: int| #[trigger]
            self.contains(x, y) ==> self.is_ink(x, y) || self.is_clear(x, y)
    }

    pub open spec fn contains(self, x: int, y: int) -> bool {
        0 <= x < self.width && 0 <= y < self.height
    }

    pub open spec fn luma(self, x: int, y: int) -> u8 {
        self.samples[2 * (y * self.width + x)]
    }

    pub open spec fn alpha(self, x: int, y: int) -> u8 {
        self.samples[2 * (y * self.width + x) + 1]
    }

    /// The pixel shows the glyph: white, and fully opaque.
    pub open spec fn is_ink(self, x: int, y: int) -> bool {
        self.luma(x, y) == 255 && self.alpha(x, y) == 255
    }

    /// The pixel shows what lies behind: black, and fully transparent.
    pub open spec fn is_clear(self, x: int, y: int) -> bool {
        self.luma(x, y) == 0 && self.alpha(x, y) == 0
    }

    /// The eight pixels from `(x, y)` rightwards as a byte: the leftmost pixel
    /// in the lowest bit, ink as a set bit.
    pub open spec fn packed_row(self, x: int, y: int) -> u8 {
        pack(
            self.is_ink(x, y),
            self.is_ink(x + 1, y),
            self.is_ink(x + 2, y),
            self.is_ink(x + 3, y),
            self.is_ink(x + 4, y),
            self.is_ink(x + 5, y),
            self.is_ink(x + 6, y),
            self.is_ink(x + 7, y),
        )
    }
}

/// A font as a mathematical value: the bytes of the file and the layout they
/// follow. Glyphs stand row-major in a grid of `num_columns` by `num_rows`; each
/// takes `bytes_per_char` bytes, one per pixel row, the leftmost pixel in the
/// lowest bit.
pub struct FontSheet {
    pub bytes: Seq<u8>,
    pub num_columns: u32,
    pub num_rows: u32,
    pub char_width: u32,
    pub char_height: u32,
    pub bytes_per_char: u32,
}

/// The byte whose bits, from the lowest up, are set where the flags hold.
pub open spec fn pack(
    b0: bool,
    b1: bool,
    b2: bool,
    b3: bool,
    b4: bool,
    b5: bool,
    b6: bool,
    b7: bool,
) -> u8 {
    (if b0 { 1u8 } else { 0u8 }) | (if b1 { 2u8 } else { 0u8 }) | (if b2 { 4u8 } else { 0u8 })
        | (if b3 { 8u8 } else { 0u8 }) | (if b4 { 16u8 } else { 0u8 }) | (if b5 { 32u8 } else { 0u8 })
        | (if b6 { 64u8 } else { 0u8 }) | (if b7 { 128u8 } else { 0u8 })
}

impl FontSheet {
    /// The 256 glyphs of an eight-by-eight code page, sixteen to a row.
    pub open spec fn eight_bit(bytes: Seq<u8>) -> FontSheet {
        FontSheet {
            bytes,
            num_columns: 16,
            num_rows: 16,
            char_width: 8,
            char_height: 8,
            bytes_per_char: 8,
        }
    }

    /// The layout can be decoded: nothing is empty, a pixel row fits its byte,
    /// every pixel row of a glyph has a byte, and the image's sides fit `u32`.
    pub open spec fn wf(self) -> bool {
        &&& 1 <= self.num_columns
        &&& 1 <= self.num_rows
        &&& 1 <= self.char_width <= 8
        &&& 1 <= self.char_height <= self.bytes_per_char
        &&& self.num_columns * self.char_width <= u32::MAX
        &&& self.num_rows * self.char_height <= u32::MAX
    }

    /// The number of bytes that the glyphs take.
    pub open spec fn required_len(self) -> int {
        self.num_columns * self.num_rows * self.bytes_per_char
    }

    /// The file holds every glyph.
    pub open spec fn is_complete(self) -> bool {
        self.bytes.len() >= self.required_len()
    }

    pub open spec fn image_width(self) -> int {
        self.num_columns * self.char_width
    }

    pub open spec fn image_height(self) -> int {
        self.num_rows * self.char_height
    }

    /// The code of the glyph that covers pixel `(x, y)` of the image.
    pub open spec fn glyph_index(self, x: int, y: int) -> int {
        x / (self.char_width as int) + (y / (self.char_height as int)) * self.num_columns
    }

    /// The place in the file of the byte that holds pixel `(x, y)`.
    pub open spec fn byte_index(self, x: int, y: int) -> int {
        let glyph = self.glyph_index(x, y);
        let glyph_row = glyph / (self.num_columns as int);
        let y_offset = y - glyph_row * self.char_height;
        glyph * self.bytes_per_char + y_offset
    }

    /// The byte at `place` of the file has the bit set that column `x` of the
    /// image picks: the column's remainder by eight, counted from the lowest bit.
    pub open spec fn bit_of(self, place: int, x: int) -> bool {
        (self.bytes[place] >> ((x % 8) as u8)) & 1u8 == 1u8
    }

    /// The bit of pixel `(x, y)` is set in the file.
    pub open spec fn bit_set(self, x: int, y: int) -> bool {
        self.bit_of(self.byte_index(x, y), x)
    }

    /// Luma and alpha of pixel `(x, y)`: both full where the bit is set, both zero where not.
    pub open spec fn sample(self, x: int, y: int) -> u8 {
        if self.bit_set(x, y) {
            255u8
        } else {
            0u8
        }
    }

    /// The image that the font decodes to.
    pub open spec fn decoded(self) -> Raster {
        let width = self.image_width();
        let height = self.image_height();
        Raster {
            width,
            height,
            samples: Seq::new(
                (2 * width * height) as nat,
                |i: int| self.sample((i / 2) % width, (i / 2) / width),
            ),
        }
    }

    /// The bytes that encode glyph `code` of `image` again: one per pixel row,
    /// eight pixels to a byte, ink as a set bit.
    pub open spec fn encoded_glyph(self, image: Raster, code: int) -> Seq<u8> {
        Seq::new(
            self.char_height as nat,
            |row: int|
                image.packed_row(
                    (code % (self.num_columns as int)) * 8,
                    (code / (self.num_columns as int)) * self.char_height + row,
                ),
        )
    }

    /// In a decodable font, every pixel of the image has its byte among the glyphs' bytes.
    pub proof fn lemma_byte_index_in_range(self, x: int, y: int)
        requires
            self.wf(),
            0 <= x < self.image_width(),
            0 <= y < self.image_height(),
        ensures
            0 <= x / (self.char_width as int) < self.num_columns,
            0 <= y / (self.char_height as int) < self.num_rows,
            0 <= self.glyph_index(x, y) < self.num_columns * self.num_rows,
            self.glyph_index(x, y) / (self.num_columns as int) == y / (self.char_height as int),
            self.glyph_index(x, y) % (self.num_columns as int) == x / (self.char_width as int),
            0 <= y - (y / (self.char_height as int)) * self.char_height < self.char_height,
            0 <= self.byte_index(x, y) < self.required_len(),
    {
        let nc = self.num_columns as int;
        let nr = self.num_rows as int;
        let cw = self.char_width as int;
        let ch = self.char_height as int;
        let bpc = self.bytes_per_char as int;
        let col = x / cw;
        let row = y / ch;
        assert(0 <= col < nc) by (nonlinear_arith)
            requires
                0 <= x < nc * cw,
                cw > 0,
                col == x / cw,
        ;
        assert(0 <= row < nr) by (nonlinear_arith)
            requires
                0 <= y < nr * ch,
                ch > 0,
                row == y / ch,
        ;
        let glyph = self.glyph_index(x, y);
        assert(glyph == row * nc + col);
        lemma_fundamental_div_mod_converse(glyph, nc, row, col);
        assert(0 <= row * nc <= (nr - 1) * nc) by (nonlinear_arith)
            requires
                0 <= row <= nr - 1,
                nc > 0,
        ;
        assert((nr - 1) * nc == nc * nr - nc) by (nonlinear_arith);
        assert(0 <= y - row * ch < ch) by (nonlinear_arith)
            requires
                ch > 0,
                row == y / ch,
        ;
        assert(0 <= glyph * bpc <= (nc * nr - 1) * bpc) by (nonlinear_arith)
            requires
                0 <= glyph <= nc * nr - 1,
                bpc >= 0,
        ;
        assert((nc * nr - 1) * bpc == nc * nr * bpc - bpc) by (nonlinear_arith);
    }

    /// Pixel `(x, y)` of the decoded image stands at its row-major place.
    pub proof fn lemma_decoded_pixel(self, x: int, y: int)
        requires
            self.wf(),
            self.decoded().contains(x, y),
        ensures
            self.decoded().luma(x, y) == self.sample(x, y),
            self.decoded().alpha(x, y) == self.sample(x, y),
            self.decoded().is_ink(x, y) || self.decoded().is_clear(x, y),
    {
        let width = self.image_width();
        let height = self.image_height();
        let place = y * width + x;
        assert(0 <= place < width * height) by (nonlinear_arith)
            requires
                0 <= x < width,
                0 <= y < height,
                place == y * width + x,
        ;
        assert(2 * width * height == 2 * (width * height)) by (nonlinear_arith);
        lemma_fundamental_div_mod_converse(place, width, y, x);
        assert((2 * place) / 2 == place);
        assert((2 * place + 1) / 2 == place);
    }

    /// The decoded image has its samples in place, and each pixel is ink or clear.
    pub proof fn lemma_decoded_pixels(self)
        requires
            self.wf(),
        ensures
            self.decoded().wf(),
            forall|x: int, y: int| #[trigger]
                self.decoded().contains(x, y) ==> self.decoded().luma(x, y) == self.sample(x, y)
                    && self.decoded().alpha(x, y) == self.sample(x, y),
            forall|x: int, y: int| #[trigger]
                self.decoded().contains(x, y) ==> self.decoded().is_ink(x, y)
                    || self.decoded().is_clear(x, y),
    {
        let width = self.image_width();
        let height = self.image_height();
        assert(2 * width * height == 2 * (width * height)) by (nonlinear_arith);
        assert(0 <= width * height) by (nonlinear_arith)
            requires
                0 <= width,
                0 <= height,
        ;
        assert forall|x: int, y: int| #[trigger] self.decoded().contains(x, y) implies self.decoded().luma(
            x,
            y,
        ) == self.sample(x, y) && self.decoded().alpha(x, y) == self.sample(x, y) && (
        self.decoded().is_ink(x, y) || self.decoded().is_clear(x, y)) by {
            self.lemma_decoded_pixel(x, y);
        }
    }

    /// Pixel `pixel` of row `row` of glyph `code` is ink in the decoded image
    /// exactly where that row's byte has the bit set that the pixel's column
    /// in the image picks.
    pub proof fn lemma_glyph_pixel(self, code: int, row: int, pixel: int)
        requires
            self.wf(),
            0 <= code < self.num_columns * self.num_rows,
            0 <= row < self.char_height,
            0 <= pixel < self.char_width,
        ensures
            self.decoded().contains(
                (code % (self.num_columns as int)) * self.char_width + pixel,
                (code / (self.num_columns as int)) * self.char_height + row,
            ),
            0 <= code * self.bytes_per_char + row < self.required_len(),
            self.decoded().is_ink(
                (code % (self.num_columns as int)) * self.char_width + pixel,
                (code / (self.num_columns as int)) * self.char_height + row,
            ) == self.bit_of(
                code * self.bytes_per_char + row,
                (code % (self.num_columns as int)) * self.char_width + pixel,
            ),
    {
        let nc = self.num_columns as int;
        let nr = self.num_rows as int;
        let cw = self.char_width as int;
        let ch = self.char_height as int;
        let column = code % nc;
        let glyph_row = code / nc;
        let x = column * cw + pixel;
        let y = glyph_row * ch + row;
        assert(0 <= glyph_row < nr) by (nonlinear_arith)
            requires
                0 <= code < nc * nr,
                nc >= 1,
                glyph_row == code / nc,
        ;
        assert(0 <= glyph_row * ch && glyph_row * ch + ch <= nr * ch) by (nonlinear_arith)
            requires
                0 <= glyph_row < nr,
                ch >= 1,
        ;
        assert(0 <= column * cw && column * cw + cw <= nc * cw) by (nonlinear_arith)
            requires
                0 <= column < nc,
                cw >= 1,
        ;
        lemma_fundamental_div_mod_converse(x, cw, column, pixel);
        lemma_fundamental_div_mod_converse(y, ch, glyph_row, row);
        vstd::arithmetic::div_mod::lemma_fundamental_div_mod(code, nc);
        assert(nc * glyph_row == glyph_row * nc) by (nonlinear_arith);
        assert(self.glyph_index(x, y) == code);
        self.lemma_byte_index_in_range(x, y);
        assert(self.byte_index(x, y) == code * self.bytes_per_char + row);
        self.lemma_decoded_pixel(x, y);
    }

    /// A pixel row of a glyph, decoded and packed into a byte again, is the
    /// byte it was decoded from.
    pub proof fn lemma_row_round_trip(self, code: int, row: int)
        requires
            self.wf(),
            self.char_width == 8,
            0 <= code < self.num_columns * self.num_rows,
            0 <= row < self.char_height,
        ensures
            0 <= code * self.bytes_per_char + row < self.required_len(),
            self.decoded().packed_row(
                (code % (self.num_columns as int)) * 8,
                (code / (self.num_columns as int)) * self.char_height + row,
            ) == self.bytes[code * self.bytes_per_char + row],
    {
        self.lemma_glyph_pixel(code, row, 0);
        self.lemma_glyph_pixel(code, row, 1);
        self.lemma_glyph_pixel(code, row, 2);
        self.lemma_glyph_pixel(code, row, 3);
        self.lemma_glyph_pixel(code, row, 4);
        self.lemma_glyph_pixel(code, row, 5);
        self.lemma_glyph_pixel(code, row, 6);
        self.lemma_glyph_pixel(code, row, 7);
        let byte = self.bytes[code * self.bytes_per_char + row];
        assert(pack(
            (byte >> 0u8) & 1u8 == 1u8,
            (byte >> 1u8) & 1u8 == 1u8,
            (byte >> 2u8) & 1u8 == 1u8,
            (byte >> 3u8) & 1u8 == 1u8,
            (byte >> 4u8) & 1u8 == 1u8,
            (byte >> 5u8) & 1u8 == 1u8,
            (byte >> 6u8) & 1u8 == 1u8,
            (byte >> 7u8) & 1u8 == 1u8,
        ) == byte) by (bit_vector);
    }

    /// Decoding a glyph of an eight-pixel-wide font and encoding it again
    /// gives back the bytes of its pixel rows, bit for bit.
    pub proof fn lemma_glyph_round_trip(self, code: int)
        requires
            self.wf(),
            self.is_complete(),
            self.char_width == 8,
            0 <= code < self.num_columns * self.num_rows,
        ensures
            0 <= code * self.bytes_per_char,
            code * self.bytes_per_char + self.char_height <= self.bytes.len(),
            self.encoded_glyph(self.decoded(), code) == self.bytes.subrange(
                code * self.bytes_per_char,
                code * self.bytes_per_char + self.char_height,
            ),
    {
        let start = code * self.bytes_per_char;
        self.lemma_row_round_trip(code, 0);
        self.lemma_row_round_trip(code, self.char_height - 1);
        let encoded = self.encoded_glyph(self.decoded(), code);
        let rows = self.bytes.subrange(start, start + self.char_height);
        assert forall|row: int| 0 <= row < self.char_height implies encoded[row] == rows[row] by {
            self.lemma_row_round_trip(code, row);
        }
        assert(encoded =~= rows);
    }
}

/// A fixed-pitch bitmap font: the bytes of the file and the layout they follow.
pub struct DosFont {
    pub image: BinaryAsset,
    pub num_columns: u32,
    pub num_rows: u32,
    pub char_width: u32,
    pub char_height: u32,
    pub bytes_per_char: u32,
}

impl View for DosFont {
    type V = FontSheet;

    open spec fn view(&self) -> FontSheet {
        FontSheet {
            bytes: self.image@,
            num_columns: self.num_columns,
            num_rows: self.num_rows,
            char_width: self.char_width,
            char_height: self.char_height,
            bytes_per_char: self.bytes_per_char,
        }
    }
}

impl DosFont {
    /// The 256 glyphs of an eight-by-eight code page, sixteen to a row.
    pub fn new_8bit(image: BinaryAsset) -> (font: DosFont)
        ensures
            font.image == image,
            font@ == FontSheet::eight_bit(image@),
            font@.wf(),
            font@.required_len() == 2048,
    {
        DosFont {
            image,
            num_columns: 16,
            num_rows: 16,
            char_width: 8,
            char_height: 8,
            bytes_per_char: 8,
        }
    }

    /// Tells whether the layout can be decoded.
    pub fn is_valid(&self) -> (valid: bool)
        ensures
            valid == self@.wf(),
    {
        if self.num_columns < 1 || self.num_rows < 1 || self.char_width < 1 || self.char_width > 8
            || self.char_height < 1 || self.char_height > self.bytes_per_char {
            return false;
        }
        assert(self.num_columns * self.char_width <= 8 * 0xffff_ffff) by (nonlinear_arith)
            requires
                self.num_columns <= 0xffff_ffff,
                self.char_width <= 8,
        ;
        assert(self.num_rows * self.char_height <= 0xffff_ffff * 0xffff_ffff) by (nonlinear_arith)
            requires
                self.num_rows <= 0xffff_ffff,
                self.char_height <= 0xffff_ffff,
        ;
        let width: u64 = self.num_columns as u64 * self.char_width as u64;
        let height: u64 = self.num_rows as u64 * self.char_height as u64;
        width <= 0xffff_ffff && height <= 0xffff_ffff
    }

    /// Tells whether the file holds every glyph.
    pub fn has_all_glyphs(&self) -> (complete: bool)
        ensures
            complete == self@.is_complete(),
    {
        assert(self.num_columns * self.num_rows <= 0xffff_ffff * 0xffff_ffff) by (nonlinear_arith)
            requires
                self.num_columns <= 0xffff_ffff,
                self.num_rows <= 0xffff_ffff,
        ;
        let glyphs: u128 = self.num_columns as u128 * self.num_rows as u128;
        assert(glyphs * self.bytes_per_char <= 0xffff_ffff * 0xffff_ffff * 0xffff_ffff)
            by (nonlinear_arith)
            requires
                0 <= glyphs <= 0xffff_ffff * 0xffff_ffff,
                self.bytes_per_char <= 0xffff_ffff,
        ;
        let needed: u128 = glyphs * self.bytes_per_char as u128;
        self.image.data.len() as u128 >= needed
    }

    /// Reads pixel `(x, y)` out of the file.
    fn sample_at(&self, x: u32, y: u32) -> (sample: u8)
        requires
            self@.wf(),
            self@.is_complete(),
            x < self@.image_width(),
            y < self@.image_height(),
        ensures
            sample == self@.sample(x as int, y as int),
            sample == 255 || sample == 0,
    {
        proof {
            self@.lemma_byte_index_in_range(x as int, y as int);
        }
        let col: u32 = x / self.char_width;
        let row: u32 = y / self.char_height;
        assert(row * self.num_columns <= 0xffff_ffff * 0xffff_ffff) by (nonlinear_arith)
            requires
                row <= 0xffff_ffff,
                self.num_columns <= 0xffff_ffff,
        ;
        let glyph: u128 = col as u128 + row as u128 * self.num_columns as u128;
        let glyph_row: u128 = glyph / self.num_columns as u128;
        let y_offset: u128 = y as u128 - glyph_row * self.char_height as u128;
        assert(glyph * self.bytes_per_char <= 0x1_0000_0000_0000_0000 * 0xffff_ffff)
            by (nonlinear_arith)
            requires
                0 <= glyph <= 0x1_0000_0000_0000_0000,
                self.bytes_per_char <= 0xffff_ffff,
        ;
        let index: u128 = glyph * self.bytes_per_char as u128 + y_offset;
        assert(index == self@.byte_index(x as int, y as int));
        let len: usize = self.image.data.len();
        assert(index < len);
        let byte: u8 = self.image.data[index as usize];
        let shift: u8 = (x % 8) as u8;
        if (byte >> shift) & 1 == 1 {
            255
        } else {
            0
        }
    }

    /// Decodes the font into its image. The file must hold every glyph, and
    /// the layout must be decodable; no byte outside the file is read.
    pub fn into_image(self) -> (decoded: Result<GlyphImage, DosError>)
        ensures
            decoded is Ok <==> self@.is_complete() && self@.wf(),
            !self@.is_complete() ==> decoded == Err::<GlyphImage, DosError>(DosError::MalformedFont),
            self@.is_complete() && !self@.wf() ==> decoded == Err::<GlyphImage, DosError>(
                DosError::InvalidDescriptor,
            ),
            decoded matches Ok(image) ==> {
                &&& image@ == self@.decoded()
                &&& image@.is_glyph_image()
                &&& image@.width == self.num_columns * self.char_width
                &&& image@.height == self.num_rows * self.char_height
                &&& forall|x: int, y: int| #[trigger]
                    image@.contains(x, y) ==> image@.luma(x, y) == self@.sample(x, y) && image@.alpha(
                        x,
                        y,
                    ) == self@.sample(x, y)
                &&& forall|x: int, y: int| #[trigger]
                    image@.contains(x, y) ==> image@.is_ink(x, y) || image@.is_clear(x, y)
            },
    {
        if !self.has_all_glyphs() {
            return Err(DosError::MalformedFont);
        }
        if !self.is_valid() {
            return Err(DosError::InvalidDescriptor);
        }
        let width: u32 = self.num_columns * self.char_width;
        let height: u32 = self.num_rows * self.char_height;
        assert(width * height <= 0xffff_ffff * 0xffff_ffff) by (nonlinear_arith)
            requires
                width <= 0xffff_ffff,
                height <= 0xffff_ffff,
        ;
        let total: u64 = width as u64 * height as u64;
        let mut samples: Vec<u8> = Vec::new();
        let mut pixel: u64 = 0;
        while pixel < total
            invariant
                self@.wf(),
                self@.is_complete(),
                width == self@.image_width(),
                height == self@.image_height(),
                total == width * height,
                pixel <= total,
                samples@.len() == 2 * pixel,
                forall|i: int|
                    0 <= i < samples@.len() ==> samples@[i] == self@.sample(
                        (i / 2) % (width as int),
                        (i / 2) / (width as int),
                    ),
            decreases total - pixel,
        {
            let column: u64 = pixel % width as u64;
            let row: u64 = pixel / width as u64;
            assert(row < height) by (nonlinear_arith)
                requires
                    0 <= pixel < width * height,
                    width > 0,
                    row == pixel / (width as u64),
            ;
            let x: u32 = column as u32;
            let y: u32 = row as u32;
            let sample = self.sample_at(x, y);
            samples.push(sample);
            samples.push(sample);
            pixel += 1;
        }
        proof {
            assert(2 * width * height == 2 * (width * height)) by (nonlinear_arith);
            assert(samples@ =~= self@.decoded().samples);
            assert(height >= 1) by (nonlinear_arith)
                requires
                    height == self.num_rows * self.char_height,
                    self.num_rows >= 1,
                    self.char_height >= 1,
            ;
            assert(2 * width <= 2 * (width * height)) by (nonlinear_arith)
                requires
                    width >= 0,
                    height >= 1,
            ;
            self@.lemma_decoded_pixels();
        }
        let count: usize = samples.len();
        assert(2 * width <= count);
        match buffer_from_raw(width, height, samples) {
            Some(buffer) => Ok(GlyphImage { buffer }),
            None => vstd::pervasive::unreached(),
        }
    }

    /// Decodes the font and cuts its image into one tile per glyph, row-major
    /// from the top left. It fails as decoding does.
    pub fn build_texture_atlas(self) -> (built: Result<TextureAtlas, DosError>)
        ensures
            built is Ok <==> self@.is_complete() && self@.wf(),
            !self@.is_complete() ==> built == Err::<TextureAtlas, DosError>(DosError::MalformedFont),
            self@.is_complete() && !self@.wf() ==> built == Err::<TextureAtlas, DosError>(
                DosError::InvalidDescriptor,
            ),
            built matches Ok(atlas) ==> {
                &&& atlas@.wf()
                &&& atlas@.texture == self@.decoded()
                &&& atlas@.tile_size == (UVec2 { x: self.char_width, y: self.char_height })
                &&& atlas@.columns == self.num_columns
                &&& atlas@.rows == self.num_rows
            },
    {
        let tile_size = UVec2 { x: self.char_width, y: self.char_height };
        let columns = self.num_columns;
        let rows = self.num_rows;
        let len: usize = self.image.data.len();
        proof {
            if self@.is_complete() && self@.wf() {
                assert(columns * rows <= columns * rows * self.bytes_per_char) by (nonlinear_arith)
                    requires
                        columns >= 0,
                        rows >= 0,
                        self.bytes_per_char >= 1,
                ;
            }
        }
        match self.into_image() {
            Ok(texture) => Ok(TextureAtlas::from_grid(texture, tile_size, columns, rows)),
            Err(error) => Err(error),
        }
    }
}

/// The image of a font's glyphs, held in a buffer of the `image` crate.
pub struct GlyphImage {
    buffer: LumaAlphaBuffer,
}

impl View for GlyphImage {
    type V = Raster;

    closed spec fn view(&self) -> Raster {
        Raster {
            width: buffer_dimensions(self.buffer).0 as int,
            height: buffer_dimensions(self.buffer).1 as int,
            samples: buffer_samples(self.buffer),
        }
    }
}

impl GlyphImage {
    #[verifier::type_invariant]
    spec fn inv(self) -> bool {
        self@.is_glyph_image()
    }

    pub fn width(&self) -> (width: u32)
        ensures
            width == self@.width,
    {
        buffer_size(&self.buffer).0
    }

    pub fn height(&self) -> (height: u32)
        ensures
            height == self@.height,
    {
        buffer_size(&self.buffer).1
    }

    /// Luma and alpha of pixel `(x, y)`, or nothing outside the image.
    pub fn get_pixel(&self, x: u32, y: u32) -> (pixel: Option<(u8, u8)>)
        ensures
            self@.is_glyph_image(),
            pixel is Some ==> pixel == Some((255u8, 255u8)) || pixel == Some((0u8, 0u8)),
            self@.contains(x as int, y as int) ==> pixel == Some(
                (self@.luma(x as int, y as int), self@.alpha(x as int, y as int)),
            ),
            !self@.contains(x as int, y as int) ==> pixel is None,
    {
        proof {
            use_type_invariant(self);
        }
        let (width, height) = buffer_size(&self.buffer);
        if x >= width || y >= height {
            return None;
        }
        let samples = buffer_as_raw(&self.buffer);
        assert(y * width + x < width * height) by (nonlinear_arith)
            requires
                0 <= x < width,
                0 <= y < height,
        ;
        assert(0 <= y * width <= 0xffff_ffff * 0xffff_ffff) by (nonlinear_arith)
            requires
                0 <= y <= 0xffff_ffff,
                0 <= width <= 0xffff_ffff,
        ;
        assert(2 * width * height == 2 * (width * height)) by (nonlinear_arith);
        let place: u128 = 2 * (y as u128 * width as u128 + x as u128);
        let count: usize = samples.len();
        assert(place + 1 < count);
        let luma: u8 = samples[place as usize];
        let alpha: u8 = samples[(place + 1) as usize];
        assert(self@.contains(x as int, y as int));
        Some((luma, alpha))
    }

    /// The samples in storage order.
    pub fn as_raw(&self) -> (samples: &Vec<u8>)
        ensures
            self@.is_glyph_image(),
            samples@ == self@.samples,
    {
        proof {
            use_type_invariant(self);
        }
        buffer_as_raw(&self.buffer)
    }

    /// The samples in storage order, taken out of the image.
    pub fn into_raw(self) -> (samples: Vec<u8>)
        ensures
            self@.is_glyph_image(),
            samples@ == self@.samples,
    {
        proof {
            use_type_invariant(&self);
        }
        buffer_into_raw(self.buffer)
    }
}

} // verus!
