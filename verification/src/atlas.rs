//! The glyph atlas: the font's image, cut into one tile per glyph.

use vstd::prelude::*;

use crate::error::DosError;
use crate::font::{GlyphImage, Raster};
use crate::math::{Ratio, Rect, UVec2, Vec2};

verus! {

/// A rectangle of texture space, each coordinate a fraction of the image's side.
/// `v` grows downwards, as the image's rows do.
#[derive(Clone, Copy, Debug, PartialEq, Eq, Structural)]
pub struct UvRect {
    pub min: Vec2,
    pub max: Vec2,
}

impl UvRect {
    /// The texture coordinates of a quad's four corners, in the order of its
    /// vertices: bottom left, top left, top right, bottom right. The top of the
    /// quad takes the tile's first row.
    pub open spec fn spec_corners(self) -> Seq<Vec2> {
        seq![
            Vec2 { x: self.min.x, y: self.max.y },
            Vec2 { x: self.min.x, y: self.min.y },
            Vec2 { x: self.max.x, y: self.min.y },
            Vec2 { x: self.max.x, y: self.max.y },
        ]
    }

    pub fn corners(&self) -> (corners: [Vec2; 4])
        ensures
            corners@ == self.spec_corners(),
    {
        let corners = [
            Vec2 { x: self.min.x, y: self.max.y },
            Vec2 { x: self.min.x, y: self.min.y },
            Vec2 { x: self.max.x, y: self.min.y },
            Vec2 { x: self.max.x, y: self.max.y },
        ];
        assert(corners@ =~= self.spec_corners());
        corners
    }
}

/// An atlas as a mathematical value: the image, and the grid that cuts it.
pub struct AtlasLayout {
    pub texture: Raster,
    pub size: UVec2,
    pub tile_size: UVec2,
    pub columns: int,
    pub rows: int,
    pub textures: Seq<Rect>,
}

impl AtlasLayout {
    pub open spec fn has_tile(self, code: int) -> bool {
        0 <= code < self.textures.len()
    }

    /// `rect` is the tile of glyph `code`: glyphs stand row-major, the first at the top left.
    pub open spec fn is_tile(self, code: int, rect: Rect) -> bool {
        &&& rect.min.x == (code % self.columns) * self.tile_size.x
        &&& rect.min.y == (code / self.columns) * self.tile_size.y
        &&& rect.max.x == rect.min.x + self.tile_size.x
        &&& rect.max.y == rect.min.y + self.tile_size.y
    }

    /// The tiles cover the image exactly, one per glyph.
    pub open spec fn wf(self) -> bool {
        &&& self.columns >= 1
        &&& self.rows >= 1
        &&& self.tile_size.x >= 1
        &&& self.tile_size.y >= 1
        &&& self.size.x == self.columns * self.tile_size.x
        &&& self.size.y == self.rows * self.tile_size.y
        &&& self.texture.is_glyph_image()
        &&& self.texture.width == self.size.x
        &&& self.texture.height == self.size.y
        &&& self.textures.len() == self.columns * self.rows
        &&& forall|code: int|
            0 <= code < self.textures.len() ==> self.is_tile(code, #[trigger] self.textures[code])
    }

    /// The tile of glyph `code`, each coordinate divided by the image's side.
    pub open spec fn uv_rect(self, code: int) -> UvRect {
        let rect = self.textures[code];
        UvRect {
            min: Vec2 {
                x: Ratio { num: rect.min.x as u64, den: self.size.x as u64 },
                y: Ratio { num: rect.min.y as u64, den: self.size.y as u64 },
            },
            max: Vec2 {
                x: Ratio { num: rect.max.x as u64, den: self.size.x as u64 },
                y: Ratio { num: rect.max.y as u64, den: self.size.y as u64 },
            },
        }
    }

    /// In texture space the tile of glyph `code` spans one column's share of
    /// the width and one row's share of the height.
    pub proof fn lemma_uv_rect(self, code: int)
        requires
            self.wf(),
            self.has_tile(code),
        ensures
            self.uv_rect(code).min.x.equals(code % self.columns, self.columns),
            self.uv_rect(code).min.y.equals(code / self.columns, self.rows),
            self.uv_rect(code).max.x.equals(code % self.columns + 1, self.columns),
            self.uv_rect(code).max.y.equals(code / self.columns + 1, self.rows),
            self.uv_rect(code).min.x.is_unit(),
            self.uv_rect(code).min.y.is_unit(),
            self.uv_rect(code).max.x.is_unit(),
            self.uv_rect(code).max.y.is_unit(),
    {
        let rect = self.textures[code];
        assert(self.is_tile(code, rect));
        let column = code % self.columns;
        let row = code / self.columns;
        let tile_x = self.tile_size.x as int;
        let tile_y = self.tile_size.y as int;
        assert(0 <= row < self.rows) by (nonlinear_arith)
            requires
                0 <= code < self.columns * self.rows,
                self.columns >= 1,
                row == code / self.columns,
        ;
        assert(0 <= column < self.columns);
        assert((column * tile_x) * self.columns == column * (self.columns * tile_x))
            by (nonlinear_arith);
        assert((column * tile_x + tile_x) * self.columns == (column + 1) * (self.columns * tile_x))
            by (nonlinear_arith);
        assert((row * tile_y) * self.rows == row * (self.rows * tile_y)) by (nonlinear_arith);
        assert((row * tile_y + tile_y) * self.rows == (row + 1) * (self.rows * tile_y))
            by (nonlinear_arith);
        assert(0 <= column * tile_x && column * tile_x + tile_x <= self.columns * tile_x)
            by (nonlinear_arith)
            requires
                0 <= column < self.columns,
                tile_x >= 1,
        ;
        assert(0 <= row * tile_y && row * tile_y + tile_y <= self.rows * tile_y)
            by (nonlinear_arith)
            requires
                0 <= row < self.rows,
                tile_y >= 1,
        ;
    }

    /// The first glyph's tile starts at the origin of texture space and spans
    /// `1 / columns` by `1 / rows`; the last glyph's tile ends at `(1, 1)` and
    /// starts one tile before.
    pub proof fn lemma_corner_tiles(self)
        requires
            self.wf(),
        ensures
            self.has_tile(0),
            self.has_tile(self.columns * self.rows - 1),
            self.uv_rect(0).min.x.equals(0, 1),
            self.uv_rect(0).min.y.equals(0, 1),
            self.uv_rect(0).max.x.equals(1, self.columns),
            self.uv_rect(0).max.y.equals(1, self.rows),
            self.uv_rect(self.columns * self.rows - 1).min.x.equals(self.columns - 1, self.columns),
            self.uv_rect(self.columns * self.rows - 1).min.y.equals(self.rows - 1, self.rows),
            self.uv_rect(self.columns * self.rows - 1).max.x.equals(1, 1),
            self.uv_rect(self.columns * self.rows - 1).max.y.equals(1, 1),
    {
        let columns = self.columns;
        let rows = self.rows;
        let last = columns * rows - 1;
        assert(columns * rows >= 1) by (nonlinear_arith)
            requires
                columns >= 1,
                rows >= 1,
        ;
        assert(last == (rows - 1) * columns + (columns - 1)) by (nonlinear_arith)
            requires
                last == columns * rows - 1,
        ;
        vstd::arithmetic::div_mod::lemma_fundamental_div_mod_converse(
            last,
            columns,
            rows - 1,
            columns - 1,
        );
        vstd::arithmetic::div_mod::lemma_fundamental_div_mod_converse(0, columns, 0, 0);
        self.lemma_uv_rect(0);
        self.lemma_uv_rect(last);
        assert(self.is_tile(last, self.textures[last]));
        let tile_x = self.tile_size.x as int;
        let tile_y = self.tile_size.y as int;
        assert((columns - 1) * tile_x + tile_x == columns * tile_x) by (nonlinear_arith);
        assert((rows - 1) * tile_y + tile_y == rows * tile_y) by (nonlinear_arith);
    }
}

/// The image of a font's glyphs and the rectangle of each glyph in it.
pub struct TextureAtlas {
    texture: GlyphImage,
    size: UVec2,
    tile_size: UVec2,
    columns: u32,
    rows: u32,
    textures: Vec<Rect>,
}

impl View for TextureAtlas {
    type V = AtlasLayout;

    closed spec fn view(&self) -> AtlasLayout {
        AtlasLayout {
            texture: self.texture@,
            size: self.size,
            tile_size: self.tile_size,
            columns: self.columns as int,
            rows: self.rows as int,
            textures: self.textures@,
        }
    }
}

impl TextureAtlas {
    #[verifier::type_invariant]
    spec fn inv(self) -> bool {
        self@.wf()
    }

    /// Cuts `texture` into `columns` by `rows` tiles of `tile_size`, row-major
    /// from the top left, without padding.
    pub(crate) fn from_grid(texture: GlyphImage, tile_size: UVec2, columns: u32, rows: u32) -> (atlas:
        TextureAtlas)
        requires
            columns >= 1,
            rows >= 1,
            tile_size.x >= 1,
            tile_size.y >= 1,
            texture@.is_glyph_image(),
            texture@.width == columns * tile_size.x,
            texture@.height == rows * tile_size.y,
            columns * rows <= usize::MAX,
        ensures
            atlas@.wf(),
            atlas@.texture == texture@,
            atlas@.tile_size == tile_size,
            atlas@.columns == columns,
            atlas@.rows == rows,
    {
        let size = UVec2 { x: texture.width(), y: texture.height() };
        assert(columns * rows <= 0xffff_ffff * 0xffff_ffff) by (nonlinear_arith)
            requires
                columns <= 0xffff_ffff,
                rows <= 0xffff_ffff,
        ;
        let total: u64 = columns as u64 * rows as u64;
        let mut textures: Vec<Rect> = Vec::new();
        let mut code: u64 = 0;
        while code < total
            invariant
                columns >= 1,
                tile_size.x >= 1,
                tile_size.y >= 1,
                total == columns * rows,
                size.x == columns * tile_size.x,
                size.y == rows * tile_size.y,
                code <= total,
                textures@.len() == code,
                forall|i: int|
                    0 <= i < textures@.len() ==> {
                        &&& (#[trigger] textures@[i]).min.x == (i % (columns as int)) * tile_size.x
                        &&& textures@[i].min.y == (i / (columns as int)) * tile_size.y
                        &&& textures@[i].max.x == textures@[i].min.x + tile_size.x
                        &&& textures@[i].max.y == textures@[i].min.y + tile_size.y
                    },
            decreases total - code,
        {
            let column: u64 = code % columns as u64;
            let row: u64 = code / columns as u64;
            assert(row < rows) by (nonlinear_arith)
                requires
                    0 <= code < columns * rows,
                    columns >= 1,
                    row == code / (columns as u64),
            ;
            assert(0 <= column * tile_size.x && column * tile_size.x + tile_size.x <= columns
                * tile_size.x) by (nonlinear_arith)
                requires
                    0 <= column < columns,
                    tile_size.x >= 1,
            ;
            assert(0 <= row * tile_size.y && row * tile_size.y + tile_size.y <= rows * tile_size.y)
                by (nonlinear_arith)
                requires
                    0 <= row < rows,
                    tile_size.y >= 1,
            ;
            let min = UVec2 { x: column as u32 * tile_size.x, y: row as u32 * tile_size.y };
            let max = UVec2 { x: min.x + tile_size.x, y: min.y + tile_size.y };
            textures.push(Rect { min, max });
            code += 1;
        }
        TextureAtlas { texture, size, tile_size, columns, rows, textures }
    }

    /// The number of glyphs.
    pub fn len(&self) -> (len: usize)
        ensures
            self@.wf(),
            len == self@.textures.len(),
    {
        proof {
            use_type_invariant(self);
        }
        self.textures.len()
    }

    /// The sides of the image, in pixels.
    pub fn size(&self) -> (size: UVec2)
        ensures
            self@.wf(),
            size == self@.size,
    {
        proof {
            use_type_invariant(self);
        }
        self.size
    }

    /// The sides of one glyph's tile, in pixels.
    pub fn tile_size(&self) -> (tile_size: UVec2)
        ensures
            self@.wf(),
            tile_size == self@.tile_size,
    {
        proof {
            use_type_invariant(self);
        }
        self.tile_size
    }

    /// The image that the tiles are cut from.
    pub fn texture(&self) -> (texture: &GlyphImage)
        ensures
            self@.wf(),
            texture@ == self@.texture,
    {
        proof {
            use_type_invariant(self);
        }
        &self.texture
    }

    /// The tile of glyph `code`, in pixels. A code that the atlas does not
    /// hold is refused.
    pub fn rect(&self, code: usize) -> (found: Result<Rect, DosError>)
        ensures
            self@.wf(),
            self@.has_tile(code as int) ==> found == Ok::<Rect, DosError>(self@.textures[code as int]),
            !self@.has_tile(code as int) ==> found == Err::<Rect, DosError>(
                DosError::UnknownGlyphCode,
            ),
    {
        proof {
            use_type_invariant(self);
        }
        if code < self.textures.len() {
            Ok(self.textures[code])
        } else {
            Err(DosError::UnknownGlyphCode)
        }
    }

    /// The tile of glyph `code` in texture space. A code that the atlas does
    /// not hold is refused.
    pub fn uv_rect(&self, code: usize) -> (found: Result<UvRect, DosError>)
        ensures
            self@.wf(),
            self@.has_tile(code as int) ==> found == Ok::<UvRect, DosError>(
                self@.uv_rect(code as int),
            ),
            !self@.has_tile(code as int) ==> found == Err::<UvRect, DosError>(
                DosError::UnknownGlyphCode,
            ),
    {
        proof {
            use_type_invariant(self);
        }
        if code < self.textures.len() {
            let rect = self.textures[code];
            Ok(
                UvRect {
                    min: Vec2 {
                        x: Ratio { num: rect.min.x as u64, den: self.size.x as u64 },
                        y: Ratio { num: rect.min.y as u64, den: self.size.y as u64 },
                    },
                    max: Vec2 {
                        x: Ratio { num: rect.max.x as u64, den: self.size.x as u64 },
                        y: Ratio { num: rect.max.y as u64, den: self.size.y as u64 },
                    },
                },
            )
        } else {
            Err(DosError::UnknownGlyphCode)
        }
    }
}

} // verus!
