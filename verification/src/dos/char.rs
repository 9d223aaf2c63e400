//! The cells of the terminal: what is asked for, and what is handed to the renderer.

use vstd::prelude::*;

use crate::atlas::{AtlasLayout, TextureAtlas};
use crate::color::Color;
use crate::error::DosError;
use crate::math::{Transform, UVec3};
use crate::mesh::{MaterialMeshBundle, QuadMesh};

verus! {

/// A glyph in a cell of the grid. `loc.z` orders cells that overlap.
#[derive(Clone, Copy, Debug, PartialEq, Eq, Structural)]
pub struct TerminalChar {
    pub code: u8,
    pub loc: UVec3,
    pub background: Color,
    pub foreground: Color,
}

/// The atlas that the terminal's cells are drawn from.
pub struct TerminalTextureAtlas(pub TextureAtlas);

/// How a cell is painted: the glyph in one colour over a ground of another,
/// the glyph's shape taken from the atlas where `uses_atlas` is set.
#[derive(Clone, Copy, Debug, PartialEq, Eq, Structural)]
pub struct TerminalCharMaterial {
    pub foreground_color: Color,
    pub background_color: Color,
    pub uses_atlas: bool,
}

impl TerminalCharMaterial {
    /// Green on blue, with no texture bound.
    pub open spec fn spec_default() -> TerminalCharMaterial {
        TerminalCharMaterial {
            foreground_color: Color { r: 0, g: 255, b: 0, a: 255 },
            background_color: Color { r: 0, g: 0, b: 255, a: 255 },
            uses_atlas: false,
        }
    }
}

impl Default for TerminalCharMaterial {
    fn default() -> (material: TerminalCharMaterial)
        ensures
            material == TerminalCharMaterial::spec_default(),
    {
        TerminalCharMaterial {
            foreground_color: Color::green(),
            background_color: Color::blue(),
            uses_atlas: false,
        }
    }
}

/// A cell made ready to draw.
#[derive(Debug, PartialEq, Eq)]
pub struct CharBundle {
    pub char: TerminalChar,
    pub mesh: MaterialMeshBundle<TerminalCharMaterial>,
}

impl CharBundle {
    /// The bundle draws `char` with the tile that `atlas` has for its code, in
    /// the cell's colours, at `transform`.
    pub open spec fn draws_at(self, char: TerminalChar, atlas: AtlasLayout, transform: Transform) -> bool {
        &&& self.char == char
        &&& self.mesh.mesh.shows(atlas, char.code as int)
        &&& self.mesh.material == (TerminalCharMaterial {
            foreground_color: char.foreground,
            background_color: char.background,
            uses_atlas: true,
        })
        &&& self.mesh.transform == transform
    }

    /// The bundle draws `char` and is not placed yet: it stands at the
    /// origin, and the terminal sets its place from the cell's location.
    pub open spec fn draws(self, char: TerminalChar, atlas: AtlasLayout) -> bool {
        self.draws_at(char, atlas, Transform::identity())
    }
}

/// Makes a cell ready to draw. A code that the atlas does not hold is refused.
pub fn create_bundle(char: TerminalChar, atlas: &TextureAtlas) -> (made: Result<CharBundle, DosError>)
    ensures
        atlas@.wf(),
        made is Ok <==> atlas@.has_tile(char.code as int),
        made matches Ok(bundle) ==> bundle.draws(char, atlas@),
        made matches Err(error) ==> error == DosError::UnknownGlyphCode,
{
    match atlas.uv_rect(char.code as usize) {
        Ok(tile) => {
            let mesh = QuadMesh::textured(&tile);
            let material = TerminalCharMaterial {
                foreground_color: char.foreground,
                background_color: char.background,
                uses_atlas: true,
            };
            let transform = Transform::default();
            Ok(CharBundle { char, mesh: MaterialMeshBundle { mesh, material, transform } })
        },
        Err(error) => Err(error),
    }
}

} // verus!
