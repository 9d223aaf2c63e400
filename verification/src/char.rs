//! A single character cell that stands on its own, outside a terminal grid.

use vstd::prelude::*;

use crate::atlas::{AtlasLayout, TextureAtlas};
use crate::color::Color;
use crate::error::DosError;
use crate::math::{Transform, UVec3};
use crate::mesh::{MaterialMeshBundle, QuadMesh};

verus! {

/// A glyph with its colours and its own place in the world.
#[derive(Clone, Copy, Debug, PartialEq, Eq, Structural)]
pub struct Char {
    pub code: u8,
    pub color_fg: Color,
    pub color_bg: Color,
    pub transform: Transform,
}

/// How a character is painted: the glyph in one colour over a ground of
/// another, the glyph's shape taken from the atlas where `uses_atlas` is set.
#[derive(Clone, Copy, Debug, PartialEq, Eq, Structural)]
pub struct CharacterMaterial {
    pub foreground_color: Color,
    pub background_color: Color,
    pub uses_atlas: bool,
}

impl CharacterMaterial {
    /// Green on blue, with no texture bound.
    pub open spec fn spec_default() -> CharacterMaterial {
        CharacterMaterial {
            foreground_color: Color { r: 0, g: 255, b: 0, a: 255 },
            background_color: Color { r: 0, g: 0, b: 255, a: 255 },
            uses_atlas: false,
        }
    }
}

impl Default for CharacterMaterial {
    fn default() -> (material: CharacterMaterial)
        ensures
            material == CharacterMaterial::spec_default(),
    {
        CharacterMaterial {
            foreground_color: Color::green(),
            background_color: Color::blue(),
            uses_atlas: false,
        }
    }
}

/// A character made ready to draw.
#[derive(Debug, PartialEq, Eq)]
pub struct CharBundle {
    pub char: Char,
    pub mesh: MaterialMeshBundle<CharacterMaterial>,
}

impl CharBundle {
    /// The bundle draws `char` with the tile that `atlas` has for its code:
    /// in the character's colours, at the character's place, eight units large.
    pub open spec fn draws(self, char: Char, atlas: AtlasLayout) -> bool {
        &&& self.char == char
        &&& self.mesh.mesh.shows(atlas, char.code as int)
        &&& self.mesh.material == (CharacterMaterial {
            foreground_color: char.color_fg,
            background_color: char.color_bg,
            uses_atlas: true,
        })
        &&& self.mesh.transform == (Transform {
            translation: char.transform.translation,
            scale: UVec3 { x: 8, y: 8, z: 8 },
        })
    }
}

impl Char {
    /// Makes the character ready to draw. A code that the atlas does not hold
    /// is refused.
    pub fn create_bundle(self, atlas: &TextureAtlas) -> (made: Result<CharBundle, DosError>)
        ensures
            atlas@.wf(),
            made is Ok <==> atlas@.has_tile(self.code as int),
            made matches Ok(bundle) ==> bundle.draws(self, atlas@),
            made matches Err(error) ==> error == DosError::UnknownGlyphCode,
    {
        match atlas.uv_rect(self.code as usize) {
            Ok(tile) => {
                let mesh = QuadMesh::textured(&tile);
                let material = CharacterMaterial {
                    foreground_color: self.color_fg,
                    background_color: self.color_bg,
                    uses_atlas: true,
                };
                let transform = self.transform.with_scale(UVec3 { x: 8, y: 8, z: 8 });
                Ok(CharBundle { char: self, mesh: MaterialMeshBundle { mesh, material, transform } })
            },
            Err(error) => Err(error),
        }
    }
}

} // verus!
