//! What a cell hands to the renderer: a unit quad, its material and its place.

use vstd::prelude::*;

use crate::atlas::{AtlasLayout, UvRect};
use crate::math::{Transform, Vec2};

verus! {

/// A unit quad. Its vertices run bottom left, top left, top right, bottom
/// right; each has a texture coordinate.
#[derive(Clone, Copy, Debug, PartialEq, Eq)]
pub struct QuadMesh {
    pub uvs: [Vec2; 4],
}

impl QuadMesh {
    /// The quad shows the tile of glyph `code`, its first row at the top.
    pub open spec fn shows(self, atlas: AtlasLayout, code: int) -> bool {
        self.uvs@ == atlas.uv_rect(code).spec_corners()
    }

    /// A quad that shows `tile`.
    pub fn textured(tile: &UvRect) -> (mesh: QuadMesh)
        ensures
            mesh.uvs@ == tile.spec_corners(),
    {
        QuadMesh { uvs: tile.corners() }
    }
}

/// A quad with the material it is drawn with and the place it is drawn at.
#[derive(Debug, PartialEq, Eq)]
pub struct MaterialMeshBundle<M> {
    pub mesh: QuadMesh,
    pub material: M,
    pub transform: Transform,
}

} // verus!
