//! What can go wrong between a font file and a placed cell.

use vstd::prelude::*;

verus! {

#[derive(Clone, Copy, Debug, PartialEq, Eq, Structural)]
pub enum DosError {
    /// The font's bytes end before its last glyph does.
    MalformedFont,
    /// The font's layout cannot be decoded: a dimension is zero, a glyph is wider
    /// than eight pixels or taller than its bytes, or the image would outgrow `u32`.
    InvalidDescriptor,
    /// A cell asks for a glyph that the atlas does not hold.
    UnknownGlyphCode,
    /// The atlas is not built yet; placement waits for the next cycle.
    AtlasNotReady,
}

} // verus!
