//! Small integer vectors and exact fractions.

use vstd::prelude::*;

verus! {

/// Two unsigned components: a size in cells or in pixels, or a point of the pixel grid.
#[derive(Clone, Copy, Debug, PartialEq, Eq, Structural)]
pub struct UVec2 {
    pub x: u32,
    pub y: u32,
}

/// Two unsigned components wide enough for any product of two `u32` sides.
#[derive(Clone, Copy, Debug, PartialEq, Eq, Structural)]
pub struct U64Vec2 {
    pub x: u64,
    pub y: u64,
}

/// Three unsigned components: a cell of the grid, with `z` as its layer.
#[derive(Clone, Copy, Debug, PartialEq, Eq, Structural)]
pub struct UVec3 {
    pub x: u32,
    pub y: u32,
    pub z: u32,
}

/// A point of world space. The terminal's own arithmetic never leaves the
/// integers, and no grid of `u32` cells leaves this range.
#[derive(Clone, Copy, Debug, PartialEq, Eq, Structural)]
pub struct IVec3 {
    pub x: i128,
    pub y: i128,
    pub z: i128,
}

/// The exact fraction `num / den`.
#[derive(Clone, Copy, Debug, PartialEq, Eq, Structural)]
pub struct Ratio {
    pub num: u64,
    pub den: u64,
}

impl Ratio {
    /// The fraction has the value `num / den`.
    pub open spec fn equals(self, num: int, den: int) -> bool {
        self.den > 0 && den > 0 && self.num * den == num * self.den
    }

    /// The fraction lies between zero and one.
    pub open spec fn is_unit(self) -> bool {
        self.den > 0 && self.num <= self.den
    }
}

/// A point with exact fractional coordinates.
#[derive(Clone, Copy, Debug, PartialEq, Eq, Structural)]
pub struct Vec2 {
    pub x: Ratio,
    pub y: Ratio,
}

/// An axis-aligned rectangle of pixels, `min` inclusive and `max` exclusive.
#[derive(Clone, Copy, Debug, PartialEq, Eq, Structural)]
pub struct Rect {
    pub min: UVec2,
    pub max: UVec2,
}

/// Where a cell stands and how large it is drawn.
#[derive(Clone, Copy, Debug, PartialEq, Eq, Structural)]
pub struct Transform {
    pub translation: IVec3,
    pub scale: UVec3,
}

impl Transform {
    /// At the origin, at unit scale.
    pub open spec fn identity() -> Transform {
        Transform {
            translation: IVec3 { x: 0, y: 0, z: 0 },
            scale: UVec3 { x: 1, y: 1, z: 1 },
        }
    }

    /// The same place, drawn at `scale`.
    pub fn with_scale(self, scale: UVec3) -> (scaled: Transform)
        ensures
            scaled == (Transform { translation: self.translation, scale }),
    {
        Transform { translation: self.translation, scale }
    }
}

impl Default for Transform {
    fn default() -> (transform: Transform)
        ensures
            transform == Transform::identity(),
    {
        Transform {
            translation: IVec3 { x: 0, y: 0, z: 0 },
            scale: UVec3 { x: 1, y: 1, z: 1 },
        }
    }
}

} // verus!
