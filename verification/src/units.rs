//! Integer app-unit geometry and color types shared by keys and templates.
//!
//! Everything a border key stores is quantized: colors as one byte per
//! channel, lengths as `i32` app units. Quantization is what makes two
//! visually identical border descriptions compare equal and hash identically.

use vstd::prelude::*;

verus! {

/// A color quantized to one byte per channel.
#[derive(Clone, Copy, Debug, PartialEq, Eq, Hash, Structural)]
pub struct ColorU {
    pub r: u8,
    pub g: u8,
    pub b: u8,
    pub a: u8,
}

/// A width and height in app units.
#[derive(Clone, Copy, Debug, PartialEq, Eq, Hash, Structural)]
pub struct SizeAu {
    pub width: i32,
    pub height: i32,
}

/// An axis-aligned rectangle in app units: origin plus size.
#[derive(Clone, Copy, Debug, PartialEq, Eq, Hash, Structural)]
pub struct RectAu {
    pub x: i32,
    pub y: i32,
    pub width: i32,
    pub height: i32,
}

/// Four per-side lengths in app units, one per border side.
#[derive(Clone, Copy, Debug, PartialEq, Eq, Hash, Structural)]
pub struct SideOffsetsAu {
    pub top: i32,
    pub right: i32,
    pub bottom: i32,
    pub left: i32,
}

/// A translation in app units.
#[derive(Clone, Copy, Debug, PartialEq, Eq, Hash, Structural)]
pub struct VectorAu {
    pub x: i32,
    pub y: i32,
}

impl RectAu {
    /// The rectangle's size, ignoring its origin.
    pub open spec fn size_spec(self) -> SizeAu {
        SizeAu { width: self.width, height: self.height }
    }

    pub fn size(&self) -> (r: SizeAu)
        ensures
            r == self.size_spec(),
    {
        SizeAu { width: self.width, height: self.height }
    }
}

/// Placement of one primitive in layout space: its bounding rectangle, its
/// clip rectangle, and whether its back face is visible.
#[derive(Clone, Copy, Debug, PartialEq, Eq, Hash, Structural)]
pub struct LayoutPrimitiveInfo {
    pub rect: RectAu,
    pub clip_rect: RectAu,
    pub is_backface_visible: bool,
}

/// A drop-shadow effect: the substituted color and the shadow's offset.
#[derive(Clone, Copy, Debug, PartialEq, Eq, Hash, Structural)]
pub struct Shadow {
    pub color: ColorU,
    pub offset: VectorAu,
}

} // verus!
