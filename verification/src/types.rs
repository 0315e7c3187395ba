use vstd::prelude::*;

verus! {

/// A 2D vector in FreeType's units (`FT_Vector`).
#[derive(Debug, Clone, Copy, PartialEq, Eq, Structural)]
pub struct Vector {
    pub x: i64,
    pub y: i64,
}

/// A 2x2 transformation matrix in 16.16 fixed point (`FT_Matrix`).
#[derive(Debug, Clone, Copy, PartialEq, Eq, Structural)]
pub struct Matrix {
    pub xx: i64,
    pub xy: i64,
    pub yx: i64,
    pub yy: i64,
}

/// A box given by its two corners (`FT_BBox`).
#[derive(Debug, Clone, Copy, PartialEq, Eq, Structural)]
pub struct BBox {
    pub x_min: i64,
    pub y_min: i64,
    pub x_max: i64,
    pub y_max: i64,
}

/// The metrics of the current size of a face (`FT_Size_Metrics`).
#[derive(Debug, Clone, Copy, PartialEq, Eq, Structural)]
pub struct SizeMetrics {
    pub x_ppem: u16,
    pub y_ppem: u16,
    pub x_scale: i64,
    pub y_scale: i64,
    pub ascender: i64,
    pub descender: i64,
    pub height: i64,
    pub max_advance: i64,
}

impl Vector {
    /// The zero vector, which FreeType's out-parameters start from.
    pub fn zero() -> (v: Vector)
        ensures
            v.x == 0 && v.y == 0,
    {
        Vector { x: 0, y: 0 }
    }
}

impl BBox {
    /// The box with all four coordinates zero, which FreeType's
    /// out-parameters start from.
    pub fn zero() -> (b: BBox)
        ensures
            b.x_min == 0 && b.y_min == 0 && b.x_max == 0 && b.y_max == 0,
    {
        BBox { x_min: 0, y_min: 0, x_max: 0, y_max: 0 }
    }
}

} // verus!
