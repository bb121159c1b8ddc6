use vstd::prelude::*;

verus! {

/// A three-component vector of 32-bit floats, held as their bit patterns.
#[derive(Clone, Copy, Debug, PartialEq, Eq, Structural)]
pub struct Vec3Bits {
    pub x: u32,
    pub y: u32,
    pub z: u32,
}

/// A four-component vector of 32-bit floats, held as their bit patterns.
#[derive(Clone, Copy, Debug, PartialEq, Eq, Structural)]
pub struct Vec4Bits {
    pub x: u32,
    pub y: u32,
    pub z: u32,
    pub w: u32,
}

/// A column-major 4×4 matrix of 32-bit floats, held as their bit patterns.
#[derive(Clone, Copy, Debug, PartialEq, Eq, Structural)]
pub struct Mat4Bits {
    pub x_axis: Vec4Bits,
    pub y_axis: Vec4Bits,
    pub z_axis: Vec4Bits,
    pub w_axis: Vec4Bits,
}

impl Vec3Bits {
    /// The zero vector (all-zero bits are the float 0.0).
    pub fn zero() -> (r: Vec3Bits)
        ensures
            r == (Vec3Bits { x: 0, y: 0, z: 0 }),
    {
        Vec3Bits { x: 0, y: 0, z: 0 }
    }
}

impl Vec4Bits {
    /// The zero vector (all-zero bits are the float 0.0).
    pub fn zero() -> (r: Vec4Bits)
        ensures
            r == (Vec4Bits { x: 0, y: 0, z: 0, w: 0 }),
    {
        Vec4Bits { x: 0, y: 0, z: 0, w: 0 }
    }
}

} // verus!
