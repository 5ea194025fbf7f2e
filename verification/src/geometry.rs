use vstd::prelude::*;

verus! {

/// A mesh vertex position. Each coordinate is the bit pattern of an `f32`
/// (as given by `f32::to_bits`); the library never interprets it.
#[derive(Clone, Copy, PartialEq, Eq, Structural, Debug)]
pub struct Vertex {
    pub x: u32,
    pub y: u32,
    pub z: u32,
}

/// A rigid pose: a translation `(x, y, z)` and a rotation quaternion
/// `(qx, qy, qz, qw)`, each component the bit pattern of an `f32`.
#[derive(Clone, Copy, PartialEq, Eq, Structural, Debug)]
pub struct Pose {
    pub x: u32,
    pub y: u32,
    pub z: u32,
    pub qx: u32,
    pub qy: u32,
    pub qz: u32,
    pub qw: u32,
}

} // verus!
