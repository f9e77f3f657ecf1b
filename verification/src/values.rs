use vstd::prelude::*;

verus! {

/// A 3-component vector whose components are IEEE-754 single-precision bit
/// patterns. The verified layer never computes with the numbers themselves;
/// it only carries them between the caller and the argument codec, which
/// reinterprets the bits on the wire.
#[derive(Clone, Copy, PartialEq, Eq, Structural, Debug)]
pub struct Vec3 {
    pub x: u32,
    pub y: u32,
    pub z: u32,
}

/// A quaternion whose components are IEEE-754 single-precision bit patterns,
/// carried the same way as `Vec3`.
#[derive(Clone, Copy, PartialEq, Eq, Structural, Debug)]
pub struct Quat {
    pub x: u32,
    pub y: u32,
    pub z: u32,
    pub w: u32,
}

} // verus!
